pub mod addr;
pub mod config;
pub mod health;
pub mod protocol;
