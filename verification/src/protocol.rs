//! Connection-identity tokens for the UDP tracker handshake, plus clock
//! helpers.
//!
//! A connection id proves recent contact: the hour counter of the clock sits
//! in the low bits and the remote port in bits 36 and up, so the same port
//! maps to the same id within one hour window, while different ports map to
//! different ids. The bit layout is a wire-compatibility requirement of the
//! protocol, not a free implementation detail.

use vstd::prelude::*;

use crate::addr::SocketAddress;
use aquatic_udp_protocol::ConnectionId;

verus! {

/// Declares `aquatic_udp_protocol::ConnectionId`, a newtype over `i64`, to
/// the verifier so that its field can stand in contracts.
#[verifier::external_type_specification]
pub struct ExConnectionId(ConnectionId);

/// Returned when the system clock reads before the Unix epoch: an id that a
/// sane clock can never produce, so it stays distinguishable.
pub const CONNECTION_ID_SENTINEL: i64 = 0x7FFF_FFFF_FFFF_FFFF;

/// The hour-granularity window a clock reading falls in.
pub open spec fn spec_time_window(secs: u64) -> u64 {
    secs / 3600
}

/// The identity value computed from a clock reading and a remote port: the
/// hour counter in the low bits, the port shifted into bits 36 and up.
pub open spec fn spec_connection_id(secs: u64, port: u16) -> i64 {
    ((secs / 3600) | ((port as u64) << 36)) as i64
}

/// Computes the connection-identity value for a clock reading and a port.
/// The result always stays strictly below the sentinel.
pub fn compute_connection_id(secs: u64, port: u16) -> (id: i64)
    ensures
        id == spec_connection_id(secs, port),
        0 <= id < 0x0020_0000_0000_0000,
{
    let salted: u64 = (secs / 3600) | ((port as u64) << 36);
    proof {
        assert((secs / 3600) | ((port as u64) << 36) < 0x0020_0000_0000_0000u64)
            by (bit_vector);
    }
    salted as i64
}

/// Relies on `std::time::SystemTime::now` and `duration_since`: seconds since
/// the Unix epoch, or `None` if the clock is set before the epoch. Nothing is
/// promised of the value itself.
#[verifier::external_body]
fn clock_since_epoch() -> Option<u64> {
    match std::time::SystemTime::now().duration_since(std::time::SystemTime::UNIX_EPOCH) {
        Ok(duration) => Some(duration.as_secs()),
        Err(_) => None,
    }
}

/// Derives a connection id for a remote peer from the current clock reading.
/// Whatever the clock returned, the result is either the sentinel (clock
/// before the epoch) or the identity value of some clock reading and the
/// peer's port.
pub fn get_connection_id(remote_address: &SocketAddress) -> (id: ConnectionId)
    ensures
        id.0 == CONNECTION_ID_SENTINEL || (exists|secs: u64|
            id.0 == spec_connection_id(secs, remote_address.port)),
        id.0 >= 0,
{
    match clock_since_epoch() {
        Some(secs) => {
            let value = compute_connection_id(secs, remote_address.port);
            proof {
                assert(value == spec_connection_id(secs, remote_address.port));
            }
            ConnectionId(value)
        },
        None => ConnectionId(CONNECTION_ID_SENTINEL),
    }
}

/// Relies on `std::time::SystemTime::now` and `duration_since`: whole seconds
/// since the Unix epoch. Aborts (panics) if the system clock is set before
/// the epoch; callers treat that as a fatal environment misconfiguration, not
/// a recoverable error.
#[verifier::external_body]
pub fn current_time() -> u64 {
    std::time::SystemTime::now()
        .duration_since(std::time::SystemTime::UNIX_EPOCH)
        .unwrap()
        .as_secs()
}

/// Milliseconds of an elapsed duration given as whole seconds plus the
/// sub-second nanosecond remainder, truncated (not rounded) and wrapped into
/// an unsigned 64-bit transport value.
pub open spec fn spec_elapsed_millis(secs: u64, subsec_nanos: u32) -> u64 {
    (secs * 1000 + subsec_nanos / 1_000_000) as u64
}

/// Serializes an elapsed-duration measurement into a transport-friendly
/// count of milliseconds.
pub fn elapsed_millis(secs: u64, subsec_nanos: u32) -> (ms: u64)
    ensures
        ms == spec_elapsed_millis(secs, subsec_nanos),
{
    let total: u128 = (secs as u128) * 1000 + ((subsec_nanos / 1_000_000) as u128);
    total as u64
}

/// Two peers with the same port get the same id from the same clock reading,
/// whatever their IP addresses: generation is deterministic in (clock, port).
pub proof fn lemma_same_port_same_id(secs: u64, a: SocketAddress, b: SocketAddress)
    requires
        a.port == b.port,
    ensures
        spec_connection_id(secs, a.port) == spec_connection_id(secs, b.port),
{
}

/// Two peers with different ports get different ids within the same time
/// window, as long as the hour counter stays below bit 36 (true until the
/// year 7 million and something).
pub proof fn lemma_distinct_ports_distinct_ids(secs: u64, p1: u16, p2: u16)
    requires
        p1 != p2,
        secs / 3600 < 0x0010_0000_0000u64,
    ensures
        spec_connection_id(secs, p1) != spec_connection_id(secs, p2),
{
    assert(((secs / 3600) | ((p1 as u64) << 36)) != ((secs / 3600) | ((p2 as u64) << 36))
        && ((secs / 3600) | ((p1 as u64) << 36)) < 0x0020_0000_0000_0000u64
        && ((secs / 3600) | ((p2 as u64) << 36)) < 0x0020_0000_0000_0000u64) by (bit_vector)
        requires
            p1 != p2,
            secs / 3600 < 0x0010_0000_0000u64,
    ;
}

/// A fixed port queried in two different hour windows gets two different ids,
/// as long as both hour counters stay below bit 36.
pub proof fn lemma_distinct_windows_distinct_ids(s1: u64, s2: u64, port: u16)
    requires
        s1 / 3600 != s2 / 3600,
        s1 / 3600 < 0x0010_0000_0000u64,
        s2 / 3600 < 0x0010_0000_0000u64,
    ensures
        spec_connection_id(s1, port) != spec_connection_id(s2, port),
{
    assert(((s1 / 3600) | ((port as u64) << 36)) != ((s2 / 3600) | ((port as u64) << 36))
        && ((s1 / 3600) | ((port as u64) << 36)) < 0x0020_0000_0000_0000u64
        && ((s2 / 3600) | ((port as u64) << 36)) < 0x0020_0000_0000_0000u64) by (bit_vector)
        requires
            s1 / 3600 != s2 / 3600,
            s1 / 3600 < 0x0010_0000_0000u64,
            s2 / 3600 < 0x0010_0000_0000u64,
    ;
}

/// A normally computed id never collides with the sentinel, for any clock
/// reading and any port.
pub proof fn lemma_id_never_sentinel(secs: u64, port: u16)
    ensures
        spec_connection_id(secs, port) != CONNECTION_ID_SENTINEL,
{
    assert(((secs / 3600) | ((port as u64) << 36)) < 0x0020_0000_0000_0000u64) by (bit_vector);
}

} // verus!
