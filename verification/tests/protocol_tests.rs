use torrust_tracker::addr::{IpAddress, SocketAddress};
use torrust_tracker::protocol::{
    compute_connection_id, current_time, elapsed_millis, get_connection_id,
    CONNECTION_ID_SENTINEL,
};

#[test]
fn connection_id_exact_value() {
    // two full hours since the epoch, port 5: 2 | (5 << 36)
    let id = compute_connection_id(7200, 5);
    assert_eq!(id, 2 | (5i64 << 36));
    assert_eq!(id, 343_597_383_682);
}

#[test]
fn connection_id_port_zero_is_hour_counter() {
    let id = compute_connection_id(3600 * 7 + 59, 0);
    assert_eq!(id, 7);
}

#[test]
fn same_port_same_window_same_id() {
    // same clock reading and port: identical ids, whatever the address
    let a = compute_connection_id(1_700_000_000, 6969);
    let b = compute_connection_id(1_700_000_000, 6969);
    assert_eq!(a, b);
    // a clock reading in the same hour window gives the same id too
    let c = compute_connection_id(1_700_000_000 - (1_700_000_000 % 3600), 6969);
    assert_eq!(a, c);
}

#[test]
fn different_ports_different_ids() {
    let a = compute_connection_id(1_700_000_000, 6969);
    let b = compute_connection_id(1_700_000_000, 6970);
    assert_ne!(a, b);
    let c = compute_connection_id(1_700_000_000, 0);
    let d = compute_connection_id(1_700_000_000, 65535);
    assert_ne!(c, d);
}

#[test]
fn different_hour_windows_different_ids() {
    let a = compute_connection_id(1_700_000_000, 6969);
    let b = compute_connection_id(1_700_000_000 + 3600, 6969);
    assert_ne!(a, b);
}

#[test]
fn computed_id_never_hits_sentinel() {
    for port in [0u16, 1, 80, 6969, 65535] {
        let id = compute_connection_id(u64::MAX, port);
        assert_ne!(id, CONNECTION_ID_SENTINEL);
        let id = compute_connection_id(0, port);
        assert_ne!(id, CONNECTION_ID_SENTINEL);
    }
    assert_eq!(CONNECTION_ID_SENTINEL, i64::MAX);
}

#[test]
fn generated_id_is_wellformed() {
    let remote = SocketAddress::new(IpAddress::V4(127, 0, 0, 1), 6969);
    let id = get_connection_id(&remote);
    // either the sentinel (clock before the epoch) or a salted value
    assert!(id.0 >= 0);
    // on a sane clock, the id matches the current window's computation
    let now = current_time();
    let expected = compute_connection_id(now, 6969);
    if id.0 != expected {
        // the hour window may have rolled over between the two readings
        let expected_next = compute_connection_id(current_time(), 6969);
        assert_eq!(id.0, expected_next);
    }
}

#[test]
fn current_time_is_non_decreasing() {
    let t1 = current_time();
    let t2 = current_time();
    let t3 = current_time();
    assert!(t1 <= t2);
    assert!(t2 <= t3);
}

#[test]
fn elapsed_millis_truncates() {
    assert_eq!(elapsed_millis(0, 0), 0);
    assert_eq!(elapsed_millis(0, 999_999), 0);
    assert_eq!(elapsed_millis(0, 1_000_000), 1);
    assert_eq!(elapsed_millis(1, 2_500_000), 1002);
    assert_eq!(elapsed_millis(3, 999_999_999), 3999);
}

#[test]
fn elapsed_millis_wraps_into_transport_width() {
    let expected = (u64::MAX as u128 * 1000) as u64;
    assert_eq!(elapsed_millis(u64::MAX, 0), expected);
}
