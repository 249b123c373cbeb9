use torrust_tracker::addr::{IpAddress, SocketAddress};
use torrust_tracker::health::{step, LifecycleAction, LifecycleEvent, LifecycleState};

fn local(port: u16) -> SocketAddress {
    SocketAddress::new(IpAddress::V4(127, 0, 0, 1), port)
}

#[test]
fn happy_path_runs_bind_ready_serve_shutdown_drain() {
    let bound = local(1313);
    let (s, a) = step(LifecycleState::Unbound, LifecycleEvent::BindSucceeded(bound));
    assert_eq!(s, LifecycleState::Bound(bound));
    assert_eq!(a, LifecycleAction::SendReady(bound));

    let (s, a) = step(s, LifecycleEvent::ReadyDelivered);
    assert_eq!(s, LifecycleState::Serving(bound));
    assert_eq!(a, LifecycleAction::Proceed);

    let (s, a) = step(s, LifecycleEvent::Interrupted);
    assert_eq!(s, LifecycleState::ShuttingDown(bound));
    assert_eq!(a, LifecycleAction::TriggerShutdown);

    let (s, a) = step(s, LifecycleEvent::Drained);
    assert_eq!(s, LifecycleState::Stopped);
    assert_eq!(a, LifecycleAction::Proceed);
}

#[test]
fn bind_failure_aborts_startup_instead_of_hanging() {
    let (s, a) = step(LifecycleState::Unbound, LifecycleEvent::BindFailed);
    assert_eq!(s, LifecycleState::Stopped);
    assert_eq!(a, LifecycleAction::AbortBindFailure);
}

#[test]
fn ready_payload_is_the_os_assigned_address() {
    // the caller asked for port 0; the OS assigned 54321, and that exact
    // address must ride in the ready signal
    let assigned = local(54321);
    let (_, a) = step(LifecycleState::Unbound, LifecycleEvent::BindSucceeded(assigned));
    assert_eq!(a, LifecycleAction::SendReady(assigned));
}

#[test]
fn dropped_ready_receiver_is_fatal() {
    let bound = local(1313);
    let (s, a) = step(LifecycleState::Bound(bound), LifecycleEvent::ReadyReceiverDropped);
    assert_eq!(s, LifecycleState::Stopped);
    assert_eq!(a, LifecycleAction::AbortReadyDropped);
}

#[test]
fn serve_failure_surfaces_the_transport_error() {
    let bound = local(1313);
    let (s, a) = step(LifecycleState::Serving(bound), LifecycleEvent::ServeFailed);
    assert_eq!(s, LifecycleState::Stopped);
    assert_eq!(a, LifecycleAction::ReportServeError);
}

#[test]
fn stopped_is_final() {
    for e in [
        LifecycleEvent::BindSucceeded(local(1)),
        LifecycleEvent::BindFailed,
        LifecycleEvent::ReadyDelivered,
        LifecycleEvent::ReadyReceiverDropped,
        LifecycleEvent::Interrupted,
        LifecycleEvent::ServeFailed,
        LifecycleEvent::Drained,
    ] {
        let (s, a) = step(LifecycleState::Stopped, e);
        assert_eq!(s, LifecycleState::Stopped);
        assert_eq!(a, LifecycleAction::Proceed);
    }
}

#[test]
fn events_out_of_place_change_nothing() {
    let bound = local(1313);
    let (s, a) = step(LifecycleState::Unbound, LifecycleEvent::Interrupted);
    assert_eq!(s, LifecycleState::Unbound);
    assert_eq!(a, LifecycleAction::Proceed);
    let (s, a) = step(LifecycleState::Serving(bound), LifecycleEvent::Drained);
    assert_eq!(s, LifecycleState::Serving(bound));
    assert_eq!(a, LifecycleAction::Proceed);
    let (s, a) = step(LifecycleState::Bound(bound), LifecycleEvent::BindSucceeded(local(2)));
    assert_eq!(s, LifecycleState::Bound(bound));
    assert_eq!(a, LifecycleAction::Proceed);
}
