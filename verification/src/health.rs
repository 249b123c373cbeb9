//! Lifecycle of the health-check HTTP service.
//!
//! The runtime around the library binds the socket, serves HTTP and listens
//! for the interrupt signal; every decision about what happens next lives
//! here, as a verified transition function from state and observed event to
//! next state and prescribed action. The runtime performs the action, hands
//! back the next event, and never decides on its own.

use vstd::prelude::*;

use crate::addr::SocketAddress;

verus! {

/// Where the service stands: unbound, bound to a concrete address, serving,
/// draining in-flight requests, or finished.
#[derive(Clone, Copy, Debug, PartialEq, Eq, Structural)]
pub enum LifecycleState {
    Unbound,
    Bound(SocketAddress),
    Serving(SocketAddress),
    ShuttingDown(SocketAddress),
    Stopped,
}

/// What the runtime observed since the last step.
#[derive(Clone, Copy, Debug, PartialEq, Eq, Structural)]
pub enum LifecycleEvent {
    /// The OS bound the listener and assigned this concrete address.
    BindSucceeded(SocketAddress),
    /// Binding failed: address in use, permission denied, invalid address.
    BindFailed,
    /// The ready signal reached its receiver.
    ReadyDelivered,
    /// The ready receiver was dropped before the signal arrived.
    ReadyReceiverDropped,
    /// The external interrupt (operator termination request) fired.
    Interrupted,
    /// The transport failed unexpectedly while serving.
    ServeFailed,
    /// All in-flight requests finished draining.
    Drained,
}

/// What the runtime must do next.
#[derive(Clone, Copy, Debug, PartialEq, Eq, Structural)]
pub enum LifecycleAction {
    /// Send the bound address through the one-shot ready channel.
    SendReady(SocketAddress),
    /// Abort the process: binding is a startup-time configuration error.
    AbortBindFailure,
    /// Abort the process: the caller discarded the ready receiver.
    AbortReadyDropped,
    /// Stop accepting new connections and let in-flight requests finish.
    TriggerShutdown,
    /// Surface the transport's error to whoever awaits the serve task.
    ReportServeError,
    /// Nothing to do beyond moving to the next state.
    Proceed,
}

/// The transition table. Events that cannot occur in a state leave it
/// unchanged with nothing to do.
pub open spec fn spec_step(state: LifecycleState, event: LifecycleEvent) -> (
    LifecycleState,
    LifecycleAction,
) {
    match (state, event) {
        (LifecycleState::Unbound, LifecycleEvent::BindSucceeded(addr)) => (
            LifecycleState::Bound(addr),
            LifecycleAction::SendReady(addr),
        ),
        (LifecycleState::Unbound, LifecycleEvent::BindFailed) => (
            LifecycleState::Stopped,
            LifecycleAction::AbortBindFailure,
        ),
        (LifecycleState::Bound(addr), LifecycleEvent::ReadyDelivered) => (
            LifecycleState::Serving(addr),
            LifecycleAction::Proceed,
        ),
        (LifecycleState::Bound(_), LifecycleEvent::ReadyReceiverDropped) => (
            LifecycleState::Stopped,
            LifecycleAction::AbortReadyDropped,
        ),
        (LifecycleState::Serving(addr), LifecycleEvent::Interrupted) => (
            LifecycleState::ShuttingDown(addr),
            LifecycleAction::TriggerShutdown,
        ),
        (LifecycleState::Serving(_), LifecycleEvent::ServeFailed) => (
            LifecycleState::Stopped,
            LifecycleAction::ReportServeError,
        ),
        (LifecycleState::ShuttingDown(_), LifecycleEvent::Drained) => (
            LifecycleState::Stopped,
            LifecycleAction::Proceed,
        ),
        _ => (state, LifecycleAction::Proceed),
    }
}

/// Advances the lifecycle by one observed event.
pub fn step(state: LifecycleState, event: LifecycleEvent) -> (r: (
    LifecycleState,
    LifecycleAction,
))
    ensures
        r == spec_step(state, event),
{
    match (state, event) {
        (LifecycleState::Unbound, LifecycleEvent::BindSucceeded(addr)) => (
            LifecycleState::Bound(addr),
            LifecycleAction::SendReady(addr),
        ),
        (LifecycleState::Unbound, LifecycleEvent::BindFailed) => (
            LifecycleState::Stopped,
            LifecycleAction::AbortBindFailure,
        ),
        (LifecycleState::Bound(addr), LifecycleEvent::ReadyDelivered) => (
            LifecycleState::Serving(addr),
            LifecycleAction::Proceed,
        ),
        (LifecycleState::Bound(_), LifecycleEvent::ReadyReceiverDropped) => (
            LifecycleState::Stopped,
            LifecycleAction::AbortReadyDropped,
        ),
        (LifecycleState::Serving(addr), LifecycleEvent::Interrupted) => (
            LifecycleState::ShuttingDown(addr),
            LifecycleAction::TriggerShutdown,
        ),
        (LifecycleState::Serving(_), LifecycleEvent::ServeFailed) => (
            LifecycleState::Stopped,
            LifecycleAction::ReportServeError,
        ),
        (LifecycleState::ShuttingDown(_), LifecycleEvent::Drained) => (
            LifecycleState::Stopped,
            LifecycleAction::Proceed,
        ),
        _ => (state, LifecycleAction::Proceed),
    }
}

/// The ready signal is prescribed exactly on the transition out of `Unbound`
/// on a successful bind, and its payload is exactly the address the OS
/// assigned — never a requested address, never anything stale.
pub proof fn lemma_ready_payload_is_bound_address(
    state: LifecycleState,
    event: LifecycleEvent,
    addr: SocketAddress,
)
    ensures
        (spec_step(state, event).1 == LifecycleAction::SendReady(addr)) <==> (state
            == LifecycleState::Unbound && event == LifecycleEvent::BindSucceeded(addr)),
{
}

/// Graceful shutdown is triggered exactly by the external interrupt while
/// serving; no other state or event stops the accept loop.
pub proof fn lemma_shutdown_only_by_interrupt(state: LifecycleState, event: LifecycleEvent)
    ensures
        (spec_step(state, event).1 == LifecycleAction::TriggerShutdown) <==> (matches!(
            state,
            LifecycleState::Serving(_),
        ) && event == LifecycleEvent::Interrupted),
{
}

/// A failed bind aborts from the unbound state and never reaches a serving
/// state: startup failure is fatal, not a hang.
pub proof fn lemma_bind_failure_is_fatal(state: LifecycleState)
    ensures
        spec_step(state, LifecycleEvent::BindFailed).1 == LifecycleAction::AbortBindFailure
            <==> state == LifecycleState::Unbound,
        state == LifecycleState::Unbound ==> spec_step(state, LifecycleEvent::BindFailed).0
            == LifecycleState::Stopped,
{
}

/// `Stopped` is final: no event revives the service.
pub proof fn lemma_stopped_is_final(event: LifecycleEvent)
    ensures
        spec_step(LifecycleState::Stopped, event).0 == LifecycleState::Stopped,
{
}

/// A serving state is reached only from `Bound` and only once the ready
/// signal has been delivered: every external observer of `Serving` is
/// observing a service whose bound address went out first.
pub proof fn lemma_serving_only_after_ready(
    state: LifecycleState,
    event: LifecycleEvent,
    addr: SocketAddress,
)
    requires
        state != LifecycleState::Serving(addr),
        spec_step(state, event).0 == LifecycleState::Serving(addr),
    ensures
        state == LifecycleState::Bound(addr),
        event == LifecycleEvent::ReadyDelivered,
{
}

} // verus!

verus! {

/// The state after driving the machine through a whole event sequence.
pub open spec fn spec_run(init: LifecycleState, events: Seq<LifecycleEvent>) -> LifecycleState
    decreases events.len(),
{
    if events.len() == 0 {
        init
    } else {
        spec_run(spec_step(init, events[0]).0, events.drop_first())
    }
}

/// How many of the steps along an event sequence prescribe sending the
/// ready signal.
pub open spec fn spec_ready_sends(init: LifecycleState, events: Seq<LifecycleEvent>) -> nat
    decreases events.len(),
{
    if events.len() == 0 {
        0
    } else {
        let next = spec_step(init, events[0]).0;
        let sent: nat = if spec_step(init, events[0]).1 matches LifecycleAction::SendReady(_) {
            1
        } else {
            0
        };
        sent + spec_ready_sends(next, events.drop_first())
    }
}

/// `Unbound` is never re-entered: once the service has left it, no event
/// brings it back.
pub proof fn lemma_unbound_never_reentered(state: LifecycleState, event: LifecycleEvent)
    requires
        state != LifecycleState::Unbound,
    ensures
        spec_step(state, event).0 != LifecycleState::Unbound,
{
}

/// From any state other than `Unbound`, no run ever sends the ready signal
/// again.
pub proof fn lemma_no_ready_outside_unbound(init: LifecycleState, events: Seq<LifecycleEvent>)
    requires
        init != LifecycleState::Unbound,
    ensures
        spec_ready_sends(init, events) == 0,
    decreases events.len(),
{
    if events.len() > 0 {
        lemma_unbound_never_reentered(init, events[0]);
        lemma_no_ready_outside_unbound(spec_step(init, events[0]).0, events.drop_first());
    }
}

/// The one-shot handshake law: a run from the initial state sends the ready
/// signal at most once, whatever events the runtime observes.
pub proof fn lemma_ready_sent_at_most_once(events: Seq<LifecycleEvent>)
    ensures
        spec_ready_sends(LifecycleState::Unbound, events) <= 1,
    decreases events.len(),
{
    if events.len() > 0 {
        let next = spec_step(LifecycleState::Unbound, events[0]).0;
        if next == LifecycleState::Unbound {
            lemma_ready_sent_at_most_once(events.drop_first());
            assert(!(spec_step(LifecycleState::Unbound, events[0]).1
                matches LifecycleAction::SendReady(_)));
        } else {
            lemma_no_ready_outside_unbound(next, events.drop_first());
        }
    }
}

} // verus!

verus! {

/// A run that has stopped stays stopped, whatever else is observed.
pub proof fn lemma_run_from_stopped(events: Seq<LifecycleEvent>)
    ensures
        spec_run(LifecycleState::Stopped, events) == LifecycleState::Stopped,
    decreases events.len(),
{
    if events.len() > 0 {
        lemma_run_from_stopped(events.drop_first());
    }
}

/// While the service lives past binding — bound, serving or shutting down —
/// the ready signal has been sent exactly once: never zero times, never
/// twice. Together with `lemma_ready_sent_at_most_once` this is the one-shot
/// handshake in full.
pub proof fn lemma_ready_sent_exactly_once_while_live(events: Seq<LifecycleEvent>)
    ensures
        ((spec_run(LifecycleState::Unbound, events) matches LifecycleState::Bound(_)) || (spec_run(
            LifecycleState::Unbound,
            events,
        ) matches LifecycleState::Serving(_)) || (spec_run(LifecycleState::Unbound, events)
            matches LifecycleState::ShuttingDown(_))) ==> spec_ready_sends(
            LifecycleState::Unbound,
            events,
        ) == 1,
    decreases events.len(),
{
    if events.len() > 0 {
        let next = spec_step(LifecycleState::Unbound, events[0]).0;
        match next {
            LifecycleState::Unbound => {
                lemma_ready_sent_exactly_once_while_live(events.drop_first());
            },
            LifecycleState::Bound(_) => {
                lemma_no_ready_outside_unbound(next, events.drop_first());
            },
            LifecycleState::Stopped => {
                lemma_run_from_stopped(events.drop_first());
                lemma_no_ready_outside_unbound(next, events.drop_first());
            },
            _ => {},
        }
    }
}

} // verus!
