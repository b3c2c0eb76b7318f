//! A pure model of the coordination protocol, and the laws proved of it.
//!
//! The executable types keep their state inside tokio's channels, whose
//! reference counting Verus cannot see. This module states that counting
//! directly: how many completion handles are live, whether the controller
//! still holds its own handle, and whether the fan-out signal has fired.
//! Each event below is the model of one operation of the crate:
//! `Subscribe` of [`crate::ShutdownController::subscribe`], `BeginShutdown`
//! of [`crate::ShutdownController::begin_shutdown`], and `Release` of the
//! destruction of one [`crate::ShutdownMonitor`]. That all these handles
//! count toward the one completion channel, whose receive half is what
//! `begin_shutdown` returns, is stated of the executable types themselves:
//! [`crate::ShutdownController::wf`], ensured by the constructor, and the
//! channel-identity clauses of `subscribe` and `begin_shutdown`. What stays
//! outside Verus is only the runtime half: that dropping a handle is what
//! tokio counts as a release, and that the resolved barrier wakes the
//! waiter.

use vstd::prelude::*;

verus! {

/// One event in the life of the protocol.
#[derive(Clone, Copy, Debug, PartialEq, Eq, Structural)]
pub enum ProtocolEvent {
    /// A monitor is subscribed: one more completion handle is cloned.
    Subscribe,
    /// A monitor is destroyed: its completion handle is released.
    Release,
    /// Shutdown begins: the signal fires and the controller's own
    /// completion handle is released.
    BeginShutdown,
}

/// The coordination state.
pub struct ProtocolState {
    /// Completion handles held by live monitors.
    pub monitors: nat,
    /// Whether the controller still holds its own completion handle.
    pub controller_handle_held: bool,
    /// Whether the one-shot fan-out signal has fired.
    pub fired: bool,
}

/// The state right after the controller is created: no monitors yet, the
/// controller holds its own completion handle, nothing has fired.
pub open spec fn protocol_init() -> ProtocolState {
    ProtocolState { monitors: 0, controller_handle_held: true, fired: false }
}

/// Whether an event can occur in a state: subscribing and beginning shutdown
/// need a live controller, a release needs a live monitor.
pub open spec fn event_enabled(s: ProtocolState, e: ProtocolEvent) -> bool {
    match e {
        ProtocolEvent::Subscribe => s.controller_handle_held,
        ProtocolEvent::Release => s.monitors > 0,
        ProtocolEvent::BeginShutdown => s.controller_handle_held,
    }
}

/// The state after an event.
pub open spec fn protocol_step(s: ProtocolState, e: ProtocolEvent) -> ProtocolState {
    match e {
        ProtocolEvent::Subscribe => ProtocolState { monitors: s.monitors + 1, ..s },
        ProtocolEvent::Release => ProtocolState { monitors: (s.monitors - 1) as nat, ..s },
        ProtocolEvent::BeginShutdown => ProtocolState {
            controller_handle_held: false,
            fired: true,
            ..s
        },
    }
}

/// How many completion handles are live in a state.
pub open spec fn live_handles(s: ProtocolState) -> nat {
    s.monitors + if s.controller_handle_held { 1nat } else { 0nat }
}

/// The completion barrier resolves, and with it the wait inside shutdown,
/// exactly when no completion handle is live any more.
pub open spec fn barrier_resolved(s: ProtocolState) -> bool {
    live_handles(s) == 0
}

/// Whether a whole run of events is valid from a starting state: each event
/// in turn is enabled in the state the ones before it produced.
pub open spec fn run_valid(s: ProtocolState, es: Seq<ProtocolEvent>) -> bool
    decreases es.len(),
{
    es.len() == 0 || (event_enabled(s, es[0]) && run_valid(protocol_step(s, es[0]), es.drop_first()))
}

/// The state a run of events ends in.
pub open spec fn run_result(s: ProtocolState, es: Seq<ProtocolEvent>) -> ProtocolState
    decreases es.len(),
{
    if es.len() == 0 {
        s
    } else {
        run_result(protocol_step(s, es[0]), es.drop_first())
    }
}

/// How many times an event occurs in a run.
pub open spec fn event_count(es: Seq<ProtocolEvent>, e: ProtocolEvent) -> nat
    decreases es.len(),
{
    if es.len() == 0 {
        0
    } else {
        (if es[0] == e { 1nat } else { 0nat }) + event_count(es.drop_first(), e)
    }
}

/// The accounting of any valid run: the live monitors are exactly the
/// subscriptions not yet matched by a release, the controller's own handle
/// is held exactly as long as shutdown has not begun, and the signal has
/// fired exactly when shutdown has begun.
pub proof fn lemma_run_accounting(s: ProtocolState, es: Seq<ProtocolEvent>)
    requires
        run_valid(s, es),
    ensures
        run_result(s, es).monitors + event_count(es, ProtocolEvent::Release) == s.monitors
            + event_count(es, ProtocolEvent::Subscribe),
        run_result(s, es).controller_handle_held == (s.controller_handle_held && event_count(
            es,
            ProtocolEvent::BeginShutdown,
        ) == 0),
        run_result(s, es).fired == (s.fired || event_count(es, ProtocolEvent::BeginShutdown) > 0),
    decreases es.len(),
{
    if es.len() != 0 {
        lemma_run_accounting(protocol_step(s, es[0]), es.drop_first());
    }
}

/// Liveness of shutdown: in any valid run from a fresh controller in which
/// shutdown begins and every subscribed monitor is eventually released, the
/// completion barrier resolves, so the wait inside shutdown returns.
pub proof fn lemma_shutdown_drains(es: Seq<ProtocolEvent>)
    requires
        run_valid(protocol_init(), es),
        event_count(es, ProtocolEvent::Subscribe) == event_count(es, ProtocolEvent::Release),
        event_count(es, ProtocolEvent::BeginShutdown) > 0,
    ensures
        barrier_resolved(run_result(protocol_init(), es)),
{
    lemma_run_accounting(protocol_init(), es);
}

/// No self-made deadlock: once shutdown has begun, the controller's own,
/// already released completion handle can no longer hold the barrier up;
/// it waits on the monitors alone.
pub proof fn lemma_no_self_deadlock(s: ProtocolState)
    requires
        !s.controller_handle_held,
    ensures
        barrier_resolved(s) <==> s.monitors == 0,
{
}

/// Signal delivery, on the model side: as soon as shutdown begins the signal
/// has fired, whatever state the run had reached before.
pub proof fn lemma_shutdown_fires(s: ProtocolState)
    requires
        event_enabled(s, ProtocolEvent::BeginShutdown),
    ensures
        protocol_step(s, ProtocolEvent::BeginShutdown).fired,
{
}

} // verus!
