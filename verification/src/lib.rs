//! A cooperative shutdown-coordination primitive.
//!
//! A single [`ShutdownController`] broadcasts a one-shot shutdown signal to
//! any number of [`ShutdownMonitor`]s and then waits until every monitor has
//! been destroyed. The waiting itself is asynchronous and is driven by the
//! caller; this crate holds the state, the decisions, and the channel
//! plumbing, all with verified contracts.

use vstd::prelude::*;

pub mod channels;
pub mod model;

verus! {

/// The two possible next steps for a caller that wants to receive the
/// shutdown signal: either the monitor has already observed it and the
/// caller is done, or the caller must wait on the monitor's notifier and
/// then record the observation with [`ShutdownMonitor::note_signal`].
#[derive(Clone, Copy, Debug, PartialEq, Eq, Structural)]
pub enum RecvStep {
    /// The signal has already been observed; return immediately.
    Done,
    /// The signal has not been observed yet; await the notifier.
    AwaitSignal,
}

/// A per-task handle that observes the shutdown signal and, merely by being
/// dropped, tells the controller that its task has finished.
pub struct ShutdownMonitor {
    /// `true` once the shutdown signal has been observed by this monitor.
    shutdown_received: bool,

    /// The receive half of the fan-out signal channel. The caller awaits one
    /// receive on it when [`ShutdownMonitor::recv_step`] says so; the result
    /// of that receive carries no information (the one signal is the closing
    /// of the channel), so only the fact of its arrival matters.
    pub shutdown_notifier: tokio::sync::broadcast::Receiver<()>,

    /// A clone of the controller's completion handle. Dropping the monitor
    /// drops it, which is the monitor's only externally observable effect.
    task_tracker: tokio::sync::mpsc::Sender<()>,
}

impl ShutdownMonitor {
    /// Whether this monitor has observed the shutdown signal.
    pub closed spec fn signaled(&self) -> bool {
        self.shutdown_received
    }

    /// The completion handle this monitor holds for its whole lifetime.
    pub closed spec fn tracker(self) -> tokio::sync::mpsc::Sender<()> {
        self.task_tracker
    }

    /// The signal receiver this monitor holds: the `shutdown_notifier`
    /// field, named so that specifications can speak of it.
    pub closed spec fn notifier(self) -> tokio::sync::broadcast::Receiver<()> {
        self.shutdown_notifier
    }

    /// The identity of the fan-out channel this monitor's notifier is
    /// subscribed to.
    pub closed spec fn notifier_channel(self) -> int {
        channels::broadcast_receiver_channel(self.notifier())
    }

    /// The identity of the completion channel this monitor's handle counts
    /// toward.
    pub open spec fn tracker_channel(self) -> int {
        channels::mpsc_sender_channel(self.tracker())
    }

    /// What a receive must do next, as a function of the monitor's state.
    pub open spec fn recv_step_spec(&self) -> RecvStep {
        if self.signaled() {
            RecvStep::Done
        } else {
            RecvStep::AwaitSignal
        }
    }

    /// The monitor as it stands after the signal has been observed: the same
    /// channel handles, with the observation recorded.
    pub closed spec fn observed(self) -> ShutdownMonitor {
        ShutdownMonitor {
            shutdown_received: true,
            shutdown_notifier: self.shutdown_notifier,
            task_tracker: self.task_tracker,
        }
    }

    fn new(
        shutdown_notifier: tokio::sync::broadcast::Receiver<()>,
        task_tracker: tokio::sync::mpsc::Sender<()>,
    ) -> (m: ShutdownMonitor)
        ensures
            !m.signaled(),
            m.notifier() == shutdown_notifier,
            m.tracker() == task_tracker,
    {
        ShutdownMonitor { shutdown_received: false, shutdown_notifier, task_tracker }
    }

    /// Returns `true` if the shutdown signal has been received, and `false`
    /// otherwise. Never suspends and never consults the channel.
    pub fn is_shutdown(&self) -> (r: bool)
        ensures
            r == self.signaled(),
    {
        self.shutdown_received
    }

    /// Decide what a receive must do: return at once if the signal has
    /// already been observed, otherwise await one receive on
    /// `shutdown_notifier` and then call [`ShutdownMonitor::note_signal`].
    pub fn recv_step(&self) -> (r: RecvStep)
        ensures
            r == self.recv_step_spec(),
    {
        if self.shutdown_received {
            RecvStep::Done
        } else {
            RecvStep::AwaitSignal
        }
    }

    /// Record that the shutdown signal has been observed. Called once the
    /// notifier has yielded; from then on the monitor stays signaled and a
    /// receive returns immediately.
    pub fn note_signal(&mut self)
        ensures
            *final(self) == old(self).observed(),
            final(self).signaled(),
            final(self).notifier() == old(self).notifier(),
            final(self).tracker() == old(self).tracker(),
    {
        self.shutdown_received = true;
    }
}

/// Idempotent observation: a monitor that has observed the shutdown signal
/// is directed to return at once by [`ShutdownMonitor::recv_step`], so a
/// second receive after a completed one never waits again. Completed
/// receives leave the monitor signaled ([`ShutdownMonitor::note_signal`]
/// ensures it; the immediate path keeps the state), so this covers any
/// number of further receives.
pub proof fn lemma_idempotent_observation(m: ShutdownMonitor)
    requires
        m.signaled(),
    ensures
        m.recv_step_spec() == RecvStep::Done,
{
}

/// The single authority that triggers shutdown and awaits full drain.
pub struct ShutdownController {
    /// The sole send half of the fan-out signal channel. Dropping it is the
    /// firing of the signal: every subscribed receiver then resolves.
    notify_shutdown: tokio::sync::broadcast::Sender<()>,

    /// The completion-handle template. One clone is given to each monitor;
    /// the receiver below resolves once every clone and this template have
    /// been dropped.
    task_tracker: tokio::sync::mpsc::Sender<()>,

    /// Resolves once every completion handle has been dropped.
    task_waiter: tokio::sync::mpsc::Receiver<()>,
}

impl ShutdownController {
    /// The completion waiter this controller holds: the receive half paired
    /// with the completion-handle template and all its clones.
    pub closed spec fn waiter(self) -> tokio::sync::mpsc::Receiver<()> {
        self.task_waiter
    }

    /// The identity of the fan-out channel whose sole send half this
    /// controller holds.
    pub closed spec fn signal_channel(self) -> int {
        channels::broadcast_sender_channel(self.notify_shutdown)
    }

    /// The identity of the completion channel whose handle template this
    /// controller holds.
    pub closed spec fn completion_channel(self) -> int {
        channels::mpsc_sender_channel(self.task_tracker)
    }

    /// The controller is well formed: its completion waiter is the receive
    /// half of the very channel its completion-handle template, and every
    /// clone handed to a monitor, counts toward. This is what makes the
    /// wait at the end of a shutdown a wait for the monitors.
    pub open spec fn wf(self) -> bool {
        channels::mpsc_receiver_channel(self.waiter()) == self.completion_channel()
    }

    /// Create a new, well-formed controller. Never suspends and never fails.
    pub fn new() -> (c: ShutdownController)
        ensures
            c.wf(),
    {
        let (notify_shutdown, _first_receiver) = channels::broadcast_channel(1);
        let (task_tracker, task_waiter) = channels::mpsc_channel(1);
        ShutdownController { notify_shutdown, task_tracker, task_waiter }
    }

    /// Create a new, not yet signaled monitor: a fresh subscription to this
    /// controller's signal channel paired with a fresh clone, counting
    /// toward this controller's completion channel, of the completion
    /// handle. Never suspends and never fails.
    pub fn subscribe(&self) -> (m: ShutdownMonitor)
        ensures
            !m.signaled(),
            m.recv_step_spec() == RecvStep::AwaitSignal,
            m.notifier_channel() == self.signal_channel(),
            m.tracker_channel() == self.completion_channel(),
    {
        ShutdownMonitor::new(
            channels::broadcast_subscribe(&self.notify_shutdown),
            channels::mpsc_sender_clone(&self.task_tracker),
        )
    }

    /// Begin shutting down. Consuming the controller drops the signal
    /// sender, which fires the fan-out signal for every subscribed monitor,
    /// and drops the controller's own completion handle, so that the
    /// returned waiter can resolve at all. The caller completes shutdown by
    /// awaiting one receive on the returned waiter, which resolves exactly
    /// when every monitor has been destroyed.
    pub fn begin_shutdown(self) -> (w: tokio::sync::mpsc::Receiver<()>)
        ensures
            w == self.waiter(),
            self.wf() ==> channels::mpsc_receiver_channel(w) == self.completion_channel(),
    {
        let ShutdownController {
            notify_shutdown: _signal_sender,
            task_tracker: _own_completion_handle,
            task_waiter,
        } = self;
        task_waiter
    }
}

impl Default for ShutdownController {
    fn default() -> (c: Self)
        ensures
            c.wf(),
    {
        Self::new()
    }
}

} // verus!
