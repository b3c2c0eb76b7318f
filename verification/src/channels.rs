//! Trusted declarations of the tokio channel halves that the coordination
//! primitive is built on, with wrappers for the calls whose bodies Verus
//! does not read. A channel value is opaque here; what the contracts need
//! of it is only which channel a half belongs to, and that is given a name:
//! each kind of half has an uninterpreted identity function, and the
//! wrappers state which identities the calls make equal. Nothing is ever
//! stated to be unequal, so the names claim no more than the tokio source
//! shows. The waiting on the channels is driven by the caller.

use vstd::prelude::*;

verus! {

#[verifier::external_type_specification]
#[verifier::external_body]
#[verifier::reject_recursive_types(T)]
pub struct ExBroadcastSender<T>(tokio::sync::broadcast::Sender<T>);

#[verifier::external_type_specification]
#[verifier::external_body]
#[verifier::reject_recursive_types(T)]
pub struct ExBroadcastReceiver<T>(tokio::sync::broadcast::Receiver<T>);

#[verifier::external_type_specification]
#[verifier::external_body]
#[verifier::reject_recursive_types(T)]
pub struct ExMpscSender<T>(tokio::sync::mpsc::Sender<T>);

#[verifier::external_type_specification]
#[verifier::external_body]
#[verifier::reject_recursive_types(T)]
pub struct ExMpscReceiver<T>(tokio::sync::mpsc::Receiver<T>);

/// The identity of the fan-out channel a send half belongs to.
pub uninterp spec fn broadcast_sender_channel(s: tokio::sync::broadcast::Sender<()>) -> int;

/// The identity of the fan-out channel a receive half belongs to.
pub uninterp spec fn broadcast_receiver_channel(r: tokio::sync::broadcast::Receiver<()>) -> int;

/// The identity of the completion channel a send half belongs to.
pub uninterp spec fn mpsc_sender_channel(s: tokio::sync::mpsc::Sender<()>) -> int;

/// The identity of the completion channel a receive half belongs to.
pub uninterp spec fn mpsc_receiver_channel(r: tokio::sync::mpsc::Receiver<()>) -> int;

/// Relies on tokio::sync::broadcast::channel: creates the fan-out channel
/// and returns its sole send half with a first receive half, both of the
/// one new channel. It panics when the capacity is zero or above
/// usize::MAX / 2, so those are excluded here.
#[verifier::external_body]
pub(crate) fn broadcast_channel(capacity: usize) -> (r: (
    tokio::sync::broadcast::Sender<()>,
    tokio::sync::broadcast::Receiver<()>,
))
    requires
        1 <= capacity <= usize::MAX / 2,
    ensures
        broadcast_receiver_channel(r.1) == broadcast_sender_channel(r.0),
{
    tokio::sync::broadcast::channel(capacity)
}

/// Relies on tokio::sync::mpsc::channel: creates the completion channel and
/// returns its send and receive halves, both of the one new channel. It
/// panics when the capacity is zero or above the semaphore's permit limit
/// of usize::MAX / 8, so those are excluded here.
#[verifier::external_body]
pub(crate) fn mpsc_channel(capacity: usize) -> (r: (
    tokio::sync::mpsc::Sender<()>,
    tokio::sync::mpsc::Receiver<()>,
))
    requires
        1 <= capacity <= usize::MAX / 8,
    ensures
        mpsc_receiver_channel(r.1) == mpsc_sender_channel(r.0),
{
    tokio::sync::mpsc::channel(capacity)
}

/// Relies on tokio::sync::broadcast::Sender::subscribe: returns a fresh,
/// independent receive half of the sender's own channel, which will observe
/// what is sent, or the closing of the channel, after its creation.
#[verifier::external_body]
pub(crate) fn broadcast_subscribe(
    sender: &tokio::sync::broadcast::Sender<()>,
) -> (r: tokio::sync::broadcast::Receiver<()>)
    ensures
        broadcast_receiver_channel(r) == broadcast_sender_channel(*sender),
{
    sender.subscribe()
}

/// Relies on Clone for tokio::sync::mpsc::Sender: a clone is one more live
/// send half of the same channel, and the paired receiver closes only once
/// every such half has been dropped.
#[verifier::external_body]
pub(crate) fn mpsc_sender_clone(
    sender: &tokio::sync::mpsc::Sender<()>,
) -> (r: tokio::sync::mpsc::Sender<()>)
    ensures
        mpsc_sender_channel(r) == mpsc_sender_channel(*sender),
{
    sender.clone()
}

} // verus!
