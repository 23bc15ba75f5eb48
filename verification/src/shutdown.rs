//! The one-shot, multi-listener shutdown broadcast.
//!
//! The sending side initiates a shutdown; every receiving side observes it
//! cooperatively, at a suspension point of its own loop. The broadcast
//! itself is carried by tokio's `sync::broadcast` channel behind the trusted
//! wrappers below; what a machine does once the signal is (or is not)
//! observed is verified in [`crate::component`] and [`crate::controller`].
//!
//! Whether a poll of the receiver sees the signal depends on what other
//! threads have done, so no wrapper here promises anything about its result;
//! the verified callers state what holds for every outcome instead.

use vstd::prelude::*;

use crate::component::{spec_detach, Component, StateMachine};

verus! {

#[verifier::external_type_specification]
#[verifier::external_body]
#[verifier::reject_recursive_types(T)]
pub struct ExBroadcastSender<T>(tokio::sync::broadcast::Sender<T>);

#[verifier::external_type_specification]
#[verifier::external_body]
#[verifier::reject_recursive_types(T)]
pub struct ExBroadcastReceiver<T>(tokio::sync::broadcast::Receiver<T>);

/// The sending side of a shutdown broadcast; responsible for initiating a
/// shutdown.
pub struct ShutdownSender {
    sender: tokio::sync::broadcast::Sender<()>,
}

/// The receiving side of a shutdown broadcast; responsible for responding to
/// shutdowns.
pub struct ShutdownReceiver {
    receiver: tokio::sync::broadcast::Receiver<()>,
}

/// Relies on `tokio::sync::broadcast::channel`: builds a broadcast channel.
/// The call panics only on capacity 0; this body passes 1.
#[verifier::external_body]
fn new_broadcast_pair() -> (
    tokio::sync::broadcast::Sender<()>,
    tokio::sync::broadcast::Receiver<()>,
) {
    tokio::sync::broadcast::channel(1)
}

/// Creates a broadcasting shutdown channel.
///
/// The sending side is responsible for initiating a shutdown. The receiving
/// side is responsible for responding to shutdowns. Further receivers come
/// from [`ShutdownSender::subscribe`]. Both halves are opaque capabilities:
/// nothing is specified of them beyond what the verified consumers state of
/// every poll outcome.
pub fn channel() -> (ShutdownSender, ShutdownReceiver) {
    let (sender, receiver) = new_broadcast_pair();
    (ShutdownSender { sender }, ShutdownReceiver { receiver })
}

impl ShutdownSender {
    /// Broadcasts the shutdown signal to every subscribed receiver. Relies
    /// on `tokio::sync::broadcast::Sender::send`, which never panics; its
    /// error (no live receivers) is deliberately ignored, as a shutdown with
    /// nobody listening is a no-op.
    #[verifier::external_body]
    pub fn shutdown(&self) {
        let _ = self.sender.send(());
    }

    /// Creates another receiver, observing signals sent after this call.
    /// Relies on `tokio::sync::broadcast::Sender::subscribe`.
    #[verifier::external_body]
    pub fn subscribe(&self) -> ShutdownReceiver {
        ShutdownReceiver { receiver: self.sender.subscribe() }
    }
}

impl ShutdownReceiver {
    /// Polls the broadcast without suspending. Relies on
    /// `tokio::sync::broadcast::Receiver::try_recv`: a received value or a
    /// lag report means a signal was broadcast since this receiver
    /// subscribed; an empty or closed channel means none was observed.
    /// Whether a concurrently sent signal is observed by this poll or a
    /// later one depends on thread timing, so nothing is promised of the
    /// result.
    #[verifier::external_body]
    pub fn try_observe(&mut self) -> bool {
        match self.receiver.try_recv() {
            Ok(()) => true,
            Err(tokio::sync::broadcast::error::TryRecvError::Lagged(_)) => true,
            Err(_) => false,
        }
    }
}

/// One cooperative shutdown check, as a component's loop performs at a
/// suspension point: whatever the poll of the broadcast returned, either the
/// signal was observed and the machine detaches, or the machine is exactly
/// as it was.
pub fn observe_shutdown<C: Component>(
    rx: &mut ShutdownReceiver,
    machine: &mut StateMachine<C>,
) -> (observed: bool)
    requires
        old(machine).wf(),
    ensures
        final(machine).wf(),
        observed ==> final(machine)@ == spec_detach(old(machine)@),
        !observed ==> final(machine)@ == old(machine)@,
{
    let observed = rx.try_observe();
    if observed {
        machine.detach();
    }
    observed
}

} // verus!
