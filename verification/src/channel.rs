//! The typed message channel connecting a component's callers to its event
//! loop.
//!
//! The channel is modelled as a first-in first-out queue owned by the
//! scheduler that drives the component. Sending appends to the back of the
//! queue and never blocks; receiving pops the front, so every message is
//! delivered exactly once and messages pushed through the channel arrive in
//! send order. Closing the channel makes further sends fail with
//! [`SendError`] while messages already queued can still be drained.

use vstd::prelude::*;

verus! {

/// Error returned when sending into a channel whose receiving side has shut
/// down. The condition is never fatal to the sender.
#[derive(Clone, Copy, Debug, PartialEq, Eq, Structural)]
pub struct SendError;

/// A typed FIFO message channel.
pub struct Channel<T> {
    queue: Vec<T>,
    closed: bool,
}

impl<T> Channel<T> {
    /// The messages sent but not yet received, oldest first.
    pub closed spec fn pending(&self) -> Seq<T> {
        self.queue@
    }

    /// Whether the receiving side has shut down.
    pub closed spec fn is_closed(&self) -> bool {
        self.closed
    }

    /// Creates an empty, open channel.
    pub fn new() -> (c: Self)
        ensures
            c.pending() == Seq::<T>::empty(),
            !c.is_closed(),
    {
        Channel { queue: Vec::new(), closed: false }
    }

    /// Enqueues `msg` without blocking; once the channel is closed the send
    /// fails with [`SendError`] and the queue is left unchanged.
    pub fn send(&mut self, msg: T) -> (r: Result<(), SendError>)
        ensures
            final(self).is_closed() == old(self).is_closed(),
            !old(self).is_closed() ==> r == Ok::<(), SendError>(())
                && final(self).pending() == old(self).pending().push(msg),
            old(self).is_closed() ==> r == Err::<(), SendError>(SendError)
                && final(self).pending() == old(self).pending(),
    {
        if self.closed {
            Err(SendError)
        } else {
            self.queue.push(msg);
            Ok(())
        }
    }

    /// Pops the oldest pending message, or `None` when the queue is empty.
    /// Messages queued before a close are still handed out.
    pub fn try_recv(&mut self) -> (r: Option<T>)
        ensures
            final(self).is_closed() == old(self).is_closed(),
            old(self).pending().len() == 0 ==> r is None
                && final(self).pending() == old(self).pending(),
            old(self).pending().len() > 0 ==> r == Some(old(self).pending()[0])
                && final(self).pending() == old(self).pending().drop_first(),
    {
        if self.queue.len() == 0 {
            None
        } else {
            Some(self.queue.remove(0))
        }
    }

    /// Shuts the sending side down; pending messages stay queued.
    pub fn close(&mut self)
        ensures
            final(self).is_closed(),
            final(self).pending() == old(self).pending(),
    {
        self.closed = true;
    }

    /// Abandons every pending message.
    pub fn clear(&mut self)
        ensures
            final(self).is_closed() == old(self).is_closed(),
            final(self).pending() == Seq::<T>::empty(),
    {
        self.queue.clear();
    }

    /// The number of pending messages.
    pub fn len(&self) -> (n: usize)
        ensures
            n == self.pending().len(),
    {
        self.queue.len()
    }
}

} // verus!
