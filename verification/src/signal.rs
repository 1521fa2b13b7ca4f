//! One-shot signal slots.
//!
//! The supervisor and the worker exchange exactly two signals: a start
//! result (sent once by the worker after its bind attempt) and a stop
//! request (sent once by the supervisor). Each travels over a single-use,
//! single-producer, single-consumer slot with room for one pending value.
//! `OneShot` models such a slot: at most one send ever succeeds, at most one
//! receive ever yields a value, and a receiver facing a closed, empty slot
//! gets a distinguishable error instead of a value.

use vstd::prelude::*;

verus! {

/// How an operation on a one-shot slot can fail.
pub enum SignalError {
    /// A second send on the same slot: a contract violation by the producer.
    DoubleSignal,
    /// The slot can never yield a value: its producer is gone (or the one
    /// value was already consumed) and nothing is pending.
    ChannelClosed,
}

/// A single-use signal slot holding at most one pending value of type `T`.
pub struct OneShot<T> {
    slot: Option<T>,
    sent: bool,
    closed: bool,
}

impl<T> OneShot<T> {
    /// Whether a send has ever succeeded on this slot.
    pub closed spec fn sent(&self) -> bool {
        self.sent
    }

    /// Whether the producer side is gone.
    pub closed spec fn closed(&self) -> bool {
        self.closed
    }

    /// Whether a sent value is still waiting to be received.
    pub closed spec fn has_pending(&self) -> bool {
        self.slot is Some
    }

    /// The pending value, where one is waiting.
    pub closed spec fn pending_value(&self) -> T
        recommends
            self.has_pending(),
    {
        self.slot->0
    }

    /// A receive on this slot would resolve rather than wait forever.
    pub open spec fn resolved(&self) -> bool {
        self.sent() || self.closed()
    }

    /// A fresh slot: nothing sent, nothing pending, producer alive.
    pub fn new() -> (s: Self)
        ensures
            !s.sent(),
            !s.closed(),
            !s.has_pending(),
    {
        OneShot { slot: None, sent: false, closed: false }
    }

    /// Sends the one value. Exactly the first send on an open slot succeeds;
    /// a second send is the producer's contract violation and is reported as
    /// `DoubleSignal`; a send to a closed slot reports `ChannelClosed`. On
    /// failure the slot is unchanged.
    pub fn send(&mut self, v: T) -> (r: Result<(), SignalError>)
        ensures
            !old(self).sent() && !old(self).closed() ==> {
                &&& r is Ok
                &&& final(self).sent()
                &&& !final(self).closed()
                &&& final(self).has_pending()
                &&& final(self).pending_value() == v
            },
            old(self).sent() ==> r == Err::<(), SignalError>(SignalError::DoubleSignal) && *final(self) == *old(self),
            !old(self).sent() && old(self).closed() ==> r == Err::<(), SignalError>(SignalError::ChannelClosed) && *final(self) == *old(self),
    {
        if self.sent {
            Err(SignalError::DoubleSignal)
        } else if self.closed {
            Err(SignalError::ChannelClosed)
        } else {
            self.slot = Some(v);
            self.sent = true;
            Ok(())
        }
    }

    /// Receives the one value. The consumer blocks until the slot resolves,
    /// so a receive is only modelled on a resolved slot: it yields the
    /// pending value where one waits, and `ChannelClosed` where none ever
    /// will (the producer sent nothing before going away, or the one value
    /// was already consumed).
    pub fn recv(&mut self) -> (r: Result<T, SignalError>)
        requires
            old(self).resolved(),
        ensures
            old(self).has_pending() ==> {
                &&& r == Ok::<T, SignalError>(old(self).pending_value())
                &&& !final(self).has_pending()
                &&& final(self).sent() == old(self).sent()
                &&& final(self).closed() == old(self).closed()
            },
            !old(self).has_pending() ==> r == Err::<T, SignalError>(SignalError::ChannelClosed) && *final(self) == *old(self),
    {
        let taken = self.slot.take();
        match taken {
            Some(v) => Ok(v),
            None => Err(SignalError::ChannelClosed),
        }
    }

    /// The producer goes away. After this no send can succeed; a pending
    /// value, if any, can still be received.
    pub fn close(&mut self)
        ensures
            final(self).closed(),
            final(self).sent() == old(self).sent(),
            final(self).has_pending() == old(self).has_pending(),
            old(self).has_pending() ==> final(self).pending_value() == old(self).pending_value(),
    {
        self.closed = true;
    }
}

} // verus!
