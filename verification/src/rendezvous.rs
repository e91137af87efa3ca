//! The one-shot rendezvous that bridges the network engine's completion
//! callback to the awaiting caller.  A fresh rendezvous is created for every
//! operation and never reused or shared across calls, so two concurrent
//! operations cannot observe each other's outcomes.  A writer dropped without
//! delivering an outcome surfaces as an explicit `Unexpected` error, never as
//! an indefinite wait.

use vstd::prelude::*;
use crate::error::{ErrorCode, is_channel_err, channel_err};

verus! {

/// A single-producer, single-consumer, single-use outcome slot.
pub struct Rendezvous<T> {
    pub slot: Option<T>,
}

impl<T> Rendezvous<T> {
    /// A fresh rendezvous with nothing delivered.
    pub fn new() -> (r: Rendezvous<T>)
        ensures
            r.slot is None,
    {
        Rendezvous { slot: None }
    }

    /// Delivers the single outcome.  A rendezvous carries at most one
    /// outcome: a second delivery changes nothing.
    pub fn send(&mut self, value: T)
        ensures
            old(self).slot is None ==> final(self).slot == Some(value),
            old(self).slot is Some ==> *final(self) == *old(self),
    {
        match &self.slot {
            None => {
                self.slot = Some(value);
            },
            Some(_) => {},
        }
    }

    /// Reads the single outcome: exactly the one that was delivered, or the
    /// broken-rendezvous error when the writer never delivered one.
    pub fn receive(self) -> (r: Result<T, ErrorCode>)
        ensures
            self.slot matches Some(v) ==> r == Ok::<T, ErrorCode>(v),
            self.slot is None ==> (r matches Err(e) && is_channel_err(e)),
    {
        match self.slot {
            Some(v) => Ok(v),
            None => Err(channel_err()),
        }
    }
}

} // verus!
