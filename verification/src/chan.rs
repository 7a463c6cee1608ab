//! A capacity-one rendezvous channel.

use vstd::prelude::*;

verus! {

/// What came of an attempt to fill the slot in bounded time.
#[derive(Debug, Clone, Copy, PartialEq, Eq, Structural)]
pub enum SendStep {
    /// The slot is filled. Wake one that waits for it to be full.
    Sent,
    /// The slot is full. Block until it is freed, at most this many milliseconds,
    /// and try again.
    Wait(u64),
    /// The slot stayed full for the whole time.
    TimedOut,
}

/// An attempt to fill the slot: it goes through where the slot was empty, and the slot
/// is full in any case.
pub open spec fn sends(before: bool, after: bool, sent: bool) -> bool {
    &&& sent == !before
    &&& after
}

/// An attempt to empty the slot: it goes through where the slot was full, and the slot
/// is empty in any case.
pub open spec fn receives(before: bool, after: bool, received: bool) -> bool {
    &&& received == before
    &&& !after
}

/// A capacity-one channel through which a read and a cancel meet.
///
/// The slot is all there is to it. An operation that cannot go on leaves the slot
/// as it is and says so: its caller blocks until the slot changes and tries
/// again.
#[derive(Debug)]
pub struct Chan1 {
    full: bool,
}

impl View for Chan1 {
    type V = bool;

    /// Whether the slot is full.
    closed spec fn view(&self) -> bool {
        self.full
    }
}

impl Chan1 {
    /// A channel with an empty slot.
    pub fn new() -> (chan: Chan1)
        ensures
            !chan@,
    {
        Chan1 { full: false }
    }

    /// Fill the slot. Returns `false` where it is full already: block until it is
    /// freed. After a `true`, wake one that waits for it to be full.
    pub fn send(&mut self) -> (sent: bool)
        ensures
            sends(old(self)@, final(self)@, sent),
    {
        let sent = !self.full;
        self.full = true;
        sent
    }

    /// Fill the slot, giving up after `timeout` milliseconds of which `waited` are
    /// over.
    pub fn send_timeout(&mut self, timeout: u64, waited: u64) -> (step: SendStep)
        ensures
            sends(old(self)@, final(self)@, step is Sent),
            step == (if !old(self)@ {
                SendStep::Sent
            } else if waited < timeout {
                SendStep::Wait((timeout - waited) as u64)
            } else {
                SendStep::TimedOut
            }),
    {
        if !self.full {
            self.full = true;
            SendStep::Sent
        } else if waited < timeout {
            SendStep::Wait(timeout - waited)
        } else {
            SendStep::TimedOut
        }
    }

    /// Empty the slot. Returns `false` where it is empty already: block until it
    /// is filled. After a `true`, wake one that waits for it to be free.
    pub fn recv(&mut self) -> (received: bool)
        ensures
            receives(old(self)@, final(self)@, received),
    {
        let received = self.full;
        self.full = false;
        received
    }
}

/// Channels whose slots are both full or both empty are the same.
pub proof fn lemma_same_chan(a: Chan1, b: Chan1)
    requires
        a@ == b@,
    ensures
        a == b,
{
}

} // verus!
