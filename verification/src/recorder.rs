//! The boundary layer: one recorder value couples the history ring, its
//! lock flag, and the lifetime push counter, and carries the three
//! operations a host calls — push an event, read the counter, and (from
//! `banner`) fetch the identification string.

use vstd::prelude::*;
use crate::ring::{History, RingView};
use crate::spin::{LockFlag, lock, unlock};

verus! {

/// Mathematical model of the recorder: the ring's model and the lifetime
/// push counter.
#[verifier::ext_equal]
pub struct RecView {
    pub ring: RingView,
    pub counter: nat,
}

impl RecView {
    /// The state at process start: an empty ring and a zero counter.
    pub open spec fn init() -> RecView {
        RecView { ring: RingView::empty(), counter: 0 }
    }

    /// Effect of one boundary push: an empty event is a complete no-op;
    /// any other event enters the ring and advances the counter by one.
    pub open spec fn push(self, ev: Seq<u8>) -> RecView {
        if ev.len() == 0 {
            self
        } else {
            RecView { ring: self.ring.push(ev), counter: self.counter + 1 }
        }
    }
}

/// The state after a sequence of boundary pushes, applied in order.
pub open spec fn run(r: RecView, evs: Seq<Seq<u8>>) -> RecView
    decreases evs.len(),
{
    if evs.len() == 0 {
        r
    } else {
        run(r, evs.drop_last()).push(evs.last())
    }
}

/// The event recorder a host embeds: the ring, the flag that serializes
/// its mutation, and the lifetime push counter.
pub struct Recorder {
    pub history: History,
    pub flag: LockFlag,
    pub counter: u64,
}

impl View for Recorder {
    type V = RecView;

    open spec fn view(&self) -> RecView {
        RecView { ring: self.history@, counter: self.counter as nat }
    }
}

impl Recorder {
    /// Well-formedness: the ring is well formed and the lock flag is free
    /// (no push is in progress).
    pub open spec fn wf(self) -> bool {
        self.history@.wf() && !self.flag.held
    }

    /// Create the recorder in its start-of-process state.
    pub fn new() -> (rec: Recorder)
        ensures
            rec.wf(),
            rec@ == RecView::init(),
    {
        Recorder { history: History::new(), flag: LockFlag::new(), counter: 0 }
    }

    /// Push one event across the boundary. An empty event is absorbed by
    /// the guard and changes nothing; any other event is recorded in the
    /// ring under the lock, and the lifetime counter is then advanced.
    pub fn history_push(&mut self, src: &[u8])
        requires
            old(self).wf(),
            old(self).counter < u64::MAX,
        ensures
            final(self).wf(),
            final(self)@ == old(self)@.push(src@),
            src@.len() == 0 ==> *final(self) == *old(self),
    {
        if src.len() == 0 {
            return;
        }
        lock(&mut self.flag);
        self.history.push(src);
        unlock(&mut self.flag);
        // The counter is advanced after the flag is released, as the
        // boundary contract fixes: a concurrent reader may observe the
        // finished slot write before this increment lands.
        self.counter = self.counter + 1;
    }

    /// Read the lifetime push counter: the total number of events ever
    /// recorded, unaffected by the ring's 16-slot saturation.
    pub fn history_count(&self) -> (n: u64)
        ensures
            n == self@.counter,
    {
        self.counter
    }
}

} // verus!
