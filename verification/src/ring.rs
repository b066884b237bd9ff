//! The circular history buffer: sixteen fixed-size slots of 64 bytes each,
//! every entry length-tagged, the oldest entry overwritten first once the
//! ring is full.
//!
//! A pushed event is truncated to 63 bytes; the target slot is zero-filled
//! before the payload is copied in, so every byte past the recorded length,
//! the 64th included, is zero and a slot can always be read as a bounded,
//! nul-terminated byte string.

use vstd::prelude::*;

verus! {

/// Number of slots in the ring.
pub const HISTORY_SLOTS: usize = 16;

/// Size of one slot's byte buffer.
pub const SLOT_LEN: usize = 64;

/// Largest payload a slot records; the last byte is reserved and stays zero.
pub const PAYLOAD_MAX: usize = 63;

/// Length recorded for a pushed event: the event's length, capped at 63.
pub open spec fn stored_len(ev: Seq<u8>) -> nat {
    if ev.len() <= 63 {
        ev.len()
    } else {
        63nat
    }
}

/// The 64 bytes a slot holds after an event is pushed into it: the event's
/// first `stored_len` bytes, then zeroes up to the slot size.
pub open spec fn stored_bytes(ev: Seq<u8>) -> Seq<u8> {
    ev.take(stored_len(ev) as int) + Seq::new((64 - stored_len(ev) as int) as nat, |i: int| 0u8)
}

/// A slot's initial state: 64 zero bytes.
pub open spec fn zero_slot() -> Seq<u8> {
    Seq::new(64, |i: int| 0u8)
}

/// Mathematical model of the ring: the slot contents and lengths, the next
/// write position, and the saturating population count.
#[verifier::ext_equal]
pub struct RingView {
    pub entries: Seq<Seq<u8>>,
    pub lens: Seq<nat>,
    pub head: nat,
    pub count: nat,
}

impl RingView {
    /// Well-formedness: sixteen slots of 64 bytes, every recorded length at
    /// most 63, head and count in range, and every byte past a slot's
    /// recorded length zero.
    pub open spec fn wf(self) -> bool {
        &&& self.entries.len() == 16
        &&& self.lens.len() == 16
        &&& self.head < 16
        &&& self.count <= 16
        &&& forall|j: int| 0 <= j < 16 ==> (#[trigger] self.entries[j]).len() == 64
        &&& forall|j: int| 0 <= j < 16 ==> #[trigger] self.lens[j] <= 63
        &&& forall|j: int, k: int|
            0 <= j < 16 && self.lens[j] <= k < 64 ==> #[trigger] self.entries[j][k] == 0
    }

    /// The freshly created ring: all slots zeroed and empty, head at the
    /// first slot, nothing populated yet.
    pub open spec fn empty() -> RingView {
        RingView {
            entries: Seq::new(16, |j: int| zero_slot()),
            lens: Seq::new(16, |j: int| 0nat),
            head: 0,
            count: 0,
        }
    }

    /// Effect of one push: the head slot takes the truncated, zero-padded
    /// event, the head advances circularly, and the population count grows
    /// until it saturates at 16.
    pub open spec fn push(self, ev: Seq<u8>) -> RingView {
        RingView {
            entries: self.entries.update(self.head as int, stored_bytes(ev)),
            lens: self.lens.update(self.head as int, stored_len(ev)),
            head: (self.head + 1) % 16,
            count: if self.count < 16 {
                self.count + 1
            } else {
                self.count
            },
        }
    }
}

/// The circular history buffer itself.
pub struct History {
    pub entries: Vec<Vec<u8>>,
    pub lens: Vec<usize>,
    pub head: usize,
    pub count: usize,
}

impl View for History {
    type V = RingView;

    open spec fn view(&self) -> RingView {
        RingView {
            entries: self.entries@.map_values(|slot: Vec<u8>| slot@),
            lens: self.lens@.map_values(|l: usize| l as nat),
            head: self.head as nat,
            count: self.count as nat,
        }
    }
}

/// Build one zeroed slot buffer.
fn zero_slot_vec() -> (v: Vec<u8>)
    ensures
        v@ == zero_slot(),
{
    let mut v: Vec<u8> = Vec::new();
    let mut k: usize = 0;
    while k < 64
        invariant
            k <= 64,
            v@.len() == k,
            forall|i: int| 0 <= i < k ==> #[trigger] v@[i] == 0,
        decreases 64 - k,
    {
        v.push(0);
        k += 1;
    }
    proof {
        assert(v@ =~= zero_slot());
    }
    v
}

impl History {
    /// Create the ring in its initial state: all slots zeroed and empty.
    pub fn new() -> (h: History)
        ensures
            h@ == RingView::empty(),
            h@.wf(),
    {
        let mut entries: Vec<Vec<u8>> = Vec::new();
        let mut lens: Vec<usize> = Vec::new();
        let mut j: usize = 0;
        while j < 16
            invariant
                j <= 16,
                entries@.len() == j,
                lens@.len() == j,
                forall|i: int| 0 <= i < j ==> (#[trigger] entries@[i])@ == zero_slot(),
                forall|i: int| 0 <= i < j ==> #[trigger] lens@[i] == 0,
            decreases 16 - j,
        {
            entries.push(zero_slot_vec());
            lens.push(0);
            j += 1;
        }
        let h = History { entries, lens, head: 0, count: 0 };
        proof {
            assert(h@ =~~= RingView::empty());
        }
        h
    }

    /// Record one event in the slot at `head`: zero the slot, copy in at
    /// most 63 bytes of the event, tag the slot with the truncated length,
    /// advance the head circularly, and let the population count grow until
    /// it saturates.
    pub fn push(&mut self, src: &[u8])
        requires
            old(self)@.wf(),
        ensures
            final(self)@.wf(),
            final(self)@ == old(self)@.push(src@),
            final(self)@.lens[old(self)@.head as int] == stored_len(src@),
            final(self)@.entries[old(self)@.head as int] == stored_bytes(src@),
            forall|k: int|
                stored_len(src@) <= k < 64 ==> final(self)@.entries[old(self)@.head as int][k]
                    == 0,
            final(self)@.head == (old(self)@.head + 1) % 16,
            final(self)@.count == if old(self)@.count < 16 {
                old(self)@.count + 1
            } else {
                old(self)@.count
            },
            forall|j: int|
                0 <= j < 16 && j != old(self)@.head ==> #[trigger] final(self)@.entries[j]
                    == old(self)@.entries[j] && final(self)@.lens[j] == old(self)@.lens[j],
    {
        let slot = self.head;
        let len = if src.len() < PAYLOAD_MAX {
            src.len()
        } else {
            PAYLOAD_MAX
        };
        let mut buf: Vec<u8> = Vec::new();
        let mut k: usize = 0;
        while k < len
            invariant
                k <= len,
                len == stored_len(src@),
                len <= src@.len(),
                buf@ == src@.take(k as int),
            decreases len - k,
        {
            let b = src[k];
            buf.push(b);
            proof {
                assert(src@.take(k + 1 as int) =~= src@.take(k as int).push(src@[k as int]));
            }
            k += 1;
        }
        while buf.len() < SLOT_LEN
            invariant
                stored_len(src@) <= buf@.len() <= 64,
                forall|i: int| 0 <= i < stored_len(src@) ==> #[trigger] buf@[i] == src@[i],
                forall|i: int| stored_len(src@) <= i < buf@.len() ==> #[trigger] buf@[i] == 0,
            decreases 64 - buf@.len(),
        {
            buf.push(0);
        }
        proof {
            assert(buf@ =~= stored_bytes(src@));
        }
        self.entries[slot] = buf;
        self.lens[slot] = len;
        self.head = (self.head + 1) % HISTORY_SLOTS;
        if self.count < HISTORY_SLOTS {
            self.count += 1;
        }
        proof {
            assert(self@ =~~= old(self)@.push(src@));
        }
    }
}

} // verus!
