//! The laws the recorder obeys across whole sequences of pushes: the
//! lifetime counter counts exactly the pushes that were not no-ops, and the
//! ring retains exactly the last sixteen of them, oldest at `head`.

use vstd::prelude::*;
use vstd::arithmetic::div_mod::{
    lemma_add_mod_noop, lemma_mod_add_multiples_vanish, lemma_small_mod,
};
use crate::ring::{stored_bytes, stored_len, zero_slot, RingView};
use crate::recorder::{run, RecView};

verus! {

/// Holds when no event in the sequence would be absorbed by the push
/// guard: every event is non-empty.
pub open spec fn all_nonempty(evs: Seq<Seq<u8>>) -> bool {
    forall|i: int| 0 <= i < evs.len() ==> (#[trigger] evs[i]).len() > 0
}

/// Counting law: with no-op inputs excluded, every push advances the
/// lifetime counter by exactly one, so a sequence of N pushes leaves the
/// counter N above where it started — in particular, N pushes from the
/// initial state leave it reading exactly N.
pub proof fn lemma_counter_counts_pushes(r: RecView, evs: Seq<Seq<u8>>)
    requires
        all_nonempty(evs),
    ensures
        run(r, evs).counter == r.counter + evs.len(),
    decreases evs.len(),
{
    if evs.len() > 0 {
        assert(all_nonempty(evs.drop_last()));
        lemma_counter_counts_pushes(r, evs.drop_last());
        assert(evs[evs.len() - 1].len() > 0);
    }
}

/// Two indices less than 16 apart never land in the same ring slot.
proof fn lemma_mod_distinct(i: int, n: int)
    requires
        0 <= i < n,
        n - i < 16,
    ensures
        i % 16 != n % 16,
{
    let d = n - i;
    lemma_small_mod(d as nat, 16);
    lemma_add_mod_noop(i, d, 16);
    if i % 16 + d < 16 {
        lemma_small_mod((i % 16 + d) as nat, 16);
    } else {
        lemma_mod_add_multiples_vanish(i % 16 + d - 16, 16);
        lemma_small_mod((i % 16 + d - 16) as nat, 16);
    }
}

/// Ring layout after any run of pushes (no-op inputs excluded) from the
/// initial state: the ring stays well formed, `head` has gone around
/// N mod 16 slots, the saturating count reads min(N, 16), each of the last
/// (up to) sixteen pushes sits in slot `i mod 16`, and slots no push has
/// reached still hold their zeroed initial state.
pub proof fn lemma_run_ring_layout(evs: Seq<Seq<u8>>)
    requires
        all_nonempty(evs),
    ensures
        run(RecView::init(), evs).ring.wf(),
        run(RecView::init(), evs).ring.head == evs.len() % 16,
        run(RecView::init(), evs).ring.count == if evs.len() < 16 {
            evs.len() as int
        } else {
            16
        },
        forall|i: int|
            0 <= i < evs.len() && evs.len() - 16 <= i ==> run(RecView::init(), evs).ring.entries[i
                % 16] == stored_bytes(#[trigger] evs[i]) && run(
                RecView::init(),
                evs,
            ).ring.lens[i % 16] == stored_len(evs[i]),
        forall|j: int|
            evs.len() <= j < 16 ==> #[trigger] run(RecView::init(), evs).ring.entries[j]
                == zero_slot() && run(RecView::init(), evs).ring.lens[j] == 0,
    decreases evs.len(),
{
    let m = run(RecView::init(), evs);
    if evs.len() == 0 {
        assert(m.ring == RingView::empty());
        assert(RingView::empty().wf());
    } else {
        let p = evs.drop_last();
        let e = evs.last();
        let n = p.len() as int;
        assert(all_nonempty(p));
        lemma_run_ring_layout(p);
        let mp = run(RecView::init(), p);
        assert(e.len() > 0);
        assert(m == mp.push(e));
        let h = mp.ring.head as int;

        // The head advances to (n + 1) mod 16.
        lemma_small_mod(1, 16);
        lemma_add_mod_noop(n, 1, 16);
        assert(m.ring.head == (n + 1) % 16);

        // Each of the last sixteen pushes sits in its own slot.
        assert forall|i: int| 0 <= i < evs.len() && evs.len() - 16 <= i implies m.ring.entries[i
            % 16] == stored_bytes(evs[i]) && m.ring.lens[i % 16] == stored_len(evs[i]) by {
            if i == n {
                assert(evs[i] == e);
                assert(m.ring.entries[h] == stored_bytes(e));
            } else {
                assert(evs[i] == p[i]);
                lemma_mod_distinct(i, n);
                assert(mp.ring.entries[i % 16] == stored_bytes(p[i]));
            }
        }

        // Slots no push has reached keep their zeroed initial state.
        assert forall|j: int| evs.len() <= j < 16 implies m.ring.entries[j] == zero_slot()
            && m.ring.lens[j] == 0 by {
            lemma_small_mod(n as nat, 16);
            assert(h == n);
            assert(mp.ring.entries[j] == zero_slot());
        }
    }
}

/// Retention law: once at least sixteen pushes (no-op inputs excluded)
/// have completed, the ring holds exactly the last sixteen of them — push
/// i (counting from zero) sits in slot i mod 16 — with the oldest retained
/// push, the (N-15)-th, in the slot `head` points at, and the newest in
/// the slot just before `head`.
pub proof fn lemma_ring_retains_last_sixteen(evs: Seq<Seq<u8>>)
    requires
        all_nonempty(evs),
        evs.len() >= 16,
    ensures
        forall|i: int|
            evs.len() - 16 <= i < evs.len() ==> run(RecView::init(), evs).ring.entries[i % 16]
                == stored_bytes(#[trigger] evs[i]) && run(RecView::init(), evs).ring.lens[i % 16]
                == stored_len(evs[i]),
        run(RecView::init(), evs).ring.entries[run(RecView::init(), evs).ring.head as int]
            == stored_bytes(evs[evs.len() - 16]),
        run(RecView::init(), evs).ring.entries[((run(RecView::init(), evs).ring.head + 15)
            % 16) as int] == stored_bytes(evs[evs.len() - 1]),
{
    lemma_run_ring_layout(evs);
    let n = evs.len() as int;
    let m = run(RecView::init(), evs);

    // The oldest retained push, number n - 16, sits at the head slot.
    lemma_mod_add_multiples_vanish(n - 16, 16);
    assert((n - 16) % 16 == n % 16);
    assert(m.ring.entries[(n - 16) % 16] == stored_bytes(evs[n - 16]));

    // The newest push, number n - 1, sits just before the head.
    lemma_small_mod(15, 16);
    lemma_add_mod_noop(n, 15, 16);
    lemma_mod_add_multiples_vanish(n - 1, 16);
    assert((m.ring.head + 15) % 16 == (n + 15) % 16);
    assert((n + 15) % 16 == (n - 1) % 16);
    assert(m.ring.entries[(n - 1) % 16] == stored_bytes(evs[n - 1]));
}

} // verus!
