//! Mutual-exclusion flag for the history ring.
//!
//! The flag is a single shared boolean: `false` is free, `true` is held.
//! Acquisition is not reentrant: a context that already holds the flag must
//! not acquire it again (on real hardware that would busy-wait forever), so
//! `lock` demands a free flag. Release never blocks and simply clears the
//! flag. The host is expected to drive these transitions with an atomic
//! compare-and-exchange loop; the functions here state what each successful
//! transition does to the flag.

use vstd::prelude::*;

verus! {

/// The shared lock flag: `held` is `true` exactly while some context owns
/// the ring.
pub struct LockFlag {
    pub held: bool,
}

impl LockFlag {
    /// A freshly created flag is free.
    pub fn new() -> (flag: LockFlag)
        ensures
            !flag.held,
    {
        LockFlag { held: false }
    }
}

/// Acquire the flag. A free flag is taken at once; a held one must never be
/// re-acquired by its holder, so a free flag is demanded.
pub fn lock(flag: &mut LockFlag)
    requires
        !old(flag).held,
    ensures
        final(flag).held,
{
    flag.held = true;
}

/// Release the flag: it is free afterwards, whatever it was before.
pub fn unlock(flag: &mut LockFlag)
    ensures
        !final(flag).held,
{
    flag.held = false;
}

} // verus!
