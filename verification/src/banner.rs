//! The static identification string the boundary hands out: fixed,
//! nul-terminated, the same on every call.

use vstd::prelude::*;

verus! {

/// The identification string's bytes: the text
/// `Rust subsystem online (no_std)` followed by a terminating nul.
pub open spec fn banner_bytes() -> Seq<u8> {
    seq![
        82u8, 117, 115, 116, 32, 115, 117, 98, 115, 121, 115, 116, 101, 109, 32, 111, 110, 108,
        105, 110, 101, 32, 40, 110, 111, 95, 115, 116, 100, 41, 0,
    ]
}

/// Fetch the identification string. Its content never varies: every call
/// returns exactly `banner_bytes`, whose last byte is the terminating nul.
pub fn boot_banner() -> (banner: Vec<u8>)
    ensures
        banner@ == banner_bytes(),
        banner@.len() > 0,
        banner@[banner@.len() - 1] == 0,
{
    let banner: Vec<u8> = vec![
        82u8, 117, 115, 116, 32, 115, 117, 98, 115, 121, 115, 116, 101, 109, 32, 111, 110, 108,
        105, 110, 101, 32, 40, 110, 111, 95, 115, 116, 100, 41, 0,
    ];
    proof {
        assert(banner@ =~= banner_bytes());
    }
    banner
}

/// The identification string is a well-formed C string: non-empty,
/// nul-terminated, and with no interior nul, so a reader that stops at the
/// first nul sees the whole text.
pub proof fn lemma_banner_nul_terminated()
    ensures
        banner_bytes().len() == 31,
        banner_bytes()[banner_bytes().len() - 1] == 0,
        forall|i: int| 0 <= i < banner_bytes().len() - 1 ==> banner_bytes()[i] != 0,
{
    assert(forall|i: int| 0 <= i < banner_bytes().len() - 1 ==> banner_bytes()[i] != 0);
}

} // verus!
