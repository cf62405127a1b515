//! The opaque party identity the authorization gate compares.

use vstd::prelude::*;

verus! {

/// A party's identity on the host ledger: an opaque 32-byte key, held as
/// four 64-bit limbs, so that comparing two identities compares every byte
/// of the key. Creator-only and contributor-only operations compare the
/// caller's identity against the one on record, nothing more.
#[derive(Clone, Copy, Debug, PartialEq, Eq, Structural)]
pub struct Identity {
    pub w0: u64,
    pub w1: u64,
    pub w2: u64,
    pub w3: u64,
}

impl Identity {
    /// The identity with the given limbs, low first.
    pub fn new(w0: u64, w1: u64, w2: u64, w3: u64) -> (r: Identity)
        ensures
            r == (Identity { w0, w1, w2, w3 }),
    {
        Identity { w0, w1, w2, w3 }
    }
}

} // verus!
