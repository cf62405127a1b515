//! Checked arithmetic: every mutation of a balance goes through here, and
//! overflow fails the whole operation rather than wrapping or saturating.

use vstd::prelude::*;

use crate::errors::FundrrError;

verus! {

/// The sum when it fits the range, `Overflow` when it does not.
pub fn checked_add(a: u64, b: u64) -> (r: Result<u64, FundrrError>)
    ensures
        r is Ok <==> a + b <= u64::MAX,
        r matches Ok(v) ==> v == a + b,
        r matches Err(e) ==> e == FundrrError::Overflow,
{
    if b > u64::MAX - a {
        Err(FundrrError::Overflow)
    } else {
        Ok(a + b)
    }
}

} // verus!
