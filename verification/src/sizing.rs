//! Validation of explicit filter dimensions.

use vstd::prelude::*;
use crate::error::InvalidParameter;

verus! {

/// Whether `k` hash functions over `m` bits form a well-formed filter:
/// both are positive and `k` is strictly below `m`.
pub open spec fn valid_dimensions(k: nat, m: nat) -> bool {
    0 < k < m
}

/// The verdict on a pair of dimensions: the reason for rejecting it, if any.
pub open spec fn dimension_verdict(k: usize, m: usize) -> Result<(), InvalidParameter> {
    if k >= m {
        Err(InvalidParameter::HashCountNotBelowLength)
    } else if k == 0 {
        Err(InvalidParameter::ZeroHashCount)
    } else {
        Ok(())
    }
}

/// Accepts `k` and `m` exactly when `0 < k < m`, and otherwise names the
/// reason: `k >= m` first, `k == 0` second.
pub fn validate_exact_dimensions(k: usize, m: usize) -> (verdict: Result<(), InvalidParameter>)
    ensures
        verdict == dimension_verdict(k, m),
        verdict is Ok <==> valid_dimensions(k as nat, m as nat),
{
    if k >= m {
        Err(InvalidParameter::HashCountNotBelowLength)
    } else if k == 0 {
        Err(InvalidParameter::ZeroHashCount)
    } else {
        Ok(())
    }
}

} // verus!
