use vstd::prelude::*;

verus! {

/// Largest fee the protocol accepts, in basis points (10%).
pub const MAX_FEE_BPS: u64 = 1_000;

/// Basis points in a whole: a fee of one basis point is 1/10000 of the principal.
pub const BPS_DENOMINATOR: u64 = 10_000;

} // verus!
