use crate::constants::BPS_DENOMINATOR;
use vstd::prelude::*;

verus! {

/// The fee on a principal at a rate in basis points: `borrow_amount * fee_bps / 10000`,
/// rounded up to a whole unit.
pub open spec fn spec_fee_amount(borrow_amount: nat, fee_bps: nat) -> nat {
    ((borrow_amount * fee_bps + BPS_DENOMINATOR - 1) / (BPS_DENOMINATOR as int)) as nat
}

/// What has to come back for a loan: the principal and the fee on it.
pub open spec fn spec_repay_amount(borrow_amount: nat, fee_bps: nat) -> nat {
    borrow_amount + spec_fee_amount(borrow_amount, fee_bps)
}

/// The fee is the ceiling of `borrow_amount * fee_bps / 10000`: the least number of units
/// whose ten-thousandfold covers `borrow_amount * fee_bps`.
pub proof fn lemma_fee_is_ceiling(borrow_amount: nat, fee_bps: nat)
    ensures
        spec_fee_amount(borrow_amount, fee_bps) * BPS_DENOMINATOR >= borrow_amount * fee_bps,
        (spec_fee_amount(borrow_amount, fee_bps) - 1) * BPS_DENOMINATOR < borrow_amount * fee_bps,
{
}

/// The product of two 64-bit numbers leaves room in 128 bits for the rounding and for the
/// principal.
proof fn lemma_product_fits(borrow_amount: u64, fee_bps: u64)
    ensures
        borrow_amount * fee_bps <= 0xffff_ffff_ffff_ffff * 0xffff_ffff_ffff_ffff,
{
    assert(borrow_amount * fee_bps <= 0xffff_ffff_ffff_ffff * 0xffff_ffff_ffff_ffff)
        by (nonlinear_arith)
        requires
            0 <= borrow_amount <= 0xffff_ffff_ffff_ffff,
            0 <= fee_bps <= 0xffff_ffff_ffff_ffff,
    ;
}

pub fn fee_amount(borrow_amount: u64, fee_bps: u64) -> (fee: u128)
    ensures
        fee == spec_fee_amount(borrow_amount as nat, fee_bps as nat),
{
    proof {
        lemma_product_fits(borrow_amount, fee_bps);
    }
    let product: u128 = (borrow_amount as u128) * (fee_bps as u128);
    (product + (BPS_DENOMINATOR as u128 - 1)) / (BPS_DENOMINATOR as u128)
}

pub fn repay_amount(borrow_amount: u64, fee_bps: u64) -> (due: u128)
    ensures
        due == spec_repay_amount(borrow_amount as nat, fee_bps as nat),
{
    proof {
        lemma_product_fits(borrow_amount, fee_bps);
    }
    borrow_amount as u128 + fee_amount(borrow_amount, fee_bps)
}

} // verus!
