//! A flash-loan protocol: tokens leave a pooled vault without collateral, and the same
//! batch of actions has to bring them back with a fee.
//!
//! Nothing is held between the borrow and the repay, so the batch itself is the safety
//! net: a borrow is let through only when a repay that names the same accounts stands
//! behind it in the batch, and a repay only when such a borrow stands ahead of it.
//!
//! The handlers decide and order. They read accounts and the batch as plain values and
//! answer with the transfer to carry out; moving tokens is left to the token program.

pub mod batch;
pub mod constants;
pub mod error;
pub mod fee;
pub mod identity;
pub mod instructions;
pub mod pairing;
pub mod round_trip;
pub mod state;

use crate::error::ErrorCode;
use crate::identity::Identity;
use crate::instructions::borrow::spec_borrow;
use crate::instructions::initialize::Initialize;
use crate::instructions::repay::spec_repay;
use crate::instructions::set_fee::SetFee;
use crate::instructions::{Loan, Transfer};
use crate::state::{spec_fee_in_bounds, Protocol};
use vstd::prelude::*;

verus! {

/// Creates the configuration of the protocol: its authority and its first fee.
///
/// Succeeds exactly on a fee above zero and at most the maximum; any other fee is refused
/// with `InvalidFee` and the record is left as it was.
pub fn initialize(ctx: &mut Initialize, authority: Identity, initial_fee: u64) -> (r: Result<
    (),
    ErrorCode,
>)
    ensures
        r is Ok <==> spec_fee_in_bounds(initial_fee),
        r is Ok ==> {
            &&& final(ctx).protocol.data == (Protocol { authority, fee: initial_fee })
            &&& final(ctx).protocol.data.valid()
            &&& final(ctx).protocol.key == old(ctx).protocol.key
            &&& final(ctx).payer == old(ctx).payer
        },
        r is Err ==> r == Err::<(), ErrorCode>(ErrorCode::InvalidFee) && *final(ctx) == *old(ctx),
{
    instructions::initialize::handler(ctx, authority, initial_fee)
}

/// Replaces the fee of the protocol, on the word of its authority.
///
/// Any other caller is refused with `Unauthorized`, whatever the fee; the authority is
/// refused with `InvalidFee` on a fee out of bounds. The authority itself never changes.
pub fn set_fee(ctx: &mut SetFee, fee: u64) -> (r: Result<(), ErrorCode>)
    ensures
        r is Ok <==> old(ctx).authority == old(ctx).protocol.data.authority && spec_fee_in_bounds(
            fee,
        ),
        old(ctx).authority != old(ctx).protocol.data.authority ==> r == Err::<(), ErrorCode>(
            ErrorCode::Unauthorized,
        ),
        old(ctx).authority == old(ctx).protocol.data.authority && !spec_fee_in_bounds(fee) ==> r
            == Err::<(), ErrorCode>(ErrorCode::InvalidFee),
        r is Ok ==> {
            &&& final(ctx).protocol.data.fee == fee
            &&& final(ctx).protocol.data.valid()
            &&& final(ctx).protocol.data.authority == old(ctx).protocol.data.authority
            &&& final(ctx).protocol.key == old(ctx).protocol.key
            &&& final(ctx).authority == old(ctx).authority
        },
        r is Err ==> *final(ctx) == *old(ctx),
{
    instructions::set_fee::handler(ctx, fee)
}

/// Lends `borrow_amount` out of the vault, once the batch is seen to return it.
pub fn borrow(ctx: &Loan, borrow_amount: u64) -> (r: Result<Transfer, ErrorCode>)
    ensures
        r == spec_borrow(ctx, borrow_amount),
        borrow_amount == 0 || borrow_amount > ctx.protocol_ata.amount ==> r == Err::<
            Transfer,
            ErrorCode,
        >(ErrorCode::InvalidAmount),
        0 < borrow_amount <= ctx.protocol_ata.amount && !ctx.instructions@.has_repay_after(
            ctx.program_id,
        ) ==> r == Err::<Transfer, ErrorCode>(ErrorCode::MissingRepay),
{
    instructions::borrow::handler(ctx, borrow_amount)
}

/// Returns the loan that the paired borrow took: the principal and the fee.
pub fn repay(ctx: &Loan) -> (r: Result<Transfer, ErrorCode>)
    ensures
        r == spec_repay(ctx),
        !ctx.instructions@.has_borrow_before(ctx.program_id) ==> r == Err::<Transfer, ErrorCode>(
            ErrorCode::MissingBorrow,
        ),
{
    instructions::repay::handler(ctx)
}

} // verus!
