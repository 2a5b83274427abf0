use crate::error::ErrorCode;
use crate::instructions::{Loan, Transfer};
use vstd::prelude::*;

verus! {

/// The transfer that a borrow of `borrow_amount` orders: out of the vault, into the custody
/// account of the borrower, signed for by the configuration record that owns the vault.
pub open spec fn spec_disbursement(ctx: &Loan, borrow_amount: u64) -> Transfer {
    Transfer {
        source: ctx.protocol_ata.key,
        destination: ctx.borrower_ata.key,
        mint: ctx.mint,
        authority: ctx.protocol.key,
        amount: borrow_amount,
    }
}

/// What a borrow comes to. The amount is looked at first, the batch second.
pub open spec fn spec_borrow(ctx: &Loan, borrow_amount: u64) -> Result<Transfer, ErrorCode> {
    if borrow_amount == 0 || borrow_amount > ctx.protocol_ata.amount {
        Err(ErrorCode::InvalidAmount)
    } else {
        match ctx.spec_verify_repay(borrow_amount) {
            Err(e) => Err(e),
            Ok(_) => Ok(spec_disbursement(ctx, borrow_amount)),
        }
    }
}

/// Lends `borrow_amount` out of the vault, once the batch is seen to return it.
///
/// Nothing is collected here: the fee comes back with the principal. On any error no
/// transfer is ordered.
pub fn handler(ctx: &Loan, borrow_amount: u64) -> (r: Result<Transfer, ErrorCode>)
    ensures
        r == spec_borrow(ctx, borrow_amount),
        // An amount of zero, or one that the vault does not hold, is refused whatever the
        // batch looks like.
        borrow_amount == 0 || borrow_amount > ctx.protocol_ata.amount ==> r == Err::<
            Transfer,
            ErrorCode,
        >(ErrorCode::InvalidAmount),
        // A borrow that no repay follows is refused.
        0 < borrow_amount <= ctx.protocol_ata.amount && !ctx.instructions@.has_repay_after(
            ctx.program_id,
        ) ==> r == Err::<Transfer, ErrorCode>(ErrorCode::MissingRepay),
        r matches Err(e) ==> e == ErrorCode::InvalidAmount || e == ErrorCode::MissingRepay || e
            == ErrorCode::AccountMismatch,
{
    if borrow_amount == 0 || borrow_amount > ctx.protocol_ata.amount {
        return Err(ErrorCode::InvalidAmount);
    }
    match ctx.verify_repay(borrow_amount) {
        Err(e) => Err(e),
        Ok(_) => Ok(
            Transfer {
                source: ctx.protocol_ata.key,
                destination: ctx.borrower_ata.key,
                mint: ctx.mint,
                authority: ctx.protocol.key,
                amount: borrow_amount,
            },
        ),
    }
}

} // verus!
