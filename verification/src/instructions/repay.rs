use crate::error::ErrorCode;
use crate::fee::{repay_amount, spec_repay_amount};
use crate::instructions::{Loan, Transfer};
use vstd::prelude::*;

verus! {

/// The transfer that returns a loan of `principal`: the principal and the fee on it, out of
/// the custody account of the borrower, into the vault, signed for by the borrower.
pub open spec fn spec_repayment(ctx: &Loan, principal: u64) -> Transfer {
    Transfer {
        source: ctx.borrower_ata.key,
        destination: ctx.protocol_ata.key,
        mint: ctx.mint,
        authority: ctx.borrower,
        amount: spec_repay_amount(principal as nat, ctx.protocol.data.fee as nat) as u64,
    }
}

/// What a repay comes to. The batch is looked at first, the balance of the borrower second.
pub open spec fn spec_repay(ctx: &Loan) -> Result<Transfer, ErrorCode> {
    match ctx.spec_find_borrow() {
        Err(e) => Err(e),
        Ok(principal) => if spec_repay_amount(principal as nat, ctx.protocol.data.fee as nat)
            > ctx.borrower_ata.amount {
            Err(ErrorCode::InsufficientFunds)
        } else {
            Ok(spec_repayment(ctx, principal))
        },
    }
}

/// Returns the loan that the paired borrow took: the principal and the fee.
///
/// The principal is read from the `borrow` ahead in the same batch, so a repay that stands
/// alone is refused. On any error no transfer is ordered.
pub fn handler(ctx: &Loan) -> (r: Result<Transfer, ErrorCode>)
    ensures
        r == spec_repay(ctx),
        // A repay that no borrow precedes is refused.
        !ctx.instructions@.has_borrow_before(ctx.program_id) ==> r == Err::<Transfer, ErrorCode>(
            ErrorCode::MissingBorrow,
        ),
        r matches Err(e) ==> e == ErrorCode::MissingBorrow || e == ErrorCode::AccountMismatch
            || e == ErrorCode::InsufficientFunds,
{
    match ctx.find_borrow() {
        Err(e) => Err(e),
        Ok(principal) => {
            let due = repay_amount(principal, ctx.protocol.data.fee);
            if due > ctx.borrower_ata.amount as u128 {
                Err(ErrorCode::InsufficientFunds)
            } else {
                Ok(
                    Transfer {
                        source: ctx.borrower_ata.key,
                        destination: ctx.protocol_ata.key,
                        mint: ctx.mint,
                        authority: ctx.borrower,
                        amount: due as u64,
                    },
                )
            }
        },
    }
}

} // verus!
