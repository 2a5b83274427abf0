use crate::batch::{Instructions, Operation};
use crate::error::ErrorCode;
use crate::fee::{spec_fee_amount, spec_repay_amount};
use crate::instructions::borrow::{spec_borrow, spec_disbursement};
use crate::instructions::repay::{spec_repay, spec_repayment};
use crate::instructions::{Loan, Transfer};
use crate::state::TokenAccount;
use vstd::prelude::*;

verus! {

impl Loan {
    /// The loan as the action at `position` of the same batch finds it.
    pub open spec fn at(self, position: usize) -> Loan {
        Loan {
            instructions: Instructions {
                actions: self.instructions.actions,
                current: position,
            },
            ..self
        }
    }

    /// The loan once the token program has carried out `t` between its two custody
    /// accounts: what leaves the source arrives at the destination.
    pub open spec fn after(self, t: Transfer) -> Loan {
        if t.source == self.protocol_ata.key && t.destination == self.borrower_ata.key {
            Loan {
                protocol_ata: TokenAccount {
                    key: self.protocol_ata.key,
                    amount: (self.protocol_ata.amount - t.amount) as u64,
                },
                borrower_ata: TokenAccount {
                    key: self.borrower_ata.key,
                    amount: (self.borrower_ata.amount + t.amount) as u64,
                },
                ..self
            }
        } else if t.source == self.borrower_ata.key && t.destination == self.protocol_ata.key {
            Loan {
                borrower_ata: TokenAccount {
                    key: self.borrower_ata.key,
                    amount: (self.borrower_ata.amount - t.amount) as u64,
                },
                protocol_ata: TokenAccount {
                    key: self.protocol_ata.key,
                    amount: (self.protocol_ata.amount + t.amount) as u64,
                },
                ..self
            }
        } else {
            self
        }
    }

    /// The two custody accounts are two accounts of one mint, so what they hold together
    /// is a 64-bit amount.
    pub open spec fn custody_valid(self) -> bool {
        &&& self.borrower_ata.key != self.protocol_ata.key
        &&& self.borrower_ata.amount + self.protocol_ata.amount <= u64::MAX
    }
}

/// A loan that is taken and returned in one batch leaves the vault richer by the fee, and
/// the borrower poorer by the fee.
///
/// The batch holds a borrow of a positive amount that the vault holds, and behind it a
/// repay that names the same accounts, with no other borrow or repay of the program between
/// the two. The borrower can pay the fee. Then the borrow orders the principal out of the
/// vault, the repay orders the principal and the fee back, and once both are carried out
/// the vault holds the fee more than before and the borrower the fee less.
pub proof fn lemma_borrow_then_repay(ctx: Loan, borrow_amount: u64, repay_at: usize)
    requires
        ctx.custody_valid(),
        0 < borrow_amount <= ctx.protocol_ata.amount,
        ctx.instructions.current < ctx.instructions@.actions.len(),
        ctx.instructions@.actions[ctx.instructions.current as int].program == ctx.program_id,
        ctx.instructions@.actions[ctx.instructions.current as int].operation() == (
        Operation::Borrow { amount: borrow_amount }),
        ctx.spec_pairs_with(ctx.instructions@.actions[ctx.instructions.current as int].accounts),
        ctx.instructions@.is_next_repay(ctx.program_id, repay_at as int),
        ctx.spec_pairs_with(ctx.instructions@.actions[repay_at as int].accounts),
        ctx.at(repay_at).instructions@.is_previous_borrow(
            ctx.program_id,
            ctx.instructions.current as int,
        ),
        spec_fee_amount(borrow_amount as nat, ctx.protocol.data.fee as nat)
            <= ctx.borrower_ata.amount,
    ensures
        spec_borrow(&ctx, borrow_amount) == Ok::<Transfer, ErrorCode>(
            spec_disbursement(&ctx, borrow_amount),
        ),
        spec_repay(&ctx.after(spec_disbursement(&ctx, borrow_amount)).at(repay_at)) == Ok::<
            Transfer,
            ErrorCode,
        >(spec_repayment(&ctx, borrow_amount)),
        spec_repayment(&ctx, borrow_amount).amount == borrow_amount + spec_fee_amount(
            borrow_amount as nat,
            ctx.protocol.data.fee as nat,
        ),
        ctx.after(spec_disbursement(&ctx, borrow_amount)).after(
            spec_repayment(&ctx, borrow_amount),
        ).protocol_ata.amount == ctx.protocol_ata.amount + spec_fee_amount(
            borrow_amount as nat,
            ctx.protocol.data.fee as nat,
        ),
        ctx.after(spec_disbursement(&ctx, borrow_amount)).after(
            spec_repayment(&ctx, borrow_amount),
        ).borrower_ata.amount == ctx.borrower_ata.amount - spec_fee_amount(
            borrow_amount as nat,
            ctx.protocol.data.fee as nat,
        ),
{
    let lent = spec_disbursement(&ctx, borrow_amount);
    let fee = spec_fee_amount(borrow_amount as nat, ctx.protocol.data.fee as nat);
    ctx.instructions@.lemma_next_repay_unique(ctx.program_id, repay_at as int);
    assert(spec_repay_amount(borrow_amount as nat, ctx.protocol.data.fee as nat)
        == borrow_amount + fee);
    let mid = ctx.after(lent).at(repay_at);
    assert(mid.instructions@ == ctx.at(repay_at).instructions@);
    mid.instructions@.lemma_previous_borrow_unique(
        ctx.program_id,
        ctx.instructions.current as int,
    );
}

} // verus!
