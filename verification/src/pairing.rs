use crate::error::ErrorCode;
use crate::fee::{repay_amount, spec_repay_amount};
use crate::instructions::Loan;
use vstd::prelude::*;

verus! {

impl Loan {
    /// What the check of a borrow against its batch comes to.
    ///
    /// Without a `repay` of this program behind the running action the repay is missing.
    /// Otherwise the first such `repay` decides: it has to name the accounts of this loan,
    /// and then the amount that it is expected to return is the principal and the fee.
    pub open spec fn spec_verify_repay(&self, borrow_amount: u64) -> Result<u128, ErrorCode> {
        let batch = self.instructions@;
        if !batch.has_repay_after(self.program_id) {
            Err(ErrorCode::MissingRepay)
        } else if !self.spec_pairs_with(
            batch.actions[batch.next_repay(self.program_id)].accounts,
        ) {
            Err(ErrorCode::AccountMismatch)
        } else {
            Ok(spec_repay_amount(borrow_amount as nat, self.protocol.data.fee as nat) as u128)
        }
    }

    /// Checks, before anything moves, that the batch returns the loan: looks behind the
    /// running action for the first `repay` of this program, holds its accounts against
    /// those of this loan, and gives the amount that the repay is expected to return.
    pub fn verify_repay(&self, borrow_amount: u64) -> (r: Result<u128, ErrorCode>)
        ensures
            r == self.spec_verify_repay(borrow_amount),
    {
        match self.instructions.next_repay(&self.program_id) {
            None => Err(ErrorCode::MissingRepay),
            Some(j) => {
                proof {
                    self.instructions@.lemma_next_repay_unique(self.program_id, j as int);
                }
                if self.pairs_with(&self.instructions.actions[j].accounts) {
                    Ok(repay_amount(borrow_amount, self.protocol.data.fee))
                } else {
                    Err(ErrorCode::AccountMismatch)
                }
            },
        }
    }

    /// What the check of a repay against its batch comes to.
    ///
    /// Without a `borrow` of this program ahead of the running action the borrow is
    /// missing. Otherwise the last such `borrow` decides: it has to name the accounts of
    /// this loan, and then the principal is the amount it borrows.
    pub open spec fn spec_find_borrow(&self) -> Result<u64, ErrorCode> {
        let batch = self.instructions@;
        if !batch.has_borrow_before(self.program_id) {
            Err(ErrorCode::MissingBorrow)
        } else {
            let paired = batch.actions[batch.previous_borrow(self.program_id)];
            if !self.spec_pairs_with(paired.accounts) {
                Err(ErrorCode::AccountMismatch)
            } else {
                Ok(paired.operation()->amount)
            }
        }
    }

    /// Looks ahead of the running action for the last `borrow` of this program, holds its
    /// accounts against those of this loan, and gives the principal.
    pub fn find_borrow(&self) -> (r: Result<u64, ErrorCode>)
        ensures
            r == self.spec_find_borrow(),
    {
        match self.instructions.previous_borrow(&self.program_id) {
            None => Err(ErrorCode::MissingBorrow),
            Some((j, amount)) => {
                proof {
                    self.instructions@.lemma_previous_borrow_unique(self.program_id, j as int);
                }
                if self.pairs_with(&self.instructions.actions[j].accounts) {
                    Ok(amount)
                } else {
                    Err(ErrorCode::AccountMismatch)
                }
            },
        }
    }
}

} // verus!
