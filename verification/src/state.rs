use crate::constants::MAX_FEE_BPS;
use crate::identity::Identity;
use vstd::prelude::*;

verus! {

/// A fee is accepted when it is above zero and at most `MAX_FEE_BPS`.
pub open spec fn spec_fee_in_bounds(fee: u64) -> bool {
    0 < fee <= MAX_FEE_BPS
}

pub fn fee_in_bounds(fee: u64) -> (ok: bool)
    ensures
        ok == spec_fee_in_bounds(fee),
{
    fee > 0 && fee <= MAX_FEE_BPS
}

/// The configuration of the protocol: one record for the whole deployment.
#[derive(Clone, Copy, Debug, PartialEq, Eq)]
pub struct Protocol {
    /// Who may change the configuration.
    pub authority: Identity,
    /// The fee on a loan, in basis points: 50 is 0.5%, 100 is 1%.
    pub fee: u64,
}

impl Protocol {
    /// What holds of the record from its initialization on: the fee is within bounds.
    pub open spec fn valid(&self) -> bool {
        spec_fee_in_bounds(self.fee)
    }
}

/// A record together with the address it is stored at.
#[derive(Clone, Copy, Debug, PartialEq, Eq)]
pub struct Account<T> {
    pub key: Identity,
    pub data: T,
}

/// A custody account: its address and the balance it holds of its mint.
#[derive(Clone, Copy, Debug, PartialEq, Eq)]
pub struct TokenAccount {
    pub key: Identity,
    pub amount: u64,
}

} // verus!
