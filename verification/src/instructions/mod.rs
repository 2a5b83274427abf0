pub mod borrow;
pub mod initialize;
pub mod repay;
pub mod set_fee;

use crate::batch::Instructions;
use crate::identity::Identity;
use crate::state::{Account, Protocol, TokenAccount};
use vstd::prelude::*;

verus! {

// Where each party stands in the accounts that a `borrow` or a `repay` names. The order is
// part of the wire contract: pairing compares two actions position by position.
pub const BORROWER_INDEX: usize = 0;

pub const PROTOCOL_INDEX: usize = 1;

pub const MINT_INDEX: usize = 2;

pub const BORROWER_ATA_INDEX: usize = 3;

pub const PROTOCOL_ATA_INDEX: usize = 4;

/// What a `borrow` or a `repay` works on: the program it runs as, the parties of the loan,
/// the two custody accounts with their balances, and the batch it is part of.
#[derive(Clone, Debug)]
pub struct Loan {
    /// The program that the action is addressed to.
    pub program_id: Identity,
    /// Who takes the loan and gives it back.
    pub borrower: Identity,
    /// The configuration record, which supplies the fee.
    pub protocol: Account<Protocol>,
    /// The kind of token that is lent.
    pub mint: Identity,
    /// The custody account of the borrower.
    pub borrower_ata: TokenAccount,
    /// The vault: the custody account of the protocol.
    pub protocol_ata: TokenAccount,
    /// The batch, and the place of the running action in it.
    pub instructions: Instructions,
}

/// An order to the token program: move `amount` units of `mint` from `source` to
/// `destination`, on the word of `authority`.
#[derive(Clone, Copy, Debug, PartialEq, Eq)]
pub struct Transfer {
    pub source: Identity,
    pub destination: Identity,
    pub mint: Identity,
    pub authority: Identity,
    pub amount: u64,
}

impl Loan {
    /// `accounts` names, position by position, the borrower, the configuration record, the
    /// mint and the two custody accounts of this loan.
    pub open spec fn spec_pairs_with(&self, accounts: Seq<Identity>) -> bool {
        &&& accounts.len() > PROTOCOL_ATA_INDEX
        &&& accounts[BORROWER_INDEX as int] == self.borrower
        &&& accounts[PROTOCOL_INDEX as int] == self.protocol.key
        &&& accounts[MINT_INDEX as int] == self.mint
        &&& accounts[BORROWER_ATA_INDEX as int] == self.borrower_ata.key
        &&& accounts[PROTOCOL_ATA_INDEX as int] == self.protocol_ata.key
    }

    /// The accounts that a `borrow` or a `repay` of this loan names, in the order of the
    /// wire contract.
    pub fn accounts(&self) -> (accounts: Vec<Identity>)
        ensures
            accounts@ == seq![
                self.borrower,
                self.protocol.key,
                self.mint,
                self.borrower_ata.key,
                self.protocol_ata.key,
            ],
            self.spec_pairs_with(accounts@),
    {
        let mut accounts: Vec<Identity> = Vec::new();
        accounts.push(self.borrower);
        accounts.push(self.protocol.key);
        accounts.push(self.mint);
        accounts.push(self.borrower_ata.key);
        accounts.push(self.protocol_ata.key);
        assert(accounts@ =~= seq![
            self.borrower,
            self.protocol.key,
            self.mint,
            self.borrower_ata.key,
            self.protocol_ata.key,
        ]);
        accounts
    }

    pub fn pairs_with(&self, accounts: &Vec<Identity>) -> (yes: bool)
        ensures
            yes == self.spec_pairs_with(accounts@),
    {
        accounts.len() > PROTOCOL_ATA_INDEX && accounts[BORROWER_INDEX] == self.borrower
            && accounts[PROTOCOL_INDEX] == self.protocol.key && accounts[MINT_INDEX] == self.mint
            && accounts[BORROWER_ATA_INDEX] == self.borrower_ata.key
            && accounts[PROTOCOL_ATA_INDEX] == self.protocol_ata.key
    }
}

} // verus!
