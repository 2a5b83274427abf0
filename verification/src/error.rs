use vstd::prelude::*;

verus! {

/// Why an operation was refused. Every error ends the operation, and with it the batch it
/// belongs to.
#[derive(Clone, Copy, Debug, PartialEq, Eq, Structural)]
pub enum ErrorCode {
    /// The fee is zero or above the maximum.
    InvalidFee,
    /// The caller is not the authority stored in the configuration.
    Unauthorized,
    /// The amount to borrow is zero or more than the vault holds.
    InvalidAmount,
    /// No repay of this program follows the borrow in its batch.
    MissingRepay,
    /// No borrow of this program precedes the repay in its batch.
    MissingBorrow,
    /// The paired operation names other accounts than this one.
    AccountMismatch,
    /// The source of a transfer holds less than the amount to move.
    InsufficientFunds,
}

} // verus!
