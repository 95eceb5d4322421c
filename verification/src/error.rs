use vstd::prelude::*;

verus! {

/// Why a call was refused. A refused call leaves the ledger as it was.
#[derive(Clone, Copy, Debug, PartialEq, Eq, Structural)]
pub enum Error {
    /// The origin of the call is not a signed account.
    AuthenticationFailed,
    /// The amount to mint is below the existential deposit.
    AmountBelowMinimum,
    /// The account to mint into already has a balance entry, possibly zero.
    AccountAlreadyExists,
    /// The sender of a transfer has no balance entry.
    NonExistentAccount,
    /// The sender of a transfer holds less than the amount.
    InsufficientBalance,
    /// A balance or the total issuance would exceed what a `Balance` can hold.
    ArithmeticOverflow,
}

} // verus!
