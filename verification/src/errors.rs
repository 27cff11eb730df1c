//! Error taxonomy of the escrow library.

use vstd::prelude::*;

verus! {

/// Every way an escrow operation can be rejected.
///
/// The first three variants are validation failures: the caller's
/// claimed values did not match the record or its re-derived identity.
/// `DerivationExhausted` is fatal and can only arise at creation: no
/// authorization tag in the bounded search space yields a valid derived
/// address for the requested deposit index.  The remaining variants are
/// ledger-level failures, reported by the value ledger itself.
#[derive(Clone, Copy, Debug, PartialEq, Eq, Structural)]
pub enum ErrorCode {
    /// The amount the caller claims does not match the amount stored in
    /// the escrow record.
    InvalidAmount,
    /// The custody-slot authorization tag the caller supplied does not
    /// match the re-derived tag for the custody slot.
    InvalidWalletBump,
    /// The record authorization tag the caller supplied does not locate
    /// the actual escrow record.
    InvalidStateAddress,
    /// No authorization tag in the bounded search space yields a valid
    /// derived address for this (sender, receiver, index) triple.
    DerivationExhausted,
    /// A terminal release or refund has already run on this escrow.
    AlreadySettled,
    /// The custody slot still holds a nonzero balance, so the record
    /// cannot be closed yet.
    CustodyNotEmpty,
    /// An account already occupies the address being created.
    AccountAlreadyExists,
    /// No account exists at the given address.
    AccountNotFound,
    /// The debited account holds less than the requested amount.
    InsufficientBalance,
    /// Crediting the requested amount would overflow the target balance.
    BalanceOverflow,
}

} // verus!
