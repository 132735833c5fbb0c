use vstd::prelude::*;

verus! {

/// Failure kinds of the coin-flip program.
///
/// Every failure is terminal for the instruction that raised it: the ledger
/// executes each instruction as an all-or-nothing transaction, so an `Err`
/// result always leaves every store unchanged.
#[derive(Clone, Copy, Debug, PartialEq, Eq, Structural)]
pub enum CoinFlipError {
    /// Caller of an owner-gated operation is not the stored owner.
    NotAllowedOwner,
    /// Wager exceeds the configured ceiling.
    MaxBetAmount,
    /// Wager is zero.
    InvalidAmount,
    /// An expected ledger record does not exist or is empty.
    UninitializedAccount,
    /// Payout was already settled for the current bet.
    AlreadyClaimed,
    /// Fee rate lies outside the allowed range.
    FeeInvalid,
    /// A supplied account does not match its required derivation.
    InvalidAccount,
}

} // verus!
