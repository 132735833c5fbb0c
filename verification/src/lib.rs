//! Core logic of an on-chain coin-flip wager game.
//!
//! A user commits funds on a guessed coin side; a verifiable-randomness
//! oracle later fulfills the request; the user may then claim a payout if
//! the outcome matches the guess. The ledger (account store) and the oracle
//! are external collaborators: this crate holds the verified state machine
//! that decides every transition — configuration lifecycle, fee-split
//! transfers, the randomness handshake, and exactly-once payout.

pub mod addresses;
pub mod errors;
pub mod flip;
pub mod instructions;
pub mod oracle;
pub mod state;
