//! The ways in which the contract refuses a message.

use vstd::prelude::*;

verus! {

/// Why a message was refused.
#[derive(PartialEq, Eq, Structural, Clone, Copy, Debug)]
pub enum ContractError {
    /// The chain's address API refused the sender's address.
    InvalidAddress,
    /// A deposit came with no ukrw.
    NoFunds,
    /// The sender is not the owner.
    NotOwner,
    /// A withdrawal asked for more than the pot holds.
    InsufficientPotPool,
    /// The position is neither `"under"` nor `"over"`.
    InvalidPosition,
    /// An `"over"` prediction outside 2..=58.
    OverPredictionOutOfRange,
    /// An `"under"` prediction outside 1..=57.
    UnderPredictionOutOfRange,
    /// The pot cannot cover what the bet would pay.
    LackOfReserves { pot_pool: u128, payout: u128, bet_amount: u128 },
    /// A bet came with no funds.
    EmptyWallet,
    /// A bet came with a denomination other than ukrw.
    WrongDenom,
    /// The ukrw sent is not the bet amount.
    AmountMismatch { bet_amount: u128, sent: u128 },
    /// The bet is below the smallest accepted bet.
    BelowMinimum,
    /// The bet is above the largest accepted bet.
    AboveMaximum,
}

} // verus!
