//! The contract's stored data: its configuration and pot, and the last
//! round that each player played.

use vstd::prelude::*;

verus! {

/// A round of the game as it is kept for the player who played it.
pub struct Room {
    /// Block time at which the round was played.
    pub start_time: u64,
    /// The entropy from which the lucky number was drawn.
    pub entropy: Vec<u8>,
    pub prediction_number: u64,
    pub lucky_number: u64,
    /// `"over"` or `"under"`.
    pub position: String,
    /// 1 where the player won the round, 0 where the pot did.
    pub results: u64,
    pub bet_amount: u128,
}

/// The contract's configuration and balances.
pub struct State {
    /// Canonical address of the owner, who alone may fund, drain and configure the pot.
    pub contract_owner: Vec<u8>,
    /// Tokens (in ukrw) that back the bets.
    pub pot_pool: u128,
    pub fee_pool: u128,
    /// Seed of the draw, fixed at instantiation.
    pub seed: Vec<u8>,
    /// Smallest accepted bet.
    pub min_credit: u128,
    /// Largest accepted bet.
    pub max_credit: u128,
    /// House fee, in millionths, taken off the winning multiplier.
    pub house_fee: u64,
}

/// A round as a value.
pub struct RoomModel {
    pub start_time: u64,
    pub entropy: Seq<u8>,
    pub prediction_number: u64,
    pub lucky_number: u64,
    pub position: Seq<char>,
    pub results: u64,
    pub bet_amount: u128,
}

/// The contract's state as a value.
pub struct StateModel {
    pub contract_owner: Seq<u8>,
    pub pot_pool: u128,
    pub fee_pool: u128,
    pub seed: Seq<u8>,
    pub min_credit: u128,
    pub max_credit: u128,
    pub house_fee: u64,
}

impl View for Room {
    type V = RoomModel;

    open spec fn view(&self) -> RoomModel {
        RoomModel {
            start_time: self.start_time,
            entropy: self.entropy@,
            prediction_number: self.prediction_number,
            lucky_number: self.lucky_number,
            position: self.position@,
            results: self.results,
            bet_amount: self.bet_amount,
        }
    }
}

impl View for State {
    type V = StateModel;

    open spec fn view(&self) -> StateModel {
        StateModel {
            contract_owner: self.contract_owner@,
            pot_pool: self.pot_pool,
            fee_pool: self.fee_pool,
            seed: self.seed@,
            min_credit: self.min_credit,
            max_credit: self.max_credit,
            house_fee: self.house_fee,
        }
    }
}

impl StateModel {
    /// This state with the pot replaced.
    pub open spec fn with_pot(self, pot_pool: u128) -> StateModel {
        StateModel { pot_pool, ..self }
    }
}

} // verus!
