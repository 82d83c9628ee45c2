//! The messages that the contract answers and the answers to its queries.

use vstd::prelude::*;

use crate::state::{RoomModel, StateModel};

verus! {

/// Instantiation: the draw's seed, the bet limits and the house fee.
pub struct InitMsg {
    pub seed: String,
    pub min_credit: u128,
    pub max_credit: u128,
    pub house_fee: u64,
}

/// The messages that change the contract's state.
pub enum HandleMsg {
    /// The owner adds the ukrw sent with the message to the pot.
    TryPotPoolDeposit {},
    /// The owner sets the largest accepted bet.
    TryChangeMaxcredit { max_credit: u128 },
    /// The owner sets the smallest accepted bet.
    TryChangeMincredit { min_credit: u128 },
    /// The owner sets the house fee.
    TryChaingeFee { fee: u64 },
    /// The owner takes `amount` out of the pot.
    TryPotPoolWithdraw { amount: u128 },
    /// A player bets `bet_amount` that the lucky number will fall over or
    /// under `prediction_number`.
    Ruler { phrase: String, prediction_number: u64, position: String, bet_amount: u128 },
}

/// The queries.
pub enum QueryMsg {
    Getstate {},
    GetMyRoomState { address: String },
}

/// The contract's configuration as a query answers it.
pub struct StateResponse {
    pub contract_owner: String,
    pub pot_pool: u64,
    pub min_credit: u64,
    pub max_credit: u64,
    pub house_fee: u64,
}

/// A player's last round as a query answers it.
pub struct RoomStateResponse {
    pub start_time: u64,
    pub entropy: Vec<u8>,
    pub prediction_number: u64,
    pub lucky_number: u64,
    pub position: String,
    pub results: u64,
    pub bet_amount: u64,
}

/// A state answer as a value.
pub struct StateAnswerModel {
    pub contract_owner: Seq<char>,
    pub pot_pool: u64,
    pub min_credit: u64,
    pub max_credit: u64,
    pub house_fee: u64,
}

/// A room answer as a value.
pub struct RoomAnswerModel {
    pub start_time: u64,
    pub entropy: Seq<u8>,
    pub prediction_number: u64,
    pub lucky_number: u64,
    pub position: Seq<char>,
    pub results: u64,
    pub bet_amount: u64,
}

impl View for StateResponse {
    type V = StateAnswerModel;

    open spec fn view(&self) -> StateAnswerModel {
        StateAnswerModel {
            contract_owner: self.contract_owner@,
            pot_pool: self.pot_pool,
            min_credit: self.min_credit,
            max_credit: self.max_credit,
            house_fee: self.house_fee,
        }
    }
}

impl View for RoomStateResponse {
    type V = RoomAnswerModel;

    open spec fn view(&self) -> RoomAnswerModel {
        RoomAnswerModel {
            start_time: self.start_time,
            entropy: self.entropy@,
            prediction_number: self.prediction_number,
            lucky_number: self.lucky_number,
            position: self.position@,
            results: self.results,
            bet_amount: self.bet_amount,
        }
    }
}

/// What the state query answers for `s`, given the owner's human-readable
/// address: the amounts cut to their low 64 bits.
pub open spec fn state_answer(s: StateModel, owner: Seq<char>) -> StateAnswerModel {
    StateAnswerModel {
        contract_owner: owner,
        pot_pool: s.pot_pool as u64,
        min_credit: s.min_credit as u64,
        max_credit: s.max_credit as u64,
        house_fee: s.house_fee,
    }
}

/// What the room query answers for a round: the bet cut to its low 64 bits.
pub open spec fn room_answer(r: RoomModel) -> RoomAnswerModel {
    RoomAnswerModel {
        start_time: r.start_time,
        entropy: r.entropy,
        prediction_number: r.prediction_number,
        lucky_number: r.lucky_number,
        position: r.position,
        results: r.results,
        bet_amount: r.bet_amount as u64,
    }
}

} // verus!
