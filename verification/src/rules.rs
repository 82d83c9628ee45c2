//! The game's rules as mathematical functions: what each message does to the
//! state and what it answers.

use vstd::prelude::*;
use vstd::utf8::encode_utf8;

use crate::bytes::u64_be_bytes;
use crate::chain::{Coin, CoinModel, Env, ResponseModel, TransferModel, empty_response};
use crate::digest::sha256;
use crate::error::ContractError;
use crate::msg::HandleMsg;
use crate::rand::draw;
use crate::state::{RoomModel, StateModel};

verus! {

/// What a handled message leaves behind: the state to store, the round to
/// store for the sender (if any), and the response.
pub struct OutcomeModel {
    pub state: StateModel,
    pub room: Option<RoomModel>,
    pub response: ResponseModel,
}

/// The amount of the last ukrw coin among `funds`, or 0 where there is none.
pub open spec fn ukrw_amount(funds: Seq<Coin>) -> u128
    decreases funds.len(),
{
    if funds.len() == 0 {
        0
    } else if funds.last().denom@ == "ukrw"@ {
        funds.last().amount
    } else {
        ukrw_amount(funds.drop_last())
    }
}

/// Whether every coin of `funds` is ukrw.
pub open spec fn all_ukrw(funds: Seq<Coin>) -> bool {
    forall|i: int| 0 <= i < funds.len() ==> #[trigger] funds[i].denom@ == "ukrw"@
}

/// Why the sender may not act as the owner, if it may not.
pub open spec fn owner_check(s: StateModel, env: &Env) -> Option<ContractError> {
    match env.message.sender_canonical {
        None => Some(ContractError::InvalidAddress),
        Some(c) => if c@ == s.contract_owner {
            None
        } else {
            Some(ContractError::NotOwner)
        },
    }
}

/// The state that instantiation stores.
pub open spec fn init_state(owner: Seq<u8>, seed: Seq<char>, min_credit: u128, max_credit: u128, house_fee: u64) -> StateModel {
    StateModel {
        contract_owner: owner,
        pot_pool: 0,
        fee_pool: 0,
        seed: encode_utf8(seed),
        min_credit,
        max_credit,
        house_fee,
    }
}

/// An outcome that stores `s` and no round and answers nothing.
pub open spec fn quiet(s: StateModel) -> OutcomeModel {
    OutcomeModel { state: s, room: None, response: empty_response() }
}

/// The response that pays `amount` ukrw from the contract to the sender.
pub open spec fn payout_response(env: &Env, amount: u128) -> ResponseModel {
    ResponseModel {
        messages: seq![
            TransferModel {
                from_address: env.contract.address@,
                to_address: env.message.sender@,
                amount: seq![CoinModel { denom: "ukrw"@, amount }],
            },
        ],
        log: seq![("action"@, "transfer payout"@)],
        data: None,
    }
}

/// Whether a deposit would add to the pot.
pub open spec fn deposit_adds(s: StateModel, env: &Env) -> bool {
    ukrw_amount(env.message.sent_funds@) != 0 && owner_check(s, env) is None
}

/// A deposit by the owner: the last ukrw coin sent is added to the pot.
pub open spec fn deposit_spec(s: StateModel, env: &Env) -> Result<OutcomeModel, ContractError> {
    let amount = ukrw_amount(env.message.sent_funds@);
    if amount == 0 {
        Err(ContractError::NoFunds)
    } else if let Some(e) = owner_check(s, env) {
        Err(e)
    } else {
        Ok(quiet(s.with_pot((s.pot_pool + amount) as u128)))
    }
}

/// The owner sets the largest accepted bet.
pub open spec fn change_max_spec(s: StateModel, env: &Env, max_credit: u128) -> Result<OutcomeModel, ContractError> {
    if let Some(e) = owner_check(s, env) {
        Err(e)
    } else {
        Ok(quiet(StateModel { max_credit, ..s }))
    }
}

/// The owner sets the smallest accepted bet.
pub open spec fn change_min_spec(s: StateModel, env: &Env, min_credit: u128) -> Result<OutcomeModel, ContractError> {
    if let Some(e) = owner_check(s, env) {
        Err(e)
    } else {
        Ok(quiet(StateModel { min_credit, ..s }))
    }
}

/// The owner sets the house fee.
pub open spec fn change_fee_spec(s: StateModel, env: &Env, fee: u64) -> Result<OutcomeModel, ContractError> {
    if let Some(e) = owner_check(s, env) {
        Err(e)
    } else {
        Ok(quiet(StateModel { house_fee: fee, ..s }))
    }
}

/// The owner takes `amount` out of the pot and is paid it. The pot shrinks
/// only where it held more than `amount`.
pub open spec fn withdraw_spec(s: StateModel, env: &Env, amount: u128) -> Result<OutcomeModel, ContractError> {
    if let Some(e) = owner_check(s, env) {
        Err(e)
    } else if s.pot_pool < amount {
        Err(ContractError::InsufficientPotPool)
    } else {
        Ok(OutcomeModel {
            state: if s.pot_pool > amount {
                s.with_pot((s.pot_pool - amount) as u128)
            } else {
                s
            },
            room: None,
            response: payout_response(env, amount),
        })
    }
}

/// Whether a position reads `"over"`.
pub open spec fn is_over(position: Seq<char>) -> bool {
    position == "over"@
}

/// Whether a position reads `"under"`.
pub open spec fn is_under(position: Seq<char>) -> bool {
    position == "under"@
}

/// The winning multiplier, in ten-thousandths: the house's share `fee` (in
/// millionths) taken off a million, over the chance-weighted range of the bet.
pub open spec fn multiplier_spec(prediction_number: u64, over: bool, fee: u64) -> int {
    if over {
        (1000000 - fee) / (99 - prediction_number * 5 / 3)
    } else {
        (1000000 - fee) / (prediction_number * 5 / 3)
    }
}

/// What a bet of `bet_amount` pays when it wins.
pub open spec fn payout_spec(prediction_number: u64, over: bool, bet_amount: u128, fee: u64) -> int {
    bet_amount * multiplier_spec(prediction_number, over, fee) / 10000
}

/// Whether the payout of a bet can be computed in 128 bits: the fee is at most
/// a million, the divisor is positive and the product fits.
pub open spec fn payout_defined(prediction_number: u64, over: bool, bet_amount: u128, fee: u64) -> bool {
    &&& fee <= 1000000
    &&& over ==> prediction_number * 5 / 3 < 99
    &&& !over ==> prediction_number * 5 / 3 > 0
    &&& bet_amount * multiplier_spec(prediction_number, over, fee) <= u128::MAX
}

/// Why a bet is refused before its round is played, if it is: the position and
/// prediction, the pot's cover, the funds sent, the limits and the sender's
/// address are checked in this order.
pub open spec fn ruler_refusal(
    s: StateModel,
    env: &Env,
    prediction_number: u64,
    position: Seq<char>,
    bet_amount: u128,
) -> Option<ContractError> {
    let over = is_over(position);
    let funds = env.message.sent_funds@;
    if !is_under(position) && !over {
        Some(ContractError::InvalidPosition)
    } else if over && (prediction_number < 2 || prediction_number > 58) {
        Some(ContractError::OverPredictionOutOfRange)
    } else if !over && (prediction_number < 1 || prediction_number > 57) {
        Some(ContractError::UnderPredictionOutOfRange)
    } else if s.pot_pool < payout_spec(prediction_number, over, bet_amount, s.house_fee) {
        Some(
            ContractError::LackOfReserves {
                pot_pool: s.pot_pool,
                payout: payout_spec(prediction_number, over, bet_amount, s.house_fee) as u128,
                bet_amount,
            },
        )
    } else if funds.len() == 0 {
        Some(ContractError::EmptyWallet)
    } else if !all_ukrw(funds) {
        Some(ContractError::WrongDenom)
    } else if funds.last().amount != bet_amount {
        Some(ContractError::AmountMismatch { bet_amount, sent: funds.last().amount })
    } else if bet_amount < s.min_credit {
        Some(ContractError::BelowMinimum)
    } else if bet_amount > s.max_credit {
        Some(ContractError::AboveMaximum)
    } else if env.message.sender_canonical is None {
        Some(ContractError::InvalidAddress)
    } else {
        None
    }
}

/// Whether a bet's position and prediction are valid, so that its payout is computed.
pub open spec fn ruler_prediction_valid(prediction_number: u64, position: Seq<char>) -> bool {
    let over = is_over(position);
    &&& is_under(position) || over
    &&& over ==> 2 <= prediction_number <= 58
    &&& !over ==> 1 <= prediction_number <= 57
}

/// The entropy of a round: the digest of the phrase, the player's canonical
/// address, the chain id and the block height and time, followed by the time.
pub open spec fn entropy_spec(
    phrase: Seq<char>,
    canonical: Seq<u8>,
    chain_id: Seq<char>,
    height: u64,
    time: u64,
) -> Seq<u8> {
    sha256(
        encode_utf8(phrase) + canonical + encode_utf8(chain_id) + u64_be_bytes(height)
            + u64_be_bytes(time),
    ) + u64_be_bytes(time)
}

/// Whether a lucky number wins for the given position and prediction.
pub open spec fn wins(over: bool, prediction_number: u64, lucky_number: u64) -> bool {
    if over {
        lucky_number > prediction_number
    } else {
        lucky_number < prediction_number
    }
}

/// The entropy of the round that `phrase` plays in `env` (the sender's
/// canonical address taken as given).
pub open spec fn round_entropy(env: &Env, phrase: Seq<char>) -> Seq<u8> {
    entropy_spec(
        phrase,
        env.message.sender_canonical.unwrap()@,
        env.block.chain_id@,
        env.block.height,
        env.block.time,
    )
}

/// The lucky number of the round that `phrase` plays in `env` against `s`.
pub open spec fn round_lucky(s: StateModel, env: &Env, phrase: Seq<char>) -> u64 {
    draw(s.seed, round_entropy(env, phrase), 59) as u64
}

/// What a bet needs so that no step of its round overflows: its payout is
/// computable, and where the round is played and lost, the pot can hold the bet.
pub open spec fn ruler_defined(
    s: StateModel,
    env: &Env,
    phrase: Seq<char>,
    prediction_number: u64,
    position: Seq<char>,
    bet_amount: u128,
) -> bool {
    &&& ruler_prediction_valid(prediction_number, position) ==> payout_defined(
        prediction_number,
        is_over(position),
        bet_amount,
        s.house_fee,
    )
    &&& ruler_refusal(s, env, prediction_number, position, bet_amount) is None && !wins(
        is_over(position),
        prediction_number,
        round_lucky(s, env, phrase),
    ) ==> s.pot_pool + bet_amount <= u128::MAX
}

/// The round played with the given lucky number and entropy, and what it does
/// to the pot: a lost bet joins the pot; a won bet is paid from the pot.
pub open spec fn settle_spec(
    s: StateModel,
    env: &Env,
    prediction_number: u64,
    position: Seq<char>,
    bet_amount: u128,
    payout: u128,
    lucky_number: u64,
    entropy: Seq<u8>,
) -> OutcomeModel {
    let win = wins(is_over(position), prediction_number, lucky_number);
    let room = RoomModel {
        start_time: env.block.time,
        entropy,
        prediction_number,
        lucky_number,
        position,
        results: if win { 1 } else { 0 },
        bet_amount,
    };
    if !win {
        OutcomeModel {
            state: s.with_pot((s.pot_pool + bet_amount) as u128),
            room: Some(room),
            response: empty_response(),
        }
    } else {
        OutcomeModel {
            state: s.with_pot((s.pot_pool - payout) as u128),
            room: Some(room),
            response: payout_response(env, payout),
        }
    }
}

/// A bet: refused as `ruler_refusal` says, or else played with the entropy
/// of `entropy_spec` and the lucky number that the draw picks among 59.
pub open spec fn ruler_spec(
    s: StateModel,
    env: &Env,
    phrase: Seq<char>,
    prediction_number: u64,
    position: Seq<char>,
    bet_amount: u128,
) -> Result<OutcomeModel, ContractError> {
    if let Some(e) = ruler_refusal(s, env, prediction_number, position, bet_amount) {
        Err(e)
    } else {
        let entropy = round_entropy(env, phrase);
        let lucky = round_lucky(s, env, phrase);
        Ok(
            settle_spec(
                s,
                env,
                prediction_number,
                position,
                bet_amount,
                payout_spec(prediction_number, is_over(position), bet_amount, s.house_fee) as u128,
                lucky,
                entropy,
            ),
        )
    }
}

/// What a handled message needs so that no step of it overflows.
pub open spec fn handle_defined(s: StateModel, env: &Env, msg: HandleMsg) -> bool {
    match msg {
        HandleMsg::TryPotPoolDeposit {  } => deposit_adds(s, env) ==> s.pot_pool + ukrw_amount(
            env.message.sent_funds@,
        ) <= u128::MAX,
        HandleMsg::Ruler { phrase, prediction_number, position, bet_amount } => ruler_defined(
            s,
            env,
            phrase@,
            prediction_number,
            position@,
            bet_amount,
        ),
        _ => true,
    }
}

/// What a handled message does.
pub open spec fn handle_spec(s: StateModel, env: &Env, msg: HandleMsg) -> Result<OutcomeModel, ContractError> {
    match msg {
        HandleMsg::TryPotPoolDeposit {  } => deposit_spec(s, env),
        HandleMsg::TryChangeMaxcredit { max_credit } => change_max_spec(s, env, max_credit),
        HandleMsg::TryChangeMincredit { min_credit } => change_min_spec(s, env, min_credit),
        HandleMsg::TryChaingeFee { fee } => change_fee_spec(s, env, fee),
        HandleMsg::TryPotPoolWithdraw { amount } => withdraw_spec(s, env, amount),
        HandleMsg::Ruler { phrase, prediction_number, position, bet_amount } => ruler_spec(
            s,
            env,
            phrase@,
            prediction_number,
            position@,
            bet_amount,
        ),
    }
}

/// Why a message is refused before the stored state is read, if it is: a
/// deposit without ukrw, or a bet whose position or prediction is invalid.
pub open spec fn early_refusal(env: &Env, msg: HandleMsg) -> Option<ContractError> {
    match msg {
        HandleMsg::TryPotPoolDeposit {  } => if ukrw_amount(env.message.sent_funds@) == 0 {
            Some(ContractError::NoFunds)
        } else {
            None
        },
        HandleMsg::Ruler { phrase, prediction_number, position, bet_amount } => {
            let over = is_over(position@);
            if !is_under(position@) && !over {
                Some(ContractError::InvalidPosition)
            } else if over && (prediction_number < 2 || prediction_number > 58) {
                Some(ContractError::OverPredictionOutOfRange)
            } else if !over && (prediction_number < 1 || prediction_number > 57) {
                Some(ContractError::UnderPredictionOutOfRange)
            } else {
                None
            }
        },
        _ => None,
    }
}

} // verus!
