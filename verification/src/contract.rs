//! The contract's entry logic: instantiation, the handled messages and the
//! query answers, each on the state read from storage and the call's
//! environment.

use vstd::prelude::*;

use crate::bytes::{append_bytes, bytes_equal, text_is, u64_to_be_bytes};
use crate::chain::{
    BankMsg, Coin, CoinModel, Env, HandleResponse, InitResponse, LogAttribute,
};
use crate::digest::sha256_digest;
use crate::error::ContractError;
use crate::msg::{
    HandleMsg, InitMsg, RoomStateResponse, StateResponse, room_answer, state_answer,
};
use crate::rules::{
    OutcomeModel, all_ukrw, early_refusal, change_fee_spec, change_max_spec, change_min_spec, deposit_adds,
    deposit_spec, entropy_spec, handle_defined, handle_spec, init_state, is_over, owner_check,
    payout_defined, payout_response, payout_spec, ruler_defined, ruler_prediction_valid,
    ruler_refusal, ruler_spec, settle_spec, ukrw_amount, wins, withdraw_spec,
};
use crate::rand::Prng;
use crate::state::{Room, State, StateModel};

verus! {

/// What a handled message leaves behind: the state to store, the round to
/// store under the sender's canonical address (if any), and the response.
pub struct HandleOutcome {
    pub state: State,
    pub room: Option<Room>,
    pub response: HandleResponse,
}

impl View for HandleOutcome {
    type V = OutcomeModel;

    open spec fn view(&self) -> OutcomeModel {
        OutcomeModel {
            state: self.state@,
            room: match self.room {
                Some(r) => Some(r@),
                None => None,
            },
            response: self.response@,
        }
    }
}

/// A handled message's result as a value.
pub open spec fn result_view(r: Result<HandleOutcome, ContractError>) -> Result<OutcomeModel, ContractError> {
    match r {
        Ok(o) => Ok(o@),
        Err(e) => Err(e),
    }
}

/// Why the sender may not act as the owner of `state`, if it may not.
fn check_owner(state: &State, env: &Env) -> (r: Option<ContractError>)
    ensures
        r == owner_check(state@, env),
{
    match &env.message.sender_canonical {
        None => Some(ContractError::InvalidAddress),
        Some(c) => {
            if bytes_equal(c.as_slice(), state.contract_owner.as_slice()) {
                None
            } else {
                Some(ContractError::NotOwner)
            }
        },
    }
}

/// The response that pays `amount` ukrw from the contract to the message's sender.
pub fn can_winer_payout(env: &Env, amount: u128) -> (r: Result<HandleResponse, ContractError>)
    ensures
        r matches Ok(resp) && resp@ == payout_response(env, amount),
{
    let mut coins: Vec<Coin> = Vec::new();
    coins.push(Coin { denom: String::from_str("ukrw"), amount });
    let transfer = BankMsg::Send {
        from_address: env.contract.address.clone(),
        to_address: env.message.sender.clone(),
        amount: coins,
    };
    let mut messages: Vec<BankMsg> = Vec::new();
    messages.push(transfer);
    let mut log: Vec<LogAttribute> = Vec::new();
    log.push(
        LogAttribute { key: String::from_str("action"), value: String::from_str("transfer payout") },
    );
    let res = HandleResponse { messages, log, data: None };
    proof {
        let expected = payout_response(env, amount);
        assert(res@.messages[0].amount =~= seq![CoinModel { denom: "ukrw"@, amount }]);
        assert(res@.messages =~= expected.messages);
        assert(res@.log =~= expected.log);
    }
    Ok(res)
}

/// The amount a winning bet pays: the bet times the multiplier, in
/// ten-thousandths. A position other than `"over"` is paid as `"under"`.
pub fn payout_amount(prediction_number: u64, position: String, bet_amount: &u128, fee: u64) -> (r: Result<u128, ContractError>)
    requires
        payout_defined(prediction_number, is_over(position@), *bet_amount, fee),
    ensures
        r matches Ok(p) && p == payout_spec(prediction_number, is_over(position@), *bet_amount, fee),
{
    let multiplier: u128;
    let payout: u128;
    if text_is(&position, "over") {
        multiplier = (1000000u128 - fee as u128) / (99u128 - (prediction_number as u128 * 5 / 3));
        let bet_amount = *bet_amount;
        payout = bet_amount * multiplier / 10000;
    } else {
        multiplier = (1000000u128 - fee as u128) / (prediction_number as u128 * 5 / 3);
        let bet_amount = *bet_amount;
        payout = bet_amount * multiplier / 10000;
    }
    Ok(payout)
}

/// The ukrw that a deposit brings: the amount of the last ukrw coin sent, or
/// 0 where none was sent.
fn sent_ukrw(funds: &Vec<Coin>) -> (amount: u128)
    ensures
        amount == ukrw_amount(funds@),
{
    let mut amount: u128 = 0;
    let mut i: usize = 0;
    while i < funds.len()
        invariant
            i <= funds@.len(),
            amount == ukrw_amount(funds@.take(i as int)),
        decreases funds@.len() - i,
    {
        assert(funds@.take(i + 1).drop_last() =~= funds@.take(i as int));
        if text_is(&funds[i].denom, "ukrw") {
            amount = funds[i].amount;
        }
        i = i + 1;
    }
    assert(funds@.take(funds@.len() as int) =~= funds@);
    amount
}

/// The owner adds the last ukrw coin sent with the message to the pot.
fn try_pot_pool_deposit(state: State, env: Env) -> (r: Result<HandleOutcome, ContractError>)
    requires
        deposit_adds(state@, &env) ==> state.pot_pool + ukrw_amount(env.message.sent_funds@)
            <= u128::MAX,
    ensures
        result_view(r) == deposit_spec(state@, &env),
{
    let amount_raw = sent_ukrw(&env.message.sent_funds);
    if amount_raw == 0 {
        return Err(ContractError::NoFunds);
    }
    if let Some(e) = check_owner(&state, &env) {
        return Err(e);
    }
    let mut state = state;
    state.pot_pool = state.pot_pool + amount_raw;
    Ok(HandleOutcome { state, room: None, response: HandleResponse::empty() })
}

/// The owner sets the largest accepted bet.
fn try_change_maxcredit(state: State, env: Env, max_credit: &u128) -> (r: Result<HandleOutcome, ContractError>)
    ensures
        result_view(r) == change_max_spec(state@, &env, *max_credit),
{
    if let Some(e) = check_owner(&state, &env) {
        return Err(e);
    }
    let mut state = state;
    state.max_credit = *max_credit;
    Ok(HandleOutcome { state, room: None, response: HandleResponse::empty() })
}

/// The owner sets the smallest accepted bet.
fn try_change_mincredit(state: State, env: Env, min_credit: &u128) -> (r: Result<HandleOutcome, ContractError>)
    ensures
        result_view(r) == change_min_spec(state@, &env, *min_credit),
{
    if let Some(e) = check_owner(&state, &env) {
        return Err(e);
    }
    let mut state = state;
    state.min_credit = *min_credit;
    Ok(HandleOutcome { state, room: None, response: HandleResponse::empty() })
}

/// The owner sets the house fee.
fn try_change_fee(state: State, env: Env, fee: u64) -> (r: Result<HandleOutcome, ContractError>)
    ensures
        result_view(r) == change_fee_spec(state@, &env, fee),
{
    if let Some(e) = check_owner(&state, &env) {
        return Err(e);
    }
    let mut state = state;
    state.house_fee = fee;
    Ok(HandleOutcome { state, room: None, response: HandleResponse::empty() })
}

/// The owner takes `amount` out of the pot and is paid it.
fn try_pot_pool_withdraw(state: State, env: Env, amount: &u128) -> (r: Result<HandleOutcome, ContractError>)
    ensures
        result_view(r) == withdraw_spec(state@, &env, *amount),
{
    if let Some(e) = check_owner(&state, &env) {
        return Err(e);
    }
    let mut state = state;
    if state.pot_pool < *amount {
        return Err(ContractError::InsufficientPotPool);
    } else if state.pot_pool > *amount {
        state.pot_pool = state.pot_pool - *amount;
    }
    let transfer = can_winer_payout(&env, *amount).unwrap();
    Ok(HandleOutcome { state, room: None, response: transfer })
}

/// The entropy of a round, from the player's phrase and canonical address and
/// the block: the digest of phrase, address, chain id, height and time (the
/// numbers big-endian), followed by the time.
pub fn ruler_entropy(phrase: &String, raw_address: &Vec<u8>, env: &Env) -> (entropy: Vec<u8>)
    ensures
        entropy@.len() == 40,
        entropy@ == entropy_spec(
            phrase@,
            raw_address@,
            env.block.chain_id@,
            env.block.height,
            env.block.time,
        ),
{
    let mut rand_entropy: Vec<u8> = Vec::new();
    append_bytes(&mut rand_entropy, phrase.as_str().as_bytes());
    append_bytes(&mut rand_entropy, raw_address.as_slice());
    append_bytes(&mut rand_entropy, env.block.chain_id.as_str().as_bytes());
    let height = u64_to_be_bytes(env.block.height);
    append_bytes(&mut rand_entropy, height.as_slice());
    let time = u64_to_be_bytes(env.block.time);
    append_bytes(&mut rand_entropy, time.as_slice());
    let mut digest = sha256_digest(rand_entropy.as_slice());
    append_bytes(&mut digest, time.as_slice());
    digest
}

/// The funds sent with a bet: refused where there are none or where one
/// coin is not ukrw; otherwise the amount of the last coin.
fn check_bet_funds(funds: &Vec<Coin>) -> (r: Result<u128, ContractError>)
    ensures
        funds@.len() == 0 ==> r == Err::<u128, ContractError>(ContractError::EmptyWallet),
        funds@.len() > 0 && !all_ukrw(funds@) ==> r == Err::<u128, ContractError>(
            ContractError::WrongDenom,
        ),
        funds@.len() > 0 && all_ukrw(funds@) ==> r == Ok::<u128, ContractError>(
            funds@.last().amount,
        ),
{
    if funds.len() == 0 {
        return Err(ContractError::EmptyWallet);
    }
    let mut amount_raw: u128 = 0;
    let mut i: usize = 0;
    while i < funds.len()
        invariant
            i <= funds@.len(),
            funds@.len() > 0,
            forall|j: int| 0 <= j < i ==> #[trigger] funds@[j].denom@ == "ukrw"@,
            i > 0 ==> amount_raw == funds@[i - 1].amount,
        decreases funds@.len() - i,
    {
        if text_is(&funds[i].denom, "ukrw") {
            amount_raw = funds[i].amount;
        } else {
            return Err(ContractError::WrongDenom);
        }
        i = i + 1;
    }
    Ok(amount_raw)
}

/// Plays a round with the given lucky number: records it, and settles the
/// bet against the pot (a lost bet joins the pot; a won bet is paid its
/// `payout` from the pot, which covers it).
pub fn settle_bet(
    state: State,
    env: &Env,
    prediction_number: u64,
    position: String,
    bet_amount: u128,
    payout: u128,
    lucky_number: u64,
    entropy: Vec<u8>,
) -> (outcome: HandleOutcome)
    requires
        !wins(is_over(position@), prediction_number, lucky_number) ==> state.pot_pool + bet_amount
            <= u128::MAX,
        wins(is_over(position@), prediction_number, lucky_number) ==> payout <= state.pot_pool,
    ensures
        outcome@ == settle_spec(
            state@,
            env,
            prediction_number,
            position@,
            bet_amount,
            payout,
            lucky_number,
            entropy@,
        ),
{
    let win_results: bool;
    if text_is(&position, "over") {
        win_results = lucky_number > prediction_number;
    } else {
        win_results = lucky_number < prediction_number;
    }
    let room = Room {
        start_time: env.block.time,
        entropy,
        prediction_number,
        lucky_number,
        position,
        results: if win_results { 1 } else { 0 },
        bet_amount,
    };
    let mut state = state;
    if !win_results {
        state.pot_pool = state.pot_pool + bet_amount;
        HandleOutcome { state, room: Some(room), response: HandleResponse::empty() }
    } else {
        let potout = state.pot_pool - payout;
        let send_result = can_winer_payout(env, payout).unwrap();
        state.pot_pool = potout;
        HandleOutcome { state, room: Some(room), response: send_result }
    }
}

/// Checks a bet before its round is played, in order: position and
/// prediction, the pot's cover of the payout, the funds sent, the limits and
/// the player's address. Gives the payout where all pass.
pub fn bet_refusal(
    state: &State,
    env: &Env,
    prediction_number: u64,
    position: &String,
    bet_amount: u128,
) -> (r: Result<u128, ContractError>)
    requires
        ruler_prediction_valid(prediction_number, position@) ==> payout_defined(
            prediction_number,
            is_over(position@),
            bet_amount,
            state.house_fee,
        ),
    ensures
        match r {
            Ok(payout) => ruler_refusal(state@, env, prediction_number, position@, bet_amount) is None
                && payout == payout_spec(
                prediction_number,
                is_over(position@),
                bet_amount,
                state.house_fee,
            ),
            Err(e) => ruler_refusal(state@, env, prediction_number, position@, bet_amount) == Some(
                e,
            ),
        },
{
    // 1. position
    let over = text_is(position, "over");
    let under = text_is(position, "under");
    if !under && !over {
        return Err(ContractError::InvalidPosition);
    }
    // 2. prediction range
    if over {
        if prediction_number < 2 || prediction_number > 58 {
            return Err(ContractError::OverPredictionOutOfRange);
        }
    } else if under {
        if prediction_number < 1 || prediction_number > 57 {
            return Err(ContractError::UnderPredictionOutOfRange);
        }
    }
    // 3. the pot must cover the payout
    let payout = payout_amount(prediction_number, position.clone(), &bet_amount, state.house_fee).unwrap();
    if state.pot_pool < payout {
        return Err(
            ContractError::LackOfReserves { pot_pool: state.pot_pool, payout, bet_amount },
        );
    }
    // 4. funds and limits
    let amount_raw = match check_bet_funds(&env.message.sent_funds) {
        Ok(a) => a,
        Err(e) => {
            return Err(e);
        },
    };
    if amount_raw != bet_amount {
        return Err(ContractError::AmountMismatch { bet_amount, sent: amount_raw });
    }
    if bet_amount < state.min_credit {
        return Err(ContractError::BelowMinimum);
    }
    if bet_amount > state.max_credit {
        return Err(ContractError::AboveMaximum);
    }
    // 5. the player
    if env.message.sender_canonical.is_none() {
        return Err(ContractError::InvalidAddress);
    }
    Ok(payout)
}

/// A player's bet: checks it as `bet_refusal` does, then draws the lucky
/// number among 59 from the seed and the round's entropy and settles the bet.
pub fn try_ruler(
    state: State,
    env: Env,
    phrase: String,
    prediction_number: u64,
    position: String,
    bet_amount: &u128,
) -> (r: Result<HandleOutcome, ContractError>)
    requires
        ruler_defined(state@, &env, phrase@, prediction_number, position@, *bet_amount),
    ensures
        result_view(r) == ruler_spec(state@, &env, phrase@, prediction_number, position@, *bet_amount),
{
    let payout = match bet_refusal(&state, &env, prediction_number, &position, *bet_amount) {
        Ok(p) => p,
        Err(e) => {
            return Err(e);
        },
    };
    let raw_address = match &env.message.sender_canonical {
        None => {
            return Err(ContractError::InvalidAddress);
        },
        Some(c) => c,
    };
    // entropy and draw
    let rand_entropy = ruler_entropy(&phrase, raw_address, &env);
    let rng = Prng::new(state.seed.as_slice(), rand_entropy.as_slice());
    let lucky_number_u32 = rng.select_one_of(59);
    let lucky_number = lucky_number_u32 as u64;
    // settle
    Ok(
        settle_bet(
            state,
            &env,
            prediction_number,
            position,
            *bet_amount,
            payout,
            lucky_number,
            rand_entropy,
        ),
    )
}

/// Whether the payout of a bet with a valid position and prediction can be
/// computed in 128 bits (always, for a bet whose position or prediction is refused).
pub fn payout_is_defined(prediction_number: u64, position: &String, bet_amount: u128, fee: u64) -> (b: bool)
    ensures
        b == (ruler_prediction_valid(prediction_number, position@) ==> payout_defined(
            prediction_number,
            is_over(position@),
            bet_amount,
            fee,
        )),
{
    let over = text_is(position, "over");
    let under = text_is(position, "under");
    if !under && !over {
        return true;
    }
    if over && (prediction_number < 2 || prediction_number > 58) {
        return true;
    }
    if !over && (prediction_number < 1 || prediction_number > 57) {
        return true;
    }
    if fee > 1000000 {
        return false;
    }
    let multiplier: u128 = if over {
        (1000000u128 - fee as u128) / (99u128 - (prediction_number as u128 * 5 / 3))
    } else {
        (1000000u128 - fee as u128) / (prediction_number as u128 * 5 / 3)
    };
    bet_amount.checked_mul(multiplier).is_some()
}

/// Whether handling `msg` completes without overflow: `handle` may be called
/// exactly where this holds.
pub fn handle_is_defined(state: &State, env: &Env, msg: &HandleMsg) -> (b: bool)
    ensures
        b == handle_defined(state@, env, *msg),
{
    match msg {
        HandleMsg::TryPotPoolDeposit {  } => {
            let amount = sent_ukrw(&env.message.sent_funds);
            if amount == 0 || check_owner(state, env).is_some() {
                true
            } else {
                state.pot_pool.checked_add(amount).is_some()
            }
        },
        HandleMsg::Ruler { phrase, prediction_number, position, bet_amount } => {
            if !payout_is_defined(*prediction_number, position, *bet_amount, state.house_fee) {
                return false;
            }
            match bet_refusal(state, env, *prediction_number, position, *bet_amount) {
                Err(_) => true,
                Ok(_) => {
                    let raw_address = match &env.message.sender_canonical {
                        Some(c) => c,
                        None => {
                            return true;
                        },
                    };
                    let rand_entropy = ruler_entropy(phrase, raw_address, env);
                    let rng = Prng::new(state.seed.as_slice(), rand_entropy.as_slice());
                    let lucky_number = rng.select_one_of(59) as u64;
                    let win = if text_is(position, "over") {
                        lucky_number > *prediction_number
                    } else {
                        lucky_number < *prediction_number
                    };
                    win || state.pot_pool.checked_add(*bet_amount).is_some()
                },
            }
        },
        _ => true,
    }
}

/// Instantiation: the sender becomes the owner of an empty pot with the
/// message's seed, bet limits and house fee.
pub fn init(env: Env, msg: InitMsg) -> (r: Result<(State, InitResponse), ContractError>)
    ensures
        env.message.sender_canonical is None ==> r == Err::<(State, InitResponse), ContractError>(
            ContractError::InvalidAddress,
        ),
        env.message.sender_canonical matches Some(owner) ==> (r matches Ok((state, response)) && state@
            == init_state(owner@, msg.seed@, msg.min_credit, msg.max_credit, msg.house_fee)
            && response@ == crate::chain::empty_response()),
{
    let contract_owner = match env.message.sender_canonical {
        None => {
            return Err(ContractError::InvalidAddress);
        },
        Some(c) => c,
    };
    let mut seed: Vec<u8> = Vec::new();
    append_bytes(&mut seed, msg.seed.as_str().as_bytes());
    let state = State {
        contract_owner,
        pot_pool: 0,
        fee_pool: 0,
        seed,
        min_credit: msg.min_credit,
        max_credit: msg.max_credit,
        house_fee: msg.house_fee,
    };
    Ok((state, InitResponse::empty()))
}

/// Handles a message on the stored state.
pub fn handle(state: State, env: Env, msg: HandleMsg) -> (r: Result<HandleOutcome, ContractError>)
    requires
        handle_defined(state@, &env, msg),
    ensures
        result_view(r) == handle_spec(state@, &env, msg),
{
    match msg {
        HandleMsg::Ruler { phrase, prediction_number, position, bet_amount } => try_ruler(
            state,
            env,
            phrase,
            prediction_number,
            position,
            &bet_amount,
        ),
        HandleMsg::TryPotPoolDeposit {  } => try_pot_pool_deposit(state, env),
        HandleMsg::TryChangeMaxcredit { max_credit } => try_change_maxcredit(
            state,
            env,
            &max_credit,
        ),
        HandleMsg::TryChangeMincredit { min_credit } => try_change_mincredit(
            state,
            env,
            &min_credit,
        ),
        HandleMsg::TryChaingeFee { fee } => try_change_fee(state, env, fee),
        HandleMsg::TryPotPoolWithdraw { amount } => try_pot_pool_withdraw(state, env, &amount),
    }
}

/// The configuration as the state query answers it, with the owner's address
/// in the human-readable form that the chain's address API gave for it. The
/// amounts are cut to their low 64 bits.
pub fn read_state(state: &State, owner: String) -> (r: Result<StateResponse, ContractError>)
    ensures
        r matches Ok(resp) && resp@ == state_answer(state@, owner@),
{
    let pot = state.pot_pool;
    let min_credit = state.min_credit;
    let max_credit = state.max_credit;
    Ok(
        StateResponse {
            contract_owner: owner,
            pot_pool: pot as u64,
            min_credit: min_credit as u64,
            max_credit: max_credit as u64,
            house_fee: state.house_fee,
        },
    )
}

/// A player's last round as the room query answers it; the bet is cut to its
/// low 64 bits.
pub fn read_root_state(room: Room) -> (r: Result<RoomStateResponse, ContractError>)
    ensures
        r matches Ok(resp) && resp@ == room_answer(room@),
{
    let amount = room.bet_amount;
    Ok(
        RoomStateResponse {
            start_time: room.start_time,
            entropy: room.entropy,
            prediction_number: room.prediction_number,
            lucky_number: room.lucky_number,
            position: room.position,
            results: room.results,
            bet_amount: amount as u64,
        },
    )
}

/// Handles a message where that completes without overflow (`Some`), and
/// declines it (`None`) where the original arithmetic would overflow.
pub fn handle_checked(state: State, env: Env, msg: HandleMsg) -> (r: Option<Result<HandleOutcome, ContractError>>)
    ensures
        match r {
            None => !handle_defined(state@, &env, msg),
            Some(res) => handle_defined(state@, &env, msg) && result_view(res) == handle_spec(
                state@,
                &env,
                msg,
            ),
        },
{
    if !handle_is_defined(&state, &env, &msg) {
        return None;
    }
    Some(handle(state, env, msg))
}

/// The refusal that a message meets before the stored state is read, if any:
/// a deposit without ukrw, or a bet whose position or prediction is invalid.
/// Whatever the state, `handle` refuses such a message with this error.
pub fn refusal_before_state(env: &Env, msg: &HandleMsg) -> (r: Option<ContractError>)
    ensures
        r == early_refusal(env, *msg),
        forall|s: StateModel| #[trigger] handle_spec(s, env, *msg) is Err || r is None,
        r matches Some(e) ==> forall|s: StateModel| #[trigger] handle_spec(s, env, *msg) == Err::<
            OutcomeModel,
            ContractError,
        >(e),
{
    match msg {
        HandleMsg::TryPotPoolDeposit {  } => {
            if sent_ukrw(&env.message.sent_funds) == 0 {
                Some(ContractError::NoFunds)
            } else {
                None
            }
        },
        HandleMsg::Ruler { phrase, prediction_number, position, bet_amount } => {
            let over = text_is(position, "over");
            let under = text_is(position, "under");
            if !under && !over {
                Some(ContractError::InvalidPosition)
            } else if over && (*prediction_number < 2 || *prediction_number > 58) {
                Some(ContractError::OverPredictionOutOfRange)
            } else if !over && (*prediction_number < 1 || *prediction_number > 57) {
                Some(ContractError::UnderPredictionOutOfRange)
            } else {
                None
            }
        },
        _ => None,
    }
}

} // verus!
