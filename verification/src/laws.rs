//! Properties of the game that hold across messages and queries.

use vstd::arithmetic::div_mod::{lemma_div_is_ordered, lemma_div_is_ordered_by_denominator};
use vstd::arithmetic::mul::lemma_mul_inequality;
use vstd::prelude::*;

use crate::chain::{Coin, CoinModel, Env, ResponseModel, TransferModel, empty_response};
use crate::digest::sha256;
use crate::bytes::u64_be_bytes;
use vstd::utf8::encode_utf8;
use crate::error::ContractError;
use crate::msg::{HandleMsg, RoomAnswerModel, StateAnswerModel, room_answer, state_answer};
use crate::rand::draw;
use crate::rules::{
    OutcomeModel, change_fee_spec, change_max_spec, change_min_spec, deposit_adds, handle_spec,
    init_state, is_over, multiplier_spec, owner_check, payout_response, payout_spec,
    payout_defined, ruler_defined, ruler_prediction_valid, ruler_spec, ukrw_amount, wins,
};
use crate::state::{RoomModel, StateModel};

verus! {

/// The ukrw that a response pays out: the amounts of all coins of all its transfers.
pub open spec fn paid_out(r: ResponseModel) -> int {
    r.messages.fold_left(
        0int,
        |acc: int, t: crate::chain::TransferModel| acc + t.amount.fold_left(
            0int,
            |a: int, c: crate::chain::CoinModel| a + c.amount,
        ),
    )
}

proof fn lemma_paid_out_empty()
    ensures
        paid_out(empty_response()) == 0,
{
    reveal_with_fuel(Seq::fold_left, 1);
}

proof fn lemma_paid_out_payout(env: &Env, amount: u128)
    ensures
        paid_out(payout_response(env, amount)) == amount,
{
    let r = payout_response(env, amount);
    reveal_with_fuel(Seq::fold_left, 2);
    assert(r.messages.drop_last() =~= Seq::empty());
    assert(r.messages.last().amount.drop_last() =~= Seq::empty());
}

/// Only the owner funds, drains or configures the pot: a deposit, withdrawal
/// or change of limits or fee from any other sender (or from one whose
/// address the chain refuses) is refused.
pub proof fn law_admin_needs_owner(s: StateModel, env: &Env, msg: HandleMsg)
    requires
        !(msg is Ruler),
        owner_check(s, env) is Some,
    ensures
        handle_spec(s, env, msg) is Err,
{
}

/// The owner's deposit adds the ukrw sent to the pot, changes nothing else
/// and pays nothing out.
pub proof fn law_deposit_adds_to_pot(s: StateModel, env: &Env)
    requires
        deposit_adds(s, env),
        s.pot_pool + ukrw_amount(env.message.sent_funds@) <= u128::MAX,
    ensures
        handle_spec(s, env, HandleMsg::TryPotPoolDeposit {  }) matches Ok(o) && o.state == s.with_pot(
            (s.pot_pool + ukrw_amount(env.message.sent_funds@)) as u128,
        ) && o.room is None && paid_out(o.response) == 0,
{
    lemma_paid_out_empty();
}

/// A withdrawal of less than the pot holds takes the amount out of the pot
/// and pays exactly that amount to the owner: the pot and the payment add up
/// to the pot before.
pub proof fn law_withdraw_moves_amount(s: StateModel, env: &Env, amount: u128)
    requires
        owner_check(s, env) is None,
        amount < s.pot_pool,
    ensures
        handle_spec(s, env, HandleMsg::TryPotPoolWithdraw { amount }) matches Ok(o)
            && o.state == s.with_pot((s.pot_pool - amount) as u128)
            && o.state.pot_pool + paid_out(o.response) == s.pot_pool
            && o.response == payout_response(env, amount),
{
    lemma_paid_out_payout(env, amount);
}

/// A withdrawal of more than the pot holds is refused.
pub proof fn law_withdraw_bounded_by_pot(s: StateModel, env: &Env, amount: u128)
    requires
        owner_check(s, env) is None,
        amount > s.pot_pool,
    ensures
        handle_spec(s, env, HandleMsg::TryPotPoolWithdraw { amount }) == Err::<
            OutcomeModel,
            ContractError,
        >(ContractError::InsufficientPotPool),
{
}

/// The state query answers, after instantiation, the limits and fee that
/// instantiation was given (cut to 64 bits) and an empty pot.
pub proof fn law_init_read_back(
    owner: Seq<u8>,
    owner_human: Seq<char>,
    seed: Seq<char>,
    min_credit: u128,
    max_credit: u128,
    house_fee: u64,
)
    ensures
        state_answer(init_state(owner, seed, min_credit, max_credit, house_fee), owner_human)
            == (StateAnswerModel {
            contract_owner: owner_human,
            pot_pool: 0,
            min_credit: min_credit as u64,
            max_credit: max_credit as u64,
            house_fee,
        }),
{
}

/// After the owner sets a limit or the fee, the state query answers the new
/// value (limits cut to 64 bits) and the same values as before for the rest.
pub proof fn law_config_read_back(s: StateModel, env: &Env, owner_human: Seq<char>, credit: u128, fee: u64)
    requires
        owner_check(s, env) is None,
    ensures
        change_max_spec(s, env, credit) matches Ok(o) && state_answer(o.state, owner_human)
            == (StateAnswerModel { max_credit: credit as u64, ..state_answer(s, owner_human) }),
        change_min_spec(s, env, credit) matches Ok(o) && state_answer(o.state, owner_human)
            == (StateAnswerModel { min_credit: credit as u64, ..state_answer(s, owner_human) }),
        change_fee_spec(s, env, fee) matches Ok(o) && state_answer(o.state, owner_human)
            == (StateAnswerModel { house_fee: fee, ..state_answer(s, owner_human) }),
{
}

/// A played round keeps the pot's books: the pot after the round and what the
/// round pays out add up to the pot before plus the bet where it was lost;
/// nothing but the pot changes in the state.
pub proof fn law_round_keeps_books(
    s: StateModel,
    env: &Env,
    phrase: Seq<char>,
    prediction_number: u64,
    position: Seq<char>,
    bet_amount: u128,
)
    requires
        ruler_defined(s, env, phrase, prediction_number, position, bet_amount),
        ruler_spec(s, env, phrase, prediction_number, position, bet_amount) is Ok,
    ensures
        ruler_spec(s, env, phrase, prediction_number, position, bet_amount) matches Ok(o) && o.room
            matches Some(room) && o.state == s.with_pot(o.state.pot_pool) && o.state.pot_pool
            + paid_out(o.response) == s.pot_pool + (if room.results == 0 {
            bet_amount as int
        } else {
            0
        }),
{
    lemma_paid_out_empty();
    let o = ruler_spec(s, env, phrase, prediction_number, position, bet_amount)->Ok_0;
    let payout = payout_spec(prediction_number, is_over(position), bet_amount, s.house_fee) as u128;
    lemma_paid_out_payout(env, payout);
}

/// A won round pays the winner exactly the payout, to the player, and the pot
/// (which covers it) drops by exactly that amount.
pub proof fn law_win_paid_from_cover(
    s: StateModel,
    env: &Env,
    phrase: Seq<char>,
    prediction_number: u64,
    position: Seq<char>,
    bet_amount: u128,
)
    requires
        ruler_defined(s, env, phrase, prediction_number, position, bet_amount),
        ruler_spec(s, env, phrase, prediction_number, position, bet_amount) matches Ok(o)
            && o.room matches Some(room) && room.results == 1,
    ensures
        ({
            let payout = payout_spec(prediction_number, is_over(position), bet_amount, s.house_fee);
            let o = ruler_spec(s, env, phrase, prediction_number, position, bet_amount)->Ok_0;
            &&& s.pot_pool >= payout
            &&& o.response == payout_response(env, payout as u128)
            &&& o.state.pot_pool == s.pot_pool - payout
        }),
{
}

/// A bet on a valid position and prediction whose payout the pot cannot
/// cover is refused.
pub proof fn law_reserves_refused(
    s: StateModel,
    env: &Env,
    phrase: Seq<char>,
    prediction_number: u64,
    position: Seq<char>,
    bet_amount: u128,
)
    requires
        ruler_prediction_valid(prediction_number, position),
        s.pot_pool < payout_spec(prediction_number, is_over(position), bet_amount, s.house_fee),
    ensures
        ruler_spec(s, env, phrase, prediction_number, position, bet_amount) matches Err(e)
            && e is LackOfReserves,
{
}

/// A played round draws its lucky number among 0..=58, records it, and
/// records a win exactly where the lucky number falls on the side of the
/// prediction that the position names.
pub proof fn law_lucky_number_decides(
    s: StateModel,
    env: &Env,
    phrase: Seq<char>,
    prediction_number: u64,
    position: Seq<char>,
    bet_amount: u128,
)
    requires
        ruler_spec(s, env, phrase, prediction_number, position, bet_amount) is Ok,
    ensures
        ruler_spec(s, env, phrase, prediction_number, position, bet_amount) matches Ok(o) && o.room
            matches Some(room) && room.lucky_number < 59 && (room.results == 1 <==> wins(
            is_over(position),
            prediction_number,
            room.lucky_number,
        )) && (room.results == 0 || room.results == 1),
{
    let o = ruler_spec(s, env, phrase, prediction_number, position, bet_amount)->Ok_0;
    let room = o.room->Some_0;
    let entropy = room.entropy;
    assert(0 <= draw(s.seed, entropy, 59) < 59);
}

/// The room query answers, for the round a bet played, the bet's prediction,
/// position, time and amount (cut to 64 bits).
pub proof fn law_round_read_back(
    s: StateModel,
    env: &Env,
    phrase: Seq<char>,
    prediction_number: u64,
    position: Seq<char>,
    bet_amount: u128,
)
    requires
        ruler_spec(s, env, phrase, prediction_number, position, bet_amount) is Ok,
    ensures
        ruler_spec(s, env, phrase, prediction_number, position, bet_amount) matches Ok(o) && o.room
            matches Some(room) && room_answer(room).prediction_number == prediction_number
            && room_answer(room).position == position && room_answer(room).start_time
            == env.block.time && room_answer(room).bet_amount == bet_amount as u64,
{
}

/// A larger bet never pays less.
pub proof fn law_payout_monotone_in_bet(
    prediction_number: u64,
    over: bool,
    fee: u64,
    bet_small: u128,
    bet_large: u128,
)
    requires
        fee <= 1000000,
        over ==> prediction_number * 5 / 3 < 99,
        !over ==> prediction_number * 5 / 3 > 0,
        bet_small <= bet_large,
    ensures
        payout_spec(prediction_number, over, bet_small, fee) <= payout_spec(
            prediction_number,
            over,
            bet_large,
            fee,
        ),
{
    let d = if over {
        99 - prediction_number * 5 / 3
    } else {
        prediction_number * 5 / 3
    };
    let m = multiplier_spec(prediction_number, over, fee);
    assert(m == (1000000 - fee) / d);
    lemma_div_is_ordered(0, 1000000 - fee, d);
    lemma_mul_inequality(bet_small as int, bet_large as int, m);
    lemma_div_is_ordered(bet_small * m, bet_large * m, 10000);
}

/// Under: the higher the prediction (the likelier the win), the smaller the
/// multiplier. Over: the higher the prediction (the less likely the win),
/// the larger the multiplier.
pub proof fn law_multiplier_follows_risk(fee: u64, low: u64, high: u64)
    requires
        fee <= 1000000,
        1 <= low <= high <= 57,
    ensures
        multiplier_spec(high, false, fee) <= multiplier_spec(low, false, fee),
        low >= 2 && high <= 58 ==> multiplier_spec(low, true, fee) <= multiplier_spec(high, true, fee),
{
    let x = 1000000 - fee;
    assert(low * 5 / 3 <= high * 5 / 3);
    assert(low * 5 / 3 >= 1);
    lemma_div_is_ordered_by_denominator(x, low * 5 / 3, high * 5 / 3);
    assert(99 - high * 5 / 3 >= 1);
    lemma_div_is_ordered_by_denominator(x, 99 - high * 5 / 3, 99 - low * 5 / 3);
}

/// The owner's deposit followed by the owner's withdrawal of the same amount
/// leaves the pot as it was (where it held something) and pays that amount
/// to the withdrawing sender.
pub proof fn law_deposit_then_withdraw_restores(s: StateModel, env_d: &Env, env_w: &Env)
    requires
        deposit_adds(s, env_d),
        s.pot_pool + ukrw_amount(env_d.message.sent_funds@) <= u128::MAX,
        s.pot_pool > 0,
        owner_check(s, env_w) is None,
    ensures
        handle_spec(s, env_d, HandleMsg::TryPotPoolDeposit {  }) matches Ok(d) && handle_spec(
            d.state,
            env_w,
            HandleMsg::TryPotPoolWithdraw { amount: ukrw_amount(env_d.message.sent_funds@) },
        ) matches Ok(w) && w.state == s && w.response == payout_response(
            env_w,
            ukrw_amount(env_d.message.sent_funds@),
        ),
{
    let d = handle_spec(s, env_d, HandleMsg::TryPotPoolDeposit {  })->Ok_0;
    assert(owner_check(d.state, env_w) == owner_check(s, env_w));
    let w = handle_spec(
        d.state,
        env_w,
        HandleMsg::TryPotPoolWithdraw { amount: ukrw_amount(env_d.message.sent_funds@) },
    )->Ok_0;
    assert(w.state =~= s);
}

/// What a winning bet pays, written out: the bet times the multiplier (a
/// million less the fee, over `prediction * 5 / 3` under, or over
/// `99 - prediction * 5 / 3` over, in whole numbers), in ten-thousandths.
/// A position reads "over" only when it is that text, and "under" is not it.
pub proof fn law_payout_formula(prediction_number: u64, fee: u64, bet_amount: u128)
    ensures
        payout_spec(prediction_number, false, bet_amount, fee) == bet_amount * ((1000000 - fee) / (
        prediction_number * 5 / 3)) / 10000,
        payout_spec(prediction_number, true, bet_amount, fee) == bet_amount * ((1000000 - fee) / (99
            - prediction_number * 5 / 3)) / 10000,
        is_over("over"@),
        !is_over("under"@),
        forall|p: Seq<char>| is_over(p) <==> p == "over"@,
{
    reveal_strlit("over");
    reveal_strlit("under");
    assert("over"@.len() != "under"@.len());
}

/// A bet on a valid position and prediction, sent as ukrw coins whose last
/// amount is the bet, within the limits, from an address the chain accepts,
/// is played whenever the pot holds at least the payout (written out as in
/// `law_payout_formula`); and it is then played against the entropy of its
/// phrase, address and block and the lucky number drawn from them.
pub proof fn law_covered_bet_is_played(
    s: StateModel,
    env: &Env,
    phrase: Seq<char>,
    prediction_number: u64,
    position: Seq<char>,
    bet_amount: u128,
)
    requires
        (position == "over"@ && 2 <= prediction_number <= 58) || (position == "under"@ && 1
            <= prediction_number <= 57),
        s.house_fee <= 1000000,
        env.message.sent_funds@.len() > 0,
        forall|i: int|
            0 <= i < env.message.sent_funds@.len() ==> #[trigger] env.message.sent_funds@[i].denom@
                == "ukrw"@,
        env.message.sent_funds@.last().amount == bet_amount,
        s.min_credit <= bet_amount <= s.max_credit,
        env.message.sender_canonical is Some,
        position == "over"@ ==> s.pot_pool >= bet_amount * ((1000000 - s.house_fee) / (99
            - prediction_number * 5 / 3)) / 10000,
        position == "under"@ ==> s.pot_pool >= bet_amount * ((1000000 - s.house_fee) / (
        prediction_number * 5 / 3)) / 10000,
    ensures
        ruler_spec(s, env, phrase, prediction_number, position, bet_amount) matches Ok(o) && o.room
            matches Some(room) && room.prediction_number == prediction_number && room.position
            == position && room.bet_amount == bet_amount && room.start_time == env.block.time
            && room.entropy == sha256(
            encode_utf8(phrase) + env.message.sender_canonical.unwrap()@ + encode_utf8(
                env.block.chain_id@,
            ) + u64_be_bytes(env.block.height) + u64_be_bytes(env.block.time),
        ) + u64_be_bytes(env.block.time),
{
    law_payout_formula(prediction_number, s.house_fee, bet_amount);
}

/// A bet on a valid position and prediction whose payout (written out) the
/// pot cannot cover is refused for lack of reserves, naming the pot, that
/// payout and the bet.
pub proof fn law_uncovered_bet_is_refused(
    s: StateModel,
    env: &Env,
    phrase: Seq<char>,
    prediction_number: u64,
    position: Seq<char>,
    bet_amount: u128,
)
    requires
        (position == "over"@ && 2 <= prediction_number <= 58) || (position == "under"@ && 1
            <= prediction_number <= 57),
    ensures
        ({
            let payout: int = if position == "over"@ {
                bet_amount * ((1000000 - s.house_fee) / (99 - prediction_number * 5 / 3)) / 10000
            } else {
                bet_amount * ((1000000 - s.house_fee) / (prediction_number * 5 / 3)) / 10000
            };
            s.pot_pool < payout ==> ruler_spec(s, env, phrase, prediction_number, position, bet_amount)
                == Err::<OutcomeModel, ContractError>(
                ContractError::LackOfReserves { pot_pool: s.pot_pool, payout: payout as u128, bet_amount },
            )
        }),
{
    law_payout_formula(prediction_number, s.house_fee, bet_amount);
}

proof fn lemma_last_ukrw(funds: Seq<Coin>, k: int)
    requires
        0 <= k < funds.len(),
        funds[k].denom@ == "ukrw"@,
        forall|j: int| k < j < funds.len() ==> #[trigger] funds[j].denom@ != "ukrw"@,
    ensures
        ukrw_amount(funds) == funds[k].amount,
    decreases funds.len(),
{
    if k < funds.len() - 1 {
        assert(funds.last().denom@ != "ukrw"@);
        let rest = funds.drop_last();
        assert forall|j: int| k < j < rest.len() implies #[trigger] rest[j].denom@ != "ukrw"@ by {
            assert(rest[j] == funds[j]);
        }
        lemma_last_ukrw(rest, k);
    }
}

proof fn lemma_no_ukrw(funds: Seq<Coin>)
    requires
        forall|j: int| 0 <= j < funds.len() ==> #[trigger] funds[j].denom@ != "ukrw"@,
    ensures
        ukrw_amount(funds) == 0,
    decreases funds.len(),
{
    if funds.len() > 0 {
        let rest = funds.drop_last();
        assert forall|j: int| 0 <= j < rest.len() implies #[trigger] rest[j].denom@ != "ukrw"@ by {
            assert(rest[j] == funds[j]);
        }
        lemma_no_ukrw(rest);
    }
}

/// The ukrw a deposit brings is the full amount of the last ukrw coin sent
/// (any amount), and nothing where no ukrw coin is sent; an owner's deposit
/// adds exactly that amount to the pot and changes nothing else.
pub proof fn law_deposit_amount(s: StateModel, env: &Env, k: int)
    requires
        0 <= k < env.message.sent_funds@.len(),
        env.message.sent_funds@[k].denom@ == "ukrw"@,
        forall|j: int|
            k < j < env.message.sent_funds@.len() ==> #[trigger] env.message.sent_funds@[j].denom@
                != "ukrw"@,
    ensures
        ukrw_amount(env.message.sent_funds@) == env.message.sent_funds@[k].amount,
        (env.message.sent_funds@[k].amount != 0 && (env.message.sender_canonical matches Some(c)
            && c@ == s.contract_owner) && s.pot_pool + env.message.sent_funds@[k].amount
            <= u128::MAX) ==> (handle_spec(s, env, HandleMsg::TryPotPoolDeposit {  }) matches Ok(o)
            && o.state.pot_pool == s.pot_pool + env.message.sent_funds@[k].amount
            && o.state.contract_owner == s.contract_owner && o.state.seed == s.seed
            && o.state.min_credit == s.min_credit && o.state.max_credit == s.max_credit
            && o.state.house_fee == s.house_fee && o.state.fee_pool == s.fee_pool),
{
    lemma_last_ukrw(env.message.sent_funds@, k);
}

/// A deposit with no ukrw coin is refused as bringing no funds.
pub proof fn law_deposit_without_ukrw(s: StateModel, env: &Env)
    requires
        forall|j: int|
            0 <= j < env.message.sent_funds@.len() ==> #[trigger] env.message.sent_funds@[j].denom@
                != "ukrw"@,
    ensures
        handle_spec(s, env, HandleMsg::TryPotPoolDeposit {  }) == Err::<OutcomeModel, ContractError>(
            ContractError::NoFunds,
        ),
{
    lemma_no_ukrw(env.message.sent_funds@);
}

/// The state query answers the owner's address as given, the pot, the two
/// limits (each cut to its low 64 bits) and the fee of the state it reads.
pub proof fn law_state_answer(s: StateModel, owner: Seq<char>)
    ensures
        state_answer(s, owner).contract_owner == owner,
        state_answer(s, owner).pot_pool as int == s.pot_pool % 0x1_0000_0000_0000_0000,
        state_answer(s, owner).min_credit as int == s.min_credit % 0x1_0000_0000_0000_0000,
        state_answer(s, owner).max_credit as int == s.max_credit % 0x1_0000_0000_0000_0000,
        state_answer(s, owner).house_fee == s.house_fee,
{
    let p = s.pot_pool;
    let mi = s.min_credit;
    let ma = s.max_credit;
    assert(p as u64 as int == p % 0x1_0000_0000_0000_0000) by (bit_vector);
    assert(mi as u64 as int == mi % 0x1_0000_0000_0000_0000) by (bit_vector);
    assert(ma as u64 as int == ma % 0x1_0000_0000_0000_0000) by (bit_vector);
}

/// After the owner deposits `d` ukrw into an empty pot, the state query
/// answers a pot of `d` (where `d` fits in 64 bits).
pub proof fn law_deposit_read_back(s: StateModel, env: &Env, owner: Seq<char>, k: int)
    requires
        s.pot_pool == 0,
        0 <= k < env.message.sent_funds@.len(),
        env.message.sent_funds@[k].denom@ == "ukrw"@,
        forall|j: int|
            k < j < env.message.sent_funds@.len() ==> #[trigger] env.message.sent_funds@[j].denom@
                != "ukrw"@,
        0 < env.message.sent_funds@[k].amount <= u64::MAX,
        env.message.sender_canonical matches Some(c) && c@ == s.contract_owner,
    ensures
        handle_spec(s, env, HandleMsg::TryPotPoolDeposit {  }) matches Ok(o) && state_answer(
            o.state,
            owner,
        ).pot_pool == env.message.sent_funds@[k].amount,
{
    law_deposit_amount(s, env, k);
    let o = handle_spec(s, env, HandleMsg::TryPotPoolDeposit {  })->Ok_0;
    law_state_answer(o.state, owner);
}

/// The room query answers every field of the round it reads, the bet cut to
/// its low 64 bits.
pub proof fn law_room_answer(r: RoomModel)
    ensures
        room_answer(r).start_time == r.start_time,
        room_answer(r).entropy == r.entropy,
        room_answer(r).prediction_number == r.prediction_number,
        room_answer(r).lucky_number == r.lucky_number,
        room_answer(r).position == r.position,
        room_answer(r).results == r.results,
        room_answer(r).bet_amount as int == r.bet_amount % 0x1_0000_0000_0000_0000,
{
    let b = r.bet_amount;
    assert(b as u64 as int == b % 0x1_0000_0000_0000_0000) by (bit_vector);
}

/// A played round reads back, through the room query, the lucky number that
/// decided it: the answer's result is a win exactly where that lucky number
/// lies beyond the prediction (above it over, below it under), and the lucky
/// number is the first four digest bytes of the seed and the round's entropy,
/// read big-endian, modulo 59.
pub proof fn law_round_reads_back_lucky(
    s: StateModel,
    env: &Env,
    phrase: Seq<char>,
    prediction_number: u64,
    position: Seq<char>,
    bet_amount: u128,
)
    requires
        ruler_spec(s, env, phrase, prediction_number, position, bet_amount) is Ok,
    ensures
        ruler_spec(s, env, phrase, prediction_number, position, bet_amount) matches Ok(o) && o.room
            matches Some(room) && ({
            let a = room_answer(room);
            let d = sha256(s.seed + room.entropy);
            &&& a.lucky_number == room.lucky_number
            &&& a.lucky_number < 59
            &&& a.lucky_number as int == (d[0] * 16777216 + d[1] * 65536 + d[2] * 256 + d[3]) % 59
            &&& position == "over"@ ==> (a.results == 1 <==> a.lucky_number > prediction_number)
            &&& position == "under"@ ==> (a.results == 1 <==> a.lucky_number < prediction_number)
            &&& (a.results == 0 || a.results == 1)
        }),
{
    law_payout_formula(prediction_number, s.house_fee, bet_amount);
    let o = ruler_spec(s, env, phrase, prediction_number, position, bet_amount)->Ok_0;
    let room = o.room->Some_0;
    assert(0 <= draw(s.seed, room.entropy, 59) < 59);
}

/// A played round moves the pot as the bet's outcome says, written out: a
/// lost bet (the recorded result 0) adds the bet to the pot and pays nothing;
/// a won bet takes the payout out of the pot and pays it, in one ukrw coin,
/// from the contract to the player; nothing else in the state changes.
pub proof fn law_round_moves_pot(
    s: StateModel,
    env: &Env,
    phrase: Seq<char>,
    prediction_number: u64,
    position: Seq<char>,
    bet_amount: u128,
)
    requires
        ruler_defined(s, env, phrase, prediction_number, position, bet_amount),
        ruler_spec(s, env, phrase, prediction_number, position, bet_amount) is Ok,
    ensures
        ruler_spec(s, env, phrase, prediction_number, position, bet_amount) matches Ok(o) && o.room
            matches Some(room) && ({
            let payout: int = if position == "over"@ {
                bet_amount * ((1000000 - s.house_fee) / (99 - prediction_number * 5 / 3)) / 10000
            } else {
                bet_amount * ((1000000 - s.house_fee) / (prediction_number * 5 / 3)) / 10000
            };
            &&& o.state.contract_owner == s.contract_owner && o.state.seed == s.seed
                && o.state.min_credit == s.min_credit && o.state.max_credit == s.max_credit
                && o.state.house_fee == s.house_fee && o.state.fee_pool == s.fee_pool
            &&& room.results == 0 ==> o.state.pot_pool == s.pot_pool + bet_amount
                && o.response.messages.len() == 0
            &&& room.results == 1 ==> o.state.pot_pool == s.pot_pool - payout
                && o.response.messages.len() == 1
                && o.response.messages[0].from_address == env.contract.address@
                && o.response.messages[0].to_address == env.message.sender@
                && o.response.messages[0].amount.len() == 1
                && o.response.messages[0].amount[0].denom == "ukrw"@
                && o.response.messages[0].amount[0].amount == payout
        }),
{
    law_payout_formula(prediction_number, s.house_fee, bet_amount);
}

/// Only the owner's canonical address acts as the owner: an accepted address
/// equal to the stored owner passes; any other, or a refused one, does not.
pub proof fn law_owner_is_stored_address(s: StateModel, env: &Env)
    ensures
        owner_check(s, env) is None <==> (env.message.sender_canonical matches Some(c) && c@
            == s.contract_owner),
        env.message.sender_canonical is None ==> owner_check(s, env) == Some(
            ContractError::InvalidAddress,
        ),
{
}

/// Instantiation stores, written out: the given owner, an empty pot and fee
/// pool, the seed's UTF-8 bytes, and the given limits and fee.
pub proof fn law_init_state_fields(
    owner: Seq<u8>,
    seed: Seq<char>,
    min_credit: u128,
    max_credit: u128,
    house_fee: u64,
)
    ensures
        ({
            let st = init_state(owner, seed, min_credit, max_credit, house_fee);
            &&& st.contract_owner == owner
            &&& st.pot_pool == 0
            &&& st.fee_pool == 0
            &&& st.seed == encode_utf8(seed)
            &&& st.min_credit == min_credit
            &&& st.max_credit == max_credit
            &&& st.house_fee == house_fee
        }),
{
}

/// A withdrawal by the owner, written out: refused above the pot; below the
/// pot the pot drops by the amount; at exactly the pot the pot is kept; in
/// both accepted cases one ukrw coin of the amount goes from the contract to
/// the sender.
pub proof fn law_withdraw_written_out(s: StateModel, env: &Env, amount: u128)
    requires
        owner_check(s, env) is None,
    ensures
        amount > s.pot_pool ==> handle_spec(s, env, HandleMsg::TryPotPoolWithdraw { amount })
            is Err,
        amount <= s.pot_pool ==> (handle_spec(s, env, HandleMsg::TryPotPoolWithdraw { amount })
            matches Ok(o) && (amount < s.pot_pool ==> o.state.pot_pool == s.pot_pool - amount) && (
        amount == s.pot_pool ==> o.state.pot_pool == s.pot_pool) && o.state.contract_owner
            == s.contract_owner && o.state.min_credit == s.min_credit && o.state.max_credit
            == s.max_credit && o.state.house_fee == s.house_fee && o.response.messages.len() == 1
            && o.response.messages[0].from_address == env.contract.address@
            && o.response.messages[0].to_address == env.message.sender@
            && o.response.messages[0].amount.len() == 1
            && o.response.messages[0].amount[0].denom == "ukrw"@
            && o.response.messages[0].amount[0].amount == amount),
{
}

/// The refusals of a bet, written out, in the order the checks run: an
/// unknown position; a prediction outside 2..=58 over or 1..=57 under; then,
/// for a pot that covers the payout, no funds; a coin that is not ukrw; a
/// last coin whose amount is not the bet; a bet below the minimum; above the
/// maximum; an address the chain refuses.
pub proof fn law_bet_refusals_written_out(
    s: StateModel,
    env: &Env,
    phrase: Seq<char>,
    prediction_number: u64,
    position: Seq<char>,
    bet_amount: u128,
)
    ensures
        position != "over"@ && position != "under"@ ==> ruler_spec(
            s,
            env,
            phrase,
            prediction_number,
            position,
            bet_amount,
        ) == Err::<OutcomeModel, ContractError>(ContractError::InvalidPosition),
        position == "over"@ && (prediction_number < 2 || prediction_number > 58) ==> ruler_spec(
            s,
            env,
            phrase,
            prediction_number,
            position,
            bet_amount,
        ) == Err::<OutcomeModel, ContractError>(ContractError::OverPredictionOutOfRange),
        position == "under"@ && (prediction_number < 1 || prediction_number > 57) ==> ruler_spec(
            s,
            env,
            phrase,
            prediction_number,
            position,
            bet_amount,
        ) == Err::<OutcomeModel, ContractError>(ContractError::UnderPredictionOutOfRange),
        ({
            let funds = env.message.sent_funds@;
            let payout: int = if position == "over"@ {
                bet_amount * ((1000000 - s.house_fee) / (99 - prediction_number * 5 / 3)) / 10000
            } else {
                bet_amount * ((1000000 - s.house_fee) / (prediction_number * 5 / 3)) / 10000
            };
            let r = ruler_spec(s, env, phrase, prediction_number, position, bet_amount);
            ((position == "over"@ && 2 <= prediction_number <= 58) || (position == "under"@ && 1
                <= prediction_number <= 57)) && s.pot_pool >= payout ==> {
                &&& funds.len() == 0 ==> r == Err::<OutcomeModel, ContractError>(
                    ContractError::EmptyWallet,
                )
                &&& (funds.len() > 0 && exists|i: int|
                    0 <= i < funds.len() && #[trigger] funds[i].denom@ != "ukrw"@) ==> r == Err::<
                    OutcomeModel,
                    ContractError,
                >(ContractError::WrongDenom)
                &&& (funds.len() > 0 && forall|i: int|
                    0 <= i < funds.len() ==> #[trigger] funds[i].denom@ == "ukrw"@) ==> {
                    &&& funds.last().amount != bet_amount ==> r == Err::<OutcomeModel, ContractError>(
                        ContractError::AmountMismatch { bet_amount, sent: funds.last().amount },
                    )
                    &&& funds.last().amount == bet_amount && bet_amount < s.min_credit ==> r == Err::<
                        OutcomeModel,
                        ContractError,
                    >(ContractError::BelowMinimum)
                    &&& funds.last().amount == bet_amount && s.min_credit <= bet_amount
                        && bet_amount > s.max_credit ==> r == Err::<OutcomeModel, ContractError>(
                        ContractError::AboveMaximum,
                    )
                    &&& funds.last().amount == bet_amount && s.min_credit <= bet_amount
                        <= s.max_credit && env.message.sender_canonical is None ==> r == Err::<
                        OutcomeModel,
                        ContractError,
                    >(ContractError::InvalidAddress)
                }
            }
        }),
{
    law_payout_formula(prediction_number, s.house_fee, bet_amount);
}

/// The payout response, written out: one transfer, from the contract to the
/// message's sender, of one ukrw coin of the amount; one log entry
/// `action = transfer payout`; no data.
pub proof fn law_payout_response_written_out(env: &Env, amount: u128)
    ensures
        payout_response(env, amount).messages.len() == 1,
        payout_response(env, amount).messages[0].from_address == env.contract.address@,
        payout_response(env, amount).messages[0].to_address == env.message.sender@,
        payout_response(env, amount).messages[0].amount.len() == 1,
        payout_response(env, amount).messages[0].amount[0].denom == "ukrw"@,
        payout_response(env, amount).messages[0].amount[0].amount == amount,
        payout_response(env, amount).log.len() == 1,
        payout_response(env, amount).log[0] == ("action"@, "transfer payout"@),
        payout_response(env, amount).data is None,
{
}

/// The eight big-endian bytes of a number spell that number back.
pub proof fn law_be_bytes_value(x: u64)
    ensures
        u64_be_bytes(x).len() == 8,
        ({
            let b = u64_be_bytes(x);
            b[0] * 0x100_0000_0000_0000 + b[1] * 0x1_0000_0000_0000 + b[2] * 0x100_0000_0000
                + b[3] * 0x1_0000_0000 + b[4] * 0x100_0000 + b[5] * 0x1_0000 + b[6] * 0x100 + b[7]
                == x
        }),
{
    let b0 = (x >> 56u64) as u8;
    let b1 = (x >> 48u64) as u8;
    let b2 = (x >> 40u64) as u8;
    let b3 = (x >> 32u64) as u8;
    let b4 = (x >> 24u64) as u8;
    let b5 = (x >> 16u64) as u8;
    let b6 = (x >> 8u64) as u8;
    let b7 = x as u8;
    assert(b0 as u64 * 0x100_0000_0000_0000u64 + b1 as u64 * 0x1_0000_0000_0000u64 + b2 as u64
        * 0x100_0000_0000u64 + b3 as u64 * 0x1_0000_0000u64 + b4 as u64 * 0x100_0000u64 + b5 as u64
        * 0x1_0000u64 + b6 as u64 * 0x100u64 + b7 as u64 == x) by (bit_vector)
        requires
            b0 == (x >> 56u64) as u8,
            b1 == (x >> 48u64) as u8,
            b2 == (x >> 40u64) as u8,
            b3 == (x >> 32u64) as u8,
            b4 == (x >> 24u64) as u8,
            b5 == (x >> 16u64) as u8,
            b6 == (x >> 8u64) as u8,
            b7 == x as u8,
    ;
}

/// Which bets can be computed without overflow, written out: a fee of at
/// most a million, a positive divisor (a prediction below 60 over, above 0
/// under), and a bet times the multiplier within 128 bits.
pub proof fn law_payout_defined_written_out(prediction_number: u64, over: bool, bet_amount: u128, fee: u64)
    ensures
        payout_defined(prediction_number, over, bet_amount, fee) <==> {
            &&& fee <= 1000000
            &&& over ==> prediction_number <= 59
            &&& !over ==> prediction_number >= 1
            &&& over ==> bet_amount * ((1000000 - fee) / (99 - prediction_number * 5 / 3))
                <= u128::MAX
            &&& !over ==> bet_amount * ((1000000 - fee) / (prediction_number * 5 / 3)) <= u128::MAX
        },
{
}

/// Each message is handled by its own rule: a bet is played as a round, and
/// each owner message changes only what it names (as the state query sees it).
pub proof fn law_handle_dispatch(s: StateModel, env: &Env, msg: HandleMsg, owner_human: Seq<char>)
    ensures
        msg matches HandleMsg::Ruler { phrase, prediction_number, position, bet_amount }
            ==> handle_spec(s, env, msg) == ruler_spec(
            s,
            env,
            phrase@,
            prediction_number,
            position@,
            bet_amount,
        ),
        owner_check(s, env) is None ==> (msg matches HandleMsg::TryChangeMaxcredit { max_credit }
            ==> (handle_spec(s, env, msg) matches Ok(o) && o.state.max_credit == max_credit
            && o.state.min_credit == s.min_credit && o.state.house_fee == s.house_fee
            && o.state.pot_pool == s.pot_pool && o.state.contract_owner == s.contract_owner
            && o.response.messages.len() == 0)),
        owner_check(s, env) is None ==> (msg matches HandleMsg::TryChangeMincredit { min_credit }
            ==> (handle_spec(s, env, msg) matches Ok(o) && o.state.min_credit == min_credit
            && o.state.max_credit == s.max_credit && o.state.house_fee == s.house_fee
            && o.state.pot_pool == s.pot_pool && o.state.contract_owner == s.contract_owner
            && o.response.messages.len() == 0)),
        owner_check(s, env) is None ==> (msg matches HandleMsg::TryChaingeFee { fee } ==> (
        handle_spec(s, env, msg) matches Ok(o) && o.state.house_fee == fee && o.state.min_credit
            == s.min_credit && o.state.max_credit == s.max_credit && o.state.pot_pool == s.pot_pool
            && o.state.contract_owner == s.contract_owner && o.response.messages.len() == 0)),
{
}

} // verus!
