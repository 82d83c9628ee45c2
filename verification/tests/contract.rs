use wasmbet_contract_dice::chain::{BankMsg, BlockInfo, Coin, ContractInfo, Env, MessageInfo};
use wasmbet_contract_dice::contract::{
    bet_refusal, can_winer_payout, handle, handle_checked, handle_is_defined, init, payout_is_defined,
    refusal_before_state, payout_amount, read_root_state, read_state, ruler_entropy,
    settle_bet, try_ruler, HandleOutcome,
};
use wasmbet_contract_dice::digest::sha256_digest;
use wasmbet_contract_dice::error::ContractError;
use wasmbet_contract_dice::msg::{HandleMsg, InitMsg};
use wasmbet_contract_dice::rand::Prng;
use wasmbet_contract_dice::state::{Room, State};

fn coins(amount: u128, denom: &str) -> Vec<Coin> {
    vec![Coin { denom: denom.to_string(), amount }]
}

fn mock_env(sender: &str, funds: Vec<Coin>) -> Env {
    Env {
        block: BlockInfo { height: 12345, time: 1571797419, chain_id: "cosmos-testnet-14002".to_string() },
        message: MessageInfo {
            sender: sender.to_string(),
            sender_canonical: Some(sender.as_bytes().to_vec()),
            sent_funds: funds,
        },
        contract: ContractInfo { address: "cosmos2contract".to_string() },
    }
}

fn owned_state(pot: u128) -> State {
    State {
        contract_owner: b"creator".to_vec(),
        pot_pool: pot,
        fee_pool: 0,
        seed: b"Hello, world!".to_vec(),
        min_credit: 1000000,
        max_credit: 10000000,
        house_fee: 1500,
    }
}

fn ok(r: Result<HandleOutcome, ContractError>) -> HandleOutcome {
    match r {
        Ok(o) => o,
        Err(e) => panic!("refused: {:?}", e),
    }
}

fn err(r: Result<HandleOutcome, ContractError>) -> ContractError {
    match r {
        Ok(_) => panic!("accepted"),
        Err(e) => e,
    }
}

#[test]
fn proper_initialization() {
    let seed = String::from("Hello, world!");
    let msg = InitMsg {
        seed: seed,
        min_credit: 1000000u128,
        max_credit: 10000000u128,
        house_fee: 1,
    };
    let env = mock_env("creator", coins(1000, "earth"));

    let (state, res) = init(env, msg).unwrap();
    assert_eq!(res.messages.len(), 0);

    let value = read_state(&state, "creator".to_string()).unwrap();
    assert_eq!(value.min_credit, 1000000);
}

#[test]
fn init_records_owner_and_empty_pot() {
    let msg = InitMsg { seed: "Hello, world!".to_string(), min_credit: 5, max_credit: 50, house_fee: 7 };
    let (state, res) = init(mock_env("creator", vec![]), msg).unwrap();
    assert_eq!(state.contract_owner, b"creator".to_vec());
    assert_eq!(state.pot_pool, 0);
    assert_eq!(state.fee_pool, 0);
    assert_eq!(state.seed, b"Hello, world!".to_vec());
    assert_eq!(state.house_fee, 7);
    assert_eq!(res.log.len(), 0);
    let answer = read_state(&state, "creator".to_string()).unwrap();
    assert_eq!(answer.contract_owner, "creator");
    assert_eq!((answer.pot_pool, answer.min_credit, answer.max_credit, answer.house_fee), (0, 5, 50, 7));
}

#[test]
fn init_refuses_invalid_sender() {
    let mut env = mock_env("creator", vec![]);
    env.message.sender_canonical = None;
    let msg = InitMsg { seed: "s".to_string(), min_credit: 1, max_credit: 2, house_fee: 0 };
    assert_eq!(init(env, msg).err(), Some(ContractError::InvalidAddress));
}

#[test]
fn payout_under_example() {
    // (1000000 - 1500) / (30 * 5 / 3) = 19970; 1000000 * 19970 / 10000
    assert_eq!(payout_amount(30, "under".to_string(), &1000000, 1500).unwrap(), 1997000);
}

#[test]
fn payout_over_example() {
    // (1000000 - 1500) / (99 - 50 * 5 / 3) = 998500 / 16 = 62406
    assert_eq!(payout_amount(50, "over".to_string(), &1000000, 1500).unwrap(), 6240600);
}

#[test]
fn payout_other_position_counts_as_under() {
    assert_eq!(
        payout_amount(30, "sideways".to_string(), &1000000, 1500).unwrap(),
        payout_amount(30, "under".to_string(), &1000000, 1500).unwrap()
    );
}

#[test]
fn payout_grows_with_bet() {
    let small = payout_amount(20, "under".to_string(), &1000, 0).unwrap();
    let large = payout_amount(20, "under".to_string(), &2000, 0).unwrap();
    assert!(small <= large);
}

#[test]
fn winer_payout_sends_ukrw_to_sender() {
    let env = mock_env("player", vec![]);
    let res = can_winer_payout(&env, 77).unwrap();
    assert_eq!(res.messages.len(), 1);
    match &res.messages[0] {
        BankMsg::Send { from_address, to_address, amount } => {
            assert_eq!(from_address, "cosmos2contract");
            assert_eq!(to_address, "player");
            assert_eq!(amount.len(), 1);
            assert_eq!(amount[0].denom, "ukrw");
            assert_eq!(amount[0].amount, 77);
        }
    }
    assert_eq!(res.log.len(), 1);
    assert_eq!(res.log[0].key, "action");
    assert_eq!(res.log[0].value, "transfer payout");
    assert!(res.data.is_none());
}

#[test]
fn deposit_adds_last_ukrw_coin() {
    let funds = vec![
        Coin { denom: "ukrw".to_string(), amount: 5 },
        Coin { denom: "earth".to_string(), amount: 9 },
        Coin { denom: "ukrw".to_string(), amount: 40 },
    ];
    let o = ok(handle(owned_state(100), mock_env("creator", funds), HandleMsg::TryPotPoolDeposit {}));
    assert_eq!(o.state.pot_pool, 140);
    assert!(o.room.is_none());
    assert_eq!(o.response.messages.len(), 0);
}

#[test]
fn deposit_without_ukrw_is_refused() {
    let e = err(handle(owned_state(100), mock_env("creator", coins(10, "earth")), HandleMsg::TryPotPoolDeposit {}));
    assert_eq!(e, ContractError::NoFunds);
}

#[test]
fn deposit_by_stranger_is_refused() {
    let e = err(handle(owned_state(100), mock_env("stranger", coins(10, "ukrw")), HandleMsg::TryPotPoolDeposit {}));
    assert_eq!(e, ContractError::NotOwner);
}

#[test]
fn admin_with_refused_address() {
    let mut env = mock_env("creator", vec![]);
    env.message.sender_canonical = None;
    let e = err(handle(owned_state(100), env, HandleMsg::TryChaingeFee { fee: 3 }));
    assert_eq!(e, ContractError::InvalidAddress);
}

#[test]
fn owner_changes_limits_and_fee() {
    let o = ok(handle(owned_state(1), mock_env("creator", vec![]), HandleMsg::TryChangeMaxcredit { max_credit: 99 }));
    assert_eq!(o.state.max_credit, 99);
    assert_eq!(o.state.min_credit, 1000000);
    let o = ok(handle(o.state, mock_env("creator", vec![]), HandleMsg::TryChangeMincredit { min_credit: 3 }));
    assert_eq!(o.state.min_credit, 3);
    assert_eq!(o.state.max_credit, 99);
    let o = ok(handle(o.state, mock_env("creator", vec![]), HandleMsg::TryChaingeFee { fee: 2500 }));
    assert_eq!(o.state.house_fee, 2500);
    let answer = read_state(&o.state, "creator".to_string()).unwrap();
    assert_eq!((answer.min_credit, answer.max_credit, answer.house_fee), (3, 99, 2500));
}

#[test]
fn stranger_cannot_change_config() {
    for msg in [
        HandleMsg::TryChangeMaxcredit { max_credit: 1 },
        HandleMsg::TryChangeMincredit { min_credit: 1 },
        HandleMsg::TryChaingeFee { fee: 1 },
        HandleMsg::TryPotPoolWithdraw { amount: 1 },
    ] {
        assert_eq!(err(handle(owned_state(10), mock_env("stranger", vec![]), msg)), ContractError::NotOwner);
    }
}

#[test]
fn withdraw_less_than_pot() {
    let o = ok(handle(owned_state(100), mock_env("creator", vec![]), HandleMsg::TryPotPoolWithdraw { amount: 30 }));
    assert_eq!(o.state.pot_pool, 70);
    match &o.response.messages[0] {
        BankMsg::Send { to_address, amount, .. } => {
            assert_eq!(to_address, "creator");
            assert_eq!(amount[0].amount, 30);
        }
    }
}

#[test]
fn withdraw_whole_pot_keeps_pot() {
    let o = ok(handle(owned_state(100), mock_env("creator", vec![]), HandleMsg::TryPotPoolWithdraw { amount: 100 }));
    assert_eq!(o.state.pot_pool, 100);
    assert_eq!(o.response.messages.len(), 1);
}

#[test]
fn withdraw_more_than_pot_is_refused() {
    let e = err(handle(owned_state(100), mock_env("creator", vec![]), HandleMsg::TryPotPoolWithdraw { amount: 101 }));
    assert_eq!(e, ContractError::InsufficientPotPool);
}

fn bet(pred: u64, position: &str, amount: u128) -> HandleMsg {
    HandleMsg::Ruler {
        phrase: "allinbitewjkrwerlwerwerbfcwl".to_string(),
        prediction_number: pred,
        position: position.to_string(),
        bet_amount: amount,
    }
}

#[test]
fn ruler_refusals() {
    let pot = 1_000_000_000_000u128;
    let play = |pred: u64, position: &str, amount: u128, funds: Vec<Coin>| {
        err(handle(owned_state(pot), mock_env("player", funds), bet(pred, position, amount)))
    };
    assert_eq!(play(50, "sideways", 2000000, coins(2000000, "ukrw")), ContractError::InvalidPosition);
    assert_eq!(play(1, "over", 2000000, coins(2000000, "ukrw")), ContractError::OverPredictionOutOfRange);
    assert_eq!(play(59, "over", 2000000, coins(2000000, "ukrw")), ContractError::OverPredictionOutOfRange);
    assert_eq!(play(0, "under", 2000000, coins(2000000, "ukrw")), ContractError::UnderPredictionOutOfRange);
    assert_eq!(play(58, "under", 2000000, coins(2000000, "ukrw")), ContractError::UnderPredictionOutOfRange);
    assert_eq!(play(50, "under", 2000000, vec![]), ContractError::EmptyWallet);
    assert_eq!(play(50, "under", 2000000, coins(2000000, "earth")), ContractError::WrongDenom);
    assert_eq!(
        play(50, "under", 2000000, coins(3000000, "ukrw")),
        ContractError::AmountMismatch { bet_amount: 2000000, sent: 3000000 }
    );
    assert_eq!(play(50, "under", 999999, coins(999999, "ukrw")), ContractError::BelowMinimum);
    assert_eq!(play(50, "under", 10000001, coins(10000001, "ukrw")), ContractError::AboveMaximum);
}

#[test]
fn ruler_needs_cover() {
    // under 30 with fee 1500 pays 1997000 on a bet of 1000000
    let e = err(handle(owned_state(1996999), mock_env("player", coins(1000000, "ukrw")), bet(30, "under", 1000000)));
    assert_eq!(e, ContractError::LackOfReserves { pot_pool: 1996999, payout: 1997000, bet_amount: 1000000 });
}

#[test]
fn ruler_refuses_invalid_player_address() {
    let mut env = mock_env("player", coins(2000000, "ukrw"));
    env.message.sender_canonical = None;
    let e = err(handle(owned_state(1_000_000_000), env, bet(30, "under", 2000000)));
    assert_eq!(e, ContractError::InvalidAddress);
}

#[test]
fn ruler_round_keeps_books() {
    let pot = 1_000_000_000u128;
    let env = mock_env("player", coins(2000000, "ukrw"));
    let payout = payout_amount(50, "over".to_string(), &2000000, 1500).unwrap();
    let o = ok(try_ruler(owned_state(pot), env, "allinbitewjkrwerlwerwerbfcwl".to_string(), 50, "over".to_string(), &2000000));
    let room = o.room.expect("a played round is recorded");
    assert!(room.lucky_number < 59);
    assert_eq!(room.entropy.len(), 40);
    assert_eq!(room.entropy[32..].to_vec(), 1571797419u64.to_be_bytes().to_vec());
    assert_eq!(room.results == 1, room.lucky_number > 50);
    assert_eq!(room.position, "over");
    assert_eq!(room.start_time, 1571797419);
    if room.results == 1 {
        assert_eq!(o.state.pot_pool, pot - payout);
        assert_eq!(o.response.messages.len(), 1);
    } else {
        assert_eq!(o.state.pot_pool, pot + 2000000);
        assert_eq!(o.response.messages.len(), 0);
    }
    let answer = read_root_state(room).unwrap();
    assert_eq!(answer.bet_amount, 2000000);
    assert_eq!(answer.prediction_number, 50);
}

#[test]
fn settle_lost_bet_joins_pot() {
    let env = mock_env("player", coins(2000000, "ukrw"));
    // over 50 loses with 50
    let o = settle_bet(owned_state(500), &env, 50, "over".to_string(), 2000000, 6240600, 50, vec![1, 2]);
    assert_eq!(o.state.pot_pool, 2000500);
    assert_eq!(o.response.messages.len(), 0);
    let room = o.room.unwrap();
    assert_eq!((room.results, room.lucky_number, room.entropy), (0, 50, vec![1, 2]));
}

#[test]
fn settle_won_bet_paid_from_pot() {
    let env = mock_env("player", coins(1000000, "ukrw"));
    // under 30 wins with 12
    let o = settle_bet(owned_state(5000000), &env, 30, "under".to_string(), 1000000, 1997000, 12, vec![]);
    assert_eq!(o.state.pot_pool, 3003000);
    assert_eq!(o.room.unwrap().results, 1);
    match &o.response.messages[0] {
        BankMsg::Send { to_address, amount, .. } => {
            assert_eq!(to_address, "player");
            assert_eq!(amount[0].amount, 1997000);
        }
    }
}

#[test]
fn settle_won_bet_with_exact_pot_pays_it_out() {
    let env = mock_env("player", coins(1000000, "ukrw"));
    let o = settle_bet(owned_state(1997000), &env, 30, "under".to_string(), 1000000, 1997000, 12, vec![]);
    assert_eq!(o.state.pot_pool, 0);
    assert_eq!(o.response.messages.len(), 1);
    match &o.response.messages[0] {
        BankMsg::Send { to_address, amount, .. } => {
            assert_eq!(to_address, "player");
            assert_eq!(amount[0].amount, 1997000);
        }
    }
    assert_eq!(o.room.unwrap().results, 1);
}

#[test]
fn entropy_is_digest_then_time() {
    let env = mock_env("player", vec![]);
    let e = ruler_entropy(&"phrase".to_string(), &b"player".to_vec(), &env);
    let mut preimage = Vec::new();
    preimage.extend_from_slice(b"phrase");
    preimage.extend_from_slice(b"player");
    preimage.extend_from_slice(b"cosmos-testnet-14002");
    preimage.extend_from_slice(&12345u64.to_be_bytes());
    preimage.extend_from_slice(&1571797419u64.to_be_bytes());
    let mut expected = sha256_digest(&preimage);
    expected.extend_from_slice(&1571797419u64.to_be_bytes());
    assert_eq!(e, expected);
    assert_eq!(e.len(), 40);
}

#[test]
fn sha256_known_vector() {
    let d = sha256_digest(b"abc");
    let hex: String = d.iter().map(|b| format!("{:02x}", b)).collect();
    assert_eq!(hex, "ba7816bf8f01cfea414140de5dae2223b00361a396177a9cb410ff61f20015ad");
}

#[test]
fn draw_is_deterministic_and_in_range() {
    let a = Prng::new(b"seed", b"entropy").select_one_of(59);
    let b = Prng::new(b"seed", b"entropy").select_one_of(59);
    assert_eq!(a, b);
    assert!(a < 59);
    // the first four digest bytes of "seedentropy", big-endian, modulo 59
    let d = sha256_digest(b"seedentropy");
    let word = u32::from_be_bytes([d[0], d[1], d[2], d[3]]);
    assert_eq!(a, word % 59);
}

#[test]
fn room_answer_cuts_bet_to_64_bits() {
    let room = Room {
        start_time: 9,
        entropy: vec![7],
        prediction_number: 3,
        lucky_number: 2,
        position: "under".to_string(),
        results: 1,
        bet_amount: (1u128 << 64) + 5,
    };
    let answer = read_root_state(room).unwrap();
    assert_eq!(answer.bet_amount, 5);
    assert_eq!(answer.results, 1);
    assert_eq!(answer.position, "under");
}

#[test]
fn multiplier_follows_risk() {
    // under: a higher prediction wins more often and pays less
    let low = payout_amount(10, "under".to_string(), &10000, 1500).unwrap();
    let high = payout_amount(40, "under".to_string(), &10000, 1500).unwrap();
    assert!(high <= low);
    // over: a higher prediction wins less often and pays more
    let low = payout_amount(10, "over".to_string(), &10000, 1500).unwrap();
    let high = payout_amount(40, "over".to_string(), &10000, 1500).unwrap();
    assert!(low <= high);
}

#[test]
fn bet_refusal_gives_payout_when_all_checks_pass() {
    let state = owned_state(1_000_000_000);
    let env = mock_env("player", coins(1000000, "ukrw"));
    assert_eq!(bet_refusal(&state, &env, 30, &"under".to_string(), 1000000), Ok(1997000));
    assert_eq!(
        bet_refusal(&state, &env, 30, &"under".to_string(), 2000000),
        Err(ContractError::AmountMismatch { bet_amount: 2000000, sent: 1000000 })
    );
}

#[test]
fn payout_definedness() {
    assert!(payout_is_defined(30, &"under".to_string(), 1000000, 1500));
    assert!(!payout_is_defined(30, &"under".to_string(), 1000000, 1000001));
    assert!(!payout_is_defined(30, &"under".to_string(), u128::MAX, 1500));
    // a refused position or prediction computes no payout
    assert!(payout_is_defined(30, &"sideways".to_string(), u128::MAX, 1000001));
    assert!(payout_is_defined(0, &"under".to_string(), u128::MAX, 1500));
}

#[test]
fn handle_definedness() {
    let env = mock_env("creator", coins(10, "ukrw"));
    let full = owned_state(u128::MAX);
    assert!(!handle_is_defined(&full, &env, &HandleMsg::TryPotPoolDeposit {}));
    assert!(handle_is_defined(&owned_state(5), &env, &HandleMsg::TryPotPoolDeposit {}));
    // a stranger's deposit is refused before any addition
    assert!(handle_is_defined(&full, &mock_env("stranger", coins(10, "ukrw")), &HandleMsg::TryPotPoolDeposit {}));
    let mut fee_too_high = owned_state(5);
    fee_too_high.house_fee = 2000000;
    assert!(!handle_is_defined(&fee_too_high, &env, &bet(30, "under", 10)));
    assert!(handle_is_defined(&owned_state(5), &env, &HandleMsg::TryChaingeFee { fee: 1 }));
}

#[test]
fn deposit_then_withdraw_restores_pot() {
    let d = ok(handle(owned_state(100), mock_env("creator", coins(40, "ukrw")), HandleMsg::TryPotPoolDeposit {}));
    assert_eq!(d.state.pot_pool, 140);
    let w = ok(handle(d.state, mock_env("creator", vec![]), HandleMsg::TryPotPoolWithdraw { amount: 40 }));
    assert_eq!(w.state.pot_pool, 100);
    match &w.response.messages[0] {
        BankMsg::Send { to_address, amount, .. } => {
            assert_eq!(to_address, "creator");
            assert_eq!(amount[0].amount, 40);
        }
    }
}

#[test]
fn overflow_only_on_a_lost_round() {
    let env = mock_env("player", coins(1000000, "ukrw"));
    let full = owned_state(u128::MAX);
    let phrase = "allinbitewjkrwerlwerwerbfcwl".to_string();
    let entropy = ruler_entropy(&phrase, &b"player".to_vec(), &env);
    let lucky = Prng::new(&full.seed, &entropy).select_one_of(59) as u64;
    let wins = lucky < 30;
    assert_eq!(handle_is_defined(&full, &env, &bet(30, "under", 1000000)), wins);
    let checked = handle_checked(owned_state(u128::MAX), env, bet(30, "under", 1000000));
    assert_eq!(checked.is_some(), wins);
    if let Some(r) = checked {
        assert_eq!(ok(r).state.pot_pool, u128::MAX - 1997000);
    }
}

#[test]
fn handle_checked_handles_what_is_defined() {
    let r = handle_checked(owned_state(100), mock_env("creator", coins(40, "ukrw")), HandleMsg::TryPotPoolDeposit {});
    assert_eq!(ok(r.expect("defined")).state.pot_pool, 140);
    let r = handle_checked(owned_state(u128::MAX), mock_env("creator", coins(40, "ukrw")), HandleMsg::TryPotPoolDeposit {});
    assert!(r.is_none());
}

#[test]
fn refusals_before_state() {
    let env = mock_env("player", coins(10, "earth"));
    assert_eq!(refusal_before_state(&env, &HandleMsg::TryPotPoolDeposit {}), Some(ContractError::NoFunds));
    assert_eq!(refusal_before_state(&env, &bet(50, "sideways", 10)), Some(ContractError::InvalidPosition));
    assert_eq!(refusal_before_state(&env, &bet(1, "over", 10)), Some(ContractError::OverPredictionOutOfRange));
    assert_eq!(refusal_before_state(&env, &bet(0, "under", 10)), Some(ContractError::UnderPredictionOutOfRange));
    assert_eq!(refusal_before_state(&env, &bet(30, "under", 10)), None);
    assert_eq!(refusal_before_state(&env, &HandleMsg::TryChaingeFee { fee: 1 }), None);
    let with_ukrw = mock_env("player", coins(10, "ukrw"));
    assert_eq!(refusal_before_state(&with_ukrw, &HandleMsg::TryPotPoolDeposit {}), None);
}
