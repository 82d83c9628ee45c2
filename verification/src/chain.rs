//! What the chain hands the contract with a message, and what the contract
//! hands back: the call's environment, coins, bank transfers and responses.

use vstd::prelude::*;

verus! {

/// An amount of one denomination.
pub struct Coin {
    pub denom: String,
    pub amount: u128,
}

/// The block in which a message runs.
pub struct BlockInfo {
    pub height: u64,
    /// Seconds since the UNIX epoch.
    pub time: u64,
    pub chain_id: String,
}

/// The message's sender and the funds sent with it.
pub struct MessageInfo {
    /// The sender's address in its human-readable form.
    pub sender: String,
    /// The sender's canonical address, as the chain's address API gave it for
    /// `sender`; `None` where that API refused the address.
    pub sender_canonical: Option<Vec<u8>>,
    pub sent_funds: Vec<Coin>,
}

/// The contract's own address.
pub struct ContractInfo {
    pub address: String,
}

/// Everything the chain tells the contract about one call.
pub struct Env {
    pub block: BlockInfo,
    pub message: MessageInfo,
    pub contract: ContractInfo,
}

/// A key/value pair of a response's log.
pub struct LogAttribute {
    pub key: String,
    pub value: String,
}

/// A transfer of tokens that the contract asks the bank to make.
pub enum BankMsg {
    Send { from_address: String, to_address: String, amount: Vec<Coin> },
}

/// What a handled message answers: transfers to make, a log, and data.
pub struct HandleResponse {
    pub messages: Vec<BankMsg>,
    pub log: Vec<LogAttribute>,
    pub data: Option<Vec<u8>>,
}

/// What instantiation answers.
pub struct InitResponse {
    pub messages: Vec<BankMsg>,
    pub log: Vec<LogAttribute>,
}

/// A coin as a value.
pub struct CoinModel {
    pub denom: Seq<char>,
    pub amount: u128,
}

/// A bank transfer as a value.
pub struct TransferModel {
    pub from_address: Seq<char>,
    pub to_address: Seq<char>,
    pub amount: Seq<CoinModel>,
}

/// A response as a value.
pub struct ResponseModel {
    pub messages: Seq<TransferModel>,
    pub log: Seq<(Seq<char>, Seq<char>)>,
    pub data: Option<Seq<u8>>,
}

impl View for Coin {
    type V = CoinModel;

    open spec fn view(&self) -> CoinModel {
        CoinModel { denom: self.denom@, amount: self.amount }
    }
}

impl View for LogAttribute {
    type V = (Seq<char>, Seq<char>);

    open spec fn view(&self) -> (Seq<char>, Seq<char>) {
        (self.key@, self.value@)
    }
}

impl View for BankMsg {
    type V = TransferModel;

    open spec fn view(&self) -> TransferModel {
        match self {
            BankMsg::Send { from_address, to_address, amount } => TransferModel {
                from_address: from_address@,
                to_address: to_address@,
                amount: amount@.map_values(|c: Coin| c@),
            },
        }
    }
}

impl View for HandleResponse {
    type V = ResponseModel;

    open spec fn view(&self) -> ResponseModel {
        ResponseModel {
            messages: self.messages@.map_values(|m: BankMsg| m@),
            log: self.log@.map_values(|a: LogAttribute| a@),
            data: match self.data {
                Some(d) => Some(d@),
                None => None,
            },
        }
    }
}

impl View for InitResponse {
    type V = ResponseModel;

    open spec fn view(&self) -> ResponseModel {
        ResponseModel {
            messages: self.messages@.map_values(|m: BankMsg| m@),
            log: self.log@.map_values(|a: LogAttribute| a@),
            data: None,
        }
    }
}

/// A response that asks for nothing and logs nothing.
pub open spec fn empty_response() -> ResponseModel {
    ResponseModel { messages: Seq::empty(), log: Seq::empty(), data: None }
}

impl HandleResponse {
    /// The response that asks for nothing.
    pub fn empty() -> (r: HandleResponse)
        ensures
            r@ == empty_response(),
    {
        let r = HandleResponse { messages: Vec::new(), log: Vec::new(), data: None };
        assert(r@.messages =~= Seq::<TransferModel>::empty());
        assert(r@.log =~= Seq::<(Seq<char>, Seq<char>)>::empty());
        r
    }
}

impl InitResponse {
    /// The instantiation response that asks for nothing.
    pub fn empty() -> (r: InitResponse)
        ensures
            r@ == empty_response(),
    {
        let r = InitResponse { messages: Vec::new(), log: Vec::new() };
        assert(r@.messages =~= Seq::<TransferModel>::empty());
        assert(r@.log =~= Seq::<(Seq<char>, Seq<char>)>::empty());
        r
    }
}

} // verus!
