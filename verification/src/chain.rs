//! Plain values exchanged with the chain: coins, the sender's message
//! information, bank transfers and responses.

use cosmwasm_std::Env;
use vstd::prelude::*;

verus! {

/// `cosmwasm_std::Env`: the block and the contract that a call runs in.
/// The registry's operations take it and never look inside.
#[verifier::external_type_specification]
#[verifier::external_body]
pub struct ExEnv(Env);

/// An amount of one denomination.
#[derive(Debug, PartialEq, Eq)]
pub struct Coin {
    pub denom: String,
    pub amount: u128,
}

/// What a [`Coin`] is in contracts.
pub struct CoinView {
    pub denom: Seq<char>,
    pub amount: nat,
}

impl View for Coin {
    type V = CoinView;

    open spec fn view(&self) -> CoinView {
        CoinView { denom: self.denom@, amount: self.amount as nat }
    }
}

/// Who sent a message, and the funds attached to it.
#[derive(Debug, PartialEq, Eq)]
pub struct MessageInfo {
    pub sender: String,
    pub funds: Vec<Coin>,
}

/// What a [`MessageInfo`] is in contracts.
pub struct MessageInfoView {
    pub sender: Seq<char>,
    pub funds: Seq<CoinView>,
}

impl View for MessageInfo {
    type V = MessageInfoView;

    open spec fn view(&self) -> MessageInfoView {
        MessageInfoView { sender: self.sender@, funds: self.funds@.map_values(|c: Coin| c@) }
    }
}

/// An instruction for the chain's bank module.
#[derive(Debug, PartialEq, Eq)]
pub enum BankMsg {
    /// Transfer `amount` from the contract to `to_address`.
    Send { to_address: String, amount: Vec<Coin> },
}

/// What a [`BankMsg`] is in contracts: a transfer of coins to an address.
pub struct TransferView {
    pub to_address: Seq<char>,
    pub amount: Seq<CoinView>,
}

impl View for BankMsg {
    type V = TransferView;

    open spec fn view(&self) -> TransferView {
        match *self {
            BankMsg::Send { to_address, amount } => TransferView {
                to_address: to_address@,
                amount: amount@.map_values(|c: Coin| c@),
            },
        }
    }
}

/// A key with its value, attached to a response for observers.
#[derive(Debug, PartialEq, Eq)]
pub struct Attribute {
    pub key: String,
    pub value: String,
}

impl View for Attribute {
    type V = (Seq<char>, Seq<char>);

    open spec fn view(&self) -> (Seq<char>, Seq<char>) {
        (self.key@, self.value@)
    }
}

/// What an operation hands back to the chain: transfers to perform and
/// attributes to record.
#[derive(Debug, PartialEq, Eq)]
pub struct Response {
    pub messages: Vec<BankMsg>,
    pub attributes: Vec<Attribute>,
}

/// What a [`Response`] is in contracts.
pub struct ResponseView {
    pub messages: Seq<TransferView>,
    pub attributes: Seq<(Seq<char>, Seq<char>)>,
}

impl View for Response {
    type V = ResponseView;

    open spec fn view(&self) -> ResponseView {
        ResponseView {
            messages: self.messages@.map_values(|m: BankMsg| m@),
            attributes: self.attributes@.map_values(|a: Attribute| a@),
        }
    }
}

impl Response {
    /// A response with no transfer and no attribute.
    pub fn new() -> (r: Response)
        ensures
            r@.messages == Seq::<TransferView>::empty(),
            r@.attributes == Seq::<(Seq<char>, Seq<char>)>::empty(),
    {
        Response { messages: Vec::new(), attributes: Vec::new() }
    }

    /// Appends one transfer.
    pub fn add_message(self, msg: BankMsg) -> (r: Response)
        ensures
            r@.messages == self@.messages.push(msg@),
            r@.attributes == self@.attributes,
    {
        let mut r = self;
        r.messages.push(msg);
        r
    }

    /// Appends one attribute.
    pub fn add_attribute(self, key: &str, value: String) -> (r: Response)
        ensures
            r@.messages == self@.messages,
            r@.attributes == self@.attributes.push((key@, value@)),
    {
        let mut r = self;
        r.attributes.push(Attribute { key: key.to_owned(), value });
        r
    }
}

/// One coin of the given amount and denomination, as a list.
pub fn coins(amount: u128, denom: &str) -> (r: Vec<Coin>)
    ensures
        r@.map_values(|c: Coin| c@) == seq![CoinView { denom: denom@, amount: amount as nat }],
{
    let mut r: Vec<Coin> = Vec::new();
    r.push(Coin { denom: denom.to_owned(), amount });
    r
}

} // verus!
