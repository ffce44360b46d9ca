//! Donations: which payments are accepted, and how one is split between
//! the recipient and the owner.

use crate::chain::{coins, BankMsg, CoinView, MessageInfo, Response, ResponseView, TransferView};
use crate::text::{decimal, texts, to_decimal};
use cosmwasm_std::Addr;
use cw_utils::PaymentError;
use vstd::prelude::*;

verus! {

/// The owner's share of a donation, in percent.
pub const FEE_PERCENTAGE: u128 = 5;

/// `cw_utils::PaymentError`: why a payment was refused. The library tells
/// only a refusal from an acceptance.
#[verifier::external_type_specification]
#[verifier::external_body]
pub struct ExPaymentError(PaymentError);

/// The owner's fee on a donation: five percent, rounded down.
pub open spec fn fee_of(amount: nat) -> nat {
    amount * 5 / 100
}

/// Whether the attached funds can be donated: exactly one coin, of an
/// accepted denomination, and more than nothing of it.
pub open spec fn payable(accepted: Seq<Seq<char>>, funds: Seq<CoinView>) -> bool {
    funds.len() == 1 && accepted.contains(funds[0].denom) && funds[0].amount > 0
}

/// Whether the funds pay in `denom`: exactly one coin, of that
/// denomination, and more than nothing of it.
pub open spec fn pays(funds: Seq<CoinView>, denom: Seq<char>) -> bool {
    funds.len() == 1 && funds[0].denom == denom && funds[0].amount > 0
}

/// What a donation of `amount` in `denom` by `sender` hands back: a
/// transfer of the amount less the fee to the recipient, a transfer of the
/// fee to the owner, and attributes that record the action, the
/// recipient's amount and the sender.
pub open spec fn donation_response(
    amount: nat,
    denom: Seq<char>,
    recipient: Seq<char>,
    owner: Seq<char>,
    sender: Seq<char>,
) -> ResponseView {
    let fee = fee_of(amount);
    let rest = (amount - fee) as nat;
    ResponseView {
        messages: seq![
            TransferView { to_address: recipient, amount: seq![CoinView { denom, amount: rest }] },
            TransferView { to_address: owner, amount: seq![CoinView { denom, amount: fee }] },
        ],
        attributes: seq![("action"@, "donate"@), ("amount"@, decimal(rest)), ("sender"@, sender)],
    }
}

/// Splits a donation into the recipient's amount and the owner's fee. The
/// fee is five percent rounded down, and the two parts add up to the
/// donation.
pub fn split_donation(donation: u128) -> (parts: (u128, u128))
    ensures
        parts.1 == fee_of(donation as nat),
        parts.0 == donation - parts.1,
        parts.0 + parts.1 == donation,
{
    let hundreds: u128 = donation / 100;
    let below: u128 = donation % 100;
    let fee: u128 = hundreds * FEE_PERCENTAGE + below * FEE_PERCENTAGE / 100;
    (donation - fee, fee)
}

/// Whether `denom` is one of the accepted denominations.
pub fn is_accepted(accepted: &Vec<String>, denom: &String) -> (r: bool)
    ensures
        r == texts(accepted@).contains(denom@),
{
    let mut i: usize = 0;
    while i < accepted.len()
        invariant
            i <= accepted.len(),
            forall|j: int| 0 <= j < i ==> texts(accepted@)[j] != denom@,
        decreases accepted.len() - i,
    {
        if accepted[i] == *denom {
            assert(texts(accepted@)[i as int] == denom@);
            return true;
        }
        i = i + 1;
    }
    false
}

/// `cw_utils::must_pay`: the amount paid in `denom`, where the funds are
/// exactly one coin of that denomination and more than nothing of it.
///
/// Taken on trust: the call succeeds on such funds and on no others, and
/// gives the coin's amount.
#[verifier::external_body]
pub(crate) fn must_pay(info: &MessageInfo, denom: &str) -> (r: Result<u128, PaymentError>)
    ensures
        match r {
            Ok(amount) => pays(info@.funds, denom@) && amount == info@.funds[0].amount,
            Err(_) => !pays(info@.funds, denom@),
        },
{
    let funds: Vec<cosmwasm_std::Coin> = info.funds.iter().map(
        |c| cosmwasm_std::coin(c.amount, c.denom.as_str()),
    ).collect();
    let sent = cosmwasm_std::MessageInfo { sender: Addr::unchecked(info.sender.as_str()), funds };
    cw_utils::must_pay(&sent, denom).map(|amount| amount.u128())
}

/// The response to a donation of `donation` in `denom`.
pub fn respond_to_donation(
    donation: u128,
    denom: &str,
    recipient: String,
    owner: String,
    sender: String,
) -> (r: Response)
    ensures
        r@ == donation_response(donation as nat, denom@, recipient@, owner@, sender@),
{
    let (recipient_amount, deducted_fee): (u128, u128) = split_donation(donation);
    let message_recipient = BankMsg::Send {
        to_address: recipient,
        amount: coins(recipient_amount, denom),
    };
    let message_owner = BankMsg::Send { to_address: owner, amount: coins(deducted_fee, denom) };
    let r = Response::new().add_message(message_recipient).add_message(message_owner).add_attribute(
        "action",
        "donate".to_owned(),
    ).add_attribute("amount", to_decimal(recipient_amount)).add_attribute("sender", sender);
    assert(r@.messages =~= donation_response(
        donation as nat,
        denom@,
        recipient@,
        owner@,
        sender@,
    ).messages);
    assert(r@.attributes =~= donation_response(
        donation as nat,
        denom@,
        recipient@,
        owner@,
        sender@,
    ).attributes);
    r
}

} // verus!
