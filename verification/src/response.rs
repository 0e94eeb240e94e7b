use vstd::prelude::*;
use vstd::string::StringExecFns;

use crate::msg::Coin;

verus! {

/// The value of one audit attribute.
///
/// Amounts and coin lists are kept as values; rendering them as text is the
/// host's concern.
#[derive(Clone, Debug, PartialEq)]
pub enum AttrValue {
    Text(String),
    Amount(u128),
    Coins(Vec<Coin>),
}

/// One key/value audit entry of an operation's outcome.
#[derive(Clone, Debug, PartialEq)]
pub struct Attribute {
    pub key: String,
    pub value: AttrValue,
}

/// An outbound payment instruction: the one side effect an operation can
/// request from the host.
#[derive(Clone, Debug, PartialEq)]
pub struct Payment {
    pub to_address: String,
    pub coins: Vec<Coin>,
}

/// The structured result of a successful mutating operation: an ordered
/// list of audit attributes, plus at most one outbound payment instruction.
#[derive(Clone, Debug, PartialEq)]
pub struct Outcome {
    pub attributes: Vec<Attribute>,
    pub payment: Option<Payment>,
}

/// The attribute `a` is `key` bound to the text `val`.
pub open spec fn is_text_attr(a: Attribute, key: Seq<char>, val: Seq<char>) -> bool {
    &&& a.key@ == key
    &&& match a.value {
        AttrValue::Text(s) => s@ == val,
        _ => false,
    }
}

/// The attribute `a` is `key` bound to the amount `val`.
pub open spec fn is_amount_attr(a: Attribute, key: Seq<char>, val: u128) -> bool {
    &&& a.key@ == key
    &&& a.value == AttrValue::Amount(val)
}

/// The attribute `a` is `key` bound to the coin list `val`.
pub open spec fn is_coins_attr(a: Attribute, key: Seq<char>, val: Seq<Coin>) -> bool {
    &&& a.key@ == key
    &&& match a.value {
        AttrValue::Coins(cs) => cs@ == val,
        _ => false,
    }
}

/// The outcome `o` reports exactly the action named `action` and one amount
/// under `amount_key`, and requests no side effect.
pub open spec fn is_action_amount_outcome(
    o: Outcome,
    action: Seq<char>,
    amount_key: Seq<char>,
    amount: u128,
) -> bool {
    &&& o.attributes@.len() == 2
    &&& is_text_attr(o.attributes@[0], "action"@, action)
    &&& is_amount_attr(o.attributes@[1], amount_key, amount)
    &&& o.payment is None
}

/// Builds a text attribute.
pub fn text_attr(key: &str, val: &str) -> (a: Attribute)
    ensures
        is_text_attr(a, key@, val@),
{
    Attribute { key: String::from_str(key), value: AttrValue::Text(String::from_str(val)) }
}

/// Builds an amount attribute.
pub fn amount_attr(key: &str, amount: u128) -> (a: Attribute)
    ensures
        is_amount_attr(a, key@, amount),
{
    Attribute { key: String::from_str(key), value: AttrValue::Amount(amount) }
}

/// Builds the usual two-attribute outcome of a mutating operation.
pub fn action_amount_outcome(action: &str, amount_key: &str, amount: u128) -> (o: Outcome)
    ensures
        is_action_amount_outcome(o, action@, amount_key@, amount),
{
    let mut attributes: Vec<Attribute> = Vec::new();
    attributes.push(text_attr("action", action));
    attributes.push(amount_attr(amount_key, amount));
    Outcome { attributes, payment: None }
}

} // verus!
