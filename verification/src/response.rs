//! The result record a successful operation hands back to the ledger
//! platform: zero or more token-transfer instructions plus human-readable
//! key/value annotations for observability.

use vstd::prelude::*;

verus! {

/// The one denomination all balances and transfers in this contract are
/// expressed in.
pub open spec fn spec_denom() -> Seq<char> {
    "token"@
}

/// The executable form of [`spec_denom`].
pub fn denom() -> (d: String)
    ensures
        d@ == spec_denom(),
{
    String::from_str("token")
}

/// A human-readable annotation attached to a response.
#[derive(Clone, Debug, PartialEq, Eq)]
pub struct Attribute {
    pub key: String,
    pub value: String,
}

/// A token-transfer instruction addressed to the ledger platform: move
/// `amount` of `denom` out of the contract's holdings to `to_address`.
#[derive(Clone, Debug, PartialEq, Eq)]
pub struct BankSend {
    pub to_address: String,
    pub denom: String,
    pub amount: u128,
}

/// The result record of a successful operation.
#[derive(Clone, Debug, PartialEq, Eq)]
pub struct Response {
    pub messages: Vec<BankSend>,
    pub attributes: Vec<Attribute>,
}

/// `a` is the annotation `key`/`value`.
pub open spec fn attr_is(a: Attribute, key: Seq<char>, value: Seq<char>) -> bool {
    a.key@ == key && a.value@ == value
}

/// `m` instructs the platform to move `amount` of the contract's fixed
/// denomination to `to_address`.
pub open spec fn bank_send_is(m: BankSend, to_address: Seq<char>, amount: u128) -> bool {
    m.to_address@ == to_address && m.denom@ == spec_denom() && m.amount == amount
}

/// A response that carries no transfer instruction and exactly one
/// annotation, `action`/`action_value`.
pub open spec fn action_only_response(r: Response, action_value: Seq<char>) -> bool {
    r.messages@.len() == 0 && r.attributes@.len() == 1 && attr_is(
        r.attributes@[0],
        "action"@,
        action_value,
    )
}

impl Response {
    /// A response with no instructions and no annotations.
    pub fn new() -> (r: Response)
        ensures
            r.messages@.len() == 0,
            r.attributes@.len() == 0,
    {
        Response { messages: Vec::new(), attributes: Vec::new() }
    }

    /// Append one transfer instruction; everything else is kept.
    pub fn add_message(self, msg: BankSend) -> (r: Response)
        ensures
            r.messages@ == self.messages@.push(msg),
            r.attributes@ == self.attributes@,
    {
        let Response { mut messages, attributes } = self;
        messages.push(msg);
        Response { messages, attributes }
    }

    /// Append one annotation; everything else is kept.
    pub fn add_attribute(self, key: &str, value: String) -> (r: Response)
        ensures
            r.messages@ == self.messages@,
            r.attributes@.len() == self.attributes@.len() + 1,
            forall|i: int|
                0 <= i < self.attributes@.len() ==> r.attributes@[i] == self.attributes@[i],
            attr_is(r.attributes@.last(), key@, value@),
    {
        let Response { messages, mut attributes } = self;
        attributes.push(Attribute { key: String::from_str(key), value });
        Response { messages, attributes }
    }
}

} // verus!
