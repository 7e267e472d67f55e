//! The requests the ledger accepts and the records its read-only requests
//! answer with. The platform adapter deserializes incoming calls into these
//! shapes and serializes the answers back out.

use vstd::prelude::*;

verus! {

/// The instantiation input: the initial value of the spending limit.
#[derive(Clone, Debug, PartialEq, Eq)]
pub struct InstantiateMsg {
    pub limit: u128,
}

/// The state-changing requests open to ordinary callers.
#[derive(Clone, Debug, PartialEq, Eq)]
pub enum ExecuteMsg {
    IncrementLimit {},
    UpdateLimit { limit: u128 },
    UpdateLimitWithoutCheck { limit: u128 },
    SendTokens { recipient: String, amount: u128 },
    TransferTokens { sender: String, recipient: String, amount: u128 },
}

/// The read-only requests.
#[derive(Clone, Copy, Debug, PartialEq, Eq, Structural)]
pub enum QueryMsg {
    GetLimit {},
    GetValidator {},
}

/// The requests reserved for the platform's privileged caller.
#[derive(Clone, Copy, Debug, PartialEq, Eq, Structural)]
pub enum SudoMsg {
    SendTokenToContract { amount: u128 },
}

/// The answer to `GetLimit`: the current spending limit.
#[derive(Clone, Copy, Debug, PartialEq, Eq, Structural)]
pub struct GetLimitResponse {
    pub limit: u128,
}

/// The answer to `GetValidator`: the owner set at instantiation.
#[derive(Clone, Debug, PartialEq, Eq)]
pub struct GetValidatorResponse {
    pub validator: String,
}

/// The answer to a read-only request, before serialization.
#[derive(Clone, Debug, PartialEq, Eq)]
pub enum QueryAnswer {
    Limit(GetLimitResponse),
    Validator(GetValidatorResponse),
}

} // verus!
