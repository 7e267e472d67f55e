//! The singleton ledger record and the per-call context the platform
//! supplies alongside each request.

use vstd::prelude::*;

verus! {

/// The one persisted ledger record. Exactly one instance exists for the
/// contract's lifetime: the surrounding platform loads it before a call and
/// saves it afterwards, so each operation here works on the record in place.
///
/// `count` is the current authorized spending limit; it is never negative by
/// construction, and every operation that would drive it below zero fails
/// instead. `owner` is the principal set at instantiation; no operation in
/// this crate mutates it.
pub struct State {
    pub count: u128,
    pub owner: String,
}

/// The identity of the caller of the current request, as the platform
/// delivered it (already validated by the platform).
pub struct MessageInfo {
    pub sender: String,
}

/// Facts about the execution environment of the current call.
pub struct Env {
    /// The contract's own address on the ledger platform.
    pub contract_address: String,
}

/// Answers that the platform's external collaborators gave for the current
/// call, gathered before the transition runs. The transition logic decides
/// from these plain values; it never performs the queries itself.
pub struct PlatformAnswers {
    /// The balance oracle's answer for the owner's balance in the contract's
    /// denomination; `None` when the query failed.
    pub owner_balance: Option<u128>,
    /// The validated form of a `sender` address carried by the request;
    /// `None` when the string failed address validation.
    pub validated_sender: Option<String>,
    /// The validated form of a `recipient` address carried by the request;
    /// `None` when the string failed address validation.
    pub validated_recipient: Option<String>,
}

} // verus!
