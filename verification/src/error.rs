//! The errors the ledger's operations surface. Every error aborts the
//! operation before any state change or message emission is committed.

use vstd::prelude::*;

verus! {

/// Why an operation was refused. Failures of the persistent store itself
/// cannot arise here: the platform adapter loads and saves the record around
/// each call and surfaces its own storage errors before this logic runs.
#[derive(Clone, Copy, Debug, PartialEq, Eq, Structural)]
pub enum ContractError {
    /// A requested limit or consumption exceeds the authoritative balance or
    /// the remaining count.
    NotEnoughTokens {},
    /// The caller's identity does not match the principal the operation
    /// requires.
    Unauthorized {},
    /// A supplied address string failed validation.
    InvalidAddress {},
    /// The balance oracle could not answer the query.
    OracleError {},
}

} // verus!
