//! Error kinds of the escrow store, the execute entry points, and the query
//! path. Every error is returned synchronously to the caller; a failing call
//! leaves the store exactly as it was.

use vstd::prelude::*;

verus! {

/// Errors of the store primitives `insert_new` and `remove`.
#[derive(Debug, PartialEq, Eq)]
pub enum StoreError {
    /// `insert_new` found a live record under the same depositor address.
    DuplicateEscrow,
    /// `remove` found no record under the given address.
    NotFound,
}

/// Errors of the execute entry points of the engine.
#[derive(Debug, PartialEq, Eq)]
pub enum ContractError {
    /// The receive hook was invoked by something other than the configured
    /// token ledger.
    Unauthorized,
    /// A second deposit was attempted for a depositor who already has a live
    /// escrow.
    ExistingEscrow,
    /// A redeem was attempted by an address with no live escrow.
    NotFound,
    /// A redeem was attempted before the clock reached the expiry.
    EscrowNotExpired,
    /// A zero transferred amount reached the receive handler.
    InvalidAmount,
}

impl ContractError {
    /// The user-visible text of the error, verbatim.
    pub fn message(&self) -> (m: &'static str)
        ensures
            m@ == match *self {
                ContractError::Unauthorized => "Unauthorized"@,
                ContractError::ExistingEscrow => "Existing escrow"@,
                ContractError::NotFound => "No escrow found"@,
                ContractError::EscrowNotExpired => "Escrow not expired"@,
                ContractError::InvalidAmount => "Invalid zero amount"@,
            },
    {
        match *self {
            ContractError::Unauthorized => "Unauthorized",
            ContractError::ExistingEscrow => "Existing escrow",
            ContractError::NotFound => "No escrow found",
            ContractError::EscrowNotExpired => "Escrow not expired",
            ContractError::InvalidAmount => "Invalid zero amount",
        }
    }
}

/// Error of the escrow lookup query.
#[derive(Debug, PartialEq, Eq)]
pub enum QueryError {
    /// No live escrow exists for the queried address.
    NotFound,
}

impl QueryError {
    /// The user-visible text of the failure, verbatim.
    pub fn message(&self) -> (m: &'static str)
        ensures
            m@ == "No escrow found"@,
    {
        match *self {
            QueryError::NotFound => "No escrow found",
        }
    }
}

} // verus!
