//! The 1:1 mapping from domain outcomes to HTTP status codes: the request
//! handler is a thin collaborator, and this mapping is the whole of its
//! decision logic.

use vstd::prelude::*;

use crate::domain::Rejection;
use crate::ledger::{Statement, TransactionReply};

verus! {

/// The status code of a rejection: a validation failure and a rejected
/// overdraft are both unprocessable for the client, an unknown account is
/// not found, and a store fault is a server fault.
pub open spec fn spec_rejection_status(e: Rejection) -> int {
    match e {
        Rejection::Validation => 422,
        Rejection::Overdraft => 422,
        Rejection::NotFound => 404,
        Rejection::StoreUnavailable => 500,
    }
}

/// Maps a rejection to its HTTP status code.
pub fn rejection_status(e: &Rejection) -> (s: u16)
    ensures
        s as int == spec_rejection_status(*e),
{
    match e {
        Rejection::Validation => 422,
        Rejection::Overdraft => 422,
        Rejection::NotFound => 404,
        Rejection::StoreUnavailable => 500,
    }
}

/// The status code of a transaction outcome: success is 200, anything else
/// maps by the rejection.
pub fn transaction_status(r: &Result<TransactionReply, Rejection>) -> (s: u16)
    ensures
        r is Ok ==> s == 200,
        r matches Err(e) ==> s as int == spec_rejection_status(*e),
{
    match r {
        Ok(_) => 200,
        Err(e) => rejection_status(e),
    }
}

/// The status code of a statement outcome: success is 200, anything else
/// maps by the rejection.
pub fn statement_status(r: &Result<Statement, Rejection>) -> (s: u16)
    ensures
        r is Ok ==> s == 200,
        r matches Err(e) ==> s as int == spec_rejection_status(*e),
{
    match r {
        Ok(_) => 200,
        Err(e) => rejection_status(e),
    }
}

} // verus!
