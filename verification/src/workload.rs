//! The load generator's decision logic: which operation each iteration of
//! the cyclic workload issues, when the balances are reset, how a response
//! is judged, and the shape of the randomly generated requests.

use vstd::prelude::*;

use rand::Rng;

use crate::domain::{spec_valid_descricao, spec_valid_valor};

verus! {

/// The operations of the workload cycle.
#[derive(Clone, Copy, Debug, PartialEq, Eq, Structural)]
pub enum Op {
    Debit,
    Credit,
    Statement,
}

/// The operation issued at a given position of the 34-iteration cycle: one
/// credit, one statement, and debits everywhere else.
pub open spec fn spec_op_for(counter: int) -> Op {
    let n = counter % 34;
    if n == 22 {
        Op::Credit
    } else if n == 33 {
        Op::Statement
    } else {
        Op::Debit
    }
}

/// The operation this iteration of the workload issues. Each worker threads
/// its own counter through its calls, so the choice is a pure function of
/// that counter.
pub fn op_for_iteration(counter: u128) -> (op: Op)
    ensures
        op == spec_op_for(counter as int),
{
    let n = counter % 34;
    if n % 2 == 0 && n != 22 && n != 33 {
        Op::Debit
    } else if n % 3 == 1 && n != 22 && n != 33 {
        Op::Debit
    } else if (n % 3 == 1 && n != 22) || n == 22 || n % 6 == 4 || n % 9 == 7 {
        Op::Credit
    } else if n == 33 {
        Op::Statement
    } else {
        Op::Debit
    }
}

/// Whether this iteration starts by resetting every account, decoupling the
/// measurement windows: once per full cycle.
pub fn should_reset(counter: u128) -> (b: bool)
    ensures
        b == (counter as int % 34 == 0),
{
    counter % 34 == 0
}

/// The overdraft invariant as the load generator re-checks it on every
/// successful response: the reported balance may go negative only as far as
/// the reported limit allows.
pub open spec fn spec_balance_limit_ok(saldo: int, limite: int) -> bool {
    saldo >= -limite
}

/// Re-checks the overdraft invariant on a `(balance, limit)` pair reported
/// by the service, independently of the server's own bookkeeping.
pub fn validate_balance_limit(saldo: i64, limite: i64) -> (ok: bool)
    ensures
        ok == spec_balance_limit_ok(saldo as int, limite as int),
{
    if limite >= 0 {
        saldo >= -limite
    } else if limite == i64::MIN {
        false
    } else {
        saldo >= -limite
    }
}

/// How the load generator treats one response, given the operation it
/// issued and the status code it got back.
#[derive(Clone, Copy, Debug, PartialEq, Eq, Structural)]
pub enum ResponseJudgment {
    /// A success: the body's balance and limit must still be re-checked.
    CheckBody,
    /// The iteration counts as done, reported under this status code.
    ReportStatus(u16),
    /// An unexpected outcome that fails the measurement run.
    Failure,
}

/// The judgment of a response: a 200 always has its body re-checked; a
/// server fault (any 5xx) is a hard failure of the measurement run,
/// whatever the operation; an unprocessable outcome on a debit is the
/// invariant working as intended and is reported as a success, and any
/// other status on a debit is passed through; on a credit or a statement
/// anything but 200 fails the run.
pub open spec fn spec_judge_response(op: Op, status: int) -> ResponseJudgment {
    if status == 200 {
        ResponseJudgment::CheckBody
    } else if 500 <= status <= 599 {
        ResponseJudgment::Failure
    } else {
        match op {
            Op::Debit => if status == 422 {
                ResponseJudgment::ReportStatus(200)
            } else {
                ResponseJudgment::ReportStatus(status as u16)
            },
            Op::Credit => ResponseJudgment::Failure,
            Op::Statement => ResponseJudgment::Failure,
        }
    }
}

/// Judges one response of the service against the operation that was
/// issued.
pub fn judge_response(op: Op, status: u16) -> (j: ResponseJudgment)
    ensures
        j == spec_judge_response(op, status as int),
{
    if status == 200 {
        return ResponseJudgment::CheckBody;
    }
    if status >= 500 && status <= 599 {
        return ResponseJudgment::Failure;
    }
    match op {
        Op::Debit => {
            if status == 422 {
                ResponseJudgment::ReportStatus(200)
            } else {
                ResponseJudgment::ReportStatus(status)
            }
        },
        Op::Credit => ResponseJudgment::Failure,
        Op::Statement => ResponseJudgment::Failure,
    }
}

/// A character the random description generator may produce: an ASCII
/// letter or digit.
pub open spec fn spec_alphanumeric_char(c: char) -> bool {
    ('a' <= c && c <= 'z') || ('A' <= c && c <= 'Z') || ('0' <= c && c <= '9')
}

/// Relies on rand's `Rng::random_range` over `1..=5`: the result lies in
/// the requested range. Which value comes back is chance, so nothing more
/// is assumed.
#[verifier::external_body]
pub fn random_client_id() -> (r: i32)
    ensures
        1 <= r <= 5,
{
    rand::rng().random_range(1..=5)
}

/// Relies on rand's `Rng::random_range` over `1..=10000`: the result lies
/// in the requested range. Which value comes back is chance, so nothing
/// more is assumed.
#[verifier::external_body]
pub fn random_transaction_value() -> (r: i32)
    ensures
        1 <= r <= 10000,
{
    rand::rng().random_range(1..=10000)
}

/// Relies on rand's `Rng::sample_iter` over the `Alphanumeric`
/// distribution, which samples ASCII letters and digits: taking ten samples
/// yields a string of exactly ten alphanumeric characters.
#[verifier::external_body]
pub fn random_description() -> (r: String)
    ensures
        r@.len() == 10,
        forall|i: int| 0 <= i < 10 ==> spec_alphanumeric_char(#[trigger] r@[i]),
{
    rand::rng().sample_iter(&rand::distr::Alphanumeric).take(10).map(char::from).collect()
}

/// One randomly generated transaction request of the workload.
#[derive(Debug)]
pub struct GeneratedRequest {
    pub cliente_id: i32,
    pub valor: i32,
    pub descricao: String,
}

/// Draws a random transaction request: an account inside the provisioned
/// range, a positive amount, and a ten-character description — every
/// request the generator produces passes the service's validation.
pub fn random_transaction_request() -> (r: GeneratedRequest)
    ensures
        1 <= r.cliente_id <= 5,
        1 <= r.valor <= 10000,
        r.descricao@.len() == 10,
        spec_valid_valor(r.valor as int),
        spec_valid_descricao(r.descricao@),
{
    GeneratedRequest {
        cliente_id: random_client_id(),
        valor: random_transaction_value(),
        descricao: random_description(),
    }
}

} // verus!
