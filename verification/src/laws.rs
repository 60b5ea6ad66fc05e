//! The properties the ledger engine stands for, proved once and for all:
//! any serialization of concurrent requests against one account drives the
//! balance to the initial balance plus the sum of the accepted signed
//! amounts, never through an overdraft; a statement is consistent with the
//! newest transaction it reports; and uniform concurrent debits that would
//! jointly overdraw an account can never all be accepted.

use vstd::prelude::*;

use crate::account::{spec_accepts, spec_next_balance, AccountState};
use crate::domain::{spec_delta, spec_sum_deltas, Kind};
use crate::ledger::{spec_recent, Statement};

verus! {

/// The balance after a sequence of requests, each a kind and a positive
/// amount, has been applied in this serialization order: an accepted
/// request moves the balance, a rejected one leaves it alone.
pub open spec fn spec_run(limit: int, balance: int, reqs: Seq<(Kind, int)>) -> int
    decreases reqs.len(),
{
    if reqs.len() == 0 {
        balance
    } else {
        let k = reqs.first().0;
        let a = reqs.first().1;
        let b2 = if spec_accepts(limit, balance, k, a) {
            spec_next_balance(balance, k, a)
        } else {
            balance
        };
        spec_run(limit, b2, reqs.drop_first())
    }
}

/// The sum of the signed amounts of exactly the accepted requests of the
/// run.
pub open spec fn spec_accepted_sum(limit: int, balance: int, reqs: Seq<(Kind, int)>) -> int
    decreases reqs.len(),
{
    if reqs.len() == 0 {
        0
    } else {
        let k = reqs.first().0;
        let a = reqs.first().1;
        if spec_accepts(limit, balance, k, a) {
            let d = match k {
                Kind::Credit => a,
                Kind::Debit => -a,
            };
            d + spec_accepted_sum(limit, spec_next_balance(balance, k, a), reqs.drop_first())
        } else {
            spec_accepted_sum(limit, balance, reqs.drop_first())
        }
    }
}

/// How many requests of the run are accepted.
pub open spec fn spec_accepted_count(limit: int, balance: int, reqs: Seq<(Kind, int)>) -> int
    decreases reqs.len(),
{
    if reqs.len() == 0 {
        0
    } else {
        let k = reqs.first().0;
        let a = reqs.first().1;
        if spec_accepts(limit, balance, k, a) {
            1 + spec_accepted_count(limit, spec_next_balance(balance, k, a), reqs.drop_first())
        } else {
            spec_accepted_count(limit, balance, reqs.drop_first())
        }
    }
}

/// For every serialization of debit and credit requests against one
/// account, the final balance is the initial balance plus the sum of the
/// accepted requests' signed amounts, and it never lies below `-limit`.
pub proof fn lemma_final_balance(limit: int, balance: int, reqs: Seq<(Kind, int)>)
    requires
        balance >= -limit,
        forall|i: int| 0 <= i < reqs.len() ==> (#[trigger] reqs[i]).1 >= 1,
    ensures
        spec_run(limit, balance, reqs) == balance + spec_accepted_sum(limit, balance, reqs),
        spec_run(limit, balance, reqs) >= -limit,
    decreases reqs.len(),
{
    if reqs.len() > 0 {
        let k = reqs.first().0;
        let a = reqs.first().1;
        assert(reqs[0].1 >= 1);
        let b2 = if spec_accepts(limit, balance, k, a) {
            spec_next_balance(balance, k, a)
        } else {
            balance
        };
        assert forall|i: int| 0 <= i < reqs.drop_first().len() implies (#[trigger] reqs.drop_first()[
            i
        ]).1 >= 1 by {
            assert(reqs.drop_first()[i] == reqs[i + 1]);
        }
        lemma_final_balance(limit, b2, reqs.drop_first());
    }
}

/// No accepted intermediate state violates the overdraft invariant: after
/// every prefix of the serialization the balance still lies at or above
/// `-limit`.
pub proof fn lemma_no_intermediate_overdraft(limit: int, balance: int, reqs: Seq<(Kind, int)>)
    requires
        balance >= -limit,
        forall|i: int| 0 <= i < reqs.len() ==> (#[trigger] reqs[i]).1 >= 1,
    ensures
        forall|i: int|
            0 <= i <= reqs.len() ==> spec_run(limit, balance, #[trigger] reqs.take(i)) >= -limit,
{
    assert forall|i: int|
        0 <= i <= reqs.len() implies spec_run(limit, balance, #[trigger] reqs.take(i))
        >= -limit by {
        assert(forall|j: int|
            0 <= j < reqs.take(i).len() ==> (#[trigger] reqs.take(i)[j]).1 >= 1);
        lemma_final_balance(limit, balance, reqs.take(i));
    }
}

/// A statement never reports a balance inconsistent with the newest entry
/// it lists: the balance is exactly the fold of the records committed
/// since the last provisioning or reset, and when at least one such record
/// exists, the newest listed entry is the history's last commit and the
/// balance is the balance before it plus its signed amount.
pub proof fn lemma_statement_consistency(a: AccountState, st: Statement)
    requires
        a.wf(),
        st.total == a.balance,
        st.ultimas_transacoes@ == spec_recent(a.history@),
    ensures
        st.total == spec_sum_deltas(a.history@.skip(a.reset_mark as int)),
        a.history@.len() > a.reset_mark ==> {
            &&& st.ultimas_transacoes@.len() > 0
            &&& st.ultimas_transacoes@[0] == a.history@.last()
            &&& st.total == spec_sum_deltas(a.history@.skip(a.reset_mark as int).drop_last())
                + spec_delta(st.ultimas_transacoes@[0])
        },
{
    if a.history@.len() > a.reset_mark {
        assert(spec_recent(a.history@)[0] == a.history@[a.history@.len() - 1]);
        let since = a.history@.skip(a.reset_mark as int);
        assert(since.last() == a.history@.last());
    }
}

/// All requests uniform debits of the same amount: the accepted sum is the
/// accepted count times the (negated) amount, and the count never exceeds
/// the number of requests.
pub proof fn lemma_uniform_debits(limit: int, balance: int, a: int, reqs: Seq<(Kind, int)>)
    requires
        forall|i: int| 0 <= i < reqs.len() ==> #[trigger] reqs[i] == (Kind::Debit, a),
    ensures
        spec_accepted_sum(limit, balance, reqs) == -(spec_accepted_count(limit, balance, reqs) * a),
        0 <= spec_accepted_count(limit, balance, reqs) <= reqs.len(),
    decreases reqs.len(),
{
    if reqs.len() > 0 {
        assert(reqs[0] == (Kind::Debit, a));
        assert forall|i: int| 0 <= i < reqs.drop_first().len() implies #[trigger] reqs.drop_first()[
            i
        ] == (Kind::Debit, a) by {
            assert(reqs.drop_first()[i] == reqs[i + 1]);
        }
        if spec_accepts(limit, balance, Kind::Debit, a) {
            let b2 = spec_next_balance(balance, Kind::Debit, a);
            lemma_uniform_debits(limit, b2, a, reqs.drop_first());
            let c = spec_accepted_count(limit, b2, reqs.drop_first());
            assert((1 + c) * a == c * a + a) by (nonlinear_arith);
        } else {
            lemma_uniform_debits(limit, balance, a, reqs.drop_first());
        }
    }
}

/// The concurrent-conflict property: launching `n` debits of amount
/// `limit / n + 1` against an account with balance zero, in whatever order
/// the store serializes them, accepts at most `n - 1` of them.
pub proof fn lemma_concurrent_debits_conflict(limit: int, n: int, reqs: Seq<(Kind, int)>)
    requires
        limit >= 1,
        n >= 1,
        reqs.len() == n,
        forall|i: int| 0 <= i < n ==> #[trigger] reqs[i] == (Kind::Debit, limit / n + 1),
    ensures
        spec_accepted_count(limit, 0, reqs) <= n - 1,
{
    let a = limit / n + 1;
    vstd::arithmetic::div_mod::lemma_div_pos_is_pos(limit, n);
    assert(forall|i: int| 0 <= i < reqs.len() ==> (#[trigger] reqs[i]).1 >= 1);
    lemma_final_balance(limit, 0, reqs);
    lemma_uniform_debits(limit, 0, a, reqs);
    let k = spec_accepted_count(limit, 0, reqs);
    assert(-(k * a) >= -limit);
    if k == n {
        vstd::arithmetic::div_mod::lemma_fundamental_div_mod(limit, n);
        vstd::arithmetic::div_mod::lemma_mod_division_less_than_divisor(limit, n);
        assert(n * a == n * (limit / n) + n) by (nonlinear_arith)
            requires
                a == limit / n + 1,
        ;
        assert(n * (limit / n) == limit - limit % n);
        assert(n * a > limit);
        assert(false);
    }
}

} // verus!
