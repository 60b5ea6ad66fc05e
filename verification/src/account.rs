//! One account of the ledger: its fixed overdraft limit, its running
//! balance, and its append-only transaction history, together with the
//! balance-mutation decision that enforces the overdraft invariant.

use vstd::prelude::*;

use crate::domain::{
    spec_sum_deltas, spec_valid_descricao, Kind, Rejection, TransactionRecord,
};

verus! {

/// Whether a transaction of the given kind and positive amount may be
/// committed against a balance under the given limit: a debit only when the
/// resulting balance stays at or above `-limit`, a credit whenever the
/// resulting balance is still representable by the store.
pub open spec fn spec_accepts(limit: int, balance: int, kind: Kind, valor: int) -> bool {
    match kind {
        Kind::Credit => balance + valor <= i64::MAX as int,
        Kind::Debit => balance - valor >= -limit,
    }
}

/// The balance after a committed transaction.
pub open spec fn spec_next_balance(balance: int, kind: Kind, valor: int) -> int {
    match kind {
        Kind::Credit => balance + valor,
        Kind::Debit => balance - valor,
    }
}

/// Decides a single transaction against a snapshot of an account row, as one
/// atomic conditional update: `Ok` carries the new balance exactly when the
/// overdraft invariant allows the mutation; a rejected debit is an
/// `Overdraft`; a credit whose result the store cannot represent is a
/// `StoreUnavailable` fault. Nothing else decides whether a balance change
/// commits.
pub fn decide_transaction(limit: i64, balance: i64, valor: i32, kind: Kind) -> (r: Result<
    i64,
    Rejection,
>)
    requires
        limit >= 1,
        valor >= 1,
    ensures
        spec_accepts(limit as int, balance as int, kind, valor as int) ==> r == Ok::<i64, Rejection>(
            spec_next_balance(balance as int, kind, valor as int) as i64,
        ),
        !spec_accepts(limit as int, balance as int, kind, valor as int) ==> r == Err::<
            i64,
            Rejection,
        >(
            match kind {
                Kind::Credit => Rejection::StoreUnavailable,
                Kind::Debit => Rejection::Overdraft,
            },
        ),
{
    match kind {
        Kind::Credit => match balance.checked_add(valor as i64) {
            Some(nb) => Ok(nb),
            None => Err(Rejection::StoreUnavailable),
        },
        Kind::Debit => match balance.checked_sub(valor as i64) {
            Some(nb) => {
                if nb >= -limit {
                    Ok(nb)
                } else {
                    Err(Rejection::Overdraft)
                }
            },
            None => Err(Rejection::Overdraft),
        },
    }
}

/// One provisioned account: a positive overdraft limit, the current
/// balance, and the account's committed transactions, oldest first.
///
/// The history is append-only and survives the administrative reset — a
/// committed record is never updated or deleted. `reset_mark` counts the
/// records that predate the last provisioning or reset; the balance is
/// always the fold of the records committed since then.
#[derive(Debug)]
pub struct AccountState {
    pub limit: i64,
    pub balance: i64,
    pub history: Vec<TransactionRecord>,
    pub reset_mark: usize,
}

impl AccountState {
    /// Well-formedness: the limit is positive, the overdraft invariant
    /// `balance >= -limit` holds, the reset mark lies within the history,
    /// the balance is exactly the one implied by the records committed
    /// since the last reset, and every record is itself valid.
    pub open spec fn wf(self) -> bool {
        &&& self.limit >= 1
        &&& self.balance as int >= -(self.limit as int)
        &&& self.reset_mark <= self.history@.len()
        &&& self.balance as int == spec_sum_deltas(self.history@.skip(self.reset_mark as int))
        &&& forall|i: int|
            0 <= i < self.history@.len() ==> (#[trigger] self.history@[i]).valid()
    }

    /// A freshly provisioned account: the given limit, a balance of zero,
    /// and no transactions.
    pub fn new(limit: i64) -> (a: AccountState)
        requires
            limit >= 1,
        ensures
            a.limit == limit,
            a.balance == 0,
            a.history@ =~= Seq::<TransactionRecord>::empty(),
            a.reset_mark == 0,
            a.wf(),
    {
        let a = AccountState { limit, balance: 0, history: Vec::new(), reset_mark: 0 };
        proof {
            assert(a.history@.skip(0) =~= Seq::<TransactionRecord>::empty());
        }
        a
    }

    /// Administrative re-provisioning: the balance returns to zero and the
    /// limit to its provisioned value, while the committed history stays
    /// untouched — no update, no delete. Records already committed no
    /// longer count towards the balance.
    pub fn reprovision(&mut self, limit: i64)
        requires
            old(self).wf(),
            limit >= 1,
        ensures
            final(self).wf(),
            final(self).limit == limit,
            final(self).balance == 0,
            final(self).history@ == old(self).history@,
            final(self).reset_mark == final(self).history@.len(),
    {
        self.limit = limit;
        self.balance = 0;
        self.reset_mark = self.history.len();
        proof {
            assert(self.history@.skip(self.history@.len() as int) =~= Seq::<
                TransactionRecord,
            >::empty());
        }
    }

    /// Applies one validated transaction atomically: either the balance and
    /// the history change together and the new balance is returned, or the
    /// account is left exactly as it was. A rejected debit is an `Overdraft`;
    /// a credit whose result the store cannot hold is a `StoreUnavailable`
    /// fault. The overdraft invariant holds afterwards in every case.
    pub fn apply(&mut self, valor: i32, kind: Kind, descricao: &str, realizada_em: &str) -> (r:
        Result<i64, Rejection>)
        requires
            old(self).wf(),
            valor >= 1,
            spec_valid_descricao(descricao@),
        ensures
            final(self).wf(),
            final(self).limit == old(self).limit,
            final(self).reset_mark == old(self).reset_mark,
            spec_accepts(old(self).limit as int, old(self).balance as int, kind, valor as int)
                ==> {
                &&& r == Ok::<i64, Rejection>(
                    spec_next_balance(old(self).balance as int, kind, valor as int) as i64,
                )
                &&& final(self).balance as int == spec_next_balance(
                    old(self).balance as int,
                    kind,
                    valor as int,
                )
                &&& final(self).history@.len() == old(self).history@.len() + 1
                &&& final(self).history@.drop_last() =~= old(self).history@
                &&& final(self).history@.last().valor == valor
                &&& final(self).history@.last().tipo == kind
                &&& final(self).history@.last().descricao@ == descricao@
                &&& final(self).history@.last().realizada_em@ == realizada_em@
            },
            !spec_accepts(old(self).limit as int, old(self).balance as int, kind, valor as int)
                ==> {
                &&& r == Err::<i64, Rejection>(
                    match kind {
                        Kind::Credit => Rejection::StoreUnavailable,
                        Kind::Debit => Rejection::Overdraft,
                    },
                )
                &&& *final(self) == *old(self)
            },
    {
        match decide_transaction(self.limit, self.balance, valor, kind) {
            Ok(nb) => {
                let rec = TransactionRecord {
                    valor,
                    tipo: kind,
                    descricao: descricao.to_owned(),
                    realizada_em: realizada_em.to_owned(),
                };
                self.balance = nb;
                self.history.push(rec);
                proof {
                    let m = self.reset_mark as int;
                    assert(self.history@.drop_last() =~= old(self).history@);
                    assert(self.history@.skip(m).drop_last() =~= old(self).history@.skip(m));
                    assert(self.history@.skip(m).last() == self.history@.last());
                }
                Ok(nb)
            },
            Err(e) => Err(e),
        }
    }
}

} // verus!
