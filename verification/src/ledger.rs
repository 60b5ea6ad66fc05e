//! The ledger engine: the fixed universe of five provisioned accounts, the
//! transaction-application path, the statement read path, and the
//! administrative reset.

use vstd::prelude::*;

use crate::account::{spec_accepts, spec_next_balance, AccountState};
use crate::domain::{precheck_transaction, spec_precheck, Kind, Rejection, TransactionRecord};

verus! {

/// The overdraft limit each account is provisioned with.
pub open spec fn spec_initial_limit(id: int) -> int {
    if id == 1 {
        100000
    } else if id == 2 {
        80000
    } else if id == 3 {
        1000000
    } else if id == 4 {
        10000000
    } else {
        500000
    }
}

/// The provisioned overdraft limit of the account with the given id.
pub fn limit_for(id: i64) -> (l: i64)
    requires
        1 <= id <= 5,
    ensures
        l == spec_initial_limit(id as int),
        l >= 1,
{
    if id == 1 {
        100000
    } else if id == 2 {
        80000
    } else if id == 3 {
        1000000
    } else if id == 4 {
        10000000
    } else {
        500000
    }
}

/// The reply to an accepted transaction: the account's limit and its new
/// balance.
#[derive(Clone, Copy, Debug, PartialEq, Eq, Structural)]
pub struct TransactionReply {
    pub limite: i64,
    pub saldo: i64,
}

/// A statement: one consistent snapshot of an account's balance and limit,
/// the time the snapshot was taken, and the most recent transactions, newest
/// first, capped at ten.
#[derive(Debug)]
pub struct Statement {
    pub total: i64,
    pub limite: i64,
    pub data_extrato: String,
    pub ultimas_transacoes: Vec<TransactionRecord>,
}

/// The transactions a statement reports for a history: the last ten records
/// (or all of them, when fewer exist), newest first.
pub open spec fn spec_recent(h: Seq<TransactionRecord>) -> Seq<TransactionRecord> {
    let n = if h.len() <= 10 {
        h.len() as int
    } else {
        10
    };
    Seq::new(n as nat, |i: int| h[h.len() - 1 - i])
}

/// The whole ledger: the five provisioned accounts, indexed by id minus one.
#[derive(Debug)]
pub struct Ledger {
    pub accounts: Vec<AccountState>,
}

impl Ledger {
    /// Well-formedness: exactly the provisioned number of accounts, each of
    /// them well formed.
    pub open spec fn wf(self) -> bool {
        &&& self.accounts@.len() == 5
        &&& forall|i: int| 0 <= i < 5 ==> (#[trigger] self.accounts@[i]).wf()
    }

    /// Every account carries its provisioned pair: the documented limit and
    /// a balance of zero, with no record since the last provisioning or
    /// reset still counting towards the balance.
    pub open spec fn spec_provisioned(self) -> bool {
        &&& self.accounts@.len() == 5
        &&& forall|i: int|
            0 <= i < 5 ==> {
                &&& (#[trigger] self.accounts@[i]).limit == spec_initial_limit(i + 1)
                &&& self.accounts@[i].balance == 0
                &&& self.accounts@[i].reset_mark == self.accounts@[i].history@.len()
            }
    }

    /// A ledger with all five accounts in their provisioned starting state
    /// and no transactions yet.
    pub fn new() -> (l: Ledger)
        ensures
            l.wf(),
            l.spec_provisioned(),
            forall|i: int| 0 <= i < 5 ==> (#[trigger] l.accounts@[i]).history@.len() == 0,
    {
        let mut accounts: Vec<AccountState> = Vec::new();
        accounts.push(AccountState::new(100000));
        accounts.push(AccountState::new(80000));
        accounts.push(AccountState::new(1000000));
        accounts.push(AccountState::new(10000000));
        accounts.push(AccountState::new(500000));
        Ledger { accounts }
    }

    /// Administrative reset: returns every account's balance and limit to
    /// the provisioned pair, decoupling successive benchmark runs. The
    /// committed transaction history is immutable and stays exactly as it
    /// was: no update, no delete.
    pub fn reset(&mut self)
        requires
            old(self).wf(),
        ensures
            final(self).wf(),
            final(self).spec_provisioned(),
            final(self).accounts@.len() == old(self).accounts@.len(),
            forall|i: int|
                0 <= i < 5 ==> (#[trigger] final(self).accounts@[i]).history@ == old(
                    self,
                ).accounts@[i].history@,
    {
        let mut id: i64 = 1;
        while id <= 5
            invariant
                1 <= id <= 6,
                old(self).accounts@.len() == 5,
                self.accounts@.len() == 5,
                forall|i: int| 0 <= i < 5 ==> (#[trigger] self.accounts@[i]).wf(),
                forall|i: int|
                    0 <= i < 5 ==> (#[trigger] self.accounts@[i]).history@ == old(
                        self,
                    ).accounts@[i].history@,
                forall|i: int|
                    0 <= i < id - 1 ==> {
                        &&& (#[trigger] self.accounts@[i]).limit == spec_initial_limit(i + 1)
                        &&& self.accounts@[i].balance == 0
                        &&& self.accounts@[i].reset_mark == self.accounts@[i].history@.len()
                    },
            decreases 6 - id,
        {
            let limit = limit_for(id);
            let idx = (id - 1) as usize;
            self.accounts[idx].reprovision(limit);
            id = id + 1;
        }
    }

    /// Applies one transaction request atomically against the ledger, with
    /// the commit timestamp given by the caller.
    ///
    /// The request is validated first, without touching any account; a
    /// validation failure or an unknown account changes nothing. A valid
    /// request is decided against its account alone: either the balance and
    /// the history change together and the reply carries the limit and the
    /// new balance, or the account is left exactly as it was. Accounts other
    /// than the target are never touched.
    pub fn apply_transaction_at(
        &mut self,
        cliente_id: i64,
        valor: i32,
        tipo: &str,
        descricao: &str,
        realizada_em: &str,
    ) -> (r: Result<TransactionReply, Rejection>)
        requires
            old(self).wf(),
        ensures
            final(self).wf(),
            spec_precheck(cliente_id as int, valor as int, tipo@, descricao@) matches Err(e)
                ==> r == Err::<TransactionReply, Rejection>(e) && *final(self) == *old(self),
            spec_precheck(cliente_id as int, valor as int, tipo@, descricao@) matches Ok(kind)
                ==> {
                let i = cliente_id - 1;
                let a = old(self).accounts@[i];
                &&& final(self).accounts@.len() == 5
                &&& forall|j: int|
                    0 <= j < 5 && j != i ==> final(self).accounts@[j] == old(self).accounts@[j]
                &&& final(self).accounts@[i].limit == a.limit
                &&& final(self).accounts@[i].reset_mark == a.reset_mark
                &&& (spec_accepts(a.limit as int, a.balance as int, kind, valor as int) ==> {
                    &&& r == Ok::<TransactionReply, Rejection>(
                        TransactionReply {
                            limite: a.limit,
                            saldo: spec_next_balance(a.balance as int, kind, valor as int) as i64,
                        },
                    )
                    &&& final(self).accounts@[i].balance as int == spec_next_balance(
                        a.balance as int,
                        kind,
                        valor as int,
                    )
                    &&& final(self).accounts@[i].history@.len() == a.history@.len() + 1
                    &&& final(self).accounts@[i].history@.drop_last() =~= a.history@
                    &&& final(self).accounts@[i].history@.last().valor == valor
                    &&& final(self).accounts@[i].history@.last().tipo == kind
                    &&& final(self).accounts@[i].history@.last().descricao@ == descricao@
                    &&& final(self).accounts@[i].history@.last().realizada_em@ == realizada_em@
                })
                &&& (!spec_accepts(a.limit as int, a.balance as int, kind, valor as int) ==> {
                    &&& r == Err::<TransactionReply, Rejection>(
                        match kind {
                            Kind::Credit => Rejection::StoreUnavailable,
                            Kind::Debit => Rejection::Overdraft,
                        },
                    )
                    &&& final(self).accounts@ == old(self).accounts@
                })
            },
    {
        let kind = match precheck_transaction(cliente_id, valor, tipo, descricao) {
            Ok(k) => k,
            Err(e) => {
                return Err(e);
            },
        };
        let idx = (cliente_id - 1) as usize;
        let account = &mut self.accounts[idx];
        let limit = account.limit;
        match account.apply(valor, kind, descricao, realizada_em) {
            Ok(nb) => Ok(TransactionReply { limite: limit, saldo: nb }),
            Err(e) => {
                proof {
                    assert(self.accounts@ =~= old(self).accounts@);
                }
                Err(e)
            },
        }
    }

    /// Applies one transaction request, assigning the commit timestamp at
    /// the moment of commit. Behaves as `apply_transaction_at` in every
    /// respect that does not depend on the clock.
    pub fn apply_transaction(
        &mut self,
        cliente_id: i64,
        valor: i32,
        tipo: &str,
        descricao: &str,
    ) -> (r: Result<TransactionReply, Rejection>)
        requires
            old(self).wf(),
        ensures
            final(self).wf(),
            spec_precheck(cliente_id as int, valor as int, tipo@, descricao@) matches Err(e)
                ==> r == Err::<TransactionReply, Rejection>(e) && *final(self) == *old(self),
            spec_precheck(cliente_id as int, valor as int, tipo@, descricao@) matches Ok(kind)
                ==> {
                let i = cliente_id - 1;
                let a = old(self).accounts@[i];
                &&& final(self).accounts@.len() == 5
                &&& forall|j: int|
                    0 <= j < 5 && j != i ==> final(self).accounts@[j] == old(self).accounts@[j]
                &&& final(self).accounts@[i].limit == a.limit
                &&& final(self).accounts@[i].reset_mark == a.reset_mark
                &&& (spec_accepts(a.limit as int, a.balance as int, kind, valor as int) ==> {
                    &&& r == Ok::<TransactionReply, Rejection>(
                        TransactionReply {
                            limite: a.limit,
                            saldo: spec_next_balance(a.balance as int, kind, valor as int) as i64,
                        },
                    )
                    &&& final(self).accounts@[i].balance as int == spec_next_balance(
                        a.balance as int,
                        kind,
                        valor as int,
                    )
                    &&& final(self).accounts@[i].history@.len() == a.history@.len() + 1
                    &&& final(self).accounts@[i].history@.drop_last() =~= a.history@
                    &&& final(self).accounts@[i].history@.last().valor == valor
                    &&& final(self).accounts@[i].history@.last().tipo == kind
                    &&& final(self).accounts@[i].history@.last().descricao@ == descricao@
                })
                &&& (!spec_accepts(a.limit as int, a.balance as int, kind, valor as int) ==> {
                    &&& r == Err::<TransactionReply, Rejection>(
                        match kind {
                            Kind::Credit => Rejection::StoreUnavailable,
                            Kind::Debit => Rejection::Overdraft,
                        },
                    )
                    &&& final(self).accounts@ == old(self).accounts@
                })
            },
    {
        let now = current_timestamp();
        self.apply_transaction_at(cliente_id, valor, tipo, descricao, now.as_str())
    }

    /// Reads a statement as of a single consistent point: the account's
    /// current balance and limit, the snapshot time given by the caller, and
    /// the most recent transactions, newest first, capped at ten. An id
    /// outside the provisioned range is `NotFound`; nothing is ever changed.
    pub fn get_statement_at(&self, cliente_id: i64, data_extrato: &str) -> (r: Result<
        Statement,
        Rejection,
    >)
        requires
            self.wf(),
        ensures
            !(1 <= cliente_id <= 5) ==> r == Err::<Statement, Rejection>(Rejection::NotFound),
            1 <= cliente_id <= 5 ==> {
                let a = self.accounts@[cliente_id - 1];
                &&& r is Ok
                &&& r->Ok_0.total == a.balance
                &&& r->Ok_0.limite == a.limit
                &&& r->Ok_0.data_extrato@ == data_extrato@
                &&& r->Ok_0.ultimas_transacoes@ =~= spec_recent(a.history@)
            },
    {
        if cliente_id < 1 || cliente_id > 5 {
            return Err(Rejection::NotFound);
        }
        let idx = (cliente_id - 1) as usize;
        let account = &self.accounts[idx];
        let hlen = account.history.len();
        let count = if hlen <= 10 {
            hlen
        } else {
            10
        };
        let mut recent: Vec<TransactionRecord> = Vec::new();
        let mut i: usize = 0;
        while i < count
            invariant
                count <= hlen == account.history@.len(),
                i <= count,
                recent@.len() == i,
                forall|j: int|
                    0 <= j < i ==> recent@[j] == account.history@[account.history@.len() - 1 - j],
            decreases count - i,
        {
            recent.push(account.history[hlen - 1 - i].duplicate());
            i = i + 1;
        }
        proof {
            assert(recent@ =~= spec_recent(account.history@));
        }
        Ok(Statement {
            total: account.balance,
            limite: account.limit,
            data_extrato: data_extrato.to_owned(),
            ultimas_transacoes: recent,
        })
    }

    /// Reads a statement, stamping the snapshot with the current time.
    /// Behaves as `get_statement_at` in every respect that does not depend
    /// on the clock.
    pub fn get_statement(&self, cliente_id: i64) -> (r: Result<Statement, Rejection>)
        requires
            self.wf(),
        ensures
            !(1 <= cliente_id <= 5) ==> r == Err::<Statement, Rejection>(Rejection::NotFound),
            1 <= cliente_id <= 5 ==> {
                let a = self.accounts@[cliente_id - 1];
                &&& r is Ok
                &&& r->Ok_0.total == a.balance
                &&& r->Ok_0.limite == a.limit
                &&& r->Ok_0.ultimas_transacoes@ =~= spec_recent(a.history@)
            },
    {
        let now = current_timestamp();
        self.get_statement_at(cliente_id, now.as_str())
    }
}

/// Relies on chrono's `Utc::now().to_rfc3339()`: an RFC 3339 rendering of
/// the current time. The clock decides the value, so nothing is assumed of
/// it beyond being a non-empty string.
#[verifier::external_body]
fn current_timestamp() -> (r: String)
    ensures
        r@.len() > 0,
{
    chrono::Utc::now().to_rfc3339()
}

} // verus!
