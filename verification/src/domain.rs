//! Core domain types of the ledger: transaction kinds, rejection reasons,
//! committed transaction records, and the pure validation of inbound
//! transaction requests.

use vstd::prelude::*;

verus! {

/// The two kinds of transaction a client may submit.
#[derive(Clone, Copy, Debug, PartialEq, Eq, Structural)]
pub enum Kind {
    Credit,
    Debit,
}

/// Why a request was not applied.
///
/// `Validation` never touches the store; `NotFound` is an account id outside
/// the provisioned range; `Overdraft` is a debit that would push the balance
/// below `-limit`; `StoreUnavailable` is a store-level fault (the computed
/// balance cannot be committed), after which no partial effect remains.
#[derive(Clone, Copy, Debug, PartialEq, Eq, Structural)]
pub enum Rejection {
    Validation,
    NotFound,
    Overdraft,
    StoreUnavailable,
}

/// One committed transaction, append-only once recorded.
#[derive(Debug)]
pub struct TransactionRecord {
    /// Positive magnitude of the transaction.
    pub valor: i32,
    /// Credit or debit.
    pub tipo: Kind,
    /// Free text, 1 to 10 characters.
    pub descricao: String,
    /// Timestamp assigned at the moment of commit.
    pub realizada_em: String,
}

impl TransactionRecord {
    /// A record the ledger may hold: positive amount, description of 1 to 10
    /// characters.
    pub open spec fn valid(self) -> bool {
        &&& self.valor >= 1
        &&& 1 <= self.descricao@.len() <= 10
    }

    /// An exact copy of the record.
    pub fn duplicate(&self) -> (r: TransactionRecord)
        ensures
            r == *self,
    {
        TransactionRecord {
            valor: self.valor,
            tipo: self.tipo,
            descricao: self.descricao.clone(),
            realizada_em: self.realizada_em.clone(),
        }
    }
}

/// The signed effect of a record on the balance: positive for a credit,
/// negative for a debit.
pub open spec fn spec_delta(r: TransactionRecord) -> int {
    match r.tipo {
        Kind::Credit => r.valor as int,
        Kind::Debit => -(r.valor as int),
    }
}

/// The balance implied by a history: the sum of the signed effects of its
/// records, applied to an initial balance of zero.
pub open spec fn spec_sum_deltas(h: Seq<TransactionRecord>) -> int
    decreases h.len(),
{
    if h.len() == 0 {
        0
    } else {
        spec_sum_deltas(h.drop_last()) + spec_delta(h.last())
    }
}

/// A well-formed transaction amount: a positive integer.
pub open spec fn spec_valid_valor(v: int) -> bool {
    v >= 1
}

/// A well-formed description: 1 to 10 characters.
pub open spec fn spec_valid_descricao(d: Seq<char>) -> bool {
    1 <= d.len() <= 10
}

/// The transaction kind denoted by a request's `tipo` field, if any:
/// `"c"` is a credit and `"d"` a debit.
pub open spec fn spec_kind_of(t: Seq<char>) -> Option<Kind> {
    if t.len() == 1 && t[0] == 'c' {
        Some(Kind::Credit)
    } else if t.len() == 1 && t[0] == 'd' {
        Some(Kind::Debit)
    } else {
        None
    }
}

/// An account id inside the provisioned universe of five accounts.
pub open spec fn spec_valid_cliente_id(id: int) -> bool {
    1 <= id <= 5
}

/// The outcome of pure request validation, before any state is read: the
/// checks run in the fixed order amount, description, account id, kind, so
/// a bad amount or description answers `Validation` even when the account id
/// is also out of range, while a bad kind on an unknown account answers
/// `NotFound`.
pub open spec fn spec_precheck(id: int, valor: int, tipo: Seq<char>, descricao: Seq<char>) -> Result<
    Kind,
    Rejection,
> {
    if !spec_valid_valor(valor) {
        Err(Rejection::Validation)
    } else if !spec_valid_descricao(descricao) {
        Err(Rejection::Validation)
    } else if !spec_valid_cliente_id(id) {
        Err(Rejection::NotFound)
    } else if spec_kind_of(tipo) is None {
        Err(Rejection::Validation)
    } else {
        Ok(spec_kind_of(tipo)->Some_0)
    }
}

/// Parses a request's `tipo` field: `"c"` is a credit, `"d"` a debit,
/// anything else is no kind at all.
pub fn parse_kind(tipo: &str) -> (r: Option<Kind>)
    ensures
        r == spec_kind_of(tipo@),
{
    if tipo.unicode_len() == 1 {
        let c = tipo.get_char(0);
        if c == 'c' {
            Some(Kind::Credit)
        } else if c == 'd' {
            Some(Kind::Debit)
        } else {
            None
        }
    } else {
        None
    }
}

/// Validates a transaction request without touching any shared state, in the
/// same order the service applies the checks: amount, description, account
/// id, kind. Returns the parsed kind exactly when every check passes.
pub fn precheck_transaction(cliente_id: i64, valor: i32, tipo: &str, descricao: &str) -> (r: Result<
    Kind,
    Rejection,
>)
    ensures
        r == spec_precheck(cliente_id as int, valor as int, tipo@, descricao@),
{
    if valor < 1 {
        return Err(Rejection::Validation);
    }
    let dlen = descricao.unicode_len();
    if dlen < 1 || dlen > 10 {
        return Err(Rejection::Validation);
    }
    if cliente_id < 1 || cliente_id > 5 {
        return Err(Rejection::NotFound);
    }
    match parse_kind(tipo) {
        Some(k) => Ok(k),
        None => Err(Rejection::Validation),
    }
}

} // verus!
