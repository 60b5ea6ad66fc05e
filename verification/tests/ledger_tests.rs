use rinha_ledger::account::{decide_transaction, AccountState};
use rinha_ledger::domain::{Kind, Rejection};
use rinha_ledger::ledger::{limit_for, Ledger};
use rinha_ledger::status::{rejection_status, statement_status, transaction_status};

#[test]
fn scenario_limit_1000_debit_then_overdraft_then_credit() {
    let mut a = AccountState::new(1000);
    let r1 = a.apply(500, Kind::Debit, "despesa", "t1");
    assert_eq!(r1, Ok(-500));
    assert_eq!(a.limit, 1000);
    assert_eq!(a.balance, -500);

    let r2 = a.apply(600, Kind::Debit, "despesa", "t2");
    assert_eq!(r2, Err(Rejection::Overdraft));
    assert_eq!(rejection_status(&Rejection::Overdraft), 422);
    assert_eq!(a.balance, -500);
    assert_eq!(a.history.len(), 1);

    let r3 = a.apply(600, Kind::Credit, "deposito", "t3");
    assert_eq!(r3, Ok(100));
    assert_eq!(a.balance, 100);
    assert_eq!(a.limit, 1000);
}

#[test]
fn overdraft_boundary_is_accepted_not_rejected() {
    let mut a = AccountState::new(1000);
    let r = a.apply(1000, Kind::Debit, "tudo", "t1");
    assert_eq!(r, Ok(-1000));
    let r2 = a.apply(1, Kind::Debit, "gota", "t2");
    assert_eq!(r2, Err(Rejection::Overdraft));
    assert_eq!(a.balance, -1000);
}

#[test]
fn fresh_account_statement_is_empty_with_zero_total() {
    let l = Ledger::new();
    let st = l.get_statement_at(1, "2024-01-01T00:00:00+00:00").unwrap();
    assert_eq!(st.total, 0);
    assert_eq!(st.limite, 100000);
    assert_eq!(st.data_extrato, "2024-01-01T00:00:00+00:00");
    assert!(st.ultimas_transacoes.is_empty());
}

#[test]
fn empty_and_eleven_char_descriptions_are_rejected_without_state_change() {
    let mut l = Ledger::new();
    let r1 = l.apply_transaction_at(1, 100, "c", "", "t1");
    assert_eq!(r1, Err(Rejection::Validation));
    let r2 = l.apply_transaction_at(1, 100, "c", "abcdefghijk", "t2");
    assert_eq!(r2, Err(Rejection::Validation));
    assert_eq!(transaction_status(&r1), 422);
    assert_eq!(transaction_status(&r2), 422);

    let st = l.get_statement_at(1, "t3").unwrap();
    assert_eq!(st.total, 0);
    assert!(st.ultimas_transacoes.is_empty());
}

#[test]
fn reset_restores_every_provisioned_account() {
    let mut l = Ledger::new();
    assert_eq!(l.apply_transaction_at(2, 700, "c", "bonus", "t1"), Ok(rinha_ledger::ledger::TransactionReply { limite: 80000, saldo: 700 }));
    assert_eq!(l.apply_transaction_at(5, 30, "d", "cafe", "t2").unwrap().saldo, -30);

    l.reset();

    let expected_limits: [i64; 5] = [100000, 80000, 1000000, 10000000, 500000];
    for id in 1..=5i64 {
        let st = l.get_statement_at(id, "t3").unwrap();
        assert_eq!(st.total, 0);
        assert_eq!(st.limite, expected_limits[(id - 1) as usize]);
        assert_eq!(st.limite, limit_for(id));
    }

    // The committed history is immutable: reset touches balances and
    // limits only, never the transaction records.
    let st2 = l.get_statement_at(2, "t4").unwrap();
    assert_eq!(st2.ultimas_transacoes.len(), 1);
    assert_eq!(st2.ultimas_transacoes[0].descricao, "bonus");
    let st5 = l.get_statement_at(5, "t4").unwrap();
    assert_eq!(st5.ultimas_transacoes.len(), 1);
    assert_eq!(st5.ultimas_transacoes[0].descricao, "cafe");
    assert!(l.get_statement_at(1, "t4").unwrap().ultimas_transacoes.is_empty());
}

#[test]
fn balance_after_reset_counts_only_new_transactions() {
    let mut l = Ledger::new();
    l.apply_transaction_at(3, 400, "c", "antes", "t1").unwrap();
    l.reset();
    let r = l.apply_transaction_at(3, 25, "c", "depois", "t2").unwrap();
    assert_eq!(r.saldo, 25);
    let st = l.get_statement_at(3, "t3").unwrap();
    assert_eq!(st.total, 25);
    assert_eq!(st.ultimas_transacoes.len(), 2);
    assert_eq!(st.ultimas_transacoes[0].descricao, "depois");
    assert_eq!(st.ultimas_transacoes[1].descricao, "antes");
}

#[test]
fn statement_reports_last_ten_newest_first() {
    let mut l = Ledger::new();
    for v in 1..=12i32 {
        let ts = format!("ts-{}", v);
        let r = l.apply_transaction_at(3, v, "c", "parcela", &ts);
        assert!(r.is_ok());
    }
    let st = l.get_statement_at(3, "now").unwrap();
    assert_eq!(st.total, (1..=12i64).sum::<i64>());
    assert_eq!(st.ultimas_transacoes.len(), 10);
    assert_eq!(st.ultimas_transacoes[0].valor, 12);
    assert_eq!(st.ultimas_transacoes[0].realizada_em, "ts-12");
    assert_eq!(st.ultimas_transacoes[9].valor, 3);
    for (i, rec) in st.ultimas_transacoes.iter().enumerate() {
        assert_eq!(rec.valor, 12 - i as i32);
        assert_eq!(rec.tipo, Kind::Credit);
        assert_eq!(rec.descricao, "parcela");
    }
}

#[test]
fn unknown_account_is_not_found_and_bad_kind_is_unprocessable() {
    let mut l = Ledger::new();
    let r0 = l.apply_transaction_at(0, 10, "c", "abc", "t");
    assert_eq!(r0, Err(Rejection::NotFound));
    let r6 = l.apply_transaction_at(6, 10, "d", "abc", "t");
    assert_eq!(r6, Err(Rejection::NotFound));
    assert_eq!(transaction_status(&r6), 404);

    let rx = l.apply_transaction_at(1, 10, "x", "abc", "t");
    assert_eq!(rx, Err(Rejection::Validation));
    let rz = l.apply_transaction_at(1, 0, "c", "abc", "t");
    assert_eq!(rz, Err(Rejection::Validation));

    // A bad amount wins over a bad id; a bad id wins over a bad kind.
    assert_eq!(l.apply_transaction_at(9, 0, "c", "abc", "t"), Err(Rejection::Validation));
    assert_eq!(l.apply_transaction_at(9, 10, "x", "abc", "t"), Err(Rejection::NotFound));

    let s = l.get_statement_at(6, "t");
    assert_eq!(statement_status(&s), 404);
}

#[test]
fn rejected_debit_leaves_account_identical() {
    let mut l = Ledger::new();
    l.apply_transaction_at(1, 100, "c", "inicio", "t1").unwrap();
    let before = l.get_statement_at(1, "snap").unwrap();

    let r = l.apply_transaction_at(1, 110000, "d", "grande", "t2");
    assert_eq!(r, Err(Rejection::Overdraft));

    let after = l.get_statement_at(1, "snap").unwrap();
    assert_eq!(after.total, before.total);
    assert_eq!(after.limite, before.limite);
    assert_eq!(after.ultimas_transacoes.len(), before.ultimas_transacoes.len());
    assert_eq!(after.ultimas_transacoes[0].valor, before.ultimas_transacoes[0].valor);
    assert_eq!(after.ultimas_transacoes[0].descricao, before.ultimas_transacoes[0].descricao);
    assert_eq!(after.ultimas_transacoes[0].realizada_em, before.ultimas_transacoes[0].realizada_em);
}

#[test]
fn final_balance_is_sum_of_accepted_requests() {
    let mut l = Ledger::new();
    // Account 2 has limit 80000.
    assert!(l.apply_transaction_at(2, 80000, "d", "aluguel", "t1").is_ok());
    assert_eq!(l.apply_transaction_at(2, 1, "d", "gota", "t2"), Err(Rejection::Overdraft));
    assert!(l.apply_transaction_at(2, 5, "c", "achado", "t3").is_ok());
    let st = l.get_statement_at(2, "t4").unwrap();
    assert_eq!(st.total, -80000 + 5);
    assert_eq!(st.ultimas_transacoes.len(), 2);
}

#[test]
fn four_concurrent_style_debits_accept_at_most_three() {
    // Four debits of limit / 4 + 1 against balance 0: whatever order the
    // store serializes them in, the last one over the line must be rejected.
    let mut a = AccountState::new(1000);
    let amount = 1000 / 4 + 1;
    let mut accepted = 0;
    for i in 0..4 {
        let ts = format!("t{}", i);
        if a.apply(amount, Kind::Debit, "rajada", &ts).is_ok() {
            accepted += 1;
        }
    }
    assert_eq!(accepted, 3);
    assert!(a.balance >= -a.limit);
}

#[test]
fn timestamps_are_assigned_at_commit() {
    let mut l = Ledger::new();
    let r = l.apply_transaction(4, 10, "c", "agora");
    assert_eq!(r.unwrap().saldo, 10);
    let st = l.get_statement(4).unwrap();
    assert_eq!(st.total, 10);
    assert_eq!(st.ultimas_transacoes.len(), 1);
    assert!(!st.ultimas_transacoes[0].realizada_em.is_empty());
    assert!(!st.data_extrato.is_empty());
}

#[test]
fn store_fault_is_a_server_fault_not_a_silent_success() {
    // A credit whose result the store cannot represent is a fault, and maps
    // to a 5xx, never to a success.
    let r = decide_transaction(1, i64::MAX, 1, Kind::Credit);
    assert_eq!(r, Err(Rejection::StoreUnavailable));
    assert_eq!(rejection_status(&Rejection::StoreUnavailable), 500);
}

#[test]
fn decide_transaction_matches_the_atomic_update_predicate() {
    assert_eq!(decide_transaction(1000, 0, 500, Kind::Debit), Ok(-500));
    assert_eq!(decide_transaction(1000, -500, 600, Kind::Debit), Err(Rejection::Overdraft));
    assert_eq!(decide_transaction(1000, -500, 600, Kind::Credit), Ok(100));
    assert_eq!(decide_transaction(1000, 0, 1000, Kind::Debit), Ok(-1000));
    assert_eq!(decide_transaction(1, i64::MIN + 1, 1, Kind::Debit), Err(Rejection::Overdraft));
}
