use rinha_ledger::domain::{precheck_transaction, Kind};
use rinha_ledger::workload::{
    judge_response, op_for_iteration, random_transaction_request, should_reset,
    validate_balance_limit, Op, ResponseJudgment,
};

#[test]
fn cycle_issues_one_credit_one_statement_and_debits() {
    for c in 0..34u128 {
        let expected = if c == 22 {
            Op::Credit
        } else if c == 33 {
            Op::Statement
        } else {
            Op::Debit
        };
        assert_eq!(op_for_iteration(c), expected);
    }
    assert_eq!(op_for_iteration(34), Op::Debit);
    assert_eq!(op_for_iteration(34 + 22), Op::Credit);
    assert_eq!(op_for_iteration(34 + 33), Op::Statement);
    assert_eq!(op_for_iteration(340), Op::Debit);
}

#[test]
fn balances_reset_once_per_cycle() {
    assert!(should_reset(0));
    assert!(!should_reset(1));
    assert!(!should_reset(33));
    assert!(should_reset(34));
    assert!(should_reset(68));
    assert!(!should_reset(69));
}

#[test]
fn debit_rejection_is_expected_but_credit_and_statement_failures_are_not() {
    assert_eq!(judge_response(Op::Debit, 200), ResponseJudgment::CheckBody);
    assert_eq!(judge_response(Op::Debit, 422), ResponseJudgment::ReportStatus(200));
    assert_eq!(judge_response(Op::Debit, 404), ResponseJudgment::ReportStatus(404));
    assert_eq!(judge_response(Op::Credit, 200), ResponseJudgment::CheckBody);
    assert_eq!(judge_response(Op::Credit, 422), ResponseJudgment::Failure);
    assert_eq!(judge_response(Op::Statement, 200), ResponseJudgment::CheckBody);
    assert_eq!(judge_response(Op::Statement, 404), ResponseJudgment::Failure);
}

#[test]
fn a_server_fault_fails_the_run_on_every_operation() {
    assert_eq!(judge_response(Op::Debit, 500), ResponseJudgment::Failure);
    assert_eq!(judge_response(Op::Debit, 503), ResponseJudgment::Failure);
    assert_eq!(judge_response(Op::Debit, 599), ResponseJudgment::Failure);
    assert_eq!(judge_response(Op::Credit, 500), ResponseJudgment::Failure);
    assert_eq!(judge_response(Op::Statement, 502), ResponseJudgment::Failure);
}

#[test]
fn reported_balance_and_limit_are_rechecked_independently() {
    assert!(validate_balance_limit(0, 1000));
    assert!(validate_balance_limit(-1000, 1000));
    assert!(!validate_balance_limit(-1001, 1000));
    assert!(validate_balance_limit(500, 0));
    assert!(!validate_balance_limit(-1, 0));
    // A negative reported limit demands a positive balance of at least its
    // magnitude.
    assert!(validate_balance_limit(5, -3));
    assert!(!validate_balance_limit(2, -3));
    assert!(!validate_balance_limit(i64::MAX, i64::MIN));
    assert!(!validate_balance_limit(i64::MIN, 0));
}

#[test]
fn generated_requests_always_pass_validation() {
    for _ in 0..50 {
        let r = random_transaction_request();
        assert!((1..=5).contains(&r.cliente_id));
        assert!((1..=10000).contains(&r.valor));
        assert_eq!(r.descricao.chars().count(), 10);
        assert!(r.descricao.chars().all(|c| c.is_ascii_alphanumeric()));
        assert_eq!(
            precheck_transaction(r.cliente_id as i64, r.valor, "d", &r.descricao),
            Ok(Kind::Debit)
        );
        assert_eq!(
            precheck_transaction(r.cliente_id as i64, r.valor, "c", &r.descricao),
            Ok(Kind::Credit)
        );
    }
}
