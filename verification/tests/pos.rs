use flute::json::{parse_json, to_json_text, Json};
use flute::money::MoneyError;
use flute::pos::{
    build_pos_create_body, poll_report, poll_start, poll_step, pos_id, pos_is_final, pos_status, PollEvent, PollOutcome,
    PollStep, PosBodyError, PosCreateArgs,
};

fn j(text: &str) -> Json {
    parse_json(text).unwrap()
}

fn num(n: i64) -> Json {
    Json::Number(n.to_string())
}

fn bare(terminal: &str) -> PosCreateArgs {
    PosCreateArgs {
        terminal_id: terminal.into(),
        transaction_type: 2,
        amount: None,
        currency_id: 1,
        tip_amount: None,
        tip_rate: None,
        pos_device_id: None,
        reference_id: None,
        payment_processor_id: None,
        customer_id: None,
        target_transaction_id: None,
        reading_method: None,
        wait: false,
    }
}

#[test]
fn pos_id_reads_id_from_get_shape() {
    let v = j(r#"{ "id": "g-1", "posTransactionStatus": "Completed", "isCompleted": true }"#);
    assert_eq!(pos_id(&v), Some("g-1"));
}

#[test]
fn pos_id_reads_pos_transaction_id_from_create_shape() {
    let v = j(r#"{ "posTransactionId": "p-1", "status": "TerminalConnecting", "statusId": 1 }"#);
    assert_eq!(pos_id(&v), Some("p-1"));
}

#[test]
fn pos_id_returns_none_when_both_absent() {
    assert_eq!(pos_id(&j(r#"{ "amount": 10.00 }"#)), None);
}

#[test]
fn pos_id_prefers_id_when_both_present() {
    assert_eq!(pos_id(&j(r#"{ "id": "canonical", "posTransactionId": "alternate" }"#)), Some("canonical"));
}

#[test]
fn pos_status_reads_pos_transaction_status_from_get_shape() {
    let v = j(r#"{ "id": "g-1", "posTransactionStatus": "Completed", "isCompleted": true }"#);
    assert_eq!(pos_status(&v), Some("Completed"));
}

#[test]
fn pos_status_reads_status_from_create_shape() {
    let v = j(r#"{ "posTransactionId": "p-1", "status": "TerminalConnecting", "statusId": 1 }"#);
    assert_eq!(pos_status(&v), Some("TerminalConnecting"));
}

#[test]
fn pos_status_returns_none_when_both_absent() {
    assert_eq!(pos_status(&j(r#"{ "id": "x" }"#)), None);
}

#[test]
fn pos_status_prefers_pos_transaction_status_when_both_present() {
    let v = j(r#"{ "posTransactionStatus": "Completed", "status": "TerminalConnecting" }"#);
    assert_eq!(pos_status(&v), Some("Completed"));
}

#[test]
fn pos_is_final_true_when_is_completed_true() {
    assert!(pos_is_final(&j(r#"{ "id": "pos-1", "isCompleted": true }"#)));
}

#[test]
fn pos_is_final_false_when_is_completed_false() {
    assert!(!pos_is_final(&j(r#"{ "id": "pos-1", "isCompleted": false }"#)));
}

#[test]
fn pos_is_final_false_when_is_completed_missing() {
    assert!(!pos_is_final(&j(r#"{ "id": "pos-1" }"#)));
}

#[test]
fn pos_is_final_false_when_is_completed_null() {
    assert!(!pos_is_final(&j(r#"{ "id": "pos-1", "isCompleted": null }"#)));
}

#[test]
fn build_body_required_fields_only() {
    let body = build_pos_create_body(&bare("term-abc")).unwrap();
    assert_eq!(body.str_at("terminalId"), Some("term-abc"));
    assert_eq!(body.get("transactionTypeId"), Some(&num(2)));
    assert_eq!(body.get("currencyId"), Some(&num(1)));
    assert_eq!(body.bool_at("waitForAcceptanceByTerminal"), Some(false));
    for k in ["amount", "tipAmount", "posDeviceId", "referenceId", "readingMethodId"] {
        assert!(body.get(k).is_none(), "{k} must be absent");
    }
}

#[test]
fn build_body_with_all_optional_fields() {
    let args = PosCreateArgs {
        terminal_id: "term-xyz".into(),
        transaction_type: 1,
        amount: Some("50.00".into()),
        currency_id: 1,
        tip_amount: Some("5.00".into()),
        tip_rate: Some("0.10".into()),
        pos_device_id: Some("dev-001".into()),
        reference_id: Some("ref-123".into()),
        payment_processor_id: Some("proc-456".into()),
        customer_id: Some("cust-789".into()),
        target_transaction_id: Some("target-abc".into()),
        reading_method: Some(1),
        wait: true,
    };
    let body = build_pos_create_body(&args).unwrap();
    assert_eq!(body.str_at("terminalId"), Some("term-xyz"));
    assert_eq!(body.get("transactionTypeId"), Some(&num(1)));
    assert_eq!(body.get("currencyId"), Some(&num(1)));
    assert_eq!(body.bool_at("waitForAcceptanceByTerminal"), Some(true));
    assert!(matches!(body.get("amount"), Some(Json::Number(_))));
    assert_eq!(to_json_text(body.get("amount").unwrap()), "50.00", "amount must be exact decimal");
    assert!(matches!(body.get("tipAmount"), Some(Json::Number(_))));
    assert_eq!(body.get("tipRate"), Some(&Json::Number("0.10".into())));
    assert_eq!(body.str_at("posDeviceId"), Some("dev-001"));
    assert_eq!(body.str_at("referenceId"), Some("ref-123"));
    assert_eq!(body.str_at("paymentProcessorId"), Some("proc-456"));
    assert_eq!(body.str_at("customerId"), Some("cust-789"));
    assert_eq!(body.str_at("targetTransactionId"), Some("target-abc"));
    assert_eq!(body.get("readingMethodId"), Some(&num(1)));
}

#[test]
fn build_body_wait_true_sets_wait_flag() {
    let mut args = bare("t");
    args.wait = true;
    let body = build_pos_create_body(&args).unwrap();
    assert_eq!(body.bool_at("waitForAcceptanceByTerminal"), Some(true));
}

#[test]
fn build_body_invalid_amount_returns_error() {
    let mut args = bare("t");
    args.amount = Some("not-a-number".into());
    assert!(build_pos_create_body(&args).is_err());
}

#[test]
fn build_body_names_the_refused_field() {
    let mut args = bare("t");
    args.tip_amount = Some("1.005".into());
    args.tip_rate = Some("-1".into());
    assert_eq!(build_pos_create_body(&args), Err(PosBodyError::TipAmount(MoneyError::TooManyPlaces("1.005".into()))));
    args.tip_amount = None;
    let err = build_pos_create_body(&args).unwrap_err();
    assert_eq!(err, PosBodyError::TipRate(MoneyError::Negative("-1".into())));
    assert_eq!(err.describe(), "rate must not be negative: -1");
    args.tip_rate = Some("0.12345".into());
    assert_eq!(build_pos_create_body(&args).unwrap_err().describe(), "rate must have at most 4 decimal places: 0.12345");
}

#[test]
fn render_pos_transaction_quiet_create_shape() {
    let v = j(r#"{ "posTransactionId": "p-1", "status": "TerminalConnecting", "statusId": 1 }"#);
    assert_eq!(pos_id(&v), Some("p-1"), "quiet mode uses pos_id; create shape must return posTransactionId");
}

#[test]
fn render_pos_transaction_quiet_get_shape() {
    let v = j(r#"{ "id": "g-1", "posTransactionStatus": "Completed", "isCompleted": true }"#);
    assert_eq!(pos_id(&v), Some("g-1"), "quiet mode uses pos_id; get shape must return id");
}

fn polled(text: &str, secs: u64) -> PollEvent {
    PollEvent::Polled { response: j(text), elapsed_secs: secs }
}

#[test]
fn poll_loop_completes_after_two_polls() {
    let last = poll_start();
    let first = poll_step(last, 120, polled(r#"{"id":"pos-txn-001","posTransactionStatus":"TerminalConnecting","isCompleted":false}"#, 2));
    let last = match first {
        PollStep::Wait(v) => v,
        PollStep::Finish(o) => panic!("finished early: {o:?}"),
    };
    match poll_step(last, 120, polled(r#"{"id":"pos-txn-001","posTransactionStatus":"TransactionProcessing","isCompleted":true}"#, 4)) {
        PollStep::Finish(PollOutcome::Completed(v)) => assert_eq!(v.bool_at("isCompleted"), Some(true)),
        _ => panic!("expected completion"),
    }
}

#[test]
fn poll_loop_times_out_when_never_completed() {
    let text = r#"{"id":"pos-txn-timeout","isCompleted":false}"#;
    let last = match poll_step(poll_start(), 4, polled(text, 2)) {
        PollStep::Wait(v) => v,
        PollStep::Finish(o) => panic!("finished early: {o:?}"),
    };
    assert!(matches!(poll_step(last, 4, polled(text, 4)), PollStep::Finish(PollOutcome::TimedOut(_))));
}

#[test]
fn poll_completion_beats_timeout() {
    assert!(matches!(
        poll_step(poll_start(), 1, polled(r#"{"isCompleted":true}"#, 99)),
        PollStep::Finish(PollOutcome::Completed(_))
    ));
}

#[test]
fn poll_interrupt_before_first_poll_reports_id() {
    let outcome = match poll_step(poll_start(), 120, PollEvent::Interrupted) {
        PollStep::Finish(o) => o,
        PollStep::Wait(_) => panic!("must stop"),
    };
    assert!(matches!(outcome, PollOutcome::Interrupted(Json::Null)));
    let report = poll_report(&outcome, "pos-1", 120);
    assert!(!report.show);
    assert_eq!(report.exit_code, 130);
    assert_eq!(report.warning.as_deref(), Some("Interrupted before first poll. Transaction id: pos-1"));
}

#[test]
fn poll_interrupt_after_a_poll_reports_last_status() {
    let outcome = PollOutcome::Interrupted(j(r#"{"posTransactionStatus":"TerminalConnecting"}"#));
    let report = poll_report(&outcome, "pos-2", 60);
    assert_eq!(report.warning.as_deref(), Some("Interrupted. Last known status: TerminalConnecting (id: pos-2)"));
    let unknown = poll_report(&PollOutcome::Interrupted(j("{}")), "pos-3", 60);
    assert_eq!(unknown.warning.as_deref(), Some("Interrupted. Last known status: unknown (id: pos-3)"));
}

#[test]
fn poll_timeout_report_warns_and_exits_1() {
    let report = poll_report(&PollOutcome::TimedOut(j("{}")), "p", 45);
    assert!(report.show);
    assert_eq!(report.exit_code, 1);
    assert_eq!(report.warning.as_deref(), Some("Warning: --wait-timeout (45s) expired; last status shown above."));
    let done = poll_report(&PollOutcome::Completed(j("{}")), "p", 45);
    assert!(done.show && done.warning.is_none() && done.exit_code == 0);
}
