use flute::json::{parse_json, to_json_text, Json};
use flute::output::Envelope;
use flute::subscriptions::{build_subscription_body, filter_subscriptions_by_status, interval_name, sub_id, CreateArgs, Interval};

fn j(text: &str) -> Json {
    parse_json(text).unwrap()
}

fn num(n: i64) -> Json {
    Json::Number(n.to_string())
}

fn parse_interval(s: &str) -> Result<Interval, String> {
    Interval::from_str(s, false)
}

#[test]
fn interval_day_maps_to_1() {
    assert_eq!(Interval::Day.to_int(), 1);
}

#[test]
fn interval_week_maps_to_2() {
    assert_eq!(Interval::Week.to_int(), 2);
}

#[test]
fn interval_month_maps_to_3() {
    assert_eq!(Interval::Month.to_int(), 3);
}

#[test]
fn interval_alias_daily_parses_to_day() {
    let v = parse_interval("daily").expect("'daily' must parse");
    assert_eq!(v, Interval::Day);
    assert_eq!(v.to_int(), 1);
}

#[test]
fn interval_alias_weekly_parses_to_week() {
    let v = parse_interval("weekly").expect("'weekly' must parse");
    assert_eq!(v, Interval::Week);
    assert_eq!(v.to_int(), 2);
}

#[test]
fn interval_alias_monthly_parses_to_month_wire_3() {
    let v = parse_interval("monthly").expect("'monthly' must parse");
    assert_eq!(v, Interval::Month);
    assert_eq!(v.to_int(), 3, "monthly alias must map to wire integer 3");
}

#[test]
fn interval_canonical_names_still_parse() {
    assert_eq!(parse_interval("day").unwrap(), Interval::Day);
    assert_eq!(parse_interval("week").unwrap(), Interval::Week);
    assert_eq!(parse_interval("month").unwrap(), Interval::Month);
}

#[test]
fn interval_case_and_unknown_names() {
    assert_eq!(parse_interval("Monthly"), Err("invalid variant: Monthly".to_string()));
    assert_eq!(Interval::from_str("Monthly", true), Ok(Interval::Month));
    assert_eq!(parse_interval("yearly"), Err("invalid variant: yearly".to_string()));
}

fn base_create_args() -> CreateArgs {
    CreateArgs {
        customer_id: "cust-uuid-001".into(),
        payment_method_id: "pm-uuid-001".into(),
        amount: "49.99".into(),
        currency_id: 1,
        number_of_payments: 12,
        payment_frequency: 1,
        interval: Interval::Month,
        transaction_type: 2,
        requester_ip: "127.0.0.1".into(),
        payment_processor_id: None,
        start_date: None,
        sec_code: None,
        faster: false,
    }
}

#[test]
fn build_subscription_body_required_fields_present() {
    let body = build_subscription_body(&base_create_args());
    assert_eq!(body.str_at("customerId"), Some("cust-uuid-001"));
    assert_eq!(body.str_at("paymentMethodId"), Some("pm-uuid-001"));
    assert!(matches!(body.get("amount"), Some(Json::Number(_))), "amount must be a JSON number");
    assert_eq!(to_json_text(body.get("amount").unwrap()), "49.99", "amount must serialise as exact decimal");
    assert_eq!(body.get("currencyId"), Some(&num(1)));
    assert_eq!(body.get("numberOfPayments"), Some(&num(12)));
    assert_eq!(body.get("paymentFrequency"), Some(&num(1)));
    assert_eq!(body.get("paymentFrequencyUnit"), Some(&num(3)));
    assert_eq!(body.get("transactionType"), Some(&num(2)));
    assert_eq!(body.str_at("requesterIpAddress"), Some("127.0.0.1"));
}

#[test]
fn build_subscription_body_defaults_are_correct() {
    let body = build_subscription_body(&base_create_args());
    assert_eq!(body.get("currencyId"), Some(&num(1)), "currency default must be 1 (USD)");
    assert_eq!(body.get("paymentFrequency"), Some(&num(1)), "frequency default must be 1");
    assert_eq!(body.get("transactionType"), Some(&num(2)), "transaction type default must be 2 (Sale)");
    assert_eq!(body.str_at("requesterIpAddress"), Some("127.0.0.1"));
    assert!(body.get("paymentProcessorId").is_none());
    assert!(body.get("paymentStartDateTime").is_none());
    assert!(body.get("secCode").is_none());
    assert!(body.get("isFasterProcessing").is_none(), "isFasterProcessing must be absent when faster=false");
}

#[test]
fn build_subscription_body_optional_fields_included_when_present() {
    let mut args = base_create_args();
    args.payment_processor_id = Some("pp-uuid-001".into());
    args.start_date = Some("2026-08-01T00:00:00Z".into());
    args.sec_code = Some(2);
    args.faster = true;
    let body = build_subscription_body(&args);
    assert_eq!(body.str_at("paymentProcessorId"), Some("pp-uuid-001"));
    assert_eq!(body.str_at("paymentStartDateTime"), Some("2026-08-01T00:00:00Z"));
    assert_eq!(body.get("secCode"), Some(&num(2)));
    assert_eq!(body.bool_at("isFasterProcessing"), Some(true));
}

#[test]
fn build_subscription_body_interval_day_maps_to_1() {
    let mut args = base_create_args();
    args.interval = Interval::Day;
    assert_eq!(build_subscription_body(&args).get("paymentFrequencyUnit"), Some(&num(1)));
}

#[test]
fn build_subscription_body_interval_week_maps_to_2() {
    let mut args = base_create_args();
    args.interval = Interval::Week;
    assert_eq!(build_subscription_body(&args).get("paymentFrequencyUnit"), Some(&num(2)));
}

#[test]
fn build_subscription_body_bad_amount_sends_zero() {
    let mut args = base_create_args();
    args.amount = "abc".into();
    assert_eq!(build_subscription_body(&args).get("amount"), Some(&Json::Number("0".into())));
}

#[test]
fn sub_id_reads_id_from_get_shape() {
    assert_eq!(sub_id(&j(r#"{ "id": "abc-123", "status": "Active" }"#)), "abc-123");
}

#[test]
fn sub_id_reads_subscription_id_from_list_shape() {
    assert_eq!(sub_id(&j(r#"{ "subscriptionId": "xyz-456", "customerName": "Alice" }"#)), "xyz-456");
}

#[test]
fn sub_id_returns_dash_when_both_absent() {
    assert_eq!(sub_id(&j(r#"{ "status": "Active" }"#)), "—");
}

#[test]
fn sub_id_prefers_id_when_both_present() {
    assert_eq!(sub_id(&j(r#"{ "id": "canonical", "subscriptionId": "alternate" }"#)), "canonical");
}

fn sub_items() -> Vec<Json> {
    vec![
        j(r#"{ "subscriptionId": "s1", "status": "Active" }"#),
        j(r#"{ "subscriptionId": "s2", "status": "Paused" }"#),
        j(r#"{ "subscriptionId": "s3", "status": "Terminated" }"#),
        j(r#"{ "subscriptionId": "s4" }"#),
    ]
}

#[test]
fn filter_status_exact_match() {
    let filtered = filter_subscriptions_by_status(sub_items(), "Active");
    assert_eq!(filtered.len(), 1);
    assert_eq!(filtered[0].str_at("subscriptionId"), Some("s1"));
}

#[test]
fn filter_status_case_insensitive() {
    let filtered = filter_subscriptions_by_status(sub_items(), "active");
    assert_eq!(filtered.len(), 1);
    assert_eq!(filtered[0].str_at("subscriptionId"), Some("s1"));
    let filtered2 = filter_subscriptions_by_status(sub_items(), "PAUSED");
    assert_eq!(filtered2.len(), 1);
    assert_eq!(filtered2[0].str_at("subscriptionId"), Some("s2"));
}

#[test]
fn filter_status_no_filter_when_empty() {
    let all = sub_items();
    let filtered = filter_subscriptions_by_status(sub_items(), "");
    assert_eq!(filtered.len(), all.len());
}

#[test]
fn filter_status_items_missing_status_excluded() {
    let filtered = filter_subscriptions_by_status(sub_items(), "Active");
    let ids: Vec<&str> = filtered.iter().filter_map(|v| v.str_at("subscriptionId")).collect();
    assert!(!ids.contains(&"s4"), "item without status must be excluded");
}

#[test]
fn filter_status_trims_the_query_and_keeps_order() {
    let items = vec![j(r#"{"id":"a","status":"Active"}"#), j(r#"{"id":"b","status":"Paused"}"#), j(r#"{"id":"c","status":"ACTIVE"}"#)];
    let filtered = filter_subscriptions_by_status(items, "  active ");
    let ids: Vec<&str> = filtered.iter().filter_map(|v| v.str_at("id")).collect();
    assert_eq!(ids, vec!["a", "c"]);
    assert_eq!(filter_subscriptions_by_status(sub_items(), "   ").len(), 4);
}

fn sample_get_response() -> Json {
    j(r#"{ "id": "sub-get-001", "status": "Active", "customerId": "cust-001", "paymentAmount": 99.50, "currencyId": 1,
        "paymentFrequencyUnit": 1, "paymentFrequency": 2, "numberOfPayments": 6, "successfulPaymentsCount": 3,
        "nextPaymentDate": "2026-07-15T00:00:00Z" }"#)
}

#[test]
fn subscription_json_envelope_has_correct_object_field() {
    let env = Envelope::new("subscription", sample_get_response(), "sandbox", None);
    assert_eq!(env.object, "subscription");
    assert_eq!(env.data.str_at("id"), Some("sub-get-001"));
}

#[test]
fn subscription_list_json_envelope_has_correct_object_field() {
    let v = j(r#"{ "items": [
        { "subscriptionId": "sub-list-001", "customerName": "Alice Smith", "amountPerPayment": 49.99, "paymentFrequencyUnit": 3, "status": "Active", "nextPaymentDate": "2026-07-01" },
        { "subscriptionId": "sub-list-002", "customerName": "Bob Jones", "amountPerPayment": 19.99, "paymentFrequencyUnit": 2, "status": "Paused", "nextPaymentDate": "2026-07-08" }
    ], "total": 2 }"#);
    let env = Envelope::new("subscription_list", v, "sandbox", None);
    assert_eq!(env.object, "subscription_list");
}

#[test]
fn interval_shown_in_table_reads_back() {
    for interval in [Interval::Day, Interval::Week, Interval::Month] {
        let mut args = base_create_args();
        args.interval = interval;
        let body = build_subscription_body(&args);
        let word = interval_name(&body, "paymentFrequencyUnit");
        assert_eq!(Interval::from_str(&word, true), Ok(interval), "word {word}");
    }
}
