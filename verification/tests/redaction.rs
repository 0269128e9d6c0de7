use flute::json::parse_json;
use flute::redact::{mask_last4, redact_for_log, redact_text_for_log, redact_value};
use flute::json::Json;

fn out(text: &str) -> String {
    redact_for_log(&parse_json(text).unwrap())
}

#[test]
fn redact_for_log_masks_pan_keeping_last4() {
    let out = out(r#"{ "accountNumber": "4111111111111111" }"#);
    assert!(!out.contains("4111111111111111"), "full PAN must not appear in log output: {out}");
    assert!(out.contains("************1111"), "PAN last-4 expected: {out}");
}

#[test]
fn redact_for_log_masks_card_number_field() {
    let out = out(r#"{ "cardNumber": "5555444433332222" }"#);
    assert!(!out.contains("5555444433332222"), "full PAN leaked: {out}");
    assert!(out.contains("************2222"), "expected last-4: {out}");
}

#[test]
fn redact_for_log_fully_redacts_cvv() {
    let out = out(r#"{ "securityCode": "123" }"#);
    assert!(!out.contains("\"123\""), "CVV value must be fully removed, not masked-with-last-4: {out}");
    assert!(out.contains("\"***\""), "CVV should become ***: {out}");
}

#[test]
fn redact_for_log_masks_routing_number() {
    let out = out(r#"{ "routingNumber": "021000021" }"#);
    assert!(!out.contains("021000021"), "full routing leaked: {out}");
}

#[test]
fn redact_for_log_preserves_non_sensitive_fields() {
    let out = out(r#"{ "amount": "10.00", "currencyId": 840, "customerId": "cust-001", "cardDataSource": "Keyed" }"#);
    assert!(out.contains("10.00"), "amount must survive: {out}");
    assert!(out.contains("840"), "currencyId must survive: {out}");
    assert!(out.contains("cust-001"), "customerId must survive: {out}");
    assert!(out.contains("Keyed"), "cardDataSource must survive: {out}");
}

#[test]
fn redact_for_log_recurses_into_nested_objects_and_arrays() {
    let out = out(r#"{ "paymentMethods": [ { "card": { "cardNumber": "4111111111111111", "securityCode": "999" } } ] }"#);
    assert!(!out.contains("4111111111111111"), "nested PAN leaked: {out}");
    assert!(!out.contains("\"999\""), "nested CVV leaked: {out}");
}

#[test]
fn redact_for_log_short_account_does_not_reveal_value() {
    let out = out(r#"{ "accountNumber": "12" }"#);
    assert!(!out.contains("\"12\""), "short account leaked: {out}");
    assert!(out.contains("\"***\""), "short value should be ***: {out}");
}

#[test]
fn redact_for_log_is_case_insensitive_on_keys() {
    let out = out(r#"{ "AccountNumber": "4111111111111111", "CVV": "123" }"#);
    assert!(!out.contains("4111111111111111"), "PAN leaked: {out}");
    assert!(!out.contains("\"123\""), "CVV leaked: {out}");
}

#[test]
fn redact_text_for_log_redacts_json_response() {
    let text = r#"{"accountNumber":"4111111111111111","securityCode":"123"}"#;
    let out = redact_text_for_log(text);
    assert!(!out.contains("4111111111111111"), "PAN leaked: {out}");
    assert!(!out.contains("\"123\""), "CVV leaked: {out}");
}

#[test]
fn redact_text_for_log_passes_through_non_json() {
    let text = "Internal Server Error (not json)";
    let out = redact_text_for_log(text);
    assert_eq!(out, text, "non-JSON text must be logged unchanged");
}

#[test]
fn redact_for_log_on_realistic_sale_body_hides_pan_and_cvv() {
    let out = out(r#"{ "amount": "10.00", "cardDataSource": "Keyed", "accountNumber": "4111111111111111", "securityCode": "123", "expirationMonth": 12, "expirationYear": 2027 }"#);
    assert!(!out.contains("4111111111111111"), "PAN leaked: {out}");
    assert!(!out.contains("\"123\""), "CVV leaked: {out}");
    assert!(out.contains("10.00") && out.contains("Keyed"));
}

#[test]
fn mask_last4_keeps_length_and_tail() {
    assert_eq!(mask_last4(&Json::Str("123456".into())), Json::Str("**3456".into()));
    assert_eq!(mask_last4(&Json::Str("1234".into())), Json::Str("***".into()));
    assert_eq!(mask_last4(&Json::Number("7".into())), Json::Number("7".into()));
}

#[test]
fn redaction_is_idempotent_on_a_sample() {
    let doc = parse_json(r#"{"pan":"4111111111111111","cvv":"1","x":[{"Cvc":"9"}],"routingnumber":42}"#).unwrap();
    let once = redact_value(&doc);
    let twice = redact_value(&once);
    assert_eq!(once, twice);
    assert_eq!(once.get("routingnumber"), Some(&Json::Number("42".into())));
}

#[test]
fn redaction_keeps_plain_documents() {
    let doc = parse_json(r#"{"a":[1,{"b":"c"}],"d":null,"e":true}"#).unwrap();
    assert_eq!(redact_value(&doc), doc);
}

#[test]
fn client_secret_never_reaches_the_log() {
    let text = r#"{"clientId":"client-abc-123","clientSecret":"super-secret-value-shown-once"}"#;
    let logged = flute::redact::redact_text_for_log(text);
    assert!(!logged.contains("super-secret-value-shown-once"), "got {logged}");
    assert!(logged.contains("client-abc-123"));
    assert!(flute::redact::is_full_secret_key("clientsecret"));
    assert!(flute::redact::is_full_secret_key("client_secret"));
}
