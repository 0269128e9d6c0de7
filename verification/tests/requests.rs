use flute::api::{finish_empty, finish_json, needs_refresh, path_with_query, ApiRequest, HttpMethod, Reply};
use flute::api_error::ApiError;
use flute::customers::{confirm_delete_customer, confirm_remove_method, deleted_notice, removed_notice};
use flute::config::Profile;
use flute::json::{parse_json, Json};
use flute::output::OutputFormat;
use flute::util::{ping_line, version_data, version_table};

#[test]
fn list_customers_without_params_hits_base_path() {
    let r = ApiRequest::list_customers(None, None, None);
    assert_eq!(r.method, HttpMethod::Get);
    assert_eq!(r.path, "/pay-api/v1/customers");
    assert!(r.body.is_none());
    assert_eq!(r.reply, Reply::Json);
}

#[test]
fn list_customers_encodes_space_in_search() {
    let r = ApiRequest::list_customers(Some(2), Some(10), Some("alice smith"));
    assert_eq!(r.path, "/pay-api/v1/customers?page=2&pageSize=10&search=alice+smith");
}

#[test]
fn query_values_are_form_encoded() {
    let pairs = vec![("q".to_string(), "a&b=c/é*-._~".to_string())];
    assert_eq!(path_with_query("/x", &pairs), "/x?q=a%26b%3Dc%2F%C3%A9*-._%7E");
    assert_eq!(path_with_query("/x", &Vec::new()), "/x");
}

#[test]
fn resource_paths_use_ids_as_given() {
    assert_eq!(ApiRequest::get_customer("cust-001").path, "/pay-api/v1/customers/cust-001");
    let rm = ApiRequest::remove_payment_method("c1", "m1");
    assert_eq!(rm.path, "/pay-api/v1/customers/c1/payment-methods/m1");
    assert_eq!(rm.method, HttpMethod::Delete);
    assert_eq!(rm.reply, Reply::Empty);
    assert_eq!(ApiRequest::ach_void("t-9").path, "/pay-api/v1/transactions/ach/t-9/void");
    assert_eq!(ApiRequest::terminal_status("term-1").path, "/pos-api/v1/terminals/term-1/status");
    assert_eq!(ApiRequest::terminate_subscription("s").method, HttpMethod::Put);
    assert_eq!(ApiRequest::ping().path, "/pay-int-api/ping");
}

#[test]
fn bodies_travel_with_their_requests() {
    let body = parse_json(r#"{"amount":1}"#).unwrap();
    let r = ApiRequest::ach_debit(body.deep_clone());
    assert_eq!(r.method, HttpMethod::Post);
    assert_eq!(r.path, "/pay-api/v1/transactions/ach/payment");
    assert_eq!(r.body, Some(body));
}

#[test]
fn token_requests_carry_the_merchant() {
    assert_eq!(ApiRequest::list_tokens(None).path, "/pay-api/v1/merchants/tokens");
    assert_eq!(ApiRequest::list_tokens(Some("m 1")).path, "/pay-api/v1/merchants/tokens?merchantId=m+1");
    let rv = ApiRequest::revoke_token("cid", "mid");
    assert_eq!(rv.path, "/pay-api/v1/merchants/tokens/cid?merchantId=mid");
    assert_eq!(rv.reply, Reply::Empty);
}

#[test]
fn list_filters_only_send_what_is_given() {
    assert_eq!(
        ApiRequest::list_settlement_batches(None, Some(5), Some("2026-01-01"), None, Some(3)).path,
        "/pay-api/v1/settlements/batches?pageSize=5&dateFrom=2026-01-01&statusId=3"
    );
    assert_eq!(
        ApiRequest::list_subscriptions(Some(1), None, None, Some("c-1")).path,
        "/sub-api/v1/subscriptions?page=1&customerIds=c-1"
    );
    assert_eq!(ApiRequest::list_pos_transactions(None, None, Some("t")).path, "/pos-api/v1/pos-transactions?terminalId=t");
    assert_eq!(ApiRequest::list_terminals(Some(3), Some(20)).path, "/pos-api/v1/terminals?page=3&pageSize=20");
}

#[test]
fn unauthorized_is_retried_once() {
    assert!(needs_refresh(401, false));
    assert!(!needs_refresh(401, true));
    assert!(!needs_refresh(403, false));
    assert!(!needs_refresh(200, false));
}

#[test]
fn success_parses_json_and_failure_decodes_envelope() {
    assert_eq!(finish_json(200, r#"{"status":"ok"}"#).unwrap().str_at("status"), Some("ok"));
    assert!(matches!(finish_json(204, "not json"), Err(ApiError::Decode(_))));
    assert_eq!(
        finish_json(404, r#"{"title":"Not found","correlationId":"c"}"#),
        Err(ApiError::Api { status: 404, correlation_id: Some("c".into()), message: "Not found".into() })
    );
    assert_eq!(finish_empty(204, ""), Ok(()));
    assert_eq!(
        finish_empty(500, "oops"),
        Err(ApiError::Api { status: 500, correlation_id: None, message: "oops".into() })
    );
}

#[test]
fn deletion_needs_yes() {
    assert_eq!(confirm_delete_customer("c1", true), Ok(()));
    assert_eq!(
        confirm_delete_customer("c1", false),
        Err("deletion requires --yes to confirm (e.g. `customers delete c1 --yes`)".to_string())
    );
    assert_eq!(
        confirm_remove_method("c1", "m1", false),
        Err("removal requires --yes to confirm (e.g. `customers remove-method c1 m1 --yes`)".to_string())
    );
}

#[test]
fn deletion_notices_per_format() {
    assert_eq!(deleted_notice(OutputFormat::Json, "c1"), None);
    assert_eq!(deleted_notice(OutputFormat::Table, "c1").as_deref(), Some("Deleted customer c1."));
    assert_eq!(deleted_notice(OutputFormat::Quiet, "c1").as_deref(), Some("c1"));
    assert_eq!(removed_notice(OutputFormat::Table, "m1").as_deref(), Some("Removed payment method m1."));
}

#[test]
fn version_and_ping_outputs() {
    let p = Profile::sandbox();
    assert_eq!(ping_line(&p), "ping  ok  (profile=sandbox)");
    assert_eq!(
        version_table("0.1.1", &p),
        "flute  v0.1.1\nProfile:  sandbox\nAPI base: https://api.uat.arise.risewithaurora.com"
    );
    assert_eq!(version_data("0.1.1", &p).str_at("version"), Some("0.1.1"));
    assert!(matches!(version_data("0.1.1", &p), Json::Object(_)));
}

#[test]
fn bodyless_post_and_put_send_an_empty_body() {
    assert!(!ApiRequest::ping().sends_empty_body());
    assert!(ApiRequest::ach_void("t").sends_empty_body());
    assert!(ApiRequest::terminate_subscription("s").sends_empty_body());
    assert!(!ApiRequest::delete_customer("c").sends_empty_body());
    assert!(!ApiRequest::sale(flute::json::Json::Null).sends_empty_body());
}
