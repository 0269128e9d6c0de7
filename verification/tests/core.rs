use flute::api_error::ApiError;
use flute::config::{Config, Profile};
use flute::output::{exit_code_for, exit_code_for_api, fit, resolve_output, Envelope, ErrorJson, Failure, OutputFormat};
use flute::{missing_credentials_error, production_banner, treat_404_as_ok};
use flute::json::{parse_json, Json};

fn api_failure(e: ApiError) -> Failure {
    Failure { api_error: Some(e), message: String::new(), invalid_input: false }
}

#[test]
fn production_banner_returns_some_for_production() {
    let p = Profile::production();
    let banner = production_banner(&p, false);
    assert!(banner.is_some());
    let s = banner.unwrap();
    assert!(s.contains("PRODUCTION"));
    assert!(s.contains(&p.api_base_url));
}

#[test]
fn production_banner_returns_none_for_sandbox() {
    let p = Profile::sandbox();
    assert!(production_banner(&p, false).is_none());
    assert!(production_banner(&p, true).is_none());
}

#[test]
fn production_banner_with_color_wraps_ansi_red() {
    let p = Profile::production();
    let colored = production_banner(&p, true).unwrap();
    assert!(colored.starts_with("\x1b[31m"));
    assert!(colored.ends_with("\x1b[0m"));
    assert!(colored.contains("PRODUCTION"));
}

#[test]
fn production_banner_plain_has_no_ansi() {
    let p = Profile::production();
    let plain = production_banner(&p, false).unwrap();
    assert!(!plain.contains('\x1b'));
}

#[test]
fn production_banner_exact_text() {
    let p = Profile::production();
    assert_eq!(
        production_banner(&p, false).unwrap(),
        "\u{26a0} Operating on PRODUCTION (https://api.arise.risewithaurora.com)"
    );
}

#[test]
fn output_format_from_config_str_parses_all_variants() {
    assert_eq!(OutputFormat::from_config_str("table"), Some(OutputFormat::Table));
    assert_eq!(OutputFormat::from_config_str("json"), Some(OutputFormat::Json));
    assert_eq!(OutputFormat::from_config_str("quiet"), Some(OutputFormat::Quiet));
}

#[test]
fn output_format_from_config_str_is_case_insensitive() {
    assert_eq!(OutputFormat::from_config_str("JSON"), Some(OutputFormat::Json));
    assert_eq!(OutputFormat::from_config_str("Table"), Some(OutputFormat::Table));
    assert_eq!(OutputFormat::from_config_str("QUIET"), Some(OutputFormat::Quiet));
}

#[test]
fn output_format_from_config_str_rejects_garbage() {
    assert_eq!(OutputFormat::from_config_str("yaml"), None);
    assert_eq!(OutputFormat::from_config_str(""), None);
    assert_eq!(OutputFormat::from_config_str("csv"), None);
}

#[test]
fn resolve_output_flag_beats_config() {
    assert_eq!(resolve_output(Some(OutputFormat::Json), "table"), OutputFormat::Json);
    assert_eq!(resolve_output(Some(OutputFormat::Quiet), "json"), OutputFormat::Quiet);
}

#[test]
fn resolve_output_falls_back_to_config_when_no_flag() {
    assert_eq!(resolve_output(None, "json"), OutputFormat::Json);
    assert_eq!(resolve_output(None, "quiet"), OutputFormat::Quiet);
}

#[test]
fn resolve_output_defaults_to_table_when_nothing_set() {
    assert_eq!(resolve_output(None, ""), OutputFormat::Table);
    assert_eq!(resolve_output(None, "unknown"), OutputFormat::Table);
}

#[test]
fn treat_404_as_ok_maps_404_to_success() {
    let err = ApiError::Api { status: 404, correlation_id: None, message: "not found".into() };
    assert!(treat_404_as_ok(Err(err)).is_ok(), "404 must be mapped to Ok");
}

#[test]
fn treat_404_as_ok_passes_through_other_errors() {
    let err = ApiError::Api { status: 500, correlation_id: None, message: "server error".into() };
    assert!(treat_404_as_ok(Err(err)).is_err(), "non-404 errors must propagate");
}

#[test]
fn treat_404_as_ok_keeps_ok_as_ok() {
    assert!(treat_404_as_ok(Ok(())).is_ok(), "Ok(()) must remain Ok");
}

#[test]
fn treat_404_as_ok_does_not_swallow_400() {
    let err = ApiError::Api { status: 400, correlation_id: None, message: "bad request".into() };
    assert!(treat_404_as_ok(Err(err)).is_err(), "400 must not be swallowed");
}

#[test]
fn treat_404_as_ok_is_idempotent_on_repeated_deletes() {
    let first = treat_404_as_ok(Ok(()));
    let second = treat_404_as_ok(Err(ApiError::Api { status: 404, correlation_id: None, message: String::new() }));
    assert!(first.is_ok() && second.is_ok());
    let auth = treat_404_as_ok(Err(ApiError::Auth("x".into())));
    assert_eq!(auth, Err(ApiError::Auth("x".into())));
}

#[test]
fn missing_credentials_exit_code_is_2() {
    let e = missing_credentials_error("sandbox");
    assert_eq!(exit_code_for(&api_failure(e)), 2);
}

#[test]
fn missing_credentials_error_json_kind_is_auth() {
    let e = missing_credentials_error("sandbox");
    let ej = ErrorJson::from_anyhow(&api_failure(e));
    assert_eq!(ej.kind, "auth");
    assert!(ej.message.contains("sandbox"));
    assert!(ej.message.contains("flute auth login"));
}

#[test]
fn missing_credentials_message_is_exact() {
    assert_eq!(
        missing_credentials_error("prod"),
        ApiError::Auth("no credentials for [prod]; run `flute auth login`".into())
    );
}

#[test]
fn sandbox_points_at_uat() {
    let p = Profile::sandbox();
    assert_eq!(p.name, "sandbox");
    assert_eq!(p.api_base_url, "https://api.uat.arise.risewithaurora.com");
    assert_eq!(p.oauth_url, "https://oauth.api.uat.arise.risewithaurora.com/oauth2/token");
}

#[test]
fn production_points_at_prod() {
    let p = Profile::production();
    assert_eq!(p.api_base_url, "https://api.arise.risewithaurora.com");
    assert_eq!(p.oauth_url, "https://oauth.arise.risewithaurora.com/oauth2/token");
}

#[test]
fn by_name_resolves_aliases_and_rejects_unknown() {
    assert_eq!(Profile::by_name("sandbox").unwrap().name, "sandbox");
    assert_eq!(Profile::by_name("production").unwrap().name, "production");
    assert_eq!(Profile::by_name("prod").unwrap().name, "production");
    assert!(Profile::by_name("garbage").is_none());
}

#[test]
fn base_url_has_no_path_prefix() {
    for p in [Profile::sandbox(), Profile::production()] {
        let after_host = p.api_base_url.trim_start_matches("https://");
        assert!(!after_host.contains('/'), "{} must have no path", p.name);
    }
}

#[test]
fn config_default_is_sandbox() {
    assert_eq!(Config::default().default_profile, "sandbox");
}

#[test]
fn config_default_values() {
    let c = Config::default();
    assert_eq!(c.output, "table");
    assert!(c.auto_update_check);
}

#[test]
fn is_production_only_for_production() {
    assert!(Profile::production().is_production());
    assert!(!Profile::sandbox().is_production());
}

#[test]
fn envelope_wraps_data_with_meta() {
    let env = Envelope::new("transaction", parse_json(r#"{"id":"t1"}"#).unwrap(), "sandbox", Some("c-1".into()));
    assert_eq!(env.object, "transaction");
    assert_eq!(env.data.str_at("id"), Some("t1"));
    assert_eq!(env.meta.environment, "sandbox");
    assert_eq!(env.meta.correlation_id.as_deref(), Some("c-1"));
}

#[test]
fn error_json_api_variant_surfaces_status_and_correlation_id() {
    let e = ApiError::Api { status: 422, correlation_id: Some("abc".into()), message: "bad".into() };
    let env = ErrorJson::from_anyhow(&api_failure(e));
    assert_eq!(env.kind, "api");
    assert_eq!(env.status, Some(422));
    assert_eq!(env.correlation_id.as_deref(), Some("abc"));
}

#[test]
fn exit_code_maps_status_classes() {
    assert_eq!(exit_code_for_api(401), 2);
    assert_eq!(exit_code_for_api(403), 2);
    assert_eq!(exit_code_for_api(404), 4);
    assert_eq!(exit_code_for_api(400), 3);
    assert_eq!(exit_code_for_api(422), 3);
    assert_eq!(exit_code_for_api(500), 1);
}

#[test]
fn fit_pads_short_strings_to_width() {
    assert_eq!(fit("hi", 5), "hi   ");
}

#[test]
fn fit_truncates_long_strings_with_ellipsis() {
    let out = fit("hello-world", 6);
    assert_eq!(out.chars().count(), 6);
    assert!(out.ends_with('…'));
    assert!(out.starts_with("hello"));
}

#[test]
fn fit_zero_width_is_empty_and_exact_width_unchanged() {
    assert_eq!(fit("abc", 0), "");
    assert_eq!(fit("abc", 3), "abc");
    assert_eq!(fit("", 2), "  ");
}

#[test]
fn error_json_auth_variant_uses_auth_kind_no_status() {
    let env = ErrorJson::from_anyhow(&api_failure(ApiError::Auth("no token".into())));
    assert_eq!(env.kind, "auth");
    assert!(env.status.is_none());
    assert!(env.correlation_id.is_none());
    assert_eq!(env.message, "no token");
}

#[test]
fn error_json_falls_back_to_client_for_unknown_errors() {
    let e = Failure { api_error: None, message: "unknown profile: garbage".into(), invalid_input: false };
    let env = ErrorJson::from_anyhow(&e);
    assert_eq!(env.kind, "client");
    assert!(env.message.contains("garbage"));
}

#[test]
fn error_json_transport_and_decode_kinds() {
    let t = ErrorJson::from_anyhow(&api_failure(ApiError::Transport("connection refused".into())));
    assert_eq!(t.kind, "transport");
    assert_eq!(t.message, "connection refused");
    let d = ErrorJson::from_anyhow(&api_failure(ApiError::Decode("bad json".into())));
    assert_eq!(d.kind, "decode");
    assert!(d.status.is_none());
}

#[test]
fn exit_code_for_routes_apierror_variants() {
    assert_eq!(exit_code_for(&api_failure(ApiError::Auth("no token".into()))), 2);
    assert_eq!(exit_code_for(&api_failure(ApiError::Decode("bad json".into()))), 1);
    assert_eq!(
        exit_code_for(&api_failure(ApiError::Api { status: 404, correlation_id: None, message: "not found".into() })),
        4
    );
    assert_eq!(exit_code_for(&Failure { api_error: None, message: "x".into(), invalid_input: false }), 1);
}

#[test]
fn error_json_finds_api_error_through_context_wrapper() {
    let e = Failure {
        api_error: Some(ApiError::Api { status: 500, correlation_id: Some("xyz".into()), message: "boom".into() }),
        message: "while creating endpoint".into(),
        invalid_input: false,
    };
    let env = ErrorJson::from_anyhow(&e);
    assert_eq!(env.kind, "api");
    assert_eq!(env.status, Some(500));
    assert_eq!(env.correlation_id.as_deref(), Some("xyz"));
}

#[test]
fn json_number_text_round_trip() {
    let doc = parse_json(r#"{"amount": 100.00, "n": 7}"#).unwrap();
    assert_eq!(doc.get("amount"), Some(&Json::Number("100.00".into())));
    assert_eq!(doc.u64_at("n"), Some(7));
    assert_eq!(flute::json::to_json_text(&Json::Number("0.10".into())), "0.10");
}

#[test]
fn refused_input_exits_3_with_client_kind() {
    let refused = flute::money::parse_amount("not-a-number").unwrap_err();
    let e = Failure { api_error: None, message: refused.describe("amount"), invalid_input: true };
    assert_eq!(exit_code_for(&e), 3);
    let env = ErrorJson::from_anyhow(&e);
    assert_eq!(env.kind, "client");
    assert_eq!(env.message, "amount must be a plain decimal, not scientific notation: not-a-number");
    assert!(env.status.is_none());
}

#[test]
fn input_flag_does_not_override_an_api_error() {
    let e = Failure {
        api_error: Some(ApiError::Api { status: 404, correlation_id: None, message: "gone".into() }),
        message: "gone".into(),
        invalid_input: true,
    };
    assert_eq!(exit_code_for(&e), 4);
}
