use flute::auth::{auth_status_from, auth_status_quiet, auth_status_table, creds_from_env, load_with_env_fallback, login_credentials, validate_switch_target, CredentialLookup};
use flute::config::Profile;
use flute::json::parse_json;

#[test]
fn switch_validates_profile_name() {
    assert!(validate_switch_target("garbage").is_err());
    assert!(validate_switch_target("production").is_ok());
    assert!(validate_switch_target("prod").is_ok());
    assert!(validate_switch_target("sandbox").is_ok());
}

#[test]
fn switch_error_names_the_profile() {
    assert_eq!(validate_switch_target("garbage"), Err("unknown profile: garbage".to_string()));
}

#[test]
fn env_fallback_returns_env_creds() {
    let env = creds_from_env(Some("env-id".into()), Some("env-secret".into()));
    let got = load_with_env_fallback("sandbox", env);
    assert_eq!(got, CredentialLookup::Found("env-id".to_string(), "env-secret".to_string()));
}

#[test]
fn env_fallback_without_env_reads_keychain_of_profile() {
    let got = load_with_env_fallback("sandbox", creds_from_env(None, None));
    assert_eq!(got, CredentialLookup::Keychain("sandbox".to_string()));
}

#[test]
fn creds_from_env_both_set_returns_pair() {
    assert_eq!(
        creds_from_env(Some("ci-id".into()), Some("ci-secret".into())),
        Some(("ci-id".to_string(), "ci-secret".to_string()))
    );
}

#[test]
fn creds_from_env_only_id_set_returns_none() {
    assert_eq!(creds_from_env(Some("ci-id".into()), None), None);
}

#[test]
fn creds_from_env_neither_set_returns_none() {
    assert_eq!(creds_from_env(None, None), None);
}

#[test]
fn creds_from_env_empty_value_returns_none() {
    assert_eq!(creds_from_env(Some("".into()), Some("s".into())), None);
}

#[test]
fn login_trims_and_requires_both() {
    assert_eq!(login_credentials("  id \n", " sec\t"), Ok(("id".to_string(), "sec".to_string())));
    assert_eq!(
        login_credentials("id", "   "),
        Err("client_id and client_secret are both required".to_string())
    );
}

#[test]
fn auth_status_uses_ping_answer() {
    let ping = parse_json(r#"{"clientId":"srv-id","merchantId":"m-1"}"#).unwrap();
    let s = auth_status_from(Some("local-id".into()), Some(&ping));
    assert!(s.authenticated);
    assert_eq!(s.client_id.as_deref(), Some("srv-id"));
    assert_eq!(s.merchant_id.as_deref(), Some("m-1"));
    let p = Profile::sandbox();
    assert_eq!(
        auth_status_table(&p, &s),
        "Profile:       sandbox\nAPI base:      https://api.uat.arise.risewithaurora.com\nAuthenticated: true\nClient ID:     srv-id\nMerchant ID:   m-1"
    );
}

#[test]
fn auth_status_without_ping_is_not_authenticated() {
    let s = auth_status_from(None, None);
    assert!(!s.authenticated);
    assert_eq!(auth_status_quiet(&s), "");
    let p = Profile::production();
    assert!(auth_status_table(&p, &s).ends_with("Client ID:     \u{2014}"));
}

#[test]
fn token_reuse_keeps_a_safety_margin() {
    assert_eq!(flute::auth::token_reuse_millis(Some(3600)), 3_570_000);
    assert_eq!(flute::auth::token_reuse_millis(Some(31)), 15_500);
    assert_eq!(flute::auth::token_reuse_millis(None), 270_000);
    assert_eq!(flute::auth::token_reuse_millis(Some(0)), 0);
}
