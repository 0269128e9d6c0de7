//! Credential selection and profile switching.

use vstd::prelude::*;

use crate::config::{Profile, names_sandbox, names_production};
use crate::text::{owned, append, string_of, trimmed_chars, trim, join, texts, join_strings};
use crate::json::{Json, JsonV, entries_view, object, push_entry};
use crate::table::dash;

verus! {

/// Where a command's client credentials come from.
#[derive(Debug, PartialEq, Eq)]
pub enum CredentialLookup {
    /// Both environment variables were set: `(client_id, client_secret)`.
    Found(String, String),
    /// Read the keychain entry of this profile.
    Keychain(String),
}

/// The client credentials given by `FLUTE_CLIENT_ID` and
/// `FLUTE_CLIENT_SECRET`; none when either is absent or empty.
pub fn creds_from_env(id: Option<String>, secret: Option<String>) -> (r: Option<(String, String)>)
    ensures
        match (id, secret) {
            (Some(i), Some(s)) => if i@.len() > 0 && s@.len() > 0 {
                r matches Some((ri, rs)) && ri@ == i@ && rs@ == s@
            } else {
                r is None
            },
            _ => r is None,
        },
{
    match (id, secret) {
        (Some(i), Some(s)) => if i.as_str().unicode_len() > 0 && s.as_str().unicode_len() > 0 {
            Some((i, s))
        } else {
            None
        },
        _ => None,
    }
}

/// Environment variables win over the keychain (the path for CI and agents).
pub fn load_with_env_fallback(profile: &str, env: Option<(String, String)>) -> (r: CredentialLookup)
    ensures
        match env {
            Some((i, s)) => r matches CredentialLookup::Found(ri, rs) && ri@ == i@ && rs@ == s@,
            None => r matches CredentialLookup::Keychain(p) && p@ == profile@,
        },
{
    match env {
        Some((i, s)) => CredentialLookup::Found(i, s),
        None => CredentialLookup::Keychain(owned(profile)),
    }
}

/// Checks that `profile` names a known profile (`sandbox`, `production`,
/// `prod`); the error is the message `unknown profile: <name>`.
pub fn validate_switch_target(profile: &str) -> (r: Result<(), String>)
    ensures
        r is Ok <==> names_sandbox(profile@) || names_production(profile@),
        r matches Err(m) ==> m@ == "unknown profile: "@ + profile@,
{
    match Profile::by_name(profile) {
        Some(_) => Ok(()),
        None => {
            let mut m = owned("unknown profile: ");
            append(&mut m, profile);
            Err(m)
        },
    }
}

/// The credentials typed at `auth login`, trimmed; both are required.
pub fn login_credentials(id: &str, secret: &str) -> (r: Result<(String, String), String>)
    ensures
        trim(id@).len() > 0 && trim(secret@).len() > 0 ==> (r matches Ok((i, s)) && i@ == trim(id@) && s@ == trim(secret@)),
        trim(id@).len() == 0 || trim(secret@).len() == 0 ==> (r matches Err(m) && m@ == "client_id and client_secret are both required"@),
{
    let i = trimmed_chars(id);
    let s = trimmed_chars(secret);
    if i.len() == 0 || s.len() == 0 {
        return Err(owned("client_id and client_secret are both required"));
    }
    Ok((string_of(&i), string_of(&s)))
}

/// What `auth status` reports: whether the credentials authenticate right
/// now, and the client and merchant they belong to.
#[derive(Debug, PartialEq, Eq)]
pub struct AuthStatus {
    pub authenticated: bool,
    pub client_id: Option<String>,
    pub merchant_id: Option<String>,
}

/// The optional text of an optional string.
pub open spec fn opt_view(o: Option<String>) -> Option<Seq<char>> {
    match o {
        Some(s) => Some(s@),
        None => None,
    }
}

/// The status from the stored client id and the body of an authenticated
/// ping (none when there were no credentials or the ping failed): without a
/// ping, not authenticated and no merchant; with one, the ping's
/// `authenticated` (true when absent), its `clientId` over the stored one,
/// and its `merchantId`.
pub fn auth_status_from(stored_client_id: Option<String>, ping: Option<&Json>) -> (r: AuthStatus)
    ensures
        match ping {
            None => !r.authenticated && opt_view(r.client_id) == opt_view(stored_client_id) && r.merchant_id is None,
            Some(body) => {
                &&& r.authenticated == match body@.bool_at("authenticated"@) {
                    Some(b) => b,
                    None => true,
                }
                &&& opt_view(r.client_id) == match body@.str_at("clientId"@) {
                    Some(c) => Some(c),
                    None => opt_view(stored_client_id),
                }
                &&& opt_view(r.merchant_id) == body@.str_at("merchantId"@)
            },
        },
{
    match ping {
        None => AuthStatus { authenticated: false, client_id: stored_client_id, merchant_id: None },
        Some(body) => {
            let authenticated = match body.bool_at("authenticated") {
                Some(b) => b,
                None => true,
            };
            let client_id = match body.str_at("clientId") {
                Some(c) => Some(owned(c)),
                None => stored_client_id,
            };
            let merchant_id = match body.str_at("merchantId") {
                Some(m) => Some(owned(m)),
                None => None,
            };
            AuthStatus { authenticated, client_id, merchant_id }
        },
    }
}

/// An optional string as a JSON string or `null`.
pub open spec fn str_or_null(o: Option<String>) -> JsonV {
    match o {
        Some(s) => JsonV::Str(s@),
        None => JsonV::Null,
    }
}

fn text_or_null(o: &Option<String>) -> (r: Json)
    ensures
        r@ == str_or_null(*o),
{
    match o {
        Some(s) => Json::text(s.as_str()),
        None => Json::Null,
    }
}

/// The `data` of `auth status` in JSON mode.
pub fn auth_status_data(p: &Profile, s: &AuthStatus) -> (r: Json)
    ensures
        r@ == JsonV::Object(seq![
            ("profile"@, JsonV::Str(p.name@)),
            ("api_base_url"@, JsonV::Str(p.api_base_url@)),
            ("authenticated"@, JsonV::Bool(s.authenticated)),
            ("client_id"@, str_or_null(s.client_id)),
            ("merchant_id"@, str_or_null(s.merchant_id)),
        ]),
{
    let mut obj: Vec<(String, Json)> = Vec::new();
    push_entry(&mut obj, "profile", Json::text(p.name.as_str()));
    push_entry(&mut obj, "api_base_url", Json::text(p.api_base_url.as_str()));
    push_entry(&mut obj, "authenticated", Json::Bool(s.authenticated));
    push_entry(&mut obj, "client_id", text_or_null(&s.client_id));
    push_entry(&mut obj, "merchant_id", text_or_null(&s.merchant_id));
    assert(entries_view(obj@) =~= seq![
        ("profile"@, JsonV::Str(p.name@)),
        ("api_base_url"@, JsonV::Str(p.api_base_url@)),
        ("authenticated"@, JsonV::Bool(s.authenticated)),
        ("client_id"@, str_or_null(s.client_id)),
        ("merchant_id"@, str_or_null(s.merchant_id)),
    ]);
    object(obj)
}

/// The lines of `auth status` in table mode; the merchant only when known.
pub open spec fn auth_status_lines(p: Profile, s: AuthStatus) -> Seq<Seq<char>> {
    seq![
        "Profile:       "@ + p.name@,
        "API base:      "@ + p.api_base_url@,
        "Authenticated: "@ + (if s.authenticated { "true"@ } else { "false"@ }),
        "Client ID:     "@ + match s.client_id {
            Some(c) => c@,
            None => dash(),
        },
    ] + match s.merchant_id {
        Some(m) => seq!["Merchant ID:   "@ + m@],
        None => Seq::empty(),
    }
}

/// `auth status` in table mode: its lines, joined by newlines.
pub fn auth_status_table(p: &Profile, s: &AuthStatus) -> (r: String)
    ensures
        r@ == join(auth_status_lines(*p, *s), "\n"@),
{
    let mut lines: Vec<String> = Vec::new();
    let mut l1 = owned("Profile:       ");
    append(&mut l1, p.name.as_str());
    lines.push(l1);
    let mut l2 = owned("API base:      ");
    append(&mut l2, p.api_base_url.as_str());
    lines.push(l2);
    let mut l3 = owned("Authenticated: ");
    append(&mut l3, if s.authenticated { "true" } else { "false" });
    lines.push(l3);
    let mut l4 = owned("Client ID:     ");
    match &s.client_id {
        Some(c) => append(&mut l4, c.as_str()),
        None => append(&mut l4, "\u{2014}"),
    }
    lines.push(l4);
    match &s.merchant_id {
        Some(m) => {
            let mut l5 = owned("Merchant ID:   ");
            append(&mut l5, m.as_str());
            lines.push(l5);
        },
        None => {},
    }
    assert(texts(lines@) =~= auth_status_lines(*p, *s));
    join_strings(&lines, "\n")
}

/// `auth status` in quiet mode: the client id, or an empty line.
pub fn auth_status_quiet(s: &AuthStatus) -> (r: String)
    ensures
        r@ == match s.client_id {
            Some(c) => c@,
            None => Seq::<char>::empty(),
        },
{
    match &s.client_id {
        Some(c) => owned(c.as_str()),
        None => String::new(),
    }
}

/// How long a fresh bearer token is reused, in milliseconds: its lifetime
/// (`expires_in` seconds, 300 when the token endpoint gives none) less a
/// safety margin of 30 seconds, or of half the lifetime when that is
/// shorter.
pub open spec fn token_reuse_ms(expires_in: Option<u64>) -> int {
    let ttl: int = match expires_in {
        Some(t) => t as int,
        None => 300,
    };
    let margin: int = if 30000 <= ttl * 500 { 30000 } else { ttl * 500 };
    ttl * 1000 - margin
}

/// The reuse window of a fresh token (`token_reuse_ms`).
pub fn token_reuse_millis(expires_in: Option<u64>) -> (r: u128)
    ensures
        r as int == token_reuse_ms(expires_in),
{
    let ttl: u128 = match expires_in {
        Some(t) => t as u128,
        None => 300,
    };
    let half: u128 = ttl * 500;
    let margin: u128 = if 30000 <= half { 30000 } else { half };
    ttl * 1000 - margin
}

} // verus!
