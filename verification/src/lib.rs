//! `flute`: the library behind the CLI of the Flute payments platform.

use vstd::prelude::*;

pub mod text;
pub mod json;
pub mod config;
pub mod api_error;
pub mod money;
pub mod transactions;
pub mod output;
pub mod auth;
pub mod redact;
pub mod ach;
pub mod customers;
pub mod devices;
pub mod tokens;
pub mod subscriptions;
pub mod pos;
pub mod address;
pub mod table;
pub mod terminals;
pub mod api;
pub mod util;
pub mod settlements;

use crate::api_error::ApiError;
use crate::config::Profile;
use crate::text::{owned, append};

verus! {

/// The warning shown before any call against production.
pub open spec fn banner_text(url: Seq<char>, color: bool) -> Seq<char> {
    let msg = "\u{26a0} Operating on PRODUCTION ("@ + url + ")"@;
    if color {
        "\x1b[31m"@ + msg + "\x1b[0m"@
    } else {
        msg
    }
}

/// The production warning banner, red when `color`; none for other profiles.
pub fn production_banner(profile: &Profile, color: bool) -> (r: Option<String>)
    ensures
        profile.name@ == "production"@ ==> (r matches Some(b) && b@ == banner_text(profile.api_base_url@, color)),
        profile.name@ != "production"@ ==> r is None,
{
    if !profile.is_production() {
        return None;
    }
    let mut msg = owned("\u{26a0} Operating on PRODUCTION (");
    append(&mut msg, profile.api_base_url.as_str());
    append(&mut msg, ")");
    if color {
        let mut colored = owned("\x1b[31m");
        append(&mut colored, msg.as_str());
        append(&mut colored, "\x1b[0m");
        Some(colored)
    } else {
        Some(msg)
    }
}

/// The auth error for a profile without stored or environment credentials.
pub fn missing_credentials_error(profile: &str) -> (r: ApiError)
    ensures
        r matches ApiError::Auth(m) && m@ == "no credentials for ["@ + profile@ + "]; run `flute auth login`"@,
{
    let mut m = owned("no credentials for [");
    append(&mut m, profile);
    append(&mut m, "]; run `flute auth login`");
    ApiError::Auth(m)
}

/// Whether an error is the API's "not found".
pub open spec fn is_not_found(e: ApiError) -> bool {
    e matches ApiError::Api { status, .. } && status == 404
}

/// A 404 on a delete is success: deleting twice is idempotent. Every other
/// outcome passes through unchanged.
pub fn treat_404_as_ok(result: Result<(), ApiError>) -> (r: Result<(), ApiError>)
    ensures
        match result {
            Ok(()) => r is Ok,
            Err(e) => if is_not_found(e) { r is Ok } else { r == Err::<(), ApiError>(e) },
        },
{
    match result {
        Ok(()) => Ok(()),
        Err(ApiError::Api { status: 404, .. }) => Ok(()),
        Err(e) => Err(e),
    }
}

} // verus!
