//! Profiles (the API environments) and the global settings of the config file.

use vstd::prelude::*;

use crate::text::{owned, same_text};

verus! {

/// Global settings kept in the user's config file.
#[derive(Debug)]
pub struct Config {
    pub default_profile: String,
    pub output: String,
    pub auto_update_check: bool,
}

impl Config {
    /// The settings used when no config file exists.
    pub fn default() -> (c: Config)
        ensures
            c.default_profile@ == "sandbox"@,
            c.output@ == "table"@,
            c.auto_update_check,
    {
        Config {
            default_profile: owned("sandbox"),
            output: owned("table"),
            auto_update_check: true,
        }
    }
}

/// An environment of the payments API.
#[derive(Debug, PartialEq, Eq)]
pub struct Profile {
    pub name: String,
    pub api_base_url: String,
    pub oauth_url: String,
}

/// The sandbox environment (currently the UAT deployment).
pub open spec fn is_sandbox_profile(p: Profile) -> bool {
    &&& p.name@ == "sandbox"@
    &&& p.api_base_url@ == "https://api.uat.arise.risewithaurora.com"@
    &&& p.oauth_url@ == "https://oauth.api.uat.arise.risewithaurora.com/oauth2/token"@
}

/// The production environment.
pub open spec fn is_production_profile(p: Profile) -> bool {
    &&& p.name@ == "production"@
    &&& p.api_base_url@ == "https://api.arise.risewithaurora.com"@
    &&& p.oauth_url@ == "https://oauth.arise.risewithaurora.com/oauth2/token"@
}

/// The profile names that `by_name` accepts, and what each resolves to.
pub open spec fn names_sandbox(name: Seq<char>) -> bool {
    name == "sandbox"@
}

pub open spec fn names_production(name: Seq<char>) -> bool {
    name == "production"@ || name == "prod"@
}

impl Profile {
    pub fn sandbox() -> (p: Profile)
        ensures
            is_sandbox_profile(p),
    {
        Profile {
            name: owned("sandbox"),
            api_base_url: owned("https://api.uat.arise.risewithaurora.com"),
            oauth_url: owned("https://oauth.api.uat.arise.risewithaurora.com/oauth2/token"),
        }
    }

    pub fn production() -> (p: Profile)
        ensures
            is_production_profile(p),
    {
        Profile {
            name: owned("production"),
            api_base_url: owned("https://api.arise.risewithaurora.com"),
            oauth_url: owned("https://oauth.arise.risewithaurora.com/oauth2/token"),
        }
    }

    /// Resolves a profile name; `prod` is an alias of `production`.
    pub fn by_name(name: &str) -> (r: Option<Profile>)
        ensures
            names_sandbox(name@) ==> (r matches Some(p) && is_sandbox_profile(p)),
            names_production(name@) ==> (r matches Some(p) && is_production_profile(p)),
            !names_sandbox(name@) && !names_production(name@) ==> r is None,
    {
        proof {
            lemma_profiles_distinct();
        }
        if same_text(name, "sandbox") {
            Some(Profile::sandbox())
        } else if same_text(name, "production") || same_text(name, "prod") {
            Some(Profile::production())
        } else {
            None
        }
    }

    pub fn is_production(&self) -> (b: bool)
        ensures
            b == (self.name@ == "production"@),
    {
        same_text(self.name.as_str(), "production")
    }
}

/// Sandbox and production are told apart by name.
pub proof fn lemma_profiles_distinct()
    ensures
        "sandbox"@ != "production"@,
        "sandbox"@ != "prod"@,
{
    reveal_strlit("sandbox");
    reveal_strlit("production");
    reveal_strlit("prod");
    assert("sandbox"@[0] != "production"@[0]);
    assert("sandbox"@[0] != "prod"@[0]);
}

} // verus!
