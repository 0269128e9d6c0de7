//! `flute ping` and `flute version`: what they print.

use vstd::prelude::*;

use crate::config::Profile;
use crate::json::{Json, JsonV, entries_view, object, push_entry};
use crate::text::{owned, append, join, texts, join_strings};

verus! {

/// `ping` in table mode.
pub fn ping_line(p: &Profile) -> (r: String)
    ensures
        r@ == "ping  ok  (profile="@ + p.name@ + ")"@,
{
    let mut s = owned("ping  ok  (profile=");
    append(&mut s, p.name.as_str());
    append(&mut s, ")");
    s
}

/// The `data` of `version` in JSON mode.
pub fn version_data(version: &str, p: &Profile) -> (r: Json)
    ensures
        r@ == JsonV::Object(seq![
            ("version"@, JsonV::Str(version@)),
            ("profile"@, JsonV::Str(p.name@)),
            ("api_base_url"@, JsonV::Str(p.api_base_url@)),
        ]),
{
    let mut obj: Vec<(String, Json)> = Vec::new();
    push_entry(&mut obj, "version", Json::text(version));
    push_entry(&mut obj, "profile", Json::text(p.name.as_str()));
    push_entry(&mut obj, "api_base_url", Json::text(p.api_base_url.as_str()));
    assert(entries_view(obj@) =~= seq![
        ("version"@, JsonV::Str(version@)),
        ("profile"@, JsonV::Str(p.name@)),
        ("api_base_url"@, JsonV::Str(p.api_base_url@)),
    ]);
    object(obj)
}

/// `version` in table mode: the version, the profile and its API base.
pub fn version_table(version: &str, p: &Profile) -> (r: String)
    ensures
        r@ == join(seq![
            "flute  v"@ + version@,
            "Profile:  "@ + p.name@,
            "API base: "@ + p.api_base_url@,
        ], "\n"@),
{
    let mut lines: Vec<String> = Vec::new();
    let mut l1 = owned("flute  v");
    append(&mut l1, version);
    lines.push(l1);
    let mut l2 = owned("Profile:  ");
    append(&mut l2, p.name.as_str());
    lines.push(l2);
    let mut l3 = owned("API base: ");
    append(&mut l3, p.api_base_url.as_str());
    lines.push(l3);
    assert(texts(lines@) =~= seq![
        "flute  v"@ + version@,
        "Profile:  "@ + p.name@,
        "API base: "@ + p.api_base_url@,
    ]);
    join_strings(&lines, "\n")
}

} // verus!
