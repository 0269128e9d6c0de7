//! Masking of card and bank data before request and response bodies reach
//! the debug log. CVVs and client secrets never appear in any form; card and
//! account numbers keep at most their last four characters.

use vstd::prelude::*;

use crate::json::{Json, JsonV, json_view, items_view, entries_view, lemma_array_view, lemma_object_view, parse_json, parsed_json, to_json_text, json_text};
use crate::text::{chars_of, lower_chars, lower_text, same_chars, owned, string_of};

verus! {

/// Keys whose values are secret authentication data: card verification
/// values and the API client secret.
pub open spec fn secret_key(k: Seq<char>) -> bool {
    k == "securitycode"@ || k == "cvv"@ || k == "cvc"@ || k == "cvv2"@ || k == "cardverificationvalue"@
        || k == "clientsecret"@ || k == "client_secret"@
}

/// Keys whose values are full card or bank account identifiers.
pub open spec fn account_key(k: Seq<char>) -> bool {
    k == "cardnumber"@ || k == "accountnumber"@ || k == "pan"@ || k == "routingnumber"@
}

fn lit_is(k: &Vec<char>, lit: &str) -> (r: bool)
    ensures
        r == (k@ == lit@),
{
    same_chars(k, &chars_of(lit))
}

/// Whether a lower-cased key holds a secret that is replaced wholesale.
pub fn is_full_secret_key(lower_key: &str) -> (r: bool)
    ensures
        r == secret_key(lower_key@),
{
    let k = chars_of(lower_key);
    lit_is(&k, "securitycode") || lit_is(&k, "cvv") || lit_is(&k, "cvc") || lit_is(&k, "cvv2")
        || lit_is(&k, "cardverificationvalue") || lit_is(&k, "clientsecret") || lit_is(&k, "client_secret")
}

/// Whether a lower-cased key holds a card or account number.
pub fn is_account_like_key(lower_key: &str) -> (r: bool)
    ensures
        r == account_key(lower_key@),
{
    let k = chars_of(lower_key);
    lit_is(&k, "cardnumber") || lit_is(&k, "accountnumber") || lit_is(&k, "pan") || lit_is(&k, "routingnumber")
}

/// `n` asterisks.
pub open spec fn stars(n: int) -> Seq<char> {
    Seq::new(if n > 0 { n as nat } else { 0 }, |i: int| '*')
}

/// A string masked to its last four characters; four or fewer are fully
/// hidden. Other values are unchanged.
pub open spec fn masked(v: JsonV) -> JsonV {
    match v {
        JsonV::Str(s) => if s.len() > 4 {
            JsonV::Str(stars(s.len() - 4) + s.skip(s.len() - 4))
        } else {
            JsonV::Str("***"@)
        },
        _ => v,
    }
}

/// A document with every secret replaced by `***` and every account number
/// masked, at any depth; keys compare without ASCII case.
pub open spec fn redacted(v: JsonV) -> JsonV
    decreases v,
{
    match v {
        JsonV::Object(es) => JsonV::Object(
            Seq::new(
                es.len(),
                |i: int|
                    if 0 <= i < es.len() {
                        (
                            es[i].0,
                            if secret_key(lower_text(es[i].0)) {
                                JsonV::Str("***"@)
                            } else if account_key(lower_text(es[i].0)) {
                                masked(es[i].1)
                            } else {
                                redacted(es[i].1)
                            },
                        )
                    } else {
                        (Seq::empty(), JsonV::Null)
                    },
            ),
        ),
        JsonV::Array(items) => JsonV::Array(
            Seq::new(
                items.len(),
                |i: int|
                    if 0 <= i < items.len() {
                        redacted(items[i])
                    } else {
                        JsonV::Null
                    },
            ),
        ),
        _ => v,
    }
}

/// Masks a string value to its last four characters.
pub fn mask_last4(value: &Json) -> (r: Json)
    ensures
        r@ == masked(value@),
{
    match value {
        Json::Str(s) => {
            let cs = chars_of(s.as_str());
            let n = cs.len();
            if n > 4 {
                let mut out: Vec<char> = Vec::new();
                let mut i: usize = 0;
                while i < n - 4
                    invariant
                        i <= n - 4,
                        n == cs@.len(),
                        out@ == stars(i as int),
                    decreases n - 4 - i,
                {
                    out.push('*');
                    assert(stars(i + 1) =~= stars(i as int).push('*'));
                    i = i + 1;
                }
                while i < n
                    invariant
                        n > 4,
                        n - 4 <= i <= n,
                        n == cs@.len(),
                        out@ == stars(n - 4) + cs@.subrange(n - 4, i as int),
                    decreases n - i,
                {
                    out.push(cs[i]);
                    assert(cs@.subrange(n - 4, i + 1) =~= cs@.subrange(n - 4, i as int).push(cs@[i as int]));
                    i = i + 1;
                }
                assert(cs@.subrange(n - 4, n as int) =~= cs@.skip(n - 4));
                Json::Str(string_of(&out))
            } else {
                Json::Str(owned("***"))
            }
        },
        _ => value.deep_clone(),
    }
}

/// Redacts a document for logging (see `redacted`).
#[verifier::loop_isolation(false)]
pub fn redact_value(value: &Json) -> (r: Json)
    ensures
        r@ == redacted(value@),
    decreases value,
{
    match value {
        Json::Object(entries) => {
            proof {
                lemma_object_view(*entries);
            }
            let ghost ev = entries_view(entries@);
            let mut out: Vec<(String, Json)> = Vec::new();
            let n = entries.len();
            for i in 0..n
                invariant
                    n == entries@.len(),
                    out@.len() == i,
                    forall|j: int| 0 <= j < i ==> (#[trigger] entries_view(out@)[j]) == redacted(value@)->Object_0[j],
            {
                let key = entries[i].0.as_str();
                let lk = string_of(&lower_chars(&chars_of(key)));
                let rv = if is_full_secret_key(lk.as_str()) {
                    Json::Str(owned("***"))
                } else if is_account_like_key(lk.as_str()) {
                    mask_last4(&entries[i].1)
                } else {
                    proof {
                        assert(decreases_to!(*value => value->Object_0));
                        assert(decreases_to!(*entries => entries[i as int]));
                        assert(decreases_to!(entries[i as int] => entries[i as int].1));
                    }
                    redact_value(&entries[i].1)
                };
                let ghost before = out@;
                out.push((owned(key), rv));
                proof {
                    assert forall|j: int| 0 <= j < i + 1 implies (#[trigger] entries_view(out@)[j]) == redacted(value@)->Object_0[j] by {
                        if j < i {
                            assert(entries_view(out@)[j] == entries_view(before)[j]);
                        } else {
                            assert(ev[j] == (entries@[j].0@, json_view(entries@[j].1)));
                        }
                    }
                }
            }
            proof {
                lemma_object_view(out);
                assert(entries_view(out@) =~= redacted(value@)->Object_0);
            }
            Json::Object(out)
        },
        Json::Array(items) => {
            proof {
                lemma_array_view(*items);
            }
            let mut out: Vec<Json> = Vec::new();
            let n = items.len();
            for i in 0..n
                invariant
                    n == items@.len(),
                    out@.len() == i,
                    forall|j: int| 0 <= j < i ==> (#[trigger] items_view(out@)[j]) == redacted(value@)->Array_0[j],
            {
                proof {
                    assert(decreases_to!(*value => value->Array_0));
                    assert(decreases_to!(*items => items[i as int]));
                }
                let rv = redact_value(&items[i]);
                let ghost before = out@;
                out.push(rv);
                proof {
                    assert forall|j: int| 0 <= j < i + 1 implies (#[trigger] items_view(out@)[j]) == redacted(value@)->Array_0[j] by {
                        if j < i {
                            assert(items_view(out@)[j] == items_view(before)[j]);
                        }
                    }
                }
            }
            proof {
                lemma_array_view(out);
                assert(items_view(out@) =~= redacted(value@)->Array_0);
            }
            Json::Array(out)
        },
        _ => value.deep_clone(),
    }
}

/// A request body as logged: redacted, then printed as compact JSON.
pub fn redact_for_log(body: &Json) -> (r: String)
    ensures
        r@ == json_text(redacted(body@)),
{
    to_json_text(&redact_value(body))
}

/// A response body as logged: redacted when it parses as JSON, otherwise
/// the text unchanged (non-JSON error pages carry no card data).
pub fn redact_text_for_log(text: &str) -> (r: String)
    ensures
        match parsed_json(text@) {
            Some(doc) => r@ == json_text(redacted(doc)),
            None => r@ == text@,
        },
{
    match parse_json(text) {
        Ok(doc) => redact_for_log(&doc),
        Err(_) => owned(text),
    }
}

} // verus!

verus! {

/// What a masked account number looks like: `***`, or asterisks followed by
/// four characters.
pub open spec fn mask_shaped(s: Seq<char>) -> bool {
    s == "***"@ || (s.len() > 4 && forall|j: int| 0 <= j < s.len() - 4 ==> s[j] == '*')
}

/// A document fit for the log: every secret-keyed value is `***`, every
/// account-keyed string is masked, and everything under other keys is fit
/// too. (An account-keyed value that is not a string is left as it is.)
pub open spec fn log_safe(v: JsonV) -> bool
    decreases v,
{
    match v {
        JsonV::Object(es) => forall|i: int|
            0 <= i < es.len() ==> {
                let k = lower_text(#[trigger] es[i].0);
                if secret_key(k) {
                    es[i].1 == JsonV::Str("***"@)
                } else if account_key(k) {
                    es[i].1 matches JsonV::Str(s) ==> mask_shaped(s)
                } else {
                    log_safe(es[i].1)
                }
            },
        JsonV::Array(items) => forall|i: int| 0 <= i < items.len() ==> log_safe(#[trigger] items[i]),
        _ => true,
    }
}

/// Redaction leaves no secret and no unmasked account number in the log
/// (outside values kept whole under an account-number key).
pub proof fn lemma_redacted_is_log_safe(v: JsonV)
    ensures
        log_safe(redacted(v)),
    decreases v,
{
    match v {
        JsonV::Object(es) => {
            let r = redacted(v);
            let res = r->Object_0;
            assert forall|i: int| 0 <= i < res.len() implies {
                let k = lower_text(#[trigger] res[i].0);
                if secret_key(k) {
                    res[i].1 == JsonV::Str("***"@)
                } else if account_key(k) {
                    res[i].1 matches JsonV::Str(s) ==> mask_shaped(s)
                } else {
                    log_safe(res[i].1)
                }
            } by {
                let k = lower_text(es[i].0);
                assert(res[i].0 == es[i].0);
                if !secret_key(k) && account_key(k) {
                    match es[i].1 {
                        JsonV::Str(s) => {
                            if s.len() > 4 {
                                let m = stars(s.len() - 4) + s.skip(s.len() - 4);
                                assert(forall|j: int| 0 <= j < m.len() - 4 ==> m[j] == stars(s.len() - 4)[j]);
                            }
                        },
                        _ => {},
                    }
                } else if !secret_key(k) {
                    assert(decreases_to!(v => es));
                    assert(decreases_to!(es => es[i]));
                    assert(decreases_to!(es[i] => es[i].1));
                    lemma_redacted_is_log_safe(es[i].1);
                }
            }
        },
        JsonV::Array(items) => {
            let r = redacted(v);
            let res = r->Array_0;
            assert forall|i: int| 0 <= i < res.len() implies log_safe(#[trigger] res[i]) by {
                assert(decreases_to!(v => items));
                assert(decreases_to!(items => items[i]));
                lemma_redacted_is_log_safe(items[i]);
            }
        },
        _ => {},
    }
}

/// Masking twice masks once.
proof fn lemma_masked_idempotent(v: JsonV)
    ensures
        masked(masked(v)) == masked(v),
{
    reveal_strlit("***");
    match v {
        JsonV::Str(s) => {
            if s.len() > 4 {
                let m = stars(s.len() - 4) + s.skip(s.len() - 4);
                assert(m.len() == s.len());
                assert(m.skip(m.len() - 4) =~= s.skip(s.len() - 4));
            }
        },
        _ => {},
    }
}

/// Redacting a redacted document changes nothing: what the log shows is
/// stable.
pub proof fn lemma_redaction_idempotent(v: JsonV)
    ensures
        redacted(redacted(v)) == redacted(v),
    decreases v,
{
    match v {
        JsonV::Object(es) => {
            let r = redacted(v);
            let res = r->Object_0;
            let rr = redacted(r)->Object_0;
            assert forall|i: int| 0 <= i < res.len() implies #[trigger] rr[i] == res[i] by {
                let k = lower_text(es[i].0);
                if !secret_key(k) && account_key(k) {
                    lemma_masked_idempotent(es[i].1);
                } else if !secret_key(k) {
                    assert(decreases_to!(v => es));
                    assert(decreases_to!(es => es[i]));
                    assert(decreases_to!(es[i] => es[i].1));
                    lemma_redaction_idempotent(es[i].1);
                }
            }
            assert(rr =~= res);
        },
        JsonV::Array(items) => {
            let r = redacted(v);
            let res = r->Array_0;
            let rr = redacted(r)->Array_0;
            assert forall|i: int| 0 <= i < res.len() implies #[trigger] rr[i] == res[i] by {
                assert(decreases_to!(v => items));
                assert(decreases_to!(items => items[i]));
                lemma_redaction_idempotent(items[i]);
            }
            assert(rr =~= res);
        },
        _ => {},
    }
}

/// Whether no key, at any depth, is a secret or an account number.
pub open spec fn plain(v: JsonV) -> bool
    decreases v,
{
    match v {
        JsonV::Object(es) => forall|i: int|
            0 <= i < es.len() ==> {
                let k = lower_text(#[trigger] es[i].0);
                !secret_key(k) && !account_key(k) && plain(es[i].1)
            },
        JsonV::Array(items) => forall|i: int| 0 <= i < items.len() ==> plain(#[trigger] items[i]),
        _ => true,
    }
}

/// Redaction keeps everything that is not sensitive: a document without
/// sensitive keys is logged as it is.
pub proof fn lemma_redaction_keeps_plain(v: JsonV)
    requires
        plain(v),
    ensures
        redacted(v) == v,
    decreases v,
{
    match v {
        JsonV::Object(es) => {
            let res = redacted(v)->Object_0;
            assert forall|i: int| 0 <= i < es.len() implies #[trigger] res[i] == es[i] by {
                let k = lower_text(es[i].0);
                assert(!secret_key(k) && !account_key(k) && plain(es[i].1));
                assert(decreases_to!(v => es));
                assert(decreases_to!(es => es[i]));
                assert(decreases_to!(es[i] => es[i].1));
                lemma_redaction_keeps_plain(es[i].1);
            }
            assert(res =~= es);
        },
        JsonV::Array(items) => {
            let res = redacted(v)->Array_0;
            assert forall|i: int| 0 <= i < items.len() implies #[trigger] res[i] == items[i] by {
                assert(decreases_to!(v => items));
                assert(decreases_to!(items => items[i]));
                lemma_redaction_keeps_plain(items[i]);
            }
            assert(res =~= items);
        },
        _ => {},
    }
}

} // verus!
