//! Errors of the payments API, and the ASP.NET error envelope it answers with.

use vstd::prelude::*;

use crate::json::{Json, JsonV, json_view, entries_view, items_view, lemma_object_view, lemma_array_view, parse_json, parsed_json};
use crate::text::{chars_of, owned, same_text, text_less, text_lt, join, texts, join_strings};

verus! {

/// A failed API call.
#[derive(Debug, PartialEq, Eq)]
pub enum ApiError {
    /// Connection, TLS or DNS failure; holds the transport's message.
    Transport(String),
    /// The API answered with an error status.
    Api { status: u16, correlation_id: Option<String>, message: String },
    /// OAuth or keychain failure.
    Auth(String),
    /// The request could not be encoded or the response decoded.
    Decode(String),
}

pub open spec fn opt_text(o: Option<String>) -> Option<Seq<char>> {
    match o {
        Some(s) => Some(s@),
        None => None,
    }
}

/// Field-level validation errors: field name and its messages, ordered by name.
pub type FieldErrorsV = Seq<(Seq<char>, Seq<Seq<char>>)>;

/// The decoded error envelope.
pub struct AspNetV {
    pub details: Option<Seq<char>>,
    pub title: Option<Seq<char>>,
    pub correlation_id: Option<Seq<char>>,
    pub error_code: Option<Seq<char>>,
    pub exception_type: Option<Seq<char>>,
    pub errors: Option<FieldErrorsV>,
}

/// The ASP.NET error envelope. The API uses camelCase names in its public
/// layer and PascalCase names in its internal exception handlers; both are read.
#[derive(Debug)]
pub struct AspNetError {
    pub details: Option<String>,
    pub title: Option<String>,
    pub correlation_id: Option<String>,
    pub error_code: Option<String>,
    pub exception_type: Option<String>,
    pub errors: Option<Vec<(String, Vec<String>)>>,
}

pub open spec fn errors_view(m: Seq<(String, Vec<String>)>) -> FieldErrorsV {
    Seq::new(m.len(), |i: int| (m[i].0@, texts(m[i].1@)))
}

pub open spec fn opt_errors(o: Option<Vec<(String, Vec<String>)>>) -> Option<FieldErrorsV> {
    match o {
        Some(m) => Some(errors_view(m@)),
        None => None,
    }
}

impl View for AspNetError {
    type V = AspNetV;

    open spec fn view(&self) -> AspNetV {
        AspNetV {
            details: opt_text(self.details),
            title: opt_text(self.title),
            correlation_id: opt_text(self.correlation_id),
            error_code: opt_text(self.error_code),
            exception_type: opt_text(self.exception_type),
            errors: opt_errors(self.errors),
        }
    }
}

// ── Decoding ──────────────────────────────────────────────────────────────

/// The two names under which field `f` of the envelope may appear.
pub open spec fn field_names(f: int) -> (Seq<char>, Seq<char>) {
    if f == 0 {
        ("details"@, "Details"@)
    } else if f == 1 {
        ("title"@, "Title"@)
    } else if f == 2 {
        ("correlationId"@, "CorrelationId"@)
    } else if f == 3 {
        ("errorCode"@, "ErrorCode"@)
    } else if f == 4 {
        ("exceptionType"@, "ExceptionType"@)
    } else {
        ("errors"@, "Errors"@)
    }
}

pub open spec fn names_field(key: Seq<char>, f: int) -> bool {
    key == field_names(f).0 || key == field_names(f).1
}

/// How many entries name field `f`.
pub open spec fn field_count(es: Seq<(Seq<char>, JsonV)>, f: int) -> nat
    decreases es.len(),
{
    if es.len() == 0 {
        0
    } else {
        field_count(es.drop_last(), f) + if names_field(es.last().0, f) { 1nat } else { 0nat }
    }
}

/// The value of the first entry that names field `f`.
pub open spec fn field_value(es: Seq<(Seq<char>, JsonV)>, f: int) -> Option<JsonV>
    decreases es.len(),
{
    if es.len() == 0 {
        None
    } else {
        match field_value(es.drop_last(), f) {
            Some(v) => Some(v),
            None => if names_field(es.last().0, f) {
                Some(es.last().1)
            } else {
                None
            },
        }
    }
}

/// An optional text field: absent or null is no text; a string is the text;
/// anything else fails.
pub open spec fn decode_text(v: Option<JsonV>) -> Option<Option<Seq<char>>> {
    match v {
        None => Some(None),
        Some(JsonV::Null) => Some(None),
        Some(JsonV::Str(s)) => Some(Some(s)),
        Some(_) => None,
    }
}

/// A list of messages: an array of strings.
pub open spec fn decode_messages(items: Seq<JsonV>) -> Option<Seq<Seq<char>>>
    decreases items.len(),
{
    if items.len() == 0 {
        Some(Seq::empty())
    } else {
        match (decode_messages(items.drop_last()), items.last()) {
            (Some(ms), JsonV::Str(s)) => Some(ms.push(s)),
            _ => None,
        }
    }
}

/// Where key `k` goes in a map ordered by key.
pub open spec fn insert_pos(m: FieldErrorsV, k: Seq<char>) -> int
    decreases m.len(),
{
    if m.len() == 0 {
        0
    } else if text_lt(m[0].0, k) {
        1 + insert_pos(m.drop_first(), k)
    } else {
        0
    }
}

/// Inserts into a map ordered by key; an existing key keeps its place and
/// takes the new messages.
pub open spec fn map_insert(m: FieldErrorsV, k: Seq<char>, v: Seq<Seq<char>>) -> FieldErrorsV {
    let i = insert_pos(m, k);
    if i < m.len() && m[i].0 == k {
        m.update(i, (k, v))
    } else {
        m.insert(i, (k, v))
    }
}

/// The field-error map of an object whose values are message lists, entries
/// inserted in order.
pub open spec fn decode_error_entries(es: Seq<(Seq<char>, JsonV)>) -> Option<FieldErrorsV>
    decreases es.len(),
{
    if es.len() == 0 {
        Some(Seq::empty())
    } else {
        match decode_error_entries(es.drop_last()) {
            Some(m) => match es.last().1 {
                JsonV::Array(items) => match decode_messages(items) {
                    Some(ms) => Some(map_insert(m, es.last().0, ms)),
                    None => None,
                },
                _ => None,
            },
            None => None,
        }
    }
}

/// The optional field-error map: absent or null is none; an object of
/// message lists is the map; anything else fails.
pub open spec fn decode_field_errors(v: Option<JsonV>) -> Option<Option<FieldErrorsV>> {
    match v {
        None => Some(None),
        Some(JsonV::Null) => Some(None),
        Some(JsonV::Object(es)) => match decode_error_entries(es) {
            Some(m) => Some(Some(m)),
            None => None,
        },
        Some(_) => None,
    }
}

pub open spec fn assemble(
    v0: Option<JsonV>,
    v1: Option<JsonV>,
    v2: Option<JsonV>,
    v3: Option<JsonV>,
    v4: Option<JsonV>,
    v5: Option<JsonV>,
) -> Option<AspNetV> {
    match (decode_text(v0), decode_text(v1), decode_text(v2), decode_text(v3), decode_text(v4), decode_field_errors(v5)) {
        (Some(a), Some(b), Some(c), Some(d), Some(e), Some(f)) => Some(AspNetV {
            details: a,
            title: b,
            correlation_id: c,
            error_code: d,
            exception_type: e,
            errors: f,
        }),
        _ => None,
    }
}

/// How a document decodes into the envelope: an object whose known fields
/// each appear at most once (under either name) and have the right shape,
/// or an array of exactly six values in field order. Other keys are ignored.
pub open spec fn decode_aspnet(doc: JsonV) -> Option<AspNetV> {
    match doc {
        JsonV::Object(es) => if exists|f: int| 0 <= f < 6 && field_count(es, f) > 1 {
            None
        } else {
            assemble(
                field_value(es, 0),
                field_value(es, 1),
                field_value(es, 2),
                field_value(es, 3),
                field_value(es, 4),
                field_value(es, 5),
            )
        },
        JsonV::Array(items) => if items.len() == 6 {
            assemble(Some(items[0]), Some(items[1]), Some(items[2]), Some(items[3]), Some(items[4]), Some(items[5]))
        } else {
            None
        },
        _ => None,
    }
}

proof fn lemma_messages_prefix_fails(s: Seq<JsonV>, k: int)
    requires
        0 <= k <= s.len(),
        decode_messages(s.take(k)) is None,
    ensures
        decode_messages(s) is None,
    decreases s.len() - k,
{
    if k < s.len() {
        assert(s.drop_last().take(k) =~= s.take(k));
        lemma_messages_prefix_fails(s.drop_last(), k);
    } else {
        assert(s.take(k) =~= s);
    }
}

proof fn lemma_entries_prefix_fails(s: Seq<(Seq<char>, JsonV)>, k: int)
    requires
        0 <= k <= s.len(),
        decode_error_entries(s.take(k)) is None,
    ensures
        decode_error_entries(s) is None,
    decreases s.len() - k,
{
    if k < s.len() {
        assert(s.drop_last().take(k) =~= s.take(k));
        lemma_entries_prefix_fails(s.drop_last(), k);
    } else {
        assert(s.take(k) =~= s);
    }
}

fn names_field_exec(key: &str, f: usize) -> (r: bool)
    requires
        f < 6,
    ensures
        r == names_field(key@, f as int),
{
    if f == 0 {
        same_text(key, "details") || same_text(key, "Details")
    } else if f == 1 {
        same_text(key, "title") || same_text(key, "Title")
    } else if f == 2 {
        same_text(key, "correlationId") || same_text(key, "CorrelationId")
    } else if f == 3 {
        same_text(key, "errorCode") || same_text(key, "ErrorCode")
    } else if f == 4 {
        same_text(key, "exceptionType") || same_text(key, "ExceptionType")
    } else {
        same_text(key, "errors") || same_text(key, "Errors")
    }
}

/// Scans the entries for field `f`: whether it appears more than once, and
/// the value of its first appearance.
fn find_field(entries: &Vec<(String, Json)>, f: usize) -> (r: (bool, Option<&Json>))
    requires
        f < 6,
    ensures
        r.0 == (field_count(entries_view(entries@), f as int) > 1),
        r.1 matches Some(v) ==> field_value(entries_view(entries@), f as int) == Some(v@),
        r.1 is None <==> field_value(entries_view(entries@), f as int) is None,
{
    let ghost ev = entries_view(entries@);
    let mut count: usize = 0;
    let mut found: Option<&Json> = None;
    let n = entries.len();
    for i in 0..n
        invariant
            n == entries@.len(),
            ev == entries_view(entries@),
            f < 6,
            count == if field_count(ev.take(i as int), f as int) > 1 { 2 } else { field_count(ev.take(i as int), f as int) },
            found matches Some(v) ==> field_value(ev.take(i as int), f as int) == Some(v@),
            found is None <==> field_value(ev.take(i as int), f as int) is None,
    {
        assert(ev.take(i + 1).drop_last() =~= ev.take(i as int));
        assert(ev.take(i + 1).last() == ev[i as int]);
        if names_field_exec(entries[i].0.as_str(), f) {
            if count < 2 {
                count = count + 1;
            }
            if found.is_none() {
                found = Some(&entries[i].1);
            }
        }
    }
    assert(ev.take(n as int) =~= ev);
    (count > 1, found)
}

fn decode_text_exec(v: Option<&Json>) -> (r: Option<Option<String>>)
    ensures
        match v {
            Some(x) => match r {
                Some(o) => decode_text(Some(x@)) == Some(opt_text(o)),
                None => decode_text(Some(x@)) is None,
            },
            None => match r {
                Some(o) => decode_text(None) == Some(opt_text(o)),
                None => decode_text(None) is None,
            },
        },
{
    match v {
        None => Some(None),
        Some(Json::Null) => Some(None),
        Some(Json::Str(s)) => Some(Some(owned(s.as_str()))),
        Some(_) => None,
    }
}

fn decode_messages_exec(items: &Vec<Json>) -> (r: Option<Vec<String>>)
    ensures
        match r {
            Some(ms) => decode_messages(items_view(items@)) == Some(texts(ms@)),
            None => decode_messages(items_view(items@)) is None,
        },
{
    let ghost iv = items_view(items@);
    let mut out: Vec<String> = Vec::new();
    let n = items.len();
    for i in 0..n
        invariant
            n == items@.len(),
            iv == items_view(items@),
            decode_messages(iv.take(i as int)) == Some(texts(out@)),
    {
        assert(iv.take(i + 1).drop_last() =~= iv.take(i as int));
        assert(iv.take(i + 1).last() == json_view(items@[i as int]));
        match &items[i] {
            Json::Str(s) => {
                let ghost before = out@;
                out.push(owned(s.as_str()));
                assert(texts(out@) =~= texts(before).push(s@));
            },
            _ => {
                proof {
                    lemma_messages_prefix_fails(iv, i + 1);
                }
                return None;
            },
        }
    }
    assert(iv.take(n as int) =~= iv);
    Some(out)
}

/// Inserts into a map ordered by key (see `map_insert`).
fn insert_error(m: &mut Vec<(String, Vec<String>)>, k: String, v: Vec<String>)
    ensures
        errors_view(final(m)@) == map_insert(errors_view(old(m)@), k@, texts(v@)),
{
    let ghost mv = errors_view(m@);
    let kc = chars_of(k.as_str());
    let mut j: usize = 0;
    assert(mv.skip(0) =~= mv);
    while j < m.len() && text_less(&chars_of(m[j].0.as_str()), &kc)
        invariant
            mv == errors_view(m@),
            j <= m@.len(),
            kc@ == k@,
            insert_pos(mv, k@) == j + insert_pos(mv.skip(j as int), k@),
        decreases m.len() - j,
    {
        assert(mv.skip(j as int)[0] == mv[j as int]);
        assert(mv.skip(j as int).drop_first() =~= mv.skip(j + 1));
        j = j + 1;
    }
    proof {
        if j < mv.len() {
            assert(mv.skip(j as int)[0] == mv[j as int]);
        }
    }
    assert(insert_pos(mv, k@) == j);
    if j < m.len() && same_text(m[j].0.as_str(), k.as_str()) {
        let ghost kv = k@;
        let ghost vv = texts(v@);
        m.set(j, (k, v));
        assert(errors_view(m@) =~= mv.update(j as int, (kv, vv)));
    } else {
        let ghost kv = k@;
        let ghost vv = texts(v@);
        m.insert(j, (k, v));
        assert(errors_view(m@) =~= mv.insert(j as int, (kv, vv)));
    }
}

#[verifier::loop_isolation(false)]
fn decode_field_errors_exec(v: Option<&Json>) -> (r: Option<Option<Vec<(String, Vec<String>)>>>)
    ensures
        match v {
            Some(x) => match r {
                Some(o) => decode_field_errors(Some(x@)) == Some(opt_errors(o)),
                None => decode_field_errors(Some(x@)) is None,
            },
            None => match r {
                Some(o) => decode_field_errors(None) == Some(opt_errors(o)),
                None => decode_field_errors(None) is None,
            },
        },
{
    match v {
        None => Some(None),
        Some(Json::Null) => Some(None),
        Some(Json::Object(entries)) => {
            proof {
                lemma_object_view(*entries);
            }
            let ghost ev = entries_view(entries@);
            let mut m: Vec<(String, Vec<String>)> = Vec::new();
            let n = entries.len();
            assert(errors_view(m@) =~= Seq::<(Seq<char>, Seq<Seq<char>>)>::empty());
            for i in 0..n
                invariant
                    n == entries@.len(),
                    ev == entries_view(entries@),
                    decode_error_entries(ev.take(i as int)) == Some(errors_view(m@)),
            {
                assert(ev.take(i + 1).drop_last() =~= ev.take(i as int));
                assert(ev.take(i + 1).last() == ev[i as int]);
                match &entries[i].1 {
                    Json::Array(items) => {
                        proof {
                            lemma_array_view(*items);
                        }
                        match decode_messages_exec(items) {
                            Some(ms) => {
                                insert_error(&mut m, owned(entries[i].0.as_str()), ms);
                            },
                            None => {
                                proof {
                                    lemma_entries_prefix_fails(ev, i + 1);
                                }
                                return None;
                            },
                        }
                    },
                    _ => {
                        proof {
                            lemma_entries_prefix_fails(ev, i + 1);
                        }
                        return None;
                    },
                }
            }
            assert(ev.take(n as int) =~= ev);
            Some(Some(m))
        },
        Some(_) => None,
    }
}

fn assemble_exec(
    v0: Option<&Json>,
    v1: Option<&Json>,
    v2: Option<&Json>,
    v3: Option<&Json>,
    v4: Option<&Json>,
    v5: Option<&Json>,
) -> (r: Option<AspNetError>)
    ensures
        ({
            let s = |o: Option<&Json>| match o { Some(x) => Some(x@), None => None::<JsonV> };
            match r {
                Some(e) => assemble(s(v0), s(v1), s(v2), s(v3), s(v4), s(v5)) == Some(e@),
                None => assemble(s(v0), s(v1), s(v2), s(v3), s(v4), s(v5)) is None,
            }
        }),
{
    let a = decode_text_exec(v0);
    let b = decode_text_exec(v1);
    let c = decode_text_exec(v2);
    let d = decode_text_exec(v3);
    let e = decode_text_exec(v4);
    let f = decode_field_errors_exec(v5);
    match (a, b, c, d, e, f) {
        (Some(a), Some(b), Some(c), Some(d), Some(e), Some(f)) => Some(AspNetError {
            details: a,
            title: b,
            correlation_id: c,
            error_code: d,
            exception_type: e,
            errors: f,
        }),
        _ => None,
    }
}

/// Decodes the error envelope out of a parsed response body.
pub fn decode_aspnet_error(doc: &Json) -> (r: Option<AspNetError>)
    ensures
        match r {
            Some(e) => decode_aspnet(doc@) == Some(e@),
            None => decode_aspnet(doc@) is None,
        },
{
    match doc {
        Json::Object(entries) => {
            proof {
                lemma_object_view(*entries);
            }
            let ghost es = entries_view(entries@);
            let (d0, v0) = find_field(entries, 0);
            let (d1, v1) = find_field(entries, 1);
            let (d2, v2) = find_field(entries, 2);
            let (d3, v3) = find_field(entries, 3);
            let (d4, v4) = find_field(entries, 4);
            let (d5, v5) = find_field(entries, 5);
            if d0 || d1 || d2 || d3 || d4 || d5 {
                return None;
            }
            assert(!exists|f: int| 0 <= f < 6 && field_count(es, f) > 1);
            assemble_exec(v0, v1, v2, v3, v4, v5)
        },
        Json::Array(items) => {
            proof {
                lemma_array_view(*items);
            }
            if items.len() == 6 {
                assemble_exec(Some(&items[0]), Some(&items[1]), Some(&items[2]), Some(&items[3]), Some(&items[4]), Some(&items[5]))
            } else {
                None
            }
        },
        _ => None,
    }
}

} // verus!

verus! {

// ── Message ───────────────────────────────────────────────────────────────

/// The readable part of one field's errors: `"field: msg; msg2"` (the field
/// named once, before all its messages), or just the messages for the
/// form-level (empty) field name; nothing when the field has no message.
pub open spec fn field_parts(field: Seq<char>, msgs: Seq<Seq<char>>) -> Seq<Seq<char>> {
    if msgs.len() == 0 {
        Seq::empty()
    } else if field.len() == 0 {
        seq![join(msgs, "; "@)]
    } else {
        seq![field + ": "@ + join(msgs, "; "@)]
    }
}

/// All readable lines, field by field in map order.
pub open spec fn flat_parts(m: FieldErrorsV) -> Seq<Seq<char>>
    decreases m.len(),
{
    if m.len() == 0 {
        Seq::empty()
    } else {
        flat_parts(m.drop_last()) + field_parts(m.last().0, m.last().1)
    }
}

/// The flattened field errors: `"field: msg; msg2"`, or nothing when there
/// are no messages at all.
pub open spec fn flattened(errors: Option<FieldErrorsV>) -> Option<Seq<char>> {
    match errors {
        None => None,
        Some(m) => if flat_parts(m).len() == 0 {
            None
        } else {
            Some(join(flat_parts(m), "; "@))
        },
    }
}

pub open spec fn non_empty(o: Option<Seq<char>>) -> Option<Seq<char>> {
    match o {
        Some(s) => if s.len() > 0 { Some(s) } else { None },
        None => None,
    }
}

/// Title and details combined; the raw body when both are missing.
pub open spec fn core_message(e: AspNetV, body: Seq<char>) -> Seq<char> {
    match (non_empty(e.title), non_empty(e.details)) {
        (Some(t), Some(d)) => t + ": "@ + d,
        (Some(t), None) => t,
        (None, Some(d)) => d,
        (None, None) => body,
    }
}

/// The full message: core, then the exception type in brackets, then the
/// field errors.
pub open spec fn aspnet_message(e: AspNetV, body: Seq<char>) -> Seq<char> {
    let core = core_message(e, body);
    let with_type = match non_empty(e.exception_type) {
        Some(et) => core + " ["@ + et + "]"@,
        None => core,
    };
    match flattened(e.errors) {
        Some(fields) => with_type + ": "@ + fields,
        None => with_type,
    }
}

/// The error for a failed response: the envelope's message and correlation
/// id when the body decodes, else the raw body.
pub open spec fn error_for(status: u16, body: Seq<char>, decoded: Option<AspNetV>) -> (u16, Option<Seq<char>>, Seq<char>) {
    match decoded {
        Some(e) => (status, e.correlation_id, aspnet_message(e, body)),
        None => (status, None, body),
    }
}

/// The parts of an `Api` error.
pub open spec fn api_parts(e: ApiError) -> Option<(u16, Option<Seq<char>>, Seq<char>)> {
    match e {
        ApiError::Api { status, correlation_id, message } => Some((status, opt_text(correlation_id), message@)),
        _ => None,
    }
}

fn field_lines(field: &String, msgs: &Vec<String>, parts: &mut Vec<String>)
    ensures
        texts(final(parts)@) == texts(old(parts)@) + field_parts(field@, texts(msgs@)),
{
    let ghost start = texts(parts@);
    if msgs.len() == 0 {
        assert(texts(parts@) =~= start + Seq::<Seq<char>>::empty());
        return;
    }
    let joined = join_strings(msgs, "; ");
    let line = if field.as_str().unicode_len() == 0 {
        joined
    } else {
        let mut l = owned(field.as_str());
        l.append(": ");
        l.append(joined.as_str());
        l
    };
    parts.push(line);
    assert(texts(parts@) =~= start + field_parts(field@, texts(msgs@)));
}

impl AspNetError {
    /// Flattens the field-error map into `"field: msg; msg2"`, fields in key
    /// order and each named once; form-level messages (empty field name)
    /// carry no prefix.
    pub fn flatten_errors(&self) -> (r: Option<String>)
        ensures
            opt_text(r) == flattened(self@.errors),
    {
        match &self.errors {
            None => None,
            Some(m) => {
                let ghost mv = errors_view(m@);
                let mut parts: Vec<String> = Vec::new();
                let n = m.len();
                assert(texts(parts@) =~= flat_parts(mv.take(0)));
                for i in 0..n
                    invariant
                        n == m@.len(),
                        mv == errors_view(m@),
                        texts(parts@) == flat_parts(mv.take(i as int)),
                {
                    assert(mv.take(i + 1).drop_last() =~= mv.take(i as int));
                    assert(mv.take(i + 1).last() == mv[i as int]);
                    field_lines(&m[i].0, &m[i].1, &mut parts);
                }
                assert(mv.take(n as int) =~= mv);
                if parts.len() == 0 {
                    None
                } else {
                    Some(join_strings(&parts, "; "))
                }
            },
        }
    }
}

fn non_empty_exec(o: &Option<String>) -> (r: Option<&str>)
    ensures
        match r {
            Some(s) => non_empty(opt_text(*o)) == Some(s@),
            None => non_empty(opt_text(*o)) is None,
        },
{
    match o {
        Some(s) => if s.as_str().unicode_len() > 0 {
            Some(s.as_str())
        } else {
            None
        },
        None => None,
    }
}

fn clone_opt(o: &Option<String>) -> (r: Option<String>)
    ensures
        opt_text(r) == opt_text(*o),
{
    match o {
        Some(s) => Some(owned(s.as_str())),
        None => None,
    }
}

/// The error for a failed response whose body has already been parsed
/// (`parsed` is what the JSON parser made of `body`).
pub fn from_aspnet_parsed(status: u16, body: &str, parsed: Option<Json>) -> (r: ApiError)
    ensures
        api_parts(r) == Some(error_for(
            status,
            body@,
            match parsed {
                Some(doc) => decode_aspnet(doc@),
                None => None,
            },
        )),
{
    let decoded = match &parsed {
        Some(doc) => decode_aspnet_error(doc),
        None => None,
    };
    match decoded {
        Some(e) => {
            let mut message = match (non_empty_exec(&e.title), non_empty_exec(&e.details)) {
                (Some(t), Some(d)) => {
                    let mut m = owned(t);
                    m.append(": ");
                    m.append(d);
                    m
                },
                (Some(t), None) => owned(t),
                (None, Some(d)) => owned(d),
                (None, None) => owned(body),
            };
            match non_empty_exec(&e.exception_type) {
                Some(et) => {
                    message.append(" [");
                    message.append(et);
                    message.append("]");
                },
                None => {},
            }
            match e.flatten_errors() {
                Some(fields) => {
                    message.append(": ");
                    message.append(fields.as_str());
                },
                None => {},
            }
            ApiError::Api { status, correlation_id: clone_opt(&e.correlation_id), message }
        },
        None => ApiError::Api { status, correlation_id: None, message: owned(body) },
    }
}

/// The error for a failed response: the body is parsed as JSON and decoded
/// as the ASP.NET envelope when it can be.
pub fn from_aspnet(status: u16, body: &str) -> (r: ApiError)
    ensures
        api_parts(r) == Some(error_for(
            status,
            body@,
            match parsed_json(body@) {
                Some(doc) => decode_aspnet(doc),
                None => None,
            },
        )),
{
    let parsed = match parse_json(body) {
        Ok(doc) => Some(doc),
        Err(_) => None,
    };
    from_aspnet_parsed(status, body, parsed)
}

} // verus!
