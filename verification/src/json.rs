//! JSON documents: the value type the library reads and builds, its
//! mathematical view, and parsing and printing through `serde_json`.

use vstd::prelude::*;

use crate::text::{chars_of, same_text, owned};

verus! {

/// A JSON document as the library reads and builds it. Numbers keep the
/// exact text of their literal, so decimal amounts travel without rounding.
#[derive(Debug, PartialEq, Eq)]
pub enum Json {
    Null,
    Bool(bool),
    Number(String),
    Str(String),
    Array(Vec<Json>),
    Object(Vec<(String, Json)>),
}

/// The mathematical value of a JSON document.
pub enum JsonV {
    Null,
    Bool(bool),
    Number(Seq<char>),
    Str(Seq<char>),
    Array(Seq<JsonV>),
    Object(Seq<(Seq<char>, JsonV)>),
}

pub open spec fn json_view(j: Json) -> JsonV
    decreases j,
{
    match j {
        Json::Null => JsonV::Null,
        Json::Bool(b) => JsonV::Bool(b),
        Json::Number(n) => JsonV::Number(n@),
        Json::Str(s) => JsonV::Str(s@),
        Json::Array(items) => JsonV::Array(
            Seq::new(
                items@.len(),
                |i: int|
                    if 0 <= i < items@.len() {
                        json_view(items@[i])
                    } else {
                        JsonV::Null
                    },
            ),
        ),
        Json::Object(entries) => JsonV::Object(
            Seq::new(
                entries@.len(),
                |i: int|
                    if 0 <= i < entries@.len() {
                        (entries@[i].0@, json_view(entries@[i].1))
                    } else {
                        (Seq::empty(), JsonV::Null)
                    },
            ),
        ),
    }
}

impl View for Json {
    type V = JsonV;

    open spec fn view(&self) -> JsonV {
        json_view(*self)
    }
}

/// The views of a sequence of documents.
pub open spec fn items_view(items: Seq<Json>) -> Seq<JsonV> {
    Seq::new(items.len(), |i: int| json_view(items[i]))
}

/// The views of a sequence of object entries.
pub open spec fn entries_view(entries: Seq<(String, Json)>) -> Seq<(Seq<char>, JsonV)> {
    Seq::new(entries.len(), |i: int| (entries[i].0@, json_view(entries[i].1)))
}

pub proof fn lemma_array_view(items: Vec<Json>)
    ensures
        json_view(Json::Array(items)) == JsonV::Array(items_view(items@)),
{
    let j = json_view(Json::Array(items));
    let s = j->Array_0;
    assert(s.len() == items@.len());
    assert(s =~= items_view(items@));
}

pub proof fn lemma_object_view(entries: Vec<(String, Json)>)
    ensures
        json_view(Json::Object(entries)) == JsonV::Object(entries_view(entries@)),
{
    let j = json_view(Json::Object(entries));
    let s = j->Object_0;
    assert(s.len() == entries@.len());
    assert(s =~= entries_view(entries@));
}

/// The value stored under the first entry with the given key.
pub open spec fn lookup(entries: Seq<(Seq<char>, JsonV)>, key: Seq<char>) -> Option<JsonV>
    decreases entries.len(),
{
    if entries.len() == 0 {
        None
    } else if entries[0].0 == key {
        Some(entries[0].1)
    } else {
        lookup(entries.drop_first(), key)
    }
}

/// Looking a key up in two runs of entries: the first run decides when it
/// holds the key, else the second.
pub broadcast proof fn lemma_lookup_concat(a: Seq<(Seq<char>, JsonV)>, b: Seq<(Seq<char>, JsonV)>, key: Seq<char>)
    ensures
        #[trigger] lookup(a + b, key) == (match lookup(a, key) {
            Some(v) => Some(v),
            None => lookup(b, key),
        }),
    decreases a.len(),
{
    if a.len() == 0 {
        assert(a + b =~= b);
    } else {
        assert((a + b)[0] == a[0]);
        if a[0].0 != key {
            assert((a + b).drop_first() =~= a.drop_first() + b);
            lemma_lookup_concat(a.drop_first(), b, key);
        }
    }
}

/// Looking a key up in a single entry.
pub broadcast proof fn lemma_lookup_single(k: Seq<char>, v: JsonV, key: Seq<char>)
    ensures
        #[trigger] lookup(seq![(k, v)], key) == (if k == key { Some(v) } else { None }),
{
    let e = seq![(k, v)];
    assert(e[0] == (k, v));
    assert(e.drop_first() =~= Seq::<(Seq<char>, JsonV)>::empty());
    assert(lookup(e.drop_first(), key) is None);
}

/// Nothing is found in no entries.
pub broadcast proof fn lemma_lookup_empty(key: Seq<char>)
    ensures
        #[trigger] lookup(Seq::<(Seq<char>, JsonV)>::empty(), key) is None,
{
}

/// An optional entry holds its key's value exactly when it is present.
pub broadcast proof fn lemma_lookup_opt_entry(k: Seq<char>, v: Option<JsonV>, key: Seq<char>)
    ensures
        #[trigger] lookup(opt_entry(k, v), key) == (if k == key { v } else { None }),
{
    match v {
        Some(x) => lemma_lookup_single(k, x, key),
        None => lemma_lookup_empty(key),
    }
}

pub broadcast group group_lookup {
    lemma_lookup_concat,
    lemma_lookup_single,
    lemma_lookup_empty,
    lemma_lookup_opt_entry,
}

/// The index of the first entry with the given key.
pub open spec fn lookup_index(entries: Seq<(Seq<char>, JsonV)>, key: Seq<char>) -> int
    decreases entries.len(),
{
    if entries.len() == 0 {
        -1
    } else if entries[0].0 == key {
        0
    } else {
        let k = lookup_index(entries.drop_first(), key);
        if k < 0 { -1 } else { k + 1 }
    }
}

pub proof fn lemma_lookup_index(entries: Seq<(Seq<char>, JsonV)>, key: Seq<char>)
    ensures
        -1 <= lookup_index(entries, key) < entries.len(),
        lookup_index(entries, key) >= 0 ==> lookup(entries, key) == Some(
            entries[lookup_index(entries, key)].1,
        ) && entries[lookup_index(entries, key)].0 == key && forall|j: int|
            0 <= j < lookup_index(entries, key) ==> entries[j].0 != key,
        lookup_index(entries, key) < 0 ==> lookup(entries, key) is None && forall|j: int|
            0 <= j < entries.len() ==> entries[j].0 != key,
    decreases entries.len(),
{
    if entries.len() > 0 && entries[0].0 != key {
        lemma_lookup_index(entries.drop_first(), key);
        assert forall|j: int| 1 <= j < entries.len() implies entries[j] == entries.drop_first()[j - 1] by {}
    }
}

impl JsonV {
    /// `v[key]` on an object; nothing on any other value.
    pub open spec fn get(self, key: Seq<char>) -> Option<JsonV> {
        match self {
            JsonV::Object(entries) => lookup(entries, key),
            _ => None,
        }
    }

    pub open spec fn as_str(self) -> Option<Seq<char>> {
        match self {
            JsonV::Str(s) => Some(s),
            _ => None,
        }
    }

    pub open spec fn as_bool(self) -> Option<bool> {
        match self {
            JsonV::Bool(b) => Some(b),
            _ => None,
        }
    }

    pub open spec fn as_array(self) -> Option<Seq<JsonV>> {
        match self {
            JsonV::Array(items) => Some(items),
            _ => None,
        }
    }

    /// The text of a string value found under `key`.
    pub open spec fn str_at(self, key: Seq<char>) -> Option<Seq<char>> {
        match self.get(key) {
            Some(v) => v.as_str(),
            None => None,
        }
    }

    /// The boolean found under `key`.
    pub open spec fn bool_at(self, key: Seq<char>) -> Option<bool> {
        match self.get(key) {
            Some(v) => v.as_bool(),
            None => None,
        }
    }

    /// `as_u64` of a number: its literal read as a `u64` (the literal is kept
    /// as text, so this is `u64::from_str` on it).
    pub open spec fn as_u64(self) -> Option<nat> {
        match self {
            JsonV::Number(lit) => crate::text::parse_unsigned(lit, 0xFFFF_FFFF_FFFF_FFFF),
            _ => None,
        }
    }

    /// `as_i64` of a number: its literal read as an `i64`.
    pub open spec fn as_i64(self) -> Option<int> {
        match self {
            JsonV::Number(lit) => crate::text::parse_signed(lit),
            _ => None,
        }
    }

    /// The unsigned integer found under `key`.
    pub open spec fn u64_at(self, key: Seq<char>) -> Option<nat> {
        match self.get(key) {
            Some(v) => v.as_u64(),
            None => None,
        }
    }

    /// The array found under `key`.
    pub open spec fn array_at(self, key: Seq<char>) -> Option<Seq<JsonV>> {
        match self.get(key) {
            Some(v) => v.as_array(),
            None => None,
        }
    }
}

/// Builds an object from its entries.
pub open spec fn obj(entries: Seq<(Seq<char>, JsonV)>) -> JsonV {
    JsonV::Object(entries)
}

impl Json {
    /// `v.get(key)`: the value under `key` when `self` is an object.
    #[verifier::loop_isolation(false)]
    pub fn get(&self, key: &str) -> (r: Option<&Json>)
        ensures
            r matches Some(x) ==> self@.get(key@) == Some(x@),
            r is None <==> self@.get(key@) is None,
    {
        match self {
            Json::Object(entries) => {
                proof {
                    lemma_object_view(*entries);
                    lemma_lookup_index(entries_view(entries@), key@);
                }
                let n = entries.len();
                for i in 0..n
                    invariant
                        n == entries@.len(),
                        forall|j: int| 0 <= j < i ==> entries@[j].0@ != key@,
                {
                    if same_text(entries[i].0.as_str(), key) {
                        proof {
                            let ev = entries_view(entries@);
                            let k = lookup_index(ev, key@);
                            assert(ev[i as int].0 == key@);
                            if k < 0 {
                                assert(ev[i as int].0 != key@);
                            }
                            assert(k <= i);
                            if k < i {
                                assert(ev[k].0 == entries@[k].0@);
                            }
                        }
                        return Some(&entries[i].1);
                    }
                }
                proof {
                    let ev = entries_view(entries@);
                    let k = lookup_index(ev, key@);
                    if k >= 0 {
                        assert(ev[k].0 == entries@[k].0@);
                    }
                }
                None
            },
            _ => None,
        }
    }

    pub fn as_str(&self) -> (r: Option<&str>)
        ensures
            r matches Some(s) ==> self@.as_str() == Some(s@),
            r is None <==> self@.as_str() is None,
    {
        match self {
            Json::Str(s) => Some(s.as_str()),
            _ => None,
        }
    }

    pub fn as_bool(&self) -> (r: Option<bool>)
        ensures
            r == self@.as_bool(),
    {
        match self {
            Json::Bool(b) => Some(*b),
            _ => None,
        }
    }

    pub fn as_array(&self) -> (r: Option<&Vec<Json>>)
        ensures
            r matches Some(v) ==> self@.as_array() == Some(items_view(v@)),
            r is None <==> self@.as_array() is None,
    {
        match self {
            Json::Array(items) => {
                proof {
                    lemma_array_view(*items);
                }
                Some(items)
            },
            _ => None,
        }
    }

    /// A number read as a `u64`, when its literal is one.
    pub fn as_u64(&self) -> (r: Option<u64>)
        ensures
            r matches Some(n) ==> self@.as_u64() == Some(n as nat),
            r is None <==> self@.as_u64() is None,
    {
        match self {
            Json::Number(lit) => crate::text::parse_unsigned_chars(&crate::text::chars_of(lit.as_str()), 0xFFFF_FFFF_FFFF_FFFF),
            _ => None,
        }
    }

    /// A number read as an `i64`, when its literal is one.
    pub fn as_i64(&self) -> (r: Option<i64>)
        ensures
            match r {
                Some(n) => self@.as_i64() == Some(n as int),
                None => self@.as_i64() is None,
            },
    {
        match self {
            Json::Number(lit) => crate::text::parse_signed_chars(&crate::text::chars_of(lit.as_str())),
            _ => None,
        }
    }

    /// The unsigned integer found under `key`, if any.
    pub fn u64_at(&self, key: &str) -> (r: Option<u64>)
        ensures
            r matches Some(n) ==> self@.u64_at(key@) == Some(n as nat),
            r is None <==> self@.u64_at(key@) is None,
    {
        match self.get(key) {
            Some(v) => v.as_u64(),
            None => None,
        }
    }

    pub fn is_null(&self) -> (r: bool)
        ensures
            r == (self@ is Null),
    {
        match self {
            Json::Null => true,
            _ => false,
        }
    }

    /// The text of the string found under `key`, if any.
    pub fn str_at(&self, key: &str) -> (r: Option<&str>)
        ensures
            r matches Some(s) ==> self@.str_at(key@) == Some(s@),
            r is None <==> self@.str_at(key@) is None,
    {
        match self.get(key) {
            Some(v) => v.as_str(),
            None => None,
        }
    }

    /// The boolean found under `key`, if any.
    pub fn bool_at(&self, key: &str) -> (r: Option<bool>)
        ensures
            r == self@.bool_at(key@),
    {
        match self.get(key) {
            Some(v) => v.as_bool(),
            None => None,
        }
    }

    /// The array found under `key`, if any.
    pub fn array_at(&self, key: &str) -> (r: Option<&Vec<Json>>)
        ensures
            r matches Some(v) ==> self@.array_at(key@) == Some(items_view(v@)),
            r is None <==> self@.array_at(key@) is None,
    {
        match self.get(key) {
            Some(v) => v.as_array(),
            None => None,
        }
    }

    /// A string value.
    pub fn text(s: &str) -> (r: Json)
        ensures
            r@ == JsonV::Str(s@),
    {
        Json::Str(owned(s))
    }

    /// A copy of this document.
    #[verifier::loop_isolation(false)]
    pub fn deep_clone(&self) -> (r: Json)
        ensures
            r@ == self@,
        decreases self,
    {
        match self {
            Json::Null => Json::Null,
            Json::Bool(b) => Json::Bool(*b),
            Json::Number(n) => Json::Number(owned(n.as_str())),
            Json::Str(s) => Json::Str(owned(s.as_str())),
            Json::Array(items) => {
                let mut out: Vec<Json> = Vec::new();
                let n = items.len();
                for i in 0..n
                    invariant
                        n == items@.len(),
                        out@.len() == i,
                        forall|j: int| 0 <= j < i ==> json_view(out@[j]) == json_view(items@[j]),
                {
                    proof {
                        assert(decreases_to!(*self => self->Array_0));
                        assert(decreases_to!(*items => items[i as int]));
                    }
                    out.push(items[i].deep_clone());
                }
                proof {
                    lemma_array_view(*items);
                    lemma_array_view(out);
                    assert(items_view(out@) =~= items_view(items@));
                }
                Json::Array(out)
            },
            Json::Object(entries) => {
                let mut out: Vec<(String, Json)> = Vec::new();
                let n = entries.len();
                for i in 0..n
                    invariant
                        n == entries@.len(),
                        out@.len() == i,
                        forall|j: int|
                            0 <= j < i ==> out@[j].0@ == entries@[j].0@ && json_view(out@[j].1)
                                == json_view(entries@[j].1),
                {
                    let k = owned(entries[i].0.as_str());
                    proof {
                        assert(decreases_to!(*self => self->Object_0));
                        assert(decreases_to!(*entries => entries[i as int]));
                        assert(decreases_to!(entries[i as int] => entries[i as int].1));
                    }
                    let v = entries[i].1.deep_clone();
                    out.push((k, v));
                }
                proof {
                    lemma_object_view(*entries);
                    lemma_object_view(out);
                    assert(entries_view(out@) =~= entries_view(entries@));
                }
                Json::Object(out)
            },
        }
    }
}

/// Copies of a list of documents.
pub fn clone_items(items: &Vec<Json>) -> (r: Vec<Json>)
    ensures
        items_view(r@) == items_view(items@),
{
    let mut out: Vec<Json> = Vec::new();
    let n = items.len();
    for i in 0..n
        invariant
            n == items@.len(),
            out@.len() == i,
            forall|j: int| 0 <= j < i ==> json_view(out@[j]) == json_view(items@[j]),
    {
        out.push(items[i].deep_clone());
    }
    assert(items_view(out@) =~= items_view(items@));
    out
}

/// An object entry.
pub fn entry(key: &str, value: Json) -> (r: (String, Json))
    ensures
        r.0@ == key@,
        r.1 == value,
{
    (owned(key), value)
}

} // verus!

verus! {

#[verifier::external_type_specification]
#[verifier::external_body]
pub struct ExJsonValue(serde_json::Value);

/// What `serde_json::from_str::<serde_json::Value>` makes of a text: the
/// document it denotes, or nothing when the text is not JSON.
pub uninterp spec fn parsed_json(text: Seq<char>) -> Option<JsonV>;

/// What `serde_json::Value::to_string` prints for a document.
pub uninterp spec fn json_text(doc: JsonV) -> Seq<char>;

/// Converts a `serde_json::Value` into the library's document, one node for one.
#[verifier::external_body]
fn json_from_value(v: serde_json::Value) -> Json {
    match v {
        serde_json::Value::Null => Json::Null,
        serde_json::Value::Bool(b) => Json::Bool(b),
        serde_json::Value::Number(n) => Json::Number(n.to_string()),
        serde_json::Value::String(s) => Json::Str(s),
        serde_json::Value::Array(a) => Json::Array(a.into_iter().map(json_from_value).collect()),
        serde_json::Value::Object(m) => Json::Object(
            m.into_iter().map(|(k, x)| (k, json_from_value(x))).collect(),
        ),
    }
}

/// Converts the library's document into a `serde_json::Value`, one node for one.
#[verifier::external_body]
fn value_from_json(j: &Json) -> serde_json::Value {
    match j {
        Json::Null => serde_json::Value::Null,
        Json::Bool(b) => serde_json::Value::Bool(*b),
        Json::Number(n) => match serde_json::from_str::<serde_json::Number>(n) {
            Ok(num) => serde_json::Value::Number(num),
            Err(_) => serde_json::Value::String(n.clone()),
        },
        Json::Str(s) => serde_json::Value::String(s.clone()),
        Json::Array(a) => serde_json::Value::Array(a.iter().map(value_from_json).collect()),
        Json::Object(m) => serde_json::Value::Object(
            m.iter().map(|(k, x)| (k.clone(), value_from_json(x))).collect(),
        ),
    }
}

/// What `serde_json::Error`'s `Display` says of a text that
/// `serde_json::from_str::<serde_json::Value>` refuses.
pub uninterp spec fn json_error_text(text: Seq<char>) -> Seq<char>;

/// Parses a JSON text with `serde_json::from_str::<serde_json::Value>`.
/// Numbers keep their literal text. What the parser accepts is not restated
/// here; the result is named by `parsed_json`, and a refusal carries the
/// parser's message, named by `json_error_text`.
#[verifier::external_body]
pub fn parse_json(text: &str) -> (r: Result<Json, String>)
    ensures
        r matches Ok(j) ==> parsed_json(text@) == Some(j@),
        r is Err <==> parsed_json(text@) is None,
        r matches Err(m) ==> m@ == json_error_text(text@),
{
    match serde_json::from_str::<serde_json::Value>(text) {
        Ok(v) => Ok(json_from_value(v)),
        Err(e) => Err(e.to_string()),
    }
}

/// Prints a document compactly with `serde_json::Value::to_string`; the
/// text is named by `json_text`.
#[verifier::external_body]
pub fn to_json_text(doc: &Json) -> (r: String)
    ensures
        r@ == json_text(doc@),
{
    value_from_json(doc).to_string()
}

} // verus!

verus! {

/// The decimal text of an integer, with a minus sign when negative.
pub open spec fn int_text(v: int) -> Seq<char> {
    if v < 0 {
        "-"@ + crate::text::decimal((-v) as nat)
    } else {
        crate::text::decimal(v as nat)
    }
}

/// An integer in decimal, with a minus sign when negative.
pub fn int_string(v: i64) -> (r: String)
    ensures
        r@ == int_text(v as int),
{
    if v < 0 {
        let mut s = owned("-");
        let m: u64 = if v == i64::MIN { 0x8000_0000_0000_0000u64 } else { (-v) as u64 };
        crate::text::append_decimal(&mut s, m);
        s
    } else {
        crate::text::decimal_string(v as u64)
    }
}

/// An integer as a JSON number.
pub fn int_number(v: i64) -> (r: Json)
    ensures
        r@ == JsonV::Number(int_text(v as int)),
{
    Json::Number(int_string(v))
}

/// A one-entry sequence when the value is present, else nothing.
pub open spec fn opt_entry(key: Seq<char>, v: Option<JsonV>) -> Seq<(Seq<char>, JsonV)> {
    match v {
        Some(x) => seq![(key, x)],
        None => Seq::empty(),
    }
}

/// An optional string as an optional JSON string.
pub open spec fn opt_str(v: Option<String>) -> Option<JsonV> {
    match v {
        Some(s) => Some(JsonV::Str(s@)),
        None => None,
    }
}

/// Appends an entry to an object under construction.
pub fn push_entry(out: &mut Vec<(String, Json)>, key: &str, value: Json)
    ensures
        entries_view(final(out)@) == entries_view(old(out)@).push((key@, value@)),
{
    let ghost before = out@;
    out.push((owned(key), value));
    assert(entries_view(out@) =~= entries_view(before).push((key@, value@)));
}

/// Appends a string entry when the value is present.
pub fn push_opt_text(out: &mut Vec<(String, Json)>, key: &str, value: &Option<String>)
    ensures
        entries_view(final(out)@) == entries_view(old(out)@) + opt_entry(key@, opt_str(*value)),
{
    match value {
        Some(v) => {
            push_entry(out, key, Json::text(v.as_str()));
        },
        None => {
            assert(entries_view(out@) =~= entries_view(out@) + Seq::<(Seq<char>, JsonV)>::empty());
        },
    }
}

/// An optional borrowed string as an optional JSON string.
pub open spec fn opt_text(v: Option<&str>) -> Option<JsonV> {
    match v {
        Some(s) => Some(JsonV::Str(s@)),
        None => None,
    }
}

/// Appends a string entry when the borrowed value is present.
pub fn push_opt_str(out: &mut Vec<(String, Json)>, key: &str, value: Option<&str>)
    ensures
        entries_view(final(out)@) == entries_view(old(out)@) + opt_entry(key@, opt_text(value)),
{
    match value {
        Some(v) => {
            push_entry(out, key, Json::text(v));
        },
        None => {
            assert(entries_view(out@) =~= entries_view(out@) + Seq::<(Seq<char>, JsonV)>::empty());
        },
    }
}

/// Finishes an object.
pub fn object(entries: Vec<(String, Json)>) -> (r: Json)
    ensures
        r@ == JsonV::Object(entries_view(entries@)),
{
    proof {
        lemma_object_view(entries);
    }
    Json::Object(entries)
}

} // verus!
