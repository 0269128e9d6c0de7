//! Table mode: fixed-width columns separated by two spaces under a header and
//! a rule of dashes, key-value cards, and the defensive reading of list
//! responses that feed them.

use vstd::prelude::*;

use crate::json::{Json, JsonV, items_view, clone_items};
use crate::output::{fit, fitted, lemma_fit_width};
use crate::text::{join, join_strings, texts, owned, push_char, chars_of, string_of};
use vstd::utf8::{encode_utf8, decode_utf8, is_char_boundary};
use vstd::string::StringSliceAdditionalSpecFns;

verus! {

/// The widths of the columns as numbers.
pub open spec fn nats(ws: Seq<usize>) -> Seq<nat> {
    Seq::new(ws.len(), |i: int| ws[i] as nat)
}

/// Each cell fitted to its column.
pub open spec fn fitted_cells(cells: Seq<Seq<char>>, widths: Seq<nat>) -> Seq<Seq<char>> {
    Seq::new(cells.len(), |i: int| fitted(cells[i], widths[i]))
}

/// A row: the fitted cells, two spaces apart.
pub open spec fn row_text(cells: Seq<Seq<char>>, widths: Seq<nat>) -> Seq<char> {
    join(fitted_cells(cells, widths), "  "@)
}

/// The width of a whole row: the columns and the gaps between them.
pub open spec fn rule_width(widths: Seq<nat>) -> nat
    decreases widths.len(),
{
    if widths.len() == 0 {
        0
    } else if widths.len() == 1 {
        widths[0]
    } else {
        rule_width(widths.drop_last()) + 2 + widths.last()
    }
}

/// `n` dashes.
pub open spec fn dashes(n: nat) -> Seq<char> {
    Seq::new(n, |i: int| '-')
}

/// The lines of a table: the header, a rule as wide as a row, then one line
/// per row.
pub open spec fn table_lines(headers: Seq<Seq<char>>, widths: Seq<nat>, rows: Seq<Seq<Seq<char>>>) -> Seq<Seq<char>> {
    seq![row_text(headers, widths), dashes(rule_width(widths))] + Seq::new(rows.len(), |i: int| row_text(rows[i], widths))
}

/// A table as printed: its lines joined by newlines.
pub open spec fn table_text(headers: Seq<Seq<char>>, widths: Seq<nat>, rows: Seq<Seq<Seq<char>>>) -> Seq<char> {
    join(table_lines(headers, widths, rows), "\n"@)
}

/// The cells of each row as texts.
pub open spec fn rows_texts(rows: Seq<Vec<String>>) -> Seq<Seq<Seq<char>>> {
    Seq::new(rows.len(), |i: int| texts(rows[i]@))
}

/// One row of a table.
pub fn fit_row(cells: &Vec<String>, widths: &Vec<usize>) -> (r: String)
    requires
        cells@.len() == widths@.len(),
    ensures
        r@ == row_text(texts(cells@), nats(widths@)),
{
    let mut parts: Vec<String> = Vec::new();
    let n = cells.len();
    for i in 0..n
        invariant
            n == cells@.len(),
            n == widths@.len(),
            parts@.len() == i,
            forall|j: int| 0 <= j < i ==> #[trigger] parts@[j]@ == fitted(cells@[j]@, widths@[j] as nat),
    {
        parts.push(fit(cells[i].as_str(), widths[i]));
    }
    assert(texts(parts@) =~= fitted_cells(texts(cells@), nats(widths@)));
    join_strings(&parts, "  ")
}

/// A rule of `n` dashes.
pub fn dash_rule(n: usize) -> (r: String)
    ensures
        r@ == dashes(n as nat),
{
    let mut s = String::new();
    let mut k: usize = 0;
    while k < n
        invariant
            k <= n,
            s@ == dashes(k as nat),
        decreases n - k,
    {
        push_char(&mut s, '-');
        assert(dashes((k + 1) as nat) =~= dashes(k as nat).push('-'));
        k = k + 1;
    }
    s
}

/// Lays out a table; `rule` is the width of a row.
pub fn render_table(headers: &Vec<String>, widths: &Vec<usize>, rule: usize, rows: &Vec<Vec<String>>) -> (r: String)
    requires
        headers@.len() == widths@.len(),
        rule == rule_width(nats(widths@)),
        forall|i: int| 0 <= i < rows@.len() ==> (#[trigger] rows@[i])@.len() == widths@.len(),
    ensures
        r@ == table_text(texts(headers@), nats(widths@), rows_texts(rows@)),
{
    let mut lines: Vec<String> = Vec::new();
    lines.push(fit_row(headers, widths));
    lines.push(dash_rule(rule));
    let n = rows.len();
    for i in 0..n
        invariant
            n == rows@.len(),
            headers@.len() == widths@.len(),
            forall|k: int| 0 <= k < rows@.len() ==> (#[trigger] rows@[k])@.len() == widths@.len(),
            lines@.len() == i + 2,
            lines@[0]@ == row_text(texts(headers@), nats(widths@)),
            lines@[1]@ == dashes(rule as nat),
            forall|j: int| 0 <= j < i ==> #[trigger] lines@[j + 2]@ == row_text(texts(rows@[j]@), nats(widths@)),
    {
        let line = fit_row(&rows[i], widths);
        lines.push(line);
        assert(lines@[i + 2]@ == row_text(texts(rows@[i as int]@), nats(widths@)));
    }
    assert(texts(lines@) =~= table_lines(texts(headers@), nats(widths@), rows_texts(rows@))) by {
        assert forall|j: int| 2 <= j < lines@.len() implies texts(lines@)[j] == table_lines(
            texts(headers@),
            nats(widths@),
            rows_texts(rows@),
        )[j] by {
            assert(lines@[(j - 2) + 2]@ == row_text(texts(rows@[j - 2]@), nats(widths@)));
        }
    }
    join_strings(&lines, "\n")
}

/// A row is exactly as wide as the rule under the header: columns line up.
proof fn lemma_row_width(cells: Seq<Seq<char>>, widths: Seq<nat>)
    requires
        cells.len() == widths.len(),
        widths.len() > 0,
    ensures
        row_text(cells, widths).len() == rule_width(widths),
    decreases widths.len(),
{
    lemma_fit_width(cells.last(), widths.last());
    if widths.len() == 1 {
        lemma_fit_width(cells[0], widths[0]);
        assert(fitted_cells(cells, widths).len() == 1);
    } else {
        lemma_row_width(cells.drop_last(), widths.drop_last());
        assert(fitted_cells(cells, widths).drop_last() =~= fitted_cells(cells.drop_last(), widths.drop_last()));
        reveal_strlit("  ");
    }
}

/// Every line of a table (header, rule and rows) is as wide as the rule,
/// so the columns line up, whatever the cells hold.
pub proof fn lemma_table_aligned(headers: Seq<Seq<char>>, widths: Seq<nat>, rows: Seq<Seq<Seq<char>>>)
    requires
        widths.len() > 0,
        headers.len() == widths.len(),
        forall|i: int| 0 <= i < rows.len() ==> (#[trigger] rows[i]).len() == widths.len(),
    ensures
        forall|j: int| 0 <= j < table_lines(headers, widths, rows).len() ==>
            (#[trigger] table_lines(headers, widths, rows)[j]).len() == rule_width(widths),
{
    let lines = table_lines(headers, widths, rows);
    assert forall|j: int| 0 <= j < lines.len() implies (#[trigger] lines[j]).len() == rule_width(widths) by {
        if j == 0 {
            lemma_row_width(headers, widths);
        } else if j >= 2 {
            lemma_row_width(rows[j - 2], widths);
        }
    }
}

/// A card: each label followed by its value, one per line.
pub open spec fn card_text(labels: Seq<Seq<char>>, values: Seq<Seq<char>>) -> Seq<char> {
    join(Seq::new(labels.len(), |i: int| labels[i] + values[i]), "\n"@)
}

/// Lays out a card of labelled values.
pub fn render_card(labels: &Vec<&str>, values: &Vec<String>) -> (r: String)
    requires
        labels@.len() == values@.len(),
    ensures
        r@ == card_text(Seq::new(labels@.len(), |i: int| labels@[i]@), texts(values@)),
{
    let mut lines: Vec<String> = Vec::new();
    let n = labels.len();
    for i in 0..n
        invariant
            n == labels@.len(),
            n == values@.len(),
            lines@.len() == i,
            forall|j: int| 0 <= j < i ==> #[trigger] lines@[j]@ == labels@[j]@ + values@[j]@,
    {
        let mut line = owned(labels[i]);
        line.append(values[i].as_str());
        lines.push(line);
    }
    assert(texts(lines@) =~= Seq::new(
        labels@.len(),
        |i: int| Seq::new(labels@.len(), |k: int| labels@[k]@)[i] + texts(values@)[i],
    ));
    join_strings(&lines, "\n")
}

/// The dash shown for a missing value.
pub open spec fn dash() -> Seq<char> {
    "\u{2014}"@
}

/// A found text, or the dash.
pub open spec fn or_dash(o: Option<Seq<char>>) -> Seq<char> {
    match o {
        Some(s) => s,
        None => dash(),
    }
}

/// The string under `key`, or the dash.
pub fn str_or_dash(v: &Json, key: &str) -> (r: String)
    ensures
        r@ == or_dash(v@.str_at(key@)),
{
    match v.str_at(key) {
        Some(s) => owned(s),
        None => owned("\u{2014}"),
    }
}

/// The text under the first of `keys` that is present, or the dash when
/// that value is not a string or no key is present.
pub open spec fn first_present(v: JsonV, keys: Seq<Seq<char>>) -> Seq<char>
    decreases keys.len(),
{
    if keys.len() == 0 {
        dash()
    } else {
        match v.get(keys[0]) {
            Some(x) => or_dash(x.as_str()),
            None => first_present(v, keys.drop_first()),
        }
    }
}

/// The text under the first of `keys` that is present (`a.or_else(b)...`).
pub fn first_present_text(v: &Json, keys: &Vec<&str>) -> (r: String)
    ensures
        r@ == first_present(v@, Seq::new(keys@.len(), |i: int| keys@[i]@)),
{
    let ghost ks = Seq::new(keys@.len(), |i: int| keys@[i]@);
    let n = keys.len();
    let mut i: usize = 0;
    assert(ks.skip(0) =~= ks);
    while i < n
        invariant
            i <= n,
            n == keys@.len(),
            ks == Seq::new(keys@.len(), |i: int| keys@[i]@),
            first_present(v@, ks) == first_present(v@, ks.skip(i as int)),
        decreases n - i,
    {
        assert(ks.skip(i as int)[0] == keys@[i as int]@);
        match v.get(keys[i]) {
            Some(x) => {
                return match x.as_str() {
                    Some(s) => owned(s),
                    None => owned("\u{2014}"),
                };
            },
            None => {
                assert(ks.skip(i as int).drop_first() =~= ks.skip(i + 1));
            },
        }
        i = i + 1;
    }
    assert(ks.skip(n as int).len() == 0);
    owned("\u{2014}")
}

/// An optional boolean as `yes`/`no`, or the dash.
pub open spec fn yes_no(b: Option<bool>) -> Seq<char> {
    match b {
        Some(true) => "yes"@,
        Some(false) => "no"@,
        None => dash(),
    }
}

/// An optional boolean as `true`/`false`, or the dash.
pub open spec fn true_false(b: Option<bool>) -> Seq<char> {
    match b {
        Some(true) => "true"@,
        Some(false) => "false"@,
        None => dash(),
    }
}

/// The boolean under `key` as `yes`/`no`, or the dash.
pub fn yes_no_at(v: &Json, key: &str) -> (r: String)
    ensures
        r@ == yes_no(v@.bool_at(key@)),
{
    match v.bool_at(key) {
        Some(true) => owned("yes"),
        Some(false) => owned("no"),
        None => owned("\u{2014}"),
    }
}

/// The boolean under `key` as `true`/`false`, or the dash.
pub fn true_false_at(v: &Json, key: &str) -> (r: String)
    ensures
        r@ == true_false(v@.bool_at(key@)),
{
    match v.bool_at(key) {
        Some(true) => owned("true"),
        Some(false) => owned("false"),
        None => owned("\u{2014}"),
    }
}

/// An optional count in decimal, or the dash.
pub open spec fn count_or_dash(n: Option<nat>) -> Seq<char> {
    match n {
        Some(n) => crate::text::decimal(n),
        None => dash(),
    }
}

/// The unsigned integer under `key` in decimal, or the dash.
pub fn count_at(v: &Json, key: &str) -> (r: String)
    ensures
        r@ == count_or_dash(v@.u64_at(key@)),
{
    match v.u64_at(key) {
        Some(n) => crate::text::decimal_string(n),
        None => owned("\u{2014}"),
    }
}

/// Whether a date text can be cut after its first ten bytes: its length in
/// bytes is a `usize`, and a text that long has no character straddling the
/// cut (shorter texts are kept whole).
pub open spec fn cut_ok(s: Seq<char>) -> bool {
    &&& encode_utf8(s).len() <= usize::MAX
    &&& encode_utf8(s).len() >= 10 ==> is_char_boundary(encode_utf8(s), 10)
}

/// The date part of a timestamp: its first ten bytes when it has that many,
/// else the whole text.
pub open spec fn date_part(s: Seq<char>) -> Seq<char> {
    if encode_utf8(s).len() >= 10 {
        decode_utf8(encode_utf8(s).take(10))
    } else {
        s
    }
}

/// `&s[..10]` when the text is at least ten bytes long, else the text.
pub fn date_prefix(s: &str) -> (r: &str)
    requires
        cut_ok(s@),
    ensures
        r@ == date_part(s@),
{
    if s.len() >= 10 {
        let parts = s.split_at(10);
        let head = parts.0;
        proof {
            assert(head.spec_bytes() =~= s.spec_bytes().subrange(0, 10));
            assert(encode_utf8(head@) =~= encode_utf8(s@).take(10));
            vstd::utf8::encode_utf8_decode_utf8(head@);
            assert(decode_utf8(encode_utf8(s@).take(10)) == head@);
        }
        head
    } else {
        s
    }
}

/// The first `n` characters of a text (all of it when shorter).
pub open spec fn first_chars(s: Seq<char>, n: nat) -> Seq<char> {
    if s.len() <= n {
        s
    } else {
        s.take(n as int)
    }
}

/// The first `n` characters of a text, never splitting a character.
pub fn prefix_chars(s: &str, n: usize) -> (r: String)
    ensures
        r@ == first_chars(s@, n as nat),
{
    let cs = chars_of(s);
    if cs.len() <= n {
        return owned(s);
    }
    let mut kept: Vec<char> = Vec::new();
    let mut i: usize = 0;
    while i < n
        invariant
            i <= n,
            n < cs@.len(),
            cs@ == s@,
            kept@ == cs@.take(i as int),
        decreases n - i,
    {
        kept.push(cs[i]);
        assert(cs@.take(i + 1) =~= cs@.take(i as int).push(cs@[i as int]));
        i = i + 1;
    }
    string_of(&kept)
}

/// A date column: the date part of the timestamp, or the dash.
pub open spec fn date_or_dash(v: JsonV, key: Seq<char>) -> Seq<char> {
    match v.str_at(key) {
        Some(s) => date_part(s),
        None => dash(),
    }
}

/// Whether every item's date under `key`, when present, can be cut.
pub open spec fn dates_cut_ok(items: Seq<JsonV>, key: Seq<char>) -> bool {
    forall|i: int| 0 <= i < items.len() ==> ((#[trigger] items[i]).str_at(key) matches Some(s) ==> cut_ok(s))
}

/// The date column of an item.
pub fn date_cell(v: &Json, key: &str) -> (r: String)
    requires
        v@.str_at(key@) matches Some(s) ==> cut_ok(s),
    ensures
        r@ == date_or_dash(v@, key@),
{
    match v.str_at(key) {
        Some(s) => owned(date_prefix(s)),
        None => owned("\u{2014}"),
    }
}

/// The items and total of a page response, read defensively: `{items,
/// total}` (a missing or non-array `items` reads as empty, a missing
/// `total` as 0); else a bare array, whose length is the total; else nothing.
pub open spec fn page_of(v: JsonV) -> (Seq<JsonV>, nat) {
    match v.get("items"@) {
        Some(iv) => (
            match iv.as_array() {
                Some(a) => a,
                None => Seq::empty(),
            },
            match v.u64_at("total"@) {
                Some(t) => t,
                None => 0,
            },
        ),
        None => match v.as_array() {
            Some(a) => (a, a.len()),
            None => (Seq::empty(), 0),
        },
    }
}

/// Reads the items and the total of a page response.
pub fn extract_page(v: &Json) -> (r: (Vec<Json>, u64))
    ensures
        items_view(r.0@) == page_of(v@).0,
        r.1 as nat == page_of(v@).1,
{
    match v.get("items") {
        Some(items_val) => {
            let items = match items_val.as_array() {
                Some(a) => clone_items(a),
                None => {
                    let e: Vec<Json> = Vec::new();
                    assert(items_view(e@) =~= Seq::<JsonV>::empty());
                    e
                },
            };
            let total = match v.u64_at("total") {
                Some(t) => t,
                None => 0,
            };
            (items, total)
        },
        None => match v.as_array() {
            Some(arr) => {
                let total = arr.len() as u64;
                (clone_items(arr), total)
            },
            None => {
                let e: Vec<Json> = Vec::new();
                assert(items_view(e@) =~= Seq::<JsonV>::empty());
                (e, 0)
            },
        },
    }
}

/// The items of a `{key: [...]}` response, read defensively: the array under
/// `key`, else a bare array, else nothing.
pub open spec fn list_of(v: JsonV, key: Seq<char>) -> Seq<JsonV> {
    match v.array_at(key) {
        Some(a) => a,
        None => match v.as_array() {
            Some(a) => a,
            None => Seq::empty(),
        },
    }
}

/// Reads the items of a `{key: [...]}` response.
pub fn extract_list(v: &Json, key: &str) -> (r: Vec<Json>)
    ensures
        items_view(r@) == list_of(v@, key@),
{
    match v.array_at(key) {
        Some(a) => clone_items(a),
        None => match v.as_array() {
            Some(a) => clone_items(a),
            None => {
                let e: Vec<Json> = Vec::new();
                assert(items_view(e@) =~= Seq::<JsonV>::empty());
                e
            },
        },
    }
}

} // verus!
