//! ISV API tokens: the create body and the tables of table mode.

use vstd::prelude::*;

use crate::json::{Json, JsonV, entries_view, items_view, object, push_entry};
use crate::table::{card_text, dash, extract_list, first_chars, list_of, nats, or_dash, prefix_chars, render_card, render_table, rows_texts, rule_width, str_or_dash, table_text};
use crate::text::{owned, append, texts};

verus! {

/// The body of `tokens create`: the merchant and the token's name.
pub fn build_token_body(merchant_id: &str, token_name: &str) -> (r: Json)
    ensures
        r@ == JsonV::Object(seq![("merchantId"@, JsonV::Str(merchant_id@)), ("tokenName"@, JsonV::Str(token_name@))]),
{
    let mut obj: Vec<(String, Json)> = Vec::new();
    push_entry(&mut obj, "merchantId", Json::text(merchant_id));
    push_entry(&mut obj, "tokenName", Json::text(token_name));
    assert(entries_view(obj@) =~= seq![("merchantId"@, JsonV::Str(merchant_id@)), ("tokenName"@, JsonV::Str(token_name@))]);
    object(obj)
}

/// The one-time notice under a new token.
pub open spec fn secret_notice() -> Seq<char> {
    "\n\nNOTE: The clientSecret is shown ONLY ONCE. Store it securely."@
}

/// The table-mode card of a created token: its client id and its secret,
/// which is shown this once, and a notice saying so.
pub fn token_create_table(v: &Json) -> (r: String)
    ensures
        r@ == card_text(seq!["clientId:     "@, "clientSecret: "@], seq![or_dash(v@.str_at("clientId"@)), or_dash(v@.str_at("clientSecret"@))])
            + secret_notice(),
{
    let mut labels: Vec<&str> = Vec::new();
    labels.push("clientId:     ");
    labels.push("clientSecret: ");
    let mut values: Vec<String> = Vec::new();
    values.push(str_or_dash(v, "clientId"));
    values.push(str_or_dash(v, "clientSecret"));
    assert(Seq::new(labels@.len(), |i: int| labels@[i]@) =~= seq!["clientId:     "@, "clientSecret: "@]);
    assert(texts(values@) =~= seq![or_dash(v@.str_at("clientId"@)), or_dash(v@.str_at("clientSecret"@))]);
    let mut out = render_card(&labels, &values);
    append(&mut out, "\n\nNOTE: The clientSecret is shown ONLY ONCE. Store it securely.");
    out
}

/// The CREATED column: the first ten characters of `creationDate`, or the
/// dash.
pub open spec fn token_created(v: JsonV) -> Seq<char> {
    match v.str_at("creationDate"@) {
        Some(s) => first_chars(s, 10),
        None => dash(),
    }
}

/// The cells of one token row.
pub open spec fn token_row(v: JsonV) -> Seq<Seq<char>> {
    seq![
        or_dash(v.str_at("clientId"@)),
        or_dash(v.str_at("tokenName"@)),
        or_dash(v.str_at("merchantId"@)),
        token_created(v),
    ]
}

fn token_row_cells(v: &Json) -> (r: Vec<String>)
    ensures
        texts(r@) == token_row(v@),
        r@.len() == 4,
{
    let mut cells: Vec<String> = Vec::new();
    cells.push(str_or_dash(v, "clientId"));
    cells.push(str_or_dash(v, "tokenName"));
    cells.push(str_or_dash(v, "merchantId"));
    let created = match v.str_at("creationDate") {
        Some(s) => prefix_chars(s, 10),
        None => owned("\u{2014}"),
    };
    cells.push(created);
    assert(texts(cells@) =~= token_row(v@));
    cells
}

pub open spec fn token_list_headers() -> Seq<Seq<char>> {
    seq!["CLIENT ID"@, "NAME"@, "MERCHANT"@, "CREATED"@]
}

pub open spec fn token_list_widths() -> Seq<nat> {
    seq![36, 28, 36, 10]
}

/// The table-mode list of tokens: CLIENT ID, NAME, MERCHANT, CREATED.
pub fn token_list_table(items: &Vec<Json>) -> (r: String)
    ensures
        r@ == table_text(token_list_headers(), token_list_widths(), Seq::new(items@.len(), |i: int| token_row(items@[i]@))),
{
    let mut rows: Vec<Vec<String>> = Vec::new();
    let n = items.len();
    for i in 0..n
        invariant
            n == items@.len(),
            rows@.len() == i,
            forall|j: int| 0 <= j < i ==> (#[trigger] rows@[j])@.len() == 4 && texts(rows@[j]@) == token_row(items@[j]@),
    {
        rows.push(token_row_cells(&items[i]));
    }
    let mut headers: Vec<String> = Vec::new();
    headers.push(owned("CLIENT ID"));
    headers.push(owned("NAME"));
    headers.push(owned("MERCHANT"));
    headers.push(owned("CREATED"));
    let mut widths: Vec<usize> = Vec::new();
    widths.push(36);
    widths.push(28);
    widths.push(36);
    widths.push(10);
    proof {
        assert(texts(headers@) =~= token_list_headers());
        assert(nats(widths@) =~= token_list_widths());
        reveal_with_fuel(rule_width, 5);
        assert(rows_texts(rows@) =~= Seq::new(items@.len(), |i: int| token_row(items@[i]@)));
    }
    render_table(&headers, &widths, 116, &rows)
}

/// The tokens of a `{tokens: [...]}` response (or a bare array).
pub fn extract_tokens(v: &Json) -> (r: Vec<Json>)
    ensures
        items_view(r@) == list_of(v@, "tokens"@),
{
    extract_list(v, "tokens")
}

} // verus!
