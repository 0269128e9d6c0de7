//! Devices and tap-to-pay: request bodies and the tables of table mode.

use vstd::prelude::*;

use crate::json::{Json, JsonV, entries_view, items_view, object, opt_entry, opt_text, push_entry, push_opt_str};
use crate::table::{first_present, first_present_text, card_text, extract_list, list_of, nats, or_dash, render_card, render_table, rows_texts, rule_width, str_or_dash, table_text, true_false, true_false_at};
use crate::text::{owned, texts};

verus! {

/// The entries of a `devices register` body: the id, and the name when given.
pub open spec fn register_entries(device_id: &str, name: Option<&str>) -> Seq<(Seq<char>, JsonV)> {
    seq![("deviceId"@, JsonV::Str(device_id@))] + opt_entry("deviceName"@, opt_text(name))
}

/// The body of `devices register <id>` (create or update).
pub fn build_register_device_body(device_id: &str, name: Option<&str>) -> (r: Json)
    ensures
        r@ == JsonV::Object(register_entries(device_id, name)),
{
    let mut obj: Vec<(String, Json)> = Vec::new();
    push_entry(&mut obj, "deviceId", Json::text(device_id));
    assert(entries_view(obj@) =~= seq![("deviceId"@, JsonV::Str(device_id@))]);
    push_opt_str(&mut obj, "deviceName", name);
    object(obj)
}

/// The body of `devices ttp-jwt`: the device id alone.
pub fn build_ttp_jwt_body(device_id: &str) -> (r: Json)
    ensures
        r@ == JsonV::Object(seq![("deviceId"@, JsonV::Str(device_id@))]),
{
    let mut obj: Vec<(String, Json)> = Vec::new();
    push_entry(&mut obj, "deviceId", Json::text(device_id));
    assert(entries_view(obj@) =~= seq![("deviceId"@, JsonV::Str(device_id@))]);
    object(obj)
}

/// A device's id: `deviceId`, or `id` when there is no `deviceId`; the
/// dash when that value is not a string.
pub open spec fn device_id_of(v: JsonV) -> Seq<char> {
    first_present(v, seq!["deviceId"@, "id"@])
}

/// A device's id, as the tables and quiet mode show it.
pub fn device_id_cell(v: &Json) -> (r: String)
    ensures
        r@ == device_id_of(v@),
{
    let mut keys: Vec<&str> = Vec::new();
    keys.push("deviceId");
    keys.push("id");
    assert(Seq::new(keys@.len(), |i: int| keys@[i]@) =~= seq!["deviceId"@, "id"@]);
    first_present_text(v, &keys)
}

/// Quiet mode of a tap-to-pay token: the first of `jwt`, `token`, `id`,
/// `deviceId` that is present.
pub fn ttp_jwt_quiet(v: &Json) -> (r: String)
    ensures
        r@ == first_present(v@, seq!["jwt"@, "token"@, "id"@, "deviceId"@]),
{
    let mut keys: Vec<&str> = Vec::new();
    keys.push("jwt");
    keys.push("token");
    keys.push("id");
    keys.push("deviceId");
    assert(Seq::new(keys@.len(), |i: int| keys@[i]@) =~= seq!["jwt"@, "token"@, "id"@, "deviceId"@]);
    first_present_text(v, &keys)
}

/// The cells of one device row.
pub open spec fn device_row(v: JsonV) -> Seq<Seq<char>> {
    seq![
        device_id_of(v),
        or_dash(v.str_at("deviceName"@)),
        or_dash(v.str_at("tapToPayStatus"@)),
        true_false(v.bool_at("tapToPayEnabled"@)),
        or_dash(v.str_at("apiKeyName"@)),
    ]
}

fn device_row_cells(v: &Json) -> (r: Vec<String>)
    ensures
        texts(r@) == device_row(v@),
        r@.len() == 5,
{
    let mut cells: Vec<String> = Vec::new();
    cells.push(device_id_cell(v));
    cells.push(str_or_dash(v, "deviceName"));
    cells.push(str_or_dash(v, "tapToPayStatus"));
    cells.push(true_false_at(v, "tapToPayEnabled"));
    cells.push(str_or_dash(v, "apiKeyName"));
    assert(texts(cells@) =~= device_row(v@));
    cells
}

pub open spec fn device_list_headers() -> Seq<Seq<char>> {
    seq!["DEVICE ID"@, "NAME"@, "TAP-TO-PAY"@, "ENABLED"@, "API KEY"@]
}

pub open spec fn device_list_widths() -> Seq<nat> {
    seq![36, 28, 16, 8, 32]
}

/// The table-mode list of devices: DEVICE ID, NAME, TAP-TO-PAY, ENABLED,
/// API KEY.
pub fn device_list_table(items: &Vec<Json>) -> (r: String)
    ensures
        r@ == table_text(device_list_headers(), device_list_widths(), Seq::new(items@.len(), |i: int| device_row(items@[i]@))),
{
    let mut rows: Vec<Vec<String>> = Vec::new();
    let n = items.len();
    for i in 0..n
        invariant
            n == items@.len(),
            rows@.len() == i,
            forall|j: int| 0 <= j < i ==> (#[trigger] rows@[j])@.len() == 5 && texts(rows@[j]@) == device_row(items@[j]@),
    {
        rows.push(device_row_cells(&items[i]));
    }
    let mut headers: Vec<String> = Vec::new();
    headers.push(owned("DEVICE ID"));
    headers.push(owned("NAME"));
    headers.push(owned("TAP-TO-PAY"));
    headers.push(owned("ENABLED"));
    headers.push(owned("API KEY"));
    let mut widths: Vec<usize> = Vec::new();
    widths.push(36);
    widths.push(28);
    widths.push(16);
    widths.push(8);
    widths.push(32);
    proof {
        assert(texts(headers@) =~= device_list_headers());
        assert(nats(widths@) =~= device_list_widths());
        reveal_with_fuel(rule_width, 6);
        assert(rows_texts(rows@) =~= Seq::new(items@.len(), |i: int| device_row(items@[i]@)));
    }
    render_table(&headers, &widths, 128, &rows)
}

pub open spec fn device_card_labels() -> Seq<Seq<char>> {
    seq![
        "deviceId:       "@,
        "deviceName:     "@,
        "tapToPayStatus: "@,
        "tapToPayEnabled:"@,
        "apiKeyName:     "@,
        "lastLoginAt:    "@,
    ]
}

pub open spec fn device_card_values(v: JsonV) -> Seq<Seq<char>> {
    seq![
        device_id_of(v),
        or_dash(v.str_at("deviceName"@)),
        or_dash(v.str_at("tapToPayStatus"@)),
        true_false(v.bool_at("tapToPayEnabled"@)),
        or_dash(v.str_at("apiKeyName"@)),
        or_dash(v.str_at("lastLoginAt"@)),
    ]
}

/// The table-mode card of one device.
pub fn device_table(v: &Json) -> (r: String)
    ensures
        r@ == card_text(device_card_labels(), device_card_values(v@)),
{
    let mut labels: Vec<&str> = Vec::new();
    labels.push("deviceId:       ");
    labels.push("deviceName:     ");
    labels.push("tapToPayStatus: ");
    labels.push("tapToPayEnabled:");
    labels.push("apiKeyName:     ");
    labels.push("lastLoginAt:    ");
    let mut values: Vec<String> = Vec::new();
    values.push(device_id_cell(v));
    values.push(str_or_dash(v, "deviceName"));
    values.push(str_or_dash(v, "tapToPayStatus"));
    values.push(true_false_at(v, "tapToPayEnabled"));
    values.push(str_or_dash(v, "apiKeyName"));
    values.push(str_or_dash(v, "lastLoginAt"));
    assert(Seq::new(labels@.len(), |i: int| labels@[i]@) =~= device_card_labels());
    assert(texts(values@) =~= device_card_values(v@));
    render_card(&labels, &values)
}

/// The table-mode card of a tap-to-pay token: the JWT (however long) and
/// the device.
pub fn ttp_jwt_table(v: &Json) -> (r: String)
    ensures
        r@ == card_text(seq!["jwt:      "@, "deviceId: "@], seq![or_dash(v@.str_at("jwt"@)), or_dash(v@.str_at("deviceId"@))]),
{
    let mut labels: Vec<&str> = Vec::new();
    labels.push("jwt:      ");
    labels.push("deviceId: ");
    let mut values: Vec<String> = Vec::new();
    values.push(str_or_dash(v, "jwt"));
    values.push(str_or_dash(v, "deviceId"));
    assert(Seq::new(labels@.len(), |i: int| labels@[i]@) =~= seq!["jwt:      "@, "deviceId: "@]);
    assert(texts(values@) =~= seq![or_dash(v@.str_at("jwt"@)), or_dash(v@.str_at("deviceId"@))]);
    render_card(&labels, &values)
}

/// The devices of a `{devices: [...]}` response (or a bare array).
pub fn extract_devices(v: &Json) -> (r: Vec<Json>)
    ensures
        items_view(r@) == list_of(v@, "devices"@),
{
    extract_list(v, "devices")
}

} // verus!
