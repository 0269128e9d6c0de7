//! Payment terminals: the tables of table mode.

use vstd::prelude::*;

use crate::json::{Json, JsonV, items_view};
use crate::table::{first_present, first_present_text, card_text, count_at, count_or_dash, extract_page, nats, or_dash, page_of, render_card, render_table, rows_texts, rule_width, str_or_dash, table_text};
use crate::text::{owned, texts};

verus! {

/// The items and total of a terminal page response.
pub fn extract_items(v: &Json) -> (r: (Vec<Json>, u64))
    ensures
        items_view(r.0@) == page_of(v@).0,
        r.1 as nat == page_of(v@).1,
{
    extract_page(v)
}

/// The cells of one terminal row.
pub open spec fn terminal_row(v: JsonV) -> Seq<Seq<char>> {
    seq![
        or_dash(v.str_at("id"@)),
        or_dash(v.str_at("serialNumber"@)),
        or_dash(v.str_at("terminalModel"@)),
        or_dash(v.str_at("terminalModeName"@)),
        or_dash(v.str_at("connectionStatus"@)),
        or_dash(v.str_at("lastSeenTimestamp"@)),
    ]
}

fn terminal_row_cells(v: &Json) -> (r: Vec<String>)
    ensures
        texts(r@) == terminal_row(v@),
        r@.len() == 6,
{
    let mut cells: Vec<String> = Vec::new();
    cells.push(str_or_dash(v, "id"));
    cells.push(str_or_dash(v, "serialNumber"));
    cells.push(str_or_dash(v, "terminalModel"));
    cells.push(str_or_dash(v, "terminalModeName"));
    cells.push(str_or_dash(v, "connectionStatus"));
    cells.push(str_or_dash(v, "lastSeenTimestamp"));
    assert(texts(cells@) =~= terminal_row(v@));
    cells
}

pub open spec fn terminal_list_headers() -> Seq<Seq<char>> {
    seq!["ID"@, "SERIAL"@, "MODEL"@, "MODE"@, "CONNECTION"@, "LAST SEEN"@]
}

pub open spec fn terminal_list_widths() -> Seq<nat> {
    seq![36, 16, 20, 20, 12, 24]
}

/// The table-mode list of terminals: ID, SERIAL, MODEL, MODE, CONNECTION,
/// LAST SEEN.
pub fn terminal_list_table(items: &Vec<Json>) -> (r: String)
    ensures
        r@ == table_text(terminal_list_headers(), terminal_list_widths(), Seq::new(items@.len(), |i: int| terminal_row(items@[i]@))),
{
    let mut rows: Vec<Vec<String>> = Vec::new();
    let n = items.len();
    for i in 0..n
        invariant
            n == items@.len(),
            rows@.len() == i,
            forall|j: int| 0 <= j < i ==> (#[trigger] rows@[j])@.len() == 6 && texts(rows@[j]@) == terminal_row(items@[j]@),
    {
        rows.push(terminal_row_cells(&items[i]));
    }
    let mut headers: Vec<String> = Vec::new();
    headers.push(owned("ID"));
    headers.push(owned("SERIAL"));
    headers.push(owned("MODEL"));
    headers.push(owned("MODE"));
    headers.push(owned("CONNECTION"));
    headers.push(owned("LAST SEEN"));
    let mut widths: Vec<usize> = Vec::new();
    widths.push(36);
    widths.push(16);
    widths.push(20);
    widths.push(20);
    widths.push(12);
    widths.push(24);
    proof {
        assert(texts(headers@) =~= terminal_list_headers());
        assert(nats(widths@) =~= terminal_list_widths());
        reveal_with_fuel(rule_width, 7);
        assert(rows_texts(rows@) =~= Seq::new(items@.len(), |i: int| terminal_row(items@[i]@)));
    }
    render_table(&headers, &widths, 138, &rows)
}

pub open spec fn terminal_status_labels() -> Seq<Seq<char>> {
    seq![
        "terminalId:             "@,
        "terminalPosStatus:      "@,
        "connectionStatus:       "@,
        "connectionType:         "@,
        "batteryLevel:           "@,
        "wifiConnectionStrength: "@,
        "availabilityStatus:     "@,
        "printerStatus:          "@,
        "lastSeenTimestamp:      "@,
    ]
}

/// The values of the terminal status card; the battery level and the Wi-Fi
/// strength are unsigned numbers.
pub open spec fn terminal_status_values(v: JsonV) -> Seq<Seq<char>> {
    seq![
        or_dash(v.str_at("terminalId"@)),
        or_dash(v.str_at("terminalPosStatus"@)),
        or_dash(v.str_at("connectionStatus"@)),
        or_dash(v.str_at("connectionType"@)),
        count_or_dash(v.u64_at("batteryLevel"@)),
        count_or_dash(v.u64_at("wifiConnectionStrength"@)),
        or_dash(v.str_at("availabilityStatus"@)),
        or_dash(v.str_at("printerStatus"@)),
        or_dash(v.str_at("lastSeenTimestamp"@)),
    ]
}

/// The table-mode card of a terminal's status.
pub fn terminal_status_table(v: &Json) -> (r: String)
    ensures
        r@ == card_text(terminal_status_labels(), terminal_status_values(v@)),
{
    let mut labels: Vec<&str> = Vec::new();
    labels.push("terminalId:             ");
    labels.push("terminalPosStatus:      ");
    labels.push("connectionStatus:       ");
    labels.push("connectionType:         ");
    labels.push("batteryLevel:           ");
    labels.push("wifiConnectionStrength: ");
    labels.push("availabilityStatus:     ");
    labels.push("printerStatus:          ");
    labels.push("lastSeenTimestamp:      ");
    let mut values: Vec<String> = Vec::new();
    values.push(str_or_dash(v, "terminalId"));
    values.push(str_or_dash(v, "terminalPosStatus"));
    values.push(str_or_dash(v, "connectionStatus"));
    values.push(str_or_dash(v, "connectionType"));
    values.push(count_at(v, "batteryLevel"));
    values.push(count_at(v, "wifiConnectionStrength"));
    values.push(str_or_dash(v, "availabilityStatus"));
    values.push(str_or_dash(v, "printerStatus"));
    values.push(str_or_dash(v, "lastSeenTimestamp"));
    assert(Seq::new(labels@.len(), |i: int| labels@[i]@) =~= terminal_status_labels());
    assert(texts(values@) =~= terminal_status_values(v@));
    render_card(&labels, &values)
}

/// Quiet mode of a terminal status: `terminalId`, else `id`.
pub fn terminal_quiet_id(v: &Json) -> (r: String)
    ensures
        r@ == first_present(v@, seq!["terminalId"@, "id"@]),
{
    let mut keys: Vec<&str> = Vec::new();
    keys.push("terminalId");
    keys.push("id");
    assert(Seq::new(keys@.len(), |i: int| keys@[i]@) =~= seq!["terminalId"@, "id"@]);
    first_present_text(v, &keys)
}

} // verus!
