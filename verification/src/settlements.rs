//! Settlement batches: the defensive reading of list responses and the
//! tables of table mode.

use vstd::prelude::*;

use crate::json::{Json, JsonV, items_view};
use crate::table::{
    card_text, count_at, count_or_dash, cut_ok, date_cell, date_or_dash, dates_cut_ok, extract_page, nats, or_dash,
    page_of, render_card, render_table, rows_texts, rule_width, str_or_dash, table_text,
};
use crate::text::{owned, texts};

verus! {

/// The items and total of a settlement page response.
pub fn extract_settlement_items(v: &Json) -> (r: (Vec<Json>, u64))
    ensures
        items_view(r.0@) == page_of(v@).0,
        r.1 as nat == page_of(v@).1,
{
    extract_page(v)
}

/// The three money values of a batch as printed by the caller: two
/// decimals of `salesAmount`, `refundsAmount` and `netAmount`, or the dash.
pub struct SettlementMoney {
    pub sales: String,
    pub refunds: String,
    pub net: String,
}

/// The cells of one batch row.
pub open spec fn settlement_row(v: JsonV, m: SettlementMoney) -> Seq<Seq<char>> {
    seq![
        or_dash(v.str_at("id"@)),
        or_dash(v.str_at("paymentProcessorName"@)),
        date_or_dash(v, "batchDateTime"@),
        count_or_dash(v.u64_at("transactionCount"@)),
        m.sales@,
        m.refunds@,
        m.net@,
        or_dash(v.str_at("statusName"@)),
    ]
}

fn settlement_row_cells(v: &Json, m: &SettlementMoney) -> (r: Vec<String>)
    requires
        v@.str_at("batchDateTime"@) matches Some(s) ==> cut_ok(s),
    ensures
        texts(r@) == settlement_row(v@, *m),
        r@.len() == 8,
{
    let mut cells: Vec<String> = Vec::new();
    cells.push(str_or_dash(v, "id"));
    cells.push(str_or_dash(v, "paymentProcessorName"));
    cells.push(date_cell(v, "batchDateTime"));
    cells.push(count_at(v, "transactionCount"));
    cells.push(owned(m.sales.as_str()));
    cells.push(owned(m.refunds.as_str()));
    cells.push(owned(m.net.as_str()));
    cells.push(str_or_dash(v, "statusName"));
    assert(texts(cells@) =~= settlement_row(v@, *m));
    cells
}

pub open spec fn settlement_list_headers() -> Seq<Seq<char>> {
    seq!["ID"@, "PROCESSOR"@, "BATCH DATE"@, "TXNS"@, "SALES"@, "REFUNDS"@, "NET"@, "STATUS"@]
}

pub open spec fn settlement_list_widths() -> Seq<nat> {
    seq![36, 20, 10, 6, 12, 12, 12, 10]
}

/// The table-mode list of settlement batches: ID, PROCESSOR, BATCH DATE,
/// TXNS, SALES, REFUNDS, NET, STATUS. `money[i]` holds the printed amounts
/// of `items[i]`.
pub fn settlement_list_table(items: &Vec<Json>, money: &Vec<SettlementMoney>) -> (r: String)
    requires
        money@.len() == items@.len(),
        dates_cut_ok(items_view(items@), "batchDateTime"@),
    ensures
        r@ == table_text(
            settlement_list_headers(),
            settlement_list_widths(),
            Seq::new(items@.len(), |i: int| settlement_row(items@[i]@, money@[i])),
        ),
{
    let mut rows: Vec<Vec<String>> = Vec::new();
    let n = items.len();
    for i in 0..n
        invariant
            n == items@.len(),
            n == money@.len(),
            dates_cut_ok(items_view(items@), "batchDateTime"@),
            rows@.len() == i,
            forall|j: int| 0 <= j < i ==> (#[trigger] rows@[j])@.len() == 8 && texts(rows@[j]@) == settlement_row(items@[j]@, money@[j]),
    {
        assert(items_view(items@)[i as int] == items@[i as int]@);
        rows.push(settlement_row_cells(&items[i], &money[i]));
    }
    let mut headers: Vec<String> = Vec::new();
    headers.push(owned("ID"));
    headers.push(owned("PROCESSOR"));
    headers.push(owned("BATCH DATE"));
    headers.push(owned("TXNS"));
    headers.push(owned("SALES"));
    headers.push(owned("REFUNDS"));
    headers.push(owned("NET"));
    headers.push(owned("STATUS"));
    let mut widths: Vec<usize> = Vec::new();
    widths.push(36);
    widths.push(20);
    widths.push(10);
    widths.push(6);
    widths.push(12);
    widths.push(12);
    widths.push(12);
    widths.push(10);
    proof {
        assert(texts(headers@) =~= settlement_list_headers());
        assert(nats(widths@) =~= settlement_list_widths());
        reveal_with_fuel(rule_width, 9);
        assert(rows_texts(rows@) =~= Seq::new(items@.len(), |i: int| settlement_row(items@[i]@, money@[i])));
    }
    render_table(&headers, &widths, 132, &rows)
}

pub open spec fn settlement_card_labels() -> Seq<Seq<char>> {
    seq![
        "id:                   "@,
        "paymentProcessorName: "@,
        "batchDateTime:        "@,
        "transactionCount:     "@,
        "salesAmount:          "@,
        "refundsAmount:        "@,
        "netAmount:            "@,
        "statusName:           "@,
    ]
}

/// The values of the batch card: the batch time is shown whole.
pub open spec fn settlement_card_values(v: JsonV, m: SettlementMoney) -> Seq<Seq<char>> {
    seq![
        or_dash(v.str_at("id"@)),
        or_dash(v.str_at("paymentProcessorName"@)),
        or_dash(v.str_at("batchDateTime"@)),
        count_or_dash(v.u64_at("transactionCount"@)),
        m.sales@,
        m.refunds@,
        m.net@,
        or_dash(v.str_at("statusName"@)),
    ]
}

/// The table-mode card of one settlement batch, with its printed amounts.
pub fn settlement_table(v: &Json, money: &SettlementMoney) -> (r: String)
    ensures
        r@ == card_text(settlement_card_labels(), settlement_card_values(v@, *money)),
{
    let mut labels: Vec<&str> = Vec::new();
    labels.push("id:                   ");
    labels.push("paymentProcessorName: ");
    labels.push("batchDateTime:        ");
    labels.push("transactionCount:     ");
    labels.push("salesAmount:          ");
    labels.push("refundsAmount:        ");
    labels.push("netAmount:            ");
    labels.push("statusName:           ");
    let mut values: Vec<String> = Vec::new();
    values.push(str_or_dash(v, "id"));
    values.push(str_or_dash(v, "paymentProcessorName"));
    values.push(str_or_dash(v, "batchDateTime"));
    values.push(count_at(v, "transactionCount"));
    values.push(owned(money.sales.as_str()));
    values.push(owned(money.refunds.as_str()));
    values.push(owned(money.net.as_str()));
    values.push(str_or_dash(v, "statusName"));
    assert(Seq::new(labels@.len(), |i: int| labels@[i]@) =~= settlement_card_labels());
    assert(texts(values@) =~= settlement_card_values(v@, *money));
    render_card(&labels, &values)
}

} // verus!
