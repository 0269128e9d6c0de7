//! Recurring billing: the interval enum, the create body, the tables of
//! table mode, the client-side
//! status filter and the tables of table mode.

use vstd::prelude::*;

use crate::json::{Json, JsonV, entries_view, int_number, int_text, items_view, object, opt_entry, opt_str, push_entry, push_opt_text};
use crate::money::{DecimalValue, decimal_display, to_amount_number, parse_amount, checked_decimal};
use crate::text::{chars_of, lower_chars, lower_text, same_chars, owned, append, string_of, trimmed_chars, trim, to_lowercase, unicode_lower, texts};
use crate::json::int_string;
use crate::table::{card_text, count_at, count_or_dash, cut_ok, dash, date_cell, date_or_dash, dates_cut_ok, nats, or_dash, render_card, render_table, rows_texts, rule_width, str_or_dash, table_text};

verus! {

/// `--interval`: the unit of a subscription's payment frequency.
#[derive(Clone, Copy, Debug, PartialEq, Eq, Structural)]
pub enum Interval {
    Day,
    Week,
    Month,
}

/// The API's `paymentFrequencyUnit`: day 1, week 2, month 3.
pub open spec fn interval_code(i: Interval) -> int {
    match i {
        Interval::Day => 1,
        Interval::Week => 2,
        Interval::Month => 3,
    }
}

/// The interval a command-line token names: `day`/`daily`, `week`/`weekly`,
/// `month`/`monthly`, compared exactly or, with `ignore_case`, up to ASCII case.
pub open spec fn interval_named(input: Seq<char>, ignore_case: bool) -> Option<Interval> {
    let t = if ignore_case { lower_text(input) } else { input };
    if t == "day"@ || t == "daily"@ {
        Some(Interval::Day)
    } else if t == "week"@ || t == "weekly"@ {
        Some(Interval::Week)
    } else if t == "month"@ || t == "monthly"@ {
        Some(Interval::Month)
    } else {
        None
    }
}

impl Interval {
    /// The integer the API expects for this interval.
    pub fn to_int(&self) -> (r: i32)
        ensures
            r == interval_code(*self),
    {
        match self {
            Interval::Day => 1,
            Interval::Week => 2,
            Interval::Month => 3,
        }
    }

    /// Reads an interval token by its name or alias; anything else is
    /// refused with `invalid variant: <input>`.
    pub fn from_str(input: &str, ignore_case: bool) -> (r: Result<Interval, String>)
        ensures
            match interval_named(input@, ignore_case) {
                Some(i) => r == Ok::<Interval, String>(i),
                None => r matches Err(m) && m@ == "invalid variant: "@ + input@,
            },
    {
        let raw = chars_of(input);
        let t = if ignore_case { lower_chars(&raw) } else { raw };
        if same_chars(&t, &chars_of("day")) || same_chars(&t, &chars_of("daily")) {
            Ok(Interval::Day)
        } else if same_chars(&t, &chars_of("week")) || same_chars(&t, &chars_of("weekly")) {
            Ok(Interval::Week)
        } else if same_chars(&t, &chars_of("month")) || same_chars(&t, &chars_of("monthly")) {
            Ok(Interval::Month)
        } else {
            let mut m = owned("invalid variant: ");
            append(&mut m, input);
            Err(m)
        }
    }
}

/// Every flag of `subscriptions create`.
pub struct CreateArgs {
    pub customer_id: String,
    pub payment_method_id: String,
    /// The amount as typed.
    pub amount: String,
    pub currency_id: i32,
    pub number_of_payments: u32,
    pub payment_frequency: u32,
    pub interval: Interval,
    pub transaction_type: i32,
    pub requester_ip: String,
    pub payment_processor_id: Option<String>,
    pub start_date: Option<String>,
    pub sec_code: Option<i32>,
    pub faster: bool,
}

/// Zero, the amount sent when the typed one does not parse.
pub open spec fn zero_decimal() -> DecimalValue {
    DecimalValue { negative: false, mantissa: 0, scale: 0 }
}

/// An optional integer as an optional JSON number.
pub open spec fn opt_int(v: Option<i32>) -> Option<JsonV> {
    match v {
        Some(n) => Some(JsonV::Number(int_text(n as int))),
        None => None,
    }
}

/// The entries of a subscription body for an amount already read.
pub open spec fn subscription_entries(a: CreateArgs, amount: DecimalValue) -> Seq<(Seq<char>, JsonV)> {
    seq![
        ("customerId"@, JsonV::Str(a.customer_id@)),
        ("paymentMethodId"@, JsonV::Str(a.payment_method_id@)),
        ("amount"@, JsonV::Number(decimal_display(amount))),
        ("currencyId"@, JsonV::Number(int_text(a.currency_id as int))),
        ("numberOfPayments"@, JsonV::Number(int_text(a.number_of_payments as int))),
        ("paymentFrequency"@, JsonV::Number(int_text(a.payment_frequency as int))),
        ("paymentFrequencyUnit"@, JsonV::Number(int_text(interval_code(a.interval)))),
        ("transactionType"@, JsonV::Number(int_text(a.transaction_type as int))),
        ("requesterIpAddress"@, JsonV::Str(a.requester_ip@)),
    ]
        + opt_entry("paymentProcessorId"@, opt_str(a.payment_processor_id))
        + opt_entry("paymentStartDateTime"@, opt_str(a.start_date))
        + opt_entry("secCode"@, opt_int(a.sec_code))
        + (if a.faster { seq![("isFasterProcessing"@, JsonV::Bool(true))] } else { Seq::empty() })
}

/// The amount a subscription body carries: the typed amount when it passes
/// the amount policy, else zero.
pub open spec fn subscription_amount(raw: Seq<char>) -> DecimalValue {
    match checked_decimal(raw, 2) {
        Ok(d) => d,
        Err(_) => zero_decimal(),
    }
}

/// The subscription body for an amount already read.
pub fn subscription_body(args: &CreateArgs, amount: DecimalValue) -> (r: Json)
    requires
        amount.wf(),
    ensures
        r@ == JsonV::Object(subscription_entries(*args, amount)),
{
    let mut obj: Vec<(String, Json)> = Vec::new();
    push_entry(&mut obj, "customerId", Json::text(args.customer_id.as_str()));
    push_entry(&mut obj, "paymentMethodId", Json::text(args.payment_method_id.as_str()));
    push_entry(&mut obj, "amount", to_amount_number(amount));
    push_entry(&mut obj, "currencyId", int_number(args.currency_id as i64));
    push_entry(&mut obj, "numberOfPayments", int_number(args.number_of_payments as i64));
    push_entry(&mut obj, "paymentFrequency", int_number(args.payment_frequency as i64));
    push_entry(&mut obj, "paymentFrequencyUnit", int_number(args.interval.to_int() as i64));
    push_entry(&mut obj, "transactionType", int_number(args.transaction_type as i64));
    push_entry(&mut obj, "requesterIpAddress", Json::text(args.requester_ip.as_str()));
    let ghost head = entries_view(obj@);
    assert(head =~= seq![
        ("customerId"@, JsonV::Str(args.customer_id@)),
        ("paymentMethodId"@, JsonV::Str(args.payment_method_id@)),
        ("amount"@, JsonV::Number(decimal_display(amount))),
        ("currencyId"@, JsonV::Number(int_text(args.currency_id as int))),
        ("numberOfPayments"@, JsonV::Number(int_text(args.number_of_payments as int))),
        ("paymentFrequency"@, JsonV::Number(int_text(args.payment_frequency as int))),
        ("paymentFrequencyUnit"@, JsonV::Number(int_text(interval_code(args.interval)))),
        ("transactionType"@, JsonV::Number(int_text(args.transaction_type as int))),
        ("requesterIpAddress"@, JsonV::Str(args.requester_ip@)),
    ]);
    push_opt_text(&mut obj, "paymentProcessorId", &args.payment_processor_id);
    push_opt_text(&mut obj, "paymentStartDateTime", &args.start_date);
    let ghost before_sec = entries_view(obj@);
    match args.sec_code {
        Some(sc) => push_entry(&mut obj, "secCode", int_number(sc as i64)),
        None => {},
    }
    assert(entries_view(obj@) =~= before_sec + opt_entry("secCode"@, opt_int(args.sec_code)));
    let ghost before_faster = entries_view(obj@);
    if args.faster {
        push_entry(&mut obj, "isFasterProcessing", Json::Bool(true));
    }
    assert(entries_view(obj@) =~= before_faster + (if args.faster {
        seq![("isFasterProcessing"@, JsonV::Bool(true))]
    } else {
        Seq::<(Seq<char>, JsonV)>::empty()
    }));
    object(obj)
}

/// The body of `subscriptions create`. The amount goes through the amount
/// policy; should it be refused here, zero is sent (the command checks it
/// before it gets this far).
pub fn build_subscription_body(args: &CreateArgs) -> (r: Json)
    ensures
        r@ == JsonV::Object(subscription_entries(*args, subscription_amount(args.amount@))),
{
    let amount = match parse_amount(args.amount.as_str()) {
        Ok(d) => d,
        Err(_) => DecimalValue { negative: false, mantissa: 0, scale: 0 },
    };
    subscription_body(args, amount)
}

/// The id of a subscription in either response shape: `id`, else
/// `subscriptionId`, else a dash.
pub open spec fn sub_id_of(v: JsonV) -> Seq<char> {
    match v.str_at("id"@) {
        Some(s) => s,
        None => match v.str_at("subscriptionId"@) {
            Some(s) => s,
            None => "\u{2014}"@,
        },
    }
}

/// The subscription id of a get or list response.
pub fn sub_id(v: &Json) -> (r: String)
    ensures
        r@ == sub_id_of(v@),
{
    match v.str_at("id") {
        Some(s) => owned(s),
        None => match v.str_at("subscriptionId") {
            Some(s) => owned(s),
            None => owned("\u{2014}"),
        },
    }
}

/// Whether an item's `status`, lower-cased, is the needle.
pub open spec fn status_matches(item: JsonV, needle: Seq<char>) -> bool {
    match item.str_at("status"@) {
        Some(s) => unicode_lower(s) == needle,
        None => false,
    }
}

/// The needle of the status filter: the query trimmed and lower-cased.
pub open spec fn status_needle(status: Seq<char>) -> Seq<char> {
    unicode_lower(trim(status))
}

/// Keeps the subscriptions whose `status` equals `status` up to case (after
/// trimming it); an empty query keeps them all, and an item without a status
/// never matches.
pub fn filter_subscriptions_by_status(items: Vec<Json>, status: &str) -> (r: Vec<Json>)
    ensures
        status_needle(status@).len() == 0 ==> items_view(r@) == items_view(items@),
        status_needle(status@).len() > 0 ==> items_view(r@) == items_view(items@).filter(
            |j: JsonV| status_matches(j, status_needle(status@)),
        ),
{
    let trimmed = string_of(&trimmed_chars(status));
    let needle = to_lowercase(trimmed.as_str());
    if needle.as_str().is_empty() {
        proof {
            assert(needle@.len() == 0);
        }
        return items;
    }
    let ghost pred = |j: JsonV| status_matches(j, status_needle(status@));
    let ghost all = items_view(items@);
    let mut out: Vec<Json> = Vec::new();
    let n = items.len();
    proof {
        reveal(Seq::filter);
        assert(all.take(0).filter(pred) =~= Seq::<JsonV>::empty());
        assert(items_view(out@) =~= Seq::<JsonV>::empty());
    }
    for i in 0..n
        invariant
            n == items@.len(),
            all == items_view(items@),
            needle@ == status_needle(status@),
            pred == (|j: JsonV| status_matches(j, status_needle(status@))),
            items_view(out@) == all.take(i as int).filter(pred),
    {
        let keep = match items[i].str_at("status") {
            Some(s) => {
                let low = to_lowercase(s);
                same_chars(&chars_of(low.as_str()), &chars_of(needle.as_str()))
            },
            None => false,
        };
        proof {
            reveal(Seq::filter);
            assert(all.take(i + 1).drop_last() =~= all.take(i as int));
            assert(all.take(i + 1).last() == items@[i as int]@);
            assert(keep == pred(items@[i as int]@));
        }
        let ghost before = out@;
        if keep {
            out.push(items[i].deep_clone());
            assert(items_view(out@) =~= items_view(before).push(items@[i as int]@));
        }
    }
    assert(all.take(n as int) =~= all);
    out
}

/// A `paymentFrequencyUnit` as a word: 1 `Day`, 2 `Week`, 3 `Month`,
/// another integer in decimal; a string as it is; anything else the dash.
pub open spec fn interval_label(v: JsonV, key: Seq<char>) -> Seq<char> {
    match v.get(key) {
        Some(x) => match x.as_i64() {
            Some(n) => if n == 1 {
                "Day"@
            } else if n == 2 {
                "Week"@
            } else if n == 3 {
                "Month"@
            } else {
                int_text(n)
            },
            None => or_dash(x.as_str()),
        },
        None => dash(),
    }
}

/// The interval column of a subscription.
pub fn interval_name(v: &Json, key: &str) -> (r: String)
    ensures
        r@ == interval_label(v@, key@),
{
    match v.get(key) {
        Some(x) => match x.as_i64() {
            Some(1) => owned("Day"),
            Some(2) => owned("Week"),
            Some(3) => owned("Month"),
            Some(n) => int_string(n),
            None => match x.as_str() {
                Some(s) => owned(s),
                None => owned("\u{2014}"),
            },
        },
        None => owned("\u{2014}"),
    }
}

pub open spec fn subscription_card_labels() -> Seq<Seq<char>> {
    seq![
        "id:                      "@,
        "status:                  "@,
        "customerId:              "@,
        "paymentAmount:           "@,
        "currencyId:              "@,
        "paymentFrequencyUnit:    "@,
        "paymentFrequency:        "@,
        "numberOfPayments:        "@,
        "successfulPaymentsCount: "@,
        "nextPaymentDate:         "@,
    ]
}

/// The values of the subscription card; `amount` is the printed
/// `paymentAmount`.
pub open spec fn subscription_card_values(v: JsonV, amount: Seq<char>) -> Seq<Seq<char>> {
    seq![
        sub_id_of(v),
        or_dash(v.str_at("status"@)),
        or_dash(v.str_at("customerId"@)),
        amount,
        count_or_dash(v.u64_at("currencyId"@)),
        interval_label(v, "paymentFrequencyUnit"@),
        count_or_dash(v.u64_at("paymentFrequency"@)),
        count_or_dash(v.u64_at("numberOfPayments"@)),
        count_or_dash(v.u64_at("successfulPaymentsCount"@)),
        date_or_dash(v, "nextPaymentDate"@),
    ]
}

/// The table-mode card of one subscription. The money value is printed by
/// the caller (two decimals of the number, or the dash) and shown as given.
pub fn subscription_table(v: &Json, amount: &str) -> (r: String)
    requires
        v@.str_at("nextPaymentDate"@) matches Some(s) ==> cut_ok(s),
    ensures
        r@ == card_text(subscription_card_labels(), subscription_card_values(v@, amount@)),
{
    let mut labels: Vec<&str> = Vec::new();
    labels.push("id:                      ");
    labels.push("status:                  ");
    labels.push("customerId:              ");
    labels.push("paymentAmount:           ");
    labels.push("currencyId:              ");
    labels.push("paymentFrequencyUnit:    ");
    labels.push("paymentFrequency:        ");
    labels.push("numberOfPayments:        ");
    labels.push("successfulPaymentsCount: ");
    labels.push("nextPaymentDate:         ");
    let mut values: Vec<String> = Vec::new();
    values.push(sub_id(v));
    values.push(str_or_dash(v, "status"));
    values.push(str_or_dash(v, "customerId"));
    values.push(owned(amount));
    values.push(count_at(v, "currencyId"));
    values.push(interval_name(v, "paymentFrequencyUnit"));
    values.push(count_at(v, "paymentFrequency"));
    values.push(count_at(v, "numberOfPayments"));
    values.push(count_at(v, "successfulPaymentsCount"));
    values.push(date_cell(v, "nextPaymentDate"));
    assert(Seq::new(labels@.len(), |i: int| labels@[i]@) =~= subscription_card_labels());
    assert(texts(values@) =~= subscription_card_values(v@, amount@));
    render_card(&labels, &values)
}

/// The cells of one subscription row; `amount` is the printed
/// `amountPerPayment`.
pub open spec fn subscription_row(v: JsonV, amount: Seq<char>) -> Seq<Seq<char>> {
    seq![
        sub_id_of(v),
        or_dash(v.str_at("customerName"@)),
        amount,
        interval_label(v, "paymentFrequencyUnit"@),
        or_dash(v.str_at("status"@)),
        date_or_dash(v, "nextPaymentDate"@),
    ]
}

fn subscription_row_cells(v: &Json, amount: &str) -> (r: Vec<String>)
    requires
        v@.str_at("nextPaymentDate"@) matches Some(s) ==> cut_ok(s),
    ensures
        texts(r@) == subscription_row(v@, amount@),
        r@.len() == 6,
{
    let mut cells: Vec<String> = Vec::new();
    cells.push(sub_id(v));
    cells.push(str_or_dash(v, "customerName"));
    cells.push(owned(amount));
    cells.push(interval_name(v, "paymentFrequencyUnit"));
    cells.push(str_or_dash(v, "status"));
    cells.push(date_cell(v, "nextPaymentDate"));
    assert(texts(cells@) =~= subscription_row(v@, amount@));
    cells
}

pub open spec fn subscription_list_headers() -> Seq<Seq<char>> {
    seq!["ID"@, "CUSTOMER"@, "AMOUNT"@, "INTERVAL"@, "STATUS"@, "NEXT"@]
}

pub open spec fn subscription_list_widths() -> Seq<nat> {
    seq![36, 28, 10, 8, 12, 10]
}

/// The table-mode list of subscriptions: ID, CUSTOMER, AMOUNT, INTERVAL,
/// STATUS and the NEXT payment date. `amounts[i]` is the printed amount of
/// `items[i]`.
pub fn subscription_list_table(items: &Vec<Json>, amounts: &Vec<String>) -> (r: String)
    requires
        amounts@.len() == items@.len(),
        dates_cut_ok(items_view(items@), "nextPaymentDate"@),
    ensures
        r@ == table_text(
            subscription_list_headers(),
            subscription_list_widths(),
            Seq::new(items@.len(), |i: int| subscription_row(items@[i]@, amounts@[i]@)),
        ),
{
    let mut rows: Vec<Vec<String>> = Vec::new();
    let n = items.len();
    for i in 0..n
        invariant
            n == items@.len(),
            n == amounts@.len(),
            dates_cut_ok(items_view(items@), "nextPaymentDate"@),
            rows@.len() == i,
            forall|j: int| 0 <= j < i ==> (#[trigger] rows@[j])@.len() == 6 && texts(rows@[j]@) == subscription_row(items@[j]@, amounts@[j]@),
    {
        assert(items_view(items@)[i as int] == items@[i as int]@);
        rows.push(subscription_row_cells(&items[i], amounts[i].as_str()));
    }
    let mut headers: Vec<String> = Vec::new();
    headers.push(owned("ID"));
    headers.push(owned("CUSTOMER"));
    headers.push(owned("AMOUNT"));
    headers.push(owned("INTERVAL"));
    headers.push(owned("STATUS"));
    headers.push(owned("NEXT"));
    let mut widths: Vec<usize> = Vec::new();
    widths.push(36);
    widths.push(28);
    widths.push(10);
    widths.push(8);
    widths.push(12);
    widths.push(10);
    proof {
        assert(texts(headers@) =~= subscription_list_headers());
        assert(nats(widths@) =~= subscription_list_widths());
        reveal_with_fuel(rule_width, 7);
        assert(rows_texts(rows@) =~= Seq::new(items@.len(), |i: int| subscription_row(items@[i]@, amounts@[i]@)));
    }
    render_table(&headers, &widths, 114, &rows)
}

/// The cells of one payment row; `amount` is the printed `amount`.
pub open spec fn payment_row(v: JsonV, amount: Seq<char>) -> Seq<Seq<char>> {
    seq![
        count_or_dash(v.u64_at("paymentOrder"@)),
        date_or_dash(v, "initialExecutionDateTime"@),
        or_dash(v.str_at("status"@)),
        amount,
        or_dash(v.str_at("id"@)),
    ]
}

fn payment_row_cells(v: &Json, amount: &str) -> (r: Vec<String>)
    requires
        v@.str_at("initialExecutionDateTime"@) matches Some(s) ==> cut_ok(s),
    ensures
        texts(r@) == payment_row(v@, amount@),
        r@.len() == 5,
{
    let mut cells: Vec<String> = Vec::new();
    cells.push(count_at(v, "paymentOrder"));
    cells.push(date_cell(v, "initialExecutionDateTime"));
    cells.push(str_or_dash(v, "status"));
    cells.push(owned(amount));
    cells.push(str_or_dash(v, "id"));
    assert(texts(cells@) =~= payment_row(v@, amount@));
    cells
}

pub open spec fn payments_headers() -> Seq<Seq<char>> {
    seq!["ORDER"@, "DATE"@, "STATUS"@, "AMOUNT"@, "ID"@]
}

pub open spec fn payments_widths() -> Seq<nat> {
    seq![6, 10, 16, 10, 36]
}

/// The table-mode list of a subscription's payments: ORDER, DATE, STATUS,
/// AMOUNT, ID. `amounts[i]` is the printed amount of `items[i]`.
pub fn subscription_payments_table(items: &Vec<Json>, amounts: &Vec<String>) -> (r: String)
    requires
        amounts@.len() == items@.len(),
        dates_cut_ok(items_view(items@), "initialExecutionDateTime"@),
    ensures
        r@ == table_text(
            payments_headers(),
            payments_widths(),
            Seq::new(items@.len(), |i: int| payment_row(items@[i]@, amounts@[i]@)),
        ),
{
    let mut rows: Vec<Vec<String>> = Vec::new();
    let n = items.len();
    for i in 0..n
        invariant
            n == items@.len(),
            n == amounts@.len(),
            dates_cut_ok(items_view(items@), "initialExecutionDateTime"@),
            rows@.len() == i,
            forall|j: int| 0 <= j < i ==> (#[trigger] rows@[j])@.len() == 5 && texts(rows@[j]@) == payment_row(items@[j]@, amounts@[j]@),
    {
        assert(items_view(items@)[i as int] == items@[i as int]@);
        rows.push(payment_row_cells(&items[i], amounts[i].as_str()));
    }
    let mut headers: Vec<String> = Vec::new();
    headers.push(owned("ORDER"));
    headers.push(owned("DATE"));
    headers.push(owned("STATUS"));
    headers.push(owned("AMOUNT"));
    headers.push(owned("ID"));
    let mut widths: Vec<usize> = Vec::new();
    widths.push(6);
    widths.push(10);
    widths.push(16);
    widths.push(10);
    widths.push(36);
    proof {
        assert(texts(headers@) =~= payments_headers());
        assert(nats(widths@) =~= payments_widths());
        reveal_with_fuel(rule_width, 6);
        assert(rows_texts(rows@) =~= Seq::new(items@.len(), |i: int| payment_row(items@[i]@, amounts@[i]@)));
    }
    render_table(&headers, &widths, 86, &rows)
}

/// The interval a subscription is created with can be typed back from its
/// table: for the unit number a create body sends, the table shows a word
/// that `--interval` reads (ignoring case) as the same interval.
pub proof fn lemma_interval_word_reads_back(i: Interval, v: JsonV, key: Seq<char>)
    requires
        v.get(key) == Some(JsonV::Number(int_text(interval_code(i)))),
    ensures
        interval_named(interval_label(v, key), true) == Some(i),
{
    let code = interval_code(i);
    let lit = int_text(code);
    assert(lit =~= seq![crate::text::digit_char(code as nat)]);
    assert(lit.drop_last() =~= Seq::<char>::empty());
    assert(crate::text::digits_value(Seq::<char>::empty()) == 0);
    assert(crate::text::all_digits(lit));
    assert(crate::text::digits_value(lit) == code);
    assert(crate::text::parse_signed(lit) == Some(code));
    reveal_strlit("Day");
    reveal_strlit("day");
    reveal_strlit("Week");
    reveal_strlit("week");
    reveal_strlit("Month");
    reveal_strlit("month");
    reveal_strlit("daily");
    reveal_strlit("weekly");
    reveal_strlit("monthly");
    let word = interval_label(v, key);
    match i {
        Interval::Day => {
            assert(word == "Day"@);
            assert(lower_text(word) =~= "day"@);
            assert(interval_named(word, true) == Some(Interval::Day));
        },
        Interval::Week => {
            assert(word == "Week"@);
            assert(lower_text(word) =~= "week"@);
            assert(interval_named(word, true) == Some(Interval::Week));
        },
        Interval::Month => {
            assert(word == "Month"@);
            assert(lower_text(word) =~= "month"@);
            assert("month"@[0] != "daily"@[0]);
            assert(interval_named(word, true) == Some(Interval::Month));
        },
    }
}

} // verus!
