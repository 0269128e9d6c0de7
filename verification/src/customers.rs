//! Customers and their vaulted payment methods: request bodies and the
//! tables of table mode.

use vstd::prelude::*;

use crate::ach::{AccountHolderTypeArg, AccountTypeArg, account_type_code, opt_holder_type, push_opt_holder_type};
use crate::json::{Json, JsonV, entries_view, int_number, int_text, object, opt_entry, opt_text, push_entry, push_opt_str, group_lookup};
use crate::transactions::{ExpiryError, expiry, parse_exp};
use crate::json::items_view;
use crate::output::OutputFormat;
use crate::table::{card_text, cut_ok, date_cell, date_or_dash, dates_cut_ok, dash, extract_page, or_dash, page_of, render_card, render_table, rows_texts, str_or_dash, table_text, yes_no, yes_no_at, rule_width, nats};
use crate::text::{owned, append, append_decimal, decimal, texts, trimmed_chars, trim, string_of};

verus! {

/// The entries of a customer body from the values of its five fields.
pub open spec fn customer_fields(
    first_name: Option<JsonV>,
    last_name: Option<JsonV>,
    company: Option<JsonV>,
    email: Option<JsonV>,
    mobile: Option<JsonV>,
) -> Seq<(Seq<char>, JsonV)> {
    opt_entry("firstName"@, first_name)
        + opt_entry("lastName"@, last_name)
        + opt_entry("companyName"@, company)
        + opt_entry("email"@, email)
        + opt_entry("mobilePhoneNumber"@, mobile)
}

/// Each field of a customer body holds its own value: `firstName` the first
/// value, `lastName` the second, `companyName` the third, `email` the
/// fourth, `mobilePhoneNumber` the fifth; a missing value leaves its field out.
pub proof fn lemma_customer_fields_keys(
    first_name: Option<JsonV>,
    last_name: Option<JsonV>,
    company: Option<JsonV>,
    email: Option<JsonV>,
    mobile: Option<JsonV>,
)
    ensures
        JsonV::Object(customer_fields(first_name, last_name, company, email, mobile)).get("firstName"@) == first_name,
        JsonV::Object(customer_fields(first_name, last_name, company, email, mobile)).get("lastName"@) == last_name,
        JsonV::Object(customer_fields(first_name, last_name, company, email, mobile)).get("companyName"@) == company,
        JsonV::Object(customer_fields(first_name, last_name, company, email, mobile)).get("email"@) == email,
        JsonV::Object(customer_fields(first_name, last_name, company, email, mobile)).get("mobilePhoneNumber"@) == mobile,
{
    broadcast use group_lookup;
    reveal_strlit("firstName");
    reveal_strlit("lastName");
    reveal_strlit("companyName");
    reveal_strlit("email");
    reveal_strlit("mobilePhoneNumber");
    assert("firstName"@.len() == 9);
    assert("lastName"@.len() == 8);
    assert("companyName"@.len() == 11);
    assert("email"@.len() == 5);
    assert("mobilePhoneNumber"@.len() == 17);
}

/// The entries of a customer create or update body: each field only when given.
pub open spec fn customer_entries(
    first_name: Option<&str>,
    last_name: Option<&str>,
    company: Option<&str>,
    email: Option<&str>,
    mobile: Option<&str>,
) -> Seq<(Seq<char>, JsonV)> {
    customer_fields(opt_text(first_name), opt_text(last_name), opt_text(company), opt_text(email), opt_text(mobile))
}

/// The body of `customers create` and `customers update`; a field the user
/// did not give is left out, so the API sees only what was typed.
pub fn build_customer_body(
    first_name: Option<&str>,
    last_name: Option<&str>,
    company: Option<&str>,
    email: Option<&str>,
    mobile: Option<&str>,
) -> (r: Json)
    ensures
        r@ == JsonV::Object(customer_entries(first_name, last_name, company, email, mobile)),
        r@.get("firstName"@) == opt_text(first_name),
        r@.get("lastName"@) == opt_text(last_name),
        r@.get("companyName"@) == opt_text(company),
        r@.get("email"@) == opt_text(email),
        r@.get("mobilePhoneNumber"@) == opt_text(mobile),
{
    proof {
        lemma_customer_fields_keys(opt_text(first_name), opt_text(last_name), opt_text(company), opt_text(email), opt_text(mobile));
    }
    let mut obj: Vec<(String, Json)> = Vec::new();
    assert(entries_view(obj@) =~= Seq::<(Seq<char>, JsonV)>::empty());
    push_opt_str(&mut obj, "firstName", first_name);
    assert(entries_view(obj@) =~= opt_entry("firstName"@, opt_text(first_name)));
    push_opt_str(&mut obj, "lastName", last_name);
    push_opt_str(&mut obj, "companyName", company);
    push_opt_str(&mut obj, "email", email);
    push_opt_str(&mut obj, "mobilePhoneNumber", mobile);
    object(obj)
}

/// The entries of an `add-card` body for an expiry already read as
/// `(month, year)`.
pub open spec fn card_entries(name: Option<&str>, pan: &str, month: nat, year: nat, cvv: Option<&str>) -> Seq<(Seq<char>, JsonV)> {
    opt_entry("name"@, opt_text(name))
        + seq![
            ("pan"@, JsonV::Str(pan@)),
            ("expirationMonth"@, JsonV::Number(int_text(month as int))),
            ("expirationYear"@, JsonV::Number(int_text(year as int))),
        ]
        + opt_entry("securityCode"@, opt_text(cvv))
}

/// The body of `customers add-card`. The expiry is read by `parse_exp`
/// (`MM/YY` or `MM/YYYY`); when it is refused, so is the card.
pub fn build_add_card_body(name: Option<&str>, pan: &str, exp: &str, cvv: Option<&str>) -> (r: Result<Json, ExpiryError>)
    ensures
        match expiry(exp@) {
            Ok((m, y)) => r matches Ok(j) && j@ == JsonV::Object(card_entries(name, pan, m, y, cvv)),
            Err(f) => r matches Err(e) && e.fault() == f && e.input() == exp@,
        },
{
    let (month, year) = match parse_exp(exp) {
        Ok(my) => my,
        Err(e) => return Err(e),
    };
    let mut obj: Vec<(String, Json)> = Vec::new();
    assert(entries_view(obj@) =~= Seq::<(Seq<char>, JsonV)>::empty());
    push_opt_str(&mut obj, "name", name);
    let ghost named = entries_view(obj@);
    push_entry(&mut obj, "pan", Json::text(pan));
    push_entry(&mut obj, "expirationMonth", int_number(month as i64));
    push_entry(&mut obj, "expirationYear", int_number(year as i64));
    assert(entries_view(obj@) =~= named + seq![
        ("pan"@, JsonV::Str(pan@)),
        ("expirationMonth"@, JsonV::Number(int_text(month as int))),
        ("expirationYear"@, JsonV::Number(int_text(year as int))),
    ]);
    push_opt_str(&mut obj, "securityCode", cvv);
    Ok(object(obj))
}

/// The entries of an `add-ach` body.
pub open spec fn bank_entries(
    name: Option<&str>,
    account: &str,
    routing: &str,
    account_type: AccountTypeArg,
    holder: Option<AccountHolderTypeArg>,
    tax_id: Option<&str>,
) -> Seq<(Seq<char>, JsonV)> {
    opt_entry("name"@, opt_text(name))
        + seq![
            ("accountNumber"@, JsonV::Str(account@)),
            ("routingNumber"@, JsonV::Str(routing@)),
            ("accountType"@, JsonV::Number(int_text(account_type_code(account_type)))),
        ]
        + opt_entry("accountHolderType"@, opt_holder_type(holder))
        + opt_entry("taxId"@, opt_text(tax_id))
}

/// The body of `customers add-ach`; the name, holder type and tax id only
/// when given.
pub fn build_add_ach_body(
    name: Option<&str>,
    account: &str,
    routing: &str,
    account_type: AccountTypeArg,
    account_holder_type: Option<AccountHolderTypeArg>,
    tax_id: Option<&str>,
) -> (r: Json)
    ensures
        r@ == JsonV::Object(bank_entries(name, account, routing, account_type, account_holder_type, tax_id)),
{
    let mut obj: Vec<(String, Json)> = Vec::new();
    assert(entries_view(obj@) =~= Seq::<(Seq<char>, JsonV)>::empty());
    push_opt_str(&mut obj, "name", name);
    let ghost named = entries_view(obj@);
    push_entry(&mut obj, "accountNumber", Json::text(account));
    push_entry(&mut obj, "routingNumber", Json::text(routing));
    push_entry(&mut obj, "accountType", int_number(account_type.to_api_int() as i64));
    assert(entries_view(obj@) =~= named + seq![
        ("accountNumber"@, JsonV::Str(account@)),
        ("routingNumber"@, JsonV::Str(routing@)),
        ("accountType"@, JsonV::Number(int_text(account_type_code(account_type)))),
    ]);
    push_opt_holder_type(&mut obj, "accountHolderType", account_holder_type);
    push_opt_str(&mut obj, "taxId", tax_id);
    object(obj)
}

/// The labels of the customer card.
pub open spec fn customer_card_labels() -> Seq<Seq<char>> {
    seq![
        "id:                 "@,
        "firstName:          "@,
        "lastName:           "@,
        "email:              "@,
        "mobilePhoneNumber:  "@,
        "companyName:        "@,
        "createdOn:          "@,
    ]
}

/// The values of the customer card: each field, or the dash.
pub open spec fn customer_card_values(v: JsonV) -> Seq<Seq<char>> {
    seq![
        or_dash(v.str_at("id"@)),
        or_dash(v.str_at("firstName"@)),
        or_dash(v.str_at("lastName"@)),
        or_dash(v.str_at("email"@)),
        or_dash(v.str_at("mobilePhoneNumber"@)),
        or_dash(v.str_at("companyName"@)),
        or_dash(v.str_at("createdOn"@)),
    ]
}

/// The table-mode card of one customer.
pub fn customer_table(v: &Json) -> (r: String)
    ensures
        r@ == card_text(customer_card_labels(), customer_card_values(v@)),
{
    let mut labels: Vec<&str> = Vec::new();
    labels.push("id:                 ");
    labels.push("firstName:          ");
    labels.push("lastName:           ");
    labels.push("email:              ");
    labels.push("mobilePhoneNumber:  ");
    labels.push("companyName:        ");
    labels.push("createdOn:          ");
    let mut values: Vec<String> = Vec::new();
    values.push(str_or_dash(v, "id"));
    values.push(str_or_dash(v, "firstName"));
    values.push(str_or_dash(v, "lastName"));
    values.push(str_or_dash(v, "email"));
    values.push(str_or_dash(v, "mobilePhoneNumber"));
    values.push(str_or_dash(v, "companyName"));
    values.push(str_or_dash(v, "createdOn"));
    assert(Seq::new(labels@.len(), |i: int| labels@[i]@) =~= customer_card_labels());
    assert(texts(values@) =~= customer_card_values(v@));
    render_card(&labels, &values)
}

/// The items and total of a customer page response.
pub fn extract_customer_items(v: &Json) -> (r: (Vec<Json>, u64))
    ensures
        items_view(r.0@) == page_of(v@).0,
        r.1 as nat == page_of(v@).1,
{
    extract_page(v)
}

/// The text under `key`, or nothing.
pub open spec fn str_or_empty(v: JsonV, key: Seq<char>) -> Seq<char> {
    match v.str_at(key) {
        Some(s) => s,
        None => Seq::empty(),
    }
}

/// The NAME column: first and last name, trimmed; the dash when both are
/// missing or empty.
pub open spec fn customer_name(v: JsonV) -> Seq<char> {
    let first = str_or_empty(v, "firstName"@);
    let last = str_or_empty(v, "lastName"@);
    if first.len() == 0 && last.len() == 0 {
        dash()
    } else {
        trim(first + " "@ + last)
    }
}

/// The cells of one customer row.
pub open spec fn customer_row(v: JsonV) -> Seq<Seq<char>> {
    seq![
        or_dash(v.str_at("id"@)),
        customer_name(v),
        or_dash(v.str_at("email"@)),
        or_dash(v.str_at("mobilePhoneNumber"@)),
        date_or_dash(v, "createdOn"@),
    ]
}

pub open spec fn customer_list_headers() -> Seq<Seq<char>> {
    seq!["ID"@, "NAME"@, "EMAIL"@, "PHONE"@, "CREATED"@]
}

pub open spec fn customer_list_widths() -> Seq<nat> {
    seq![36, 28, 28, 14, 10]
}

fn customer_row_cells(item: &Json) -> (r: Vec<String>)
    requires
        item@.str_at("createdOn"@) matches Some(s) ==> cut_ok(s),
    ensures
        texts(r@) == customer_row(item@),
        r@.len() == 5,
{
    let first = match item.str_at("firstName") {
        Some(s) => s,
        None => "",
    };
    let last = match item.str_at("lastName") {
        Some(s) => s,
        None => "",
    };
    proof {
        reveal_strlit("");
    }
    let name = if first.is_empty() && last.is_empty() {
        owned("\u{2014}")
    } else {
        let mut full = owned(first);
        append(&mut full, " ");
        append(&mut full, last);
        string_of(&trimmed_chars(full.as_str()))
    };
    let mut cells: Vec<String> = Vec::new();
    cells.push(str_or_dash(item, "id"));
    cells.push(name);
    cells.push(str_or_dash(item, "email"));
    cells.push(str_or_dash(item, "mobilePhoneNumber"));
    cells.push(date_cell(item, "createdOn"));
    assert(texts(cells@) =~= customer_row(item@));
    cells
}

/// The table-mode list of customers: ID, NAME, EMAIL, PHONE and the CREATED
/// date.
pub fn customer_list_table(items: &Vec<Json>) -> (r: String)
    requires
        dates_cut_ok(items_view(items@), "createdOn"@),
    ensures
        r@ == table_text(customer_list_headers(), customer_list_widths(), Seq::new(items@.len(), |i: int| customer_row(items@[i]@))),
{
    let mut rows: Vec<Vec<String>> = Vec::new();
    let n = items.len();
    for i in 0..n
        invariant
            n == items@.len(),
            dates_cut_ok(items_view(items@), "createdOn"@),
            rows@.len() == i,
            forall|j: int| 0 <= j < i ==> (#[trigger] rows@[j])@.len() == 5 && texts(rows@[j]@) == customer_row(items@[j]@),
    {
        assert(items_view(items@)[i as int] == items@[i as int]@);
        rows.push(customer_row_cells(&items[i]));
    }
    let mut headers: Vec<String> = Vec::new();
    headers.push(owned("ID"));
    headers.push(owned("NAME"));
    headers.push(owned("EMAIL"));
    headers.push(owned("PHONE"));
    headers.push(owned("CREATED"));
    let mut widths: Vec<usize> = Vec::new();
    widths.push(36);
    widths.push(28);
    widths.push(28);
    widths.push(14);
    widths.push(10);
    proof {
        assert(texts(headers@) =~= customer_list_headers());
        assert(nats(widths@) =~= customer_list_widths());
        reveal_with_fuel(rule_width, 6);
        assert(rows_texts(rows@) =~= Seq::new(items@.len(), |i: int| customer_row(items@[i]@)));
    }
    render_table(&headers, &widths, 124, &rows)
}

/// The PAN/ACCT column: the card's `panMask`, else the bank `accountNumber`,
/// else the dash.
pub open spec fn pan_or_account(v: JsonV) -> Seq<char> {
    match v.str_at("panMask"@) {
        Some(s) => s,
        None => or_dash(v.str_at("accountNumber"@)),
    }
}

/// A month as at least two digits (`{m:02}`).
pub open spec fn two_digits(m: nat) -> Seq<char> {
    if m < 10 {
        "0"@ + decimal(m)
    } else {
        decimal(m)
    }
}

/// The EXP column: `MM/YYYY` when both parts are unsigned numbers, else the
/// dash.
pub open spec fn expiry_text(v: JsonV) -> Seq<char> {
    match (v.u64_at("expirationMonth"@), v.u64_at("expirationYear"@)) {
        (Some(m), Some(y)) => two_digits(m) + "/"@ + decimal(y),
        _ => dash(),
    }
}

fn pan_or_account_cell(v: &Json) -> (r: String)
    ensures
        r@ == pan_or_account(v@),
{
    match v.str_at("panMask") {
        Some(s) => owned(s),
        None => str_or_dash(v, "accountNumber"),
    }
}

fn expiry_cell(v: &Json) -> (r: String)
    ensures
        r@ == expiry_text(v@),
{
    match (v.u64_at("expirationMonth"), v.u64_at("expirationYear")) {
        (Some(m), Some(y)) => {
            let mut s = if m < 10 {
                owned("0")
            } else {
                String::new()
            };
            append_decimal(&mut s, m);
            append(&mut s, "/");
            append_decimal(&mut s, y);
            s
        },
        _ => owned("\u{2014}"),
    }
}

pub open spec fn payment_method_card_labels() -> Seq<Seq<char>> {
    seq![
        "id:               "@,
        "typeName:         "@,
        "pan/account:      "@,
        "exp:              "@,
        "isDefault:        "@,
    ]
}

/// The values of the payment-method card.
pub open spec fn payment_method_values(v: JsonV) -> Seq<Seq<char>> {
    seq![
        or_dash(v.str_at("id"@)),
        or_dash(v.str_at("typeName"@)),
        pan_or_account(v),
        expiry_text(v),
        yes_no(v.bool_at("isDefault"@)),
    ]
}

fn payment_method_cells(v: &Json) -> (r: Vec<String>)
    ensures
        texts(r@) == payment_method_values(v@),
        r@.len() == 5,
{
    let mut cells: Vec<String> = Vec::new();
    cells.push(str_or_dash(v, "id"));
    cells.push(str_or_dash(v, "typeName"));
    cells.push(pan_or_account_cell(v));
    cells.push(expiry_cell(v));
    cells.push(yes_no_at(v, "isDefault"));
    assert(texts(cells@) =~= payment_method_values(v@));
    cells
}

/// The table-mode card of one payment method.
pub fn payment_method_table(v: &Json) -> (r: String)
    ensures
        r@ == card_text(payment_method_card_labels(), payment_method_values(v@)),
{
    let mut labels: Vec<&str> = Vec::new();
    labels.push("id:               ");
    labels.push("typeName:         ");
    labels.push("pan/account:      ");
    labels.push("exp:              ");
    labels.push("isDefault:        ");
    let values = payment_method_cells(v);
    assert(Seq::new(labels@.len(), |i: int| labels@[i]@) =~= payment_method_card_labels());
    render_card(&labels, &values)
}

/// Quiet mode of a payment method: its `id`, if any.
pub fn payment_method_quiet(v: &Json) -> (r: Option<&str>)
    ensures
        r matches Some(s) ==> v@.str_at("id"@) == Some(s@),
        r is None <==> v@.str_at("id"@) is None,
{
    v.str_at("id")
}

/// The payment methods of a response: a bare array, else the `items` array,
/// else nothing.
pub open spec fn payment_methods_of(v: JsonV) -> Seq<JsonV> {
    match v.as_array() {
        Some(a) => a,
        None => match v.array_at("items"@) {
            Some(a) => a,
            None => Seq::empty(),
        },
    }
}

/// Reads the payment methods of a response.
pub fn payment_method_items(v: &Json) -> (r: Vec<Json>)
    ensures
        items_view(r@) == payment_methods_of(v@),
{
    match v.as_array() {
        Some(a) => crate::json::clone_items(a),
        None => match v.array_at("items") {
            Some(a) => crate::json::clone_items(a),
            None => {
                let e: Vec<Json> = Vec::new();
                assert(items_view(e@) =~= Seq::<JsonV>::empty());
                e
            },
        },
    }
}

pub open spec fn payment_methods_headers() -> Seq<Seq<char>> {
    seq!["ID"@, "TYPE"@, "PAN/ACCT"@, "EXP"@, "DEFAULT"@]
}

pub open spec fn payment_methods_widths() -> Seq<nat> {
    seq![36, 12, 20, 7, 7]
}

/// The table-mode list of payment methods: ID, TYPE, PAN/ACCT, EXP, DEFAULT.
pub fn payment_methods_table(items: &Vec<Json>) -> (r: String)
    ensures
        r@ == table_text(payment_methods_headers(), payment_methods_widths(), Seq::new(items@.len(), |i: int| payment_method_values(items@[i]@))),
{
    let mut rows: Vec<Vec<String>> = Vec::new();
    let n = items.len();
    for i in 0..n
        invariant
            n == items@.len(),
            rows@.len() == i,
            forall|j: int| 0 <= j < i ==> (#[trigger] rows@[j])@.len() == 5 && texts(rows@[j]@) == payment_method_values(items@[j]@),
    {
        rows.push(payment_method_cells(&items[i]));
    }
    let mut headers: Vec<String> = Vec::new();
    headers.push(owned("ID"));
    headers.push(owned("TYPE"));
    headers.push(owned("PAN/ACCT"));
    headers.push(owned("EXP"));
    headers.push(owned("DEFAULT"));
    let mut widths: Vec<usize> = Vec::new();
    widths.push(36);
    widths.push(12);
    widths.push(20);
    widths.push(7);
    widths.push(7);
    proof {
        assert(texts(headers@) =~= payment_methods_headers());
        assert(nats(widths@) =~= payment_methods_widths());
        reveal_with_fuel(rule_width, 6);
        assert(rows_texts(rows@) =~= Seq::new(items@.len(), |i: int| payment_method_values(items@[i]@)));
    }
    render_table(&headers, &widths, 90, &rows)
}

/// `customers delete` needs `--yes`; without it, the command is refused
/// with a hint.
pub fn confirm_delete_customer(id: &str, yes: bool) -> (r: Result<(), String>)
    ensures
        yes ==> r is Ok,
        !yes ==> (r matches Err(m) && m@ == "deletion requires --yes to confirm (e.g. `customers delete "@ + id@ + " --yes`)"@),
{
    if yes {
        return Ok(());
    }
    let mut m = owned("deletion requires --yes to confirm (e.g. `customers delete ");
    append(&mut m, id);
    append(&mut m, " --yes`)");
    Err(m)
}

/// `customers remove-method` needs `--yes`; without it, the command is
/// refused with a hint.
pub fn confirm_remove_method(customer_id: &str, method_id: &str, yes: bool) -> (r: Result<(), String>)
    ensures
        yes ==> r is Ok,
        !yes ==> (r matches Err(m) && m@ == "removal requires --yes to confirm (e.g. `customers remove-method "@
            + customer_id@ + " "@ + method_id@ + " --yes`)"@),
{
    if yes {
        return Ok(());
    }
    let mut m = owned("removal requires --yes to confirm (e.g. `customers remove-method ");
    append(&mut m, customer_id);
    append(&mut m, " ");
    append(&mut m, method_id);
    append(&mut m, " --yes`)");
    Err(m)
}

/// What a successful deletion prints: nothing in JSON mode (an empty
/// output), a sentence in table mode, the id in quiet mode.
pub fn deleted_notice(fmt: OutputFormat, id: &str) -> (r: Option<String>)
    ensures
        fmt == OutputFormat::Json ==> r is None,
        fmt == OutputFormat::Table ==> (r matches Some(t) && t@ == "Deleted customer "@ + id@ + "."@),
        fmt == OutputFormat::Quiet ==> (r matches Some(t) && t@ == id@),
{
    match fmt {
        OutputFormat::Json => None,
        OutputFormat::Table => {
            let mut t = owned("Deleted customer ");
            append(&mut t, id);
            append(&mut t, ".");
            Some(t)
        },
        OutputFormat::Quiet => Some(owned(id)),
    }
}

/// What a successful removal of a payment method prints, as for deletion.
pub fn removed_notice(fmt: OutputFormat, method_id: &str) -> (r: Option<String>)
    ensures
        fmt == OutputFormat::Json ==> r is None,
        fmt == OutputFormat::Table ==> (r matches Some(t) && t@ == "Removed payment method "@ + method_id@ + "."@),
        fmt == OutputFormat::Quiet ==> (r matches Some(t) && t@ == method_id@),
{
    match fmt {
        OutputFormat::Json => None,
        OutputFormat::Table => {
            let mut t = owned("Removed payment method ");
            append(&mut t, method_id);
            append(&mut t, ".");
            Some(t)
        },
        OutputFormat::Quiet => Some(owned(method_id)),
    }
}

/// A field of an update: the flag when given, else the current record's
/// value (when it is a string).
pub open spec fn kept_or_given(flag: Option<String>, current: JsonV, key: Seq<char>) -> Option<JsonV> {
    match flag {
        Some(s) => Some(JsonV::Str(s@)),
        None => match current.str_at(key) {
            Some(c) => Some(JsonV::Str(c)),
            None => None,
        },
    }
}

fn pick<'a>(flag: &'a Option<String>, current: &'a Json, key: &str) -> (r: Option<&'a str>)
    ensures
        opt_text(r) == kept_or_given(*flag, current@, key@),
{
    match flag {
        Some(s) => Some(s.as_str()),
        None => current.str_at(key),
    }
}

/// What an update body must hold under a field: the value the user gave,
/// else the string the current record holds under that field, else
/// nothing (the field is left out).
pub open spec fn update_holds(body: JsonV, key: Seq<char>, flag: Option<String>, current: JsonV) -> bool {
    &&& flag matches Some(s) ==> body.get(key) == Some(JsonV::Str(s@))
    &&& flag is None && current.str_at(key) is Some ==> body.get(key) == Some(JsonV::Str(current.str_at(key)->0))
    &&& flag is None && current.str_at(key) is None ==> body.get(key) is None
}

/// An update never loses data: each of the five fields of the merged body
/// is the given flag, or the current record's value when the flag is left
/// out, so a field the user did not name is sent back unchanged.
pub proof fn lemma_update_keeps_unnamed_fields(
    current: JsonV,
    first_name: Option<String>,
    last_name: Option<String>,
    company: Option<String>,
    email: Option<String>,
    mobile: Option<String>,
)
    ensures
        ({
            let body = JsonV::Object(customer_fields(
                kept_or_given(first_name, current, "firstName"@),
                kept_or_given(last_name, current, "lastName"@),
                kept_or_given(company, current, "companyName"@),
                kept_or_given(email, current, "email"@),
                kept_or_given(mobile, current, "mobilePhoneNumber"@),
            ));
            &&& update_holds(body, "firstName"@, first_name, current)
            &&& update_holds(body, "lastName"@, last_name, current)
            &&& update_holds(body, "companyName"@, company, current)
            &&& update_holds(body, "email"@, email, current)
            &&& update_holds(body, "mobilePhoneNumber"@, mobile, current)
        }),
{
    broadcast use group_lookup;
    reveal_strlit("firstName");
    reveal_strlit("lastName");
    reveal_strlit("companyName");
    reveal_strlit("email");
    reveal_strlit("mobilePhoneNumber");
    assert("firstName"@.len() == 9);
    assert("lastName"@.len() == 8);
    assert("companyName"@.len() == 11);
    assert("email"@.len() == 5);
    assert("mobilePhoneNumber"@.len() == 17);
}

/// The body of `customers update`: the API replaces the whole record, so
/// each field the user did not give keeps the value of the current record.
pub fn merge_customer_update(
    current: &Json,
    first_name: Option<String>,
    last_name: Option<String>,
    company: Option<String>,
    email: Option<String>,
    mobile: Option<String>,
) -> (r: Json)
    ensures
        r@ == JsonV::Object(customer_fields(
            kept_or_given(first_name, current@, "firstName"@),
            kept_or_given(last_name, current@, "lastName"@),
            kept_or_given(company, current@, "companyName"@),
            kept_or_given(email, current@, "email"@),
            kept_or_given(mobile, current@, "mobilePhoneNumber"@),
        )),
        update_holds(r@, "firstName"@, first_name, current@),
        update_holds(r@, "lastName"@, last_name, current@),
        update_holds(r@, "companyName"@, company, current@),
        update_holds(r@, "email"@, email, current@),
        update_holds(r@, "mobilePhoneNumber"@, mobile, current@),
{
    proof {
        lemma_update_keeps_unnamed_fields(current@, first_name, last_name, company, email, mobile);
    }
    build_customer_body(
        pick(&first_name, current, "firstName"),
        pick(&last_name, current, "lastName"),
        pick(&company, current, "companyName"),
        pick(&email, current, "email"),
        pick(&mobile, current, "mobilePhoneNumber"),
    )
}

} // verus!
