//! Card transactions: the expiry as typed, and the request bodies of
//! `sale`, `auth`, `capture`, `void`, `refund`, `settle` and `tip-adjust`.

use vstd::prelude::*;
use vstd::utf8::encode_utf8;

use crate::text::{chars_of, parse_digits, parse_digits_chars, owned, append, append_decimal, decimal};
use crate::json::{Json, JsonV, entries_view, int_number, int_text, object, opt_entry, opt_str, push_entry, push_opt_text};
use crate::money::{DecimalValue, MoneyError, MoneyErrorKind, checked_decimal, decimal_display, money_message, parse_amount, to_amount_number};
use crate::pos::{money_sent, opt_amount, opt_wf, push_opt_amount};
use crate::subscriptions::opt_int;
use crate::address::push_opt_int;
use crate::json::{items_view, clone_items, lemma_array_view, group_lookup, lookup};
use crate::table::{first_chars, prefix_chars};
use crate::text::{same_chars, text_less, text_lt, to_lowercase, unicode_lower, push_char, string_of, texts, trim, trimmed_chars, join, join_strings};
use crate::table::{card_text, dash, render_card};

verus! {

/// Why an expiry was refused; each holds the text as typed.
#[derive(Debug, PartialEq, Eq)]
pub enum ExpiryError {
    /// No `/` between month and year.
    MissingSlash(String),
    /// The month is not a number.
    InvalidMonth(String),
    /// The month is outside 1..=12.
    MonthOutOfRange(u32, String),
    /// The year is neither 2 nor 4 bytes long.
    YearLength(usize, String),
    /// The year is not a number.
    InvalidYear(String),
}

pub enum ExpiryFault {
    MissingSlash,
    InvalidMonth,
    MonthOutOfRange(nat),
    YearLength(nat),
    InvalidYear,
}

impl ExpiryError {
    pub open spec fn fault(self) -> ExpiryFault {
        match self {
            ExpiryError::MissingSlash(_) => ExpiryFault::MissingSlash,
            ExpiryError::InvalidMonth(_) => ExpiryFault::InvalidMonth,
            ExpiryError::MonthOutOfRange(m, _) => ExpiryFault::MonthOutOfRange(m as nat),
            ExpiryError::YearLength(n, _) => ExpiryFault::YearLength(n as nat),
            ExpiryError::InvalidYear(_) => ExpiryFault::InvalidYear,
        }
    }

    pub open spec fn input(self) -> Seq<char> {
        match self {
            ExpiryError::MissingSlash(s) => s@,
            ExpiryError::InvalidMonth(s) => s@,
            ExpiryError::MonthOutOfRange(_, s) => s@,
            ExpiryError::YearLength(_, s) => s@,
            ExpiryError::InvalidYear(s) => s@,
        }
    }
}

/// Index of the first `/`, or -1.
pub open spec fn slash_index(s: Seq<char>) -> int
    decreases s.len(),
{
    if s.len() == 0 {
        -1
    } else if s[0] == '/' {
        0
    } else if slash_index(s.drop_first()) < 0 {
        -1
    } else {
        1 + slash_index(s.drop_first())
    }
}

/// The expiry rules: `MM/YY` or `MM/YYYY` split at the first `/`; the month
/// ASCII digits with a value in 1..=12; the year exactly 2 or 4 bytes, all
/// ASCII digits (no sign); a 2-digit year means 2000 + YY. The byte length
/// is what `str::len` reports.
pub open spec fn expiry(s: Seq<char>) -> Result<(nat, nat), ExpiryFault> {
    let k = slash_index(s);
    if k < 0 {
        Err(ExpiryFault::MissingSlash)
    } else {
        let month_token = s.take(k);
        let year_token = s.skip(k + 1);
        match parse_digits(month_token, 0xFFFF_FFFF) {
            None => Err(ExpiryFault::InvalidMonth),
            Some(m) => if m == 0 || m > 12 {
                Err(ExpiryFault::MonthOutOfRange(m))
            } else {
                let len = (encode_utf8(year_token).len() as usize) as nat;
                if len != 2 && len != 4 {
                    Err(ExpiryFault::YearLength(len))
                } else {
                    match parse_digits(year_token, 0xFFFF_FFFF) {
                        None => Err(ExpiryFault::InvalidYear),
                        Some(y) => Ok((m, if len == 2 { 2000 + y } else { y })),
                    }
                }
            },
        }
    }
}

proof fn lemma_slash_index(s: Seq<char>)
    ensures
        -1 <= slash_index(s) < s.len(),
        slash_index(s) >= 0 ==> s[slash_index(s)] == '/' && forall|j: int| 0 <= j < slash_index(s) ==> s[j] != '/',
        slash_index(s) < 0 ==> forall|j: int| 0 <= j < s.len() ==> s[j] != '/',
    decreases s.len(),
{
    if s.len() > 0 && s[0] != '/' {
        lemma_slash_index(s.drop_first());
        assert forall|j: int| 1 <= j < s.len() implies s[j] == s.drop_first()[j - 1] by {}
    }
}

/// Parses a card expiry in `MM/YY` or `MM/YYYY` form into (month, year).
pub fn parse_exp(s: &str) -> (r: Result<(u32, u32), ExpiryError>)
    ensures
        match r {
            Ok((m, y)) => expiry(s@) == Ok::<(nat, nat), ExpiryFault>((m as nat, y as nat)),
            Err(e) => expiry(s@) == Err::<(nat, nat), ExpiryFault>(e.fault()) && e.input() == s@,
        },
{
    let cs = chars_of(s);
    let n = cs.len();
    proof {
        lemma_slash_index(s@);
    }
    let mut k: usize = 0;
    while k < n && cs[k] != '/'
        invariant
            n == cs@.len(),
            cs@ == s@,
            k <= n,
            forall|j: int| 0 <= j < k ==> cs@[j] != '/',
        decreases n - k,
    {
        k = k + 1;
    }
    if k == n {
        return Err(ExpiryError::MissingSlash(owned(s)));
    }
    assert(slash_index(s@) == k);
    let month_token = s.substring_char(0, k);
    let year_token = s.substring_char(k + 1, n);
    assert(month_token@ =~= s@.take(k as int));
    assert(year_token@ =~= s@.skip(k + 1));
    let month = match parse_digits_chars(&chars_of(month_token), 0xFFFF_FFFF) {
        Some(m) => m as u32,
        None => {
            return Err(ExpiryError::InvalidMonth(owned(s)));
        },
    };
    if month == 0 || month > 12 {
        return Err(ExpiryError::MonthOutOfRange(month, owned(s)));
    }
    let year_len = year_token.len();
    if year_len != 2 && year_len != 4 {
        return Err(ExpiryError::YearLength(year_len, owned(s)));
    }
    let raw_year = match parse_digits_chars(&chars_of(year_token), 0xFFFF_FFFF) {
        Some(y) => y as u32,
        None => {
            return Err(ExpiryError::InvalidYear(owned(s)));
        },
    };
    let year = if year_len == 2 {
        proof {
            lemma_two_byte_year(year_token@);
        }
        2000 + raw_year
    } else {
        raw_year
    };
    Ok((month, year))
}

/// A year token of two bytes holds at most two digits, so it stays below 100.
proof fn lemma_two_byte_year(t: Seq<char>)
    requires
        encode_utf8(t).len() as usize == 2,
        t.len() <= usize::MAX,
        parse_digits(t, 0xFFFF_FFFF) is Some,
    ensures
        parse_digits(t, 0xFFFF_FFFF)->0 < 100,
{
    assert(vstd::utf8::is_ascii_chars(t)) by {
        assert forall|i: int| 0 <= i < t.len() implies '\0' <= #[trigger] t[i] <= '\u{7f}' by {
            assert(crate::text::is_digit(t[i]));
        }
    }
    vstd::utf8::is_ascii_chars_encode_utf8(t);
    assert(t.len() == 2);
    assert(crate::text::is_digit(t[0]));
    assert(crate::text::digit_value(t[0]) <= 9);
    assert(crate::text::is_digit(t[1]));
    assert(crate::text::digit_value(t[1]) <= 9);
    let p = t.drop_last();
    assert(p.len() == 1);
    assert(p.drop_last().len() == 0);
    assert(crate::text::digits_value(p.drop_last()) == 0);
    assert(p.last() == t[0]);
    assert(crate::text::digits_value(p) <= 9);
    assert(t.last() == t[1]);
}

impl ExpiryError {
    /// The message shown to the user.
    pub fn describe(&self) -> (r: String)
        ensures
            r@ == match self.fault() {
                ExpiryFault::MissingSlash => "expiry must be MM/YY or MM/YYYY (got '"@ + self.input() + "')"@,
                ExpiryFault::InvalidMonth => "invalid month in expiry '"@ + self.input() + "'"@,
                ExpiryFault::MonthOutOfRange(m) => "month must be 01\u{2013}12, got "@ + decimal(m) + " (in '"@ + self.input() + "')"@,
                ExpiryFault::YearLength(n) => "year must be exactly 2 digits (YY) or 4 digits (YYYY), got "@ + decimal(n) + " digits (in '"@ + self.input() + "')"@,
                ExpiryFault::InvalidYear => "invalid year in expiry '"@ + self.input() + "'"@,
            },
    {
        match self {
            ExpiryError::MissingSlash(s) => {
                let mut m = owned("expiry must be MM/YY or MM/YYYY (got '");
                append(&mut m, s.as_str());
                append(&mut m, "')");
                m
            },
            ExpiryError::InvalidMonth(s) => {
                let mut m = owned("invalid month in expiry '");
                append(&mut m, s.as_str());
                append(&mut m, "'");
                m
            },
            ExpiryError::MonthOutOfRange(month, s) => {
                let mut m = owned("month must be 01\u{2013}12, got ");
                append_decimal(&mut m, *month as u64);
                append(&mut m, " (in '");
                append(&mut m, s.as_str());
                append(&mut m, "')");
                m
            },
            ExpiryError::YearLength(len, s) => {
                let mut m = owned("year must be exactly 2 digits (YY) or 4 digits (YYYY), got ");
                append_decimal(&mut m, *len as u64);
                append(&mut m, " digits (in '");
                append(&mut m, s.as_str());
                append(&mut m, "')");
                m
            },
            ExpiryError::InvalidYear(s) => {
                let mut m = owned("invalid year in expiry '");
                append(&mut m, s.as_str());
                append(&mut m, "'");
                m
            },
        }
    }
}

} // verus!

verus! {

/// Whether a card transaction is charged now (`sale`) or only held (`auth`).
#[derive(Debug, Clone, Copy, PartialEq, Eq, Structural)]
pub enum CardTxnKind {
    Sale,
    Auth,
}

/// The flags of `transactions sale` and `transactions auth`, with the
/// amounts already read.
pub struct SaleArgs {
    /// `amount`.
    pub amount: DecimalValue,
    /// The card number, sent as `accountNumber`.
    pub card: Option<String>,
    /// The expiry as typed, `MM/YY` or `MM/YYYY`.
    pub exp: Option<String>,
    /// The security code, sent as `securityCode`.
    pub cvv: Option<String>,
    /// `tipAmount`.
    pub tip_amount: Option<DecimalValue>,
    /// `customerId`.
    pub customer_id: Option<String>,
    /// `paymentMethodId`.
    pub payment_method_id: Option<String>,
    /// `currencyId`; left out when not given, so the server picks.
    pub currency_id: Option<i32>,
    /// `cardDataSource`, always sent.
    pub card_data_source: i32,
    /// The level-2 sales tax rate, sent as `l2.salesTaxRate`.
    pub l2_tax_rate: Option<DecimalValue>,
    /// The level-3 invoice number, sent as `l3.invoiceNumber`.
    pub l3_invoice: Option<String>,
    /// The level-3 purchase order, sent as `l3.purchaseOrder`.
    pub l3_po: Option<String>,
    /// The level-3 product line items (as `parse_products` reads them), sent
    /// as the array `l3.products` when there is at least one.
    pub l3_products: Vec<Json>,
    /// `referenceId`.
    pub reference_id: Option<String>,
}

impl SaleArgs {
    /// Every amount is one a `Decimal` can hold.
    pub open spec fn wf(&self) -> bool {
        &&& self.amount.wf()
        &&& opt_wf(self.tip_amount)
        &&& opt_wf(self.l2_tax_rate)
    }
}

/// The two expiry entries of a card, when an expiry was given.
pub open spec fn expiry_entries(exp: Option<(nat, nat)>) -> Seq<(Seq<char>, JsonV)> {
    match exp {
        Some((m, y)) => seq![
            ("expirationMonth"@, JsonV::Number(int_text(m as int))),
            ("expirationYear"@, JsonV::Number(int_text(y as int))),
        ],
        None => Seq::empty(),
    }
}

/// The (month, year) of an expiry that was given and read.
pub open spec fn expiry_read(exp: Option<String>) -> Option<(nat, nat)> {
    match exp {
        Some(e) => match expiry(e@) {
            Ok(my) => Some(my),
            Err(_) => None,
        },
        None => None,
    }
}

/// The `l2` object: the sales tax rate, when one was given.
pub open spec fn l2_value(rate: Option<DecimalValue>) -> Option<JsonV> {
    match rate {
        Some(r) => Some(JsonV::Object(seq![("salesTaxRate"@, JsonV::Number(decimal_display(r)))])),
        None => None,
    }
}

/// The `l3` object: invoice number, purchase order and the product array,
/// each when given (the array when it has an item); no object at all when
/// none is.
pub open spec fn l3_value(invoice: Option<String>, po: Option<String>, products: Seq<JsonV>) -> Option<JsonV> {
    if invoice is None && po is None && products.len() == 0 {
        None
    } else {
        Some(JsonV::Object(
            opt_entry("invoiceNumber"@, opt_str(invoice)) + opt_entry("purchaseOrder"@, opt_str(po))
                + (if products.len() > 0 { seq![("products"@, JsonV::Array(products))] } else { Seq::empty() }),
        ))
    }
}

/// The entries of a `sale` or `auth` body for an expiry already read: the
/// amount, each optional field only when given, the card data source, and
/// `customerInitiatedTransaction` false.
pub open spec fn sale_entries(a: SaleArgs, exp: Option<(nat, nat)>) -> Seq<(Seq<char>, JsonV)> {
    seq![("amount"@, JsonV::Number(decimal_display(a.amount)))]
        + opt_entry("tipAmount"@, opt_amount(a.tip_amount))
        + opt_entry("currencyId"@, opt_int(a.currency_id))
        + opt_entry("customerId"@, opt_str(a.customer_id))
        + opt_entry("paymentMethodId"@, opt_str(a.payment_method_id))
        + opt_entry("accountNumber"@, opt_str(a.card))
        + opt_entry("securityCode"@, opt_str(a.cvv))
        + expiry_entries(exp)
        + opt_entry("referenceId"@, opt_str(a.reference_id))
        + seq![
            ("cardDataSource"@, JsonV::Number(int_text(a.card_data_source as int))),
            ("customerInitiatedTransaction"@, JsonV::Bool(false)),
        ]
        + opt_entry("l2"@, l2_value(a.l2_tax_rate))
        + opt_entry("l3"@, l3_value(a.l3_invoice, a.l3_po, items_view(a.l3_products@)))
}

/// The fields of a `sale` or `auth` body are the flags they name: `amount`
/// the amount, `tipAmount` the tip (only when given), `accountNumber` the
/// card number and `securityCode` the security code (each only when given).
#[verifier::rlimit(80)]
pub proof fn lemma_sale_fields(a: SaleArgs, exp: Option<(nat, nat)>)
    ensures
        money_sent(JsonV::Object(sale_entries(a, exp)), "amount"@, Some(a.amount)),
        money_sent(JsonV::Object(sale_entries(a, exp)), "tipAmount"@, a.tip_amount),
        JsonV::Object(sale_entries(a, exp)).get("accountNumber"@) == opt_str(a.card),
        JsonV::Object(sale_entries(a, exp)).get("securityCode"@) == opt_str(a.cvv),
{
    broadcast use group_lookup;
    reveal_strlit("amount");
    reveal_strlit("tipAmount");
    reveal_strlit("currencyId");
    reveal_strlit("customerId");
    reveal_strlit("paymentMethodId");
    reveal_strlit("accountNumber");
    reveal_strlit("securityCode");
    assert("amount"@.len() == 6);
    assert("tipAmount"@.len() == 9);
    assert("currencyId"@.len() == 10);
    assert("customerId"@.len() == 10);
    assert("paymentMethodId"@.len() == 15);
    assert("accountNumber"@.len() == 13);
    assert("securityCode"@.len() == 12);
    let p5 = seq![("amount"@, JsonV::Number(decimal_display(a.amount)))]
        + opt_entry("tipAmount"@, opt_amount(a.tip_amount))
        + opt_entry("currencyId"@, opt_int(a.currency_id))
        + opt_entry("customerId"@, opt_str(a.customer_id))
        + opt_entry("paymentMethodId"@, opt_str(a.payment_method_id));
    assert(lookup(p5, "accountNumber"@) is None);
    assert(lookup(p5, "securityCode"@) is None);
    let p6 = p5 + opt_entry("accountNumber"@, opt_str(a.card));
    assert(lookup(p6, "accountNumber"@) == opt_str(a.card));
    assert(lookup(p6, "securityCode"@) is None);
    let p7 = p6 + opt_entry("securityCode"@, opt_str(a.cvv));
    assert(lookup(p7, "accountNumber"@) == opt_str(a.card));
    assert(lookup(p7, "securityCode"@) == opt_str(a.cvv));
    reveal_strlit("expirationMonth");
    reveal_strlit("expirationYear");
    reveal_strlit("referenceId");
    reveal_strlit("cardDataSource");
    reveal_strlit("customerInitiatedTransaction");
    reveal_strlit("l2");
    reveal_strlit("l3");
    assert("expirationMonth"@.len() == 15);
    assert("expirationYear"@.len() == 14);
    assert("referenceId"@.len() == 11);
    assert("cardDataSource"@.len() == 14);
    assert("customerInitiatedTransaction"@.len() == 28);
    assert("l2"@.len() == 2);
    assert("l3"@.len() == 2);
    let e = expiry_entries(exp);
    match exp {
        Some((m, y)) => {
            let e2 = seq![("expirationMonth"@, JsonV::Number(int_text(m as int)))]
                + seq![("expirationYear"@, JsonV::Number(int_text(y as int)))];
            assert(e =~= e2);
            assert(lookup(e2, "accountNumber"@) is None);
            assert(lookup(e2, "securityCode"@) is None);
        },
        None => {
            assert(e =~= Seq::<(Seq<char>, JsonV)>::empty());
        },
    }
    assert(lookup(e, "accountNumber"@) is None);
    assert(lookup(e, "securityCode"@) is None);
    let fixed = seq![
        ("cardDataSource"@, JsonV::Number(int_text(a.card_data_source as int))),
        ("customerInitiatedTransaction"@, JsonV::Bool(false)),
    ];
    let f2 = seq![("cardDataSource"@, JsonV::Number(int_text(a.card_data_source as int)))]
        + seq![("customerInitiatedTransaction"@, JsonV::Bool(false))];
    assert(fixed =~= f2);
    assert(lookup(f2, "accountNumber"@) is None);
    assert(lookup(f2, "securityCode"@) is None);
    let rest = e + opt_entry("referenceId"@, opt_str(a.reference_id)) + fixed
        + opt_entry("l2"@, l2_value(a.l2_tax_rate))
        + opt_entry("l3"@, l3_value(a.l3_invoice, a.l3_po, items_view(a.l3_products@)));
    assert(lookup(rest, "accountNumber"@) is None);
    assert(lookup(rest, "securityCode"@) is None);
    assert(sale_entries(a, exp) =~= p7 + rest);
}

/// Appends the two expiry entries when an expiry is given; an expiry that
/// `parse_exp` refuses is handed back.
fn push_expiry(out: &mut Vec<(String, Json)>, exp: &Option<String>) -> (r: Result<(), ExpiryError>)
    ensures
        match *exp {
            None => r is Ok && entries_view(final(out)@) == entries_view(old(out)@),
            Some(e) => match expiry(e@) {
                Ok((m, y)) => r is Ok && entries_view(final(out)@) == entries_view(old(out)@) + expiry_entries(Some((m, y))),
                Err(f) => r matches Err(x) && x.fault() == f && x.input() == e@,
            },
        },
{
    match exp {
        None => Ok(()),
        Some(e) => {
            let (month, year) = match parse_exp(e.as_str()) {
                Ok(my) => my,
                Err(x) => return Err(x),
            };
            let ghost before = entries_view(out@);
            push_entry(out, "expirationMonth", int_number(month as i64));
            push_entry(out, "expirationYear", int_number(year as i64));
            assert(entries_view(out@) =~= before + expiry_entries(Some((month as nat, year as nat))));
            Ok(())
        },
    }
}

/// Appends the `l2` object when a tax rate is given.
fn push_l2(out: &mut Vec<(String, Json)>, rate: Option<DecimalValue>)
    requires
        opt_wf(rate),
    ensures
        entries_view(final(out)@) == entries_view(old(out)@) + opt_entry("l2"@, l2_value(rate)),
{
    match rate {
        Some(rate) => {
            let mut l2: Vec<(String, Json)> = Vec::new();
            push_entry(&mut l2, "salesTaxRate", to_amount_number(rate));
            assert(entries_view(l2@) =~= seq![("salesTaxRate"@, JsonV::Number(decimal_display(rate)))]);
            push_entry(out, "l2", object(l2));
        },
        None => {
            assert(entries_view(out@) =~= entries_view(out@) + Seq::<(Seq<char>, JsonV)>::empty());
        },
    }
}

/// Appends the `l3` object when an invoice number, a purchase order or a
/// product is given.
fn push_l3(out: &mut Vec<(String, Json)>, invoice: &Option<String>, po: &Option<String>, products: &Vec<Json>)
    ensures
        entries_view(final(out)@) == entries_view(old(out)@) + opt_entry("l3"@, l3_value(*invoice, *po, items_view(products@))),
{
    if invoice.is_some() || po.is_some() || products.len() > 0 {
        let mut l3: Vec<(String, Json)> = Vec::new();
        assert(entries_view(l3@) =~= Seq::<(Seq<char>, JsonV)>::empty());
        push_opt_text(&mut l3, "invoiceNumber", invoice);
        push_opt_text(&mut l3, "purchaseOrder", po);
        let ghost head = entries_view(l3@);
        assert(head =~= opt_entry("invoiceNumber"@, opt_str(*invoice)) + opt_entry("purchaseOrder"@, opt_str(*po)));
        if products.len() > 0 {
            let arr = clone_items(products);
            proof {
                lemma_array_view(arr);
            }
            push_entry(&mut l3, "products", Json::Array(arr));
            assert(entries_view(l3@) =~= head + seq![("products"@, JsonV::Array(items_view(products@)))]);
        } else {
            assert(entries_view(l3@) =~= head + Seq::<(Seq<char>, JsonV)>::empty());
        }
        push_entry(out, "l3", object(l3));
    } else {
        assert(items_view(products@).len() == 0);
        assert(entries_view(out@) =~= entries_view(out@) + Seq::<(Seq<char>, JsonV)>::empty());
    }
}

/// The body of `transactions sale` and `transactions auth` (both send the
/// same shape). The expiry, when given, is read by `parse_exp` into
/// `expirationMonth` and a four-digit `expirationYear`; when it is refused,
/// so is the transaction.
#[verifier::rlimit(40)]
pub fn build_sale_body(args: &SaleArgs) -> (r: Result<Json, ExpiryError>)
    requires
        args.wf(),
    ensures
        r matches Ok(j) ==> money_sent(j@, "amount"@, Some(args.amount)) && money_sent(j@, "tipAmount"@, args.tip_amount)
            && j@.get("accountNumber"@) == opt_str(args.card) && j@.get("securityCode"@) == opt_str(args.cvv),
        match args.exp {
            None => r matches Ok(j) && j@ == JsonV::Object(sale_entries(*args, None)),
            Some(e) => match expiry(e@) {
                Ok((m, y)) => r matches Ok(j) && j@ == JsonV::Object(sale_entries(*args, Some((m, y)))),
                Err(f) => r matches Err(x) && x.fault() == f && x.input() == e@,
            },
        },
{
    let mut obj: Vec<(String, Json)> = Vec::new();
    push_entry(&mut obj, "amount", to_amount_number(args.amount));
    push_opt_amount(&mut obj, "tipAmount", args.tip_amount);
    push_opt_int(&mut obj, "currencyId", args.currency_id);
    push_opt_text(&mut obj, "customerId", &args.customer_id);
    push_opt_text(&mut obj, "paymentMethodId", &args.payment_method_id);
    push_opt_text(&mut obj, "accountNumber", &args.card);
    push_opt_text(&mut obj, "securityCode", &args.cvv);
    let ghost head = entries_view(obj@);
    match push_expiry(&mut obj, &args.exp) {
        Ok(()) => {},
        Err(x) => return Err(x),
    }
    let ghost with_exp = entries_view(obj@);
    push_opt_text(&mut obj, "referenceId", &args.reference_id);
    push_entry(&mut obj, "cardDataSource", int_number(args.card_data_source as i64));
    push_entry(&mut obj, "customerInitiatedTransaction", Json::Bool(false));
    push_l2(&mut obj, args.l2_tax_rate);
    push_l3(&mut obj, &args.l3_invoice, &args.l3_po, &args.l3_products);
    proof {
        let ex = expiry_read(args.exp);
        lemma_sale_fields(*args, ex);
        assert(with_exp == head + expiry_entries(ex));
        assert(entries_view(obj@) =~= sale_entries(*args, ex));
    }
    Ok(object(obj))
}

/// The entries of a `capture` body: the transaction, and the amount only
/// for a partial capture.
pub open spec fn capture_entries(transaction_id: Seq<char>, amount: Option<DecimalValue>) -> Seq<(Seq<char>, JsonV)> {
    seq![("transactionId"@, JsonV::Str(transaction_id))] + opt_entry("amount"@, opt_amount(amount))
}

/// The body of `transactions capture`.
pub fn build_capture_body(transaction_id: &str, amount: Option<DecimalValue>) -> (r: Json)
    requires
        opt_wf(amount),
    ensures
        r@ == JsonV::Object(capture_entries(transaction_id@, amount)),
{
    let mut obj: Vec<(String, Json)> = Vec::new();
    push_entry(&mut obj, "transactionId", Json::text(transaction_id));
    push_opt_amount(&mut obj, "amount", amount);
    assert(entries_view(obj@) =~= capture_entries(transaction_id@, amount));
    object(obj)
}

/// The body of `transactions void`: the transaction alone.
pub fn build_void_body(transaction_id: &str) -> (r: Json)
    ensures
        r@ == JsonV::Object(seq![("transactionId"@, JsonV::Str(transaction_id@))]),
{
    let mut obj: Vec<(String, Json)> = Vec::new();
    push_entry(&mut obj, "transactionId", Json::text(transaction_id));
    assert(entries_view(obj@) =~= seq![("transactionId"@, JsonV::Str(transaction_id@))]);
    object(obj)
}

/// The entries of a `refund` body: the transaction, the card data source,
/// and the amount only for a partial refund.
pub open spec fn refund_entries(transaction_id: Seq<char>, amount: Option<DecimalValue>, card_data_source: i32) -> Seq<(Seq<char>, JsonV)> {
    seq![
        ("transactionId"@, JsonV::Str(transaction_id)),
        ("cardDataSource"@, JsonV::Number(int_text(card_data_source as int))),
    ]
        + opt_entry("amount"@, opt_amount(amount))
}

/// The body of `transactions refund`, sent to the `return` endpoint.
pub fn build_refund_body(transaction_id: &str, amount: Option<DecimalValue>, card_data_source: i32) -> (r: Json)
    requires
        opt_wf(amount),
    ensures
        r@ == JsonV::Object(refund_entries(transaction_id@, amount, card_data_source)),
{
    let mut obj: Vec<(String, Json)> = Vec::new();
    push_entry(&mut obj, "transactionId", Json::text(transaction_id));
    push_entry(&mut obj, "cardDataSource", int_number(card_data_source as i64));
    push_opt_amount(&mut obj, "amount", amount);
    assert(entries_view(obj@) =~= refund_entries(transaction_id@, amount, card_data_source));
    object(obj)
}

/// The body of `transactions settle`: the payment processor whose open
/// batch is settled (not a transaction).
pub fn build_settle_body(payment_processor_id: &str) -> (r: Json)
    ensures
        r@ == JsonV::Object(seq![("paymentProcessorId"@, JsonV::Str(payment_processor_id@))]),
{
    let mut obj: Vec<(String, Json)> = Vec::new();
    push_entry(&mut obj, "paymentProcessorId", Json::text(payment_processor_id));
    assert(entries_view(obj@) =~= seq![("paymentProcessorId"@, JsonV::Str(payment_processor_id@))]);
    object(obj)
}

/// The body of `transactions tip-adjust`: the transaction and its new tip.
pub fn build_tip_adjust_body(transaction_id: &str, tip_amount: DecimalValue) -> (r: Json)
    requires
        tip_amount.wf(),
    ensures
        r@ == JsonV::Object(seq![
            ("transactionId"@, JsonV::Str(transaction_id@)),
            ("tipAmount"@, JsonV::Number(decimal_display(tip_amount))),
        ]),
{
    let mut obj: Vec<(String, Json)> = Vec::new();
    push_entry(&mut obj, "transactionId", Json::text(transaction_id));
    push_entry(&mut obj, "tipAmount", to_amount_number(tip_amount));
    assert(entries_view(obj@) =~= seq![
        ("transactionId"@, JsonV::Str(transaction_id@)),
        ("tipAmount"@, JsonV::Number(decimal_display(tip_amount))),
    ]);
    object(obj)
}

/// The day of a listed transaction: the first ten characters of its `date`.
pub open spec fn txn_day(item: JsonV) -> Option<Seq<char>> {
    match item.str_at("date"@) {
        Some(d) => Some(first_chars(d, 10)),
        None => None,
    }
}

/// Whether a listed transaction passes the `list` filters: its `status`
/// equal to the wanted one up to case, and its day not before `from` and not
/// after `to` (days compared as `YYYY-MM-DD` text). A filter that is not
/// given passes everything; an item without the field a given filter reads
/// fails it.
pub open spec fn txn_kept(item: JsonV, status: Option<Seq<char>>, from: Option<Seq<char>>, to: Option<Seq<char>>) -> bool {
    &&& (status matches Some(want) ==> (item.str_at("status"@) matches Some(s) && unicode_lower(s) == unicode_lower(want)))
    &&& (from matches Some(f) ==> (txn_day(item) matches Some(d) && !text_lt(d, f)))
    &&& (to matches Some(t) ==> (txn_day(item) matches Some(d) && !text_lt(t, d)))
}

/// An optional borrowed text as an optional text.
pub open spec fn opt_seq(v: Option<&str>) -> Option<Seq<char>> {
    match v {
        Some(s) => Some(s@),
        None => None,
    }
}

/// `txn_kept` for one item, the status already lower-cased.
fn txn_passes(item: &Json, status_low: Option<&str>, from: Option<&str>, to: Option<&str>, Ghost(status): Ghost<Option<Seq<char>>>) -> (r: bool)
    requires
        status matches Some(want) ==> status_low matches Some(low) && low@ == unicode_lower(want),
        status is None ==> status_low is None,
    ensures
        r == txn_kept(item@, status, opt_seq(from), opt_seq(to)),
{
    let status_ok = match status_low {
        None => true,
        Some(low) => match item.str_at("status") {
            Some(s) => {
                let l = to_lowercase(s);
                same_chars(&chars_of(l.as_str()), &chars_of(low))
            },
            None => false,
        },
    };
    if !status_ok {
        return false;
    }
    if from.is_none() && to.is_none() {
        return true;
    }
    let day = match item.str_at("date") {
        Some(d) => chars_of(prefix_chars(d, 10).as_str()),
        None => return false,
    };
    let from_ok = match from {
        None => true,
        Some(f) => !text_less(&day, &chars_of(f)),
    };
    let to_ok = match to {
        None => true,
        Some(t) => !text_less(&chars_of(t), &day),
    };
    from_ok && to_ok
}

/// The client-side filters of `transactions list`, over the page that came
/// back: see `txn_kept`. The kept items stay in their order.
pub fn filter_items(items: &Vec<Json>, status: Option<&str>, from: Option<&str>, to: Option<&str>) -> (r: Vec<Json>)
    ensures
        items_view(r@) == items_view(items@).filter(
            |j: JsonV| txn_kept(j, opt_seq(status), opt_seq(from), opt_seq(to)),
        ),
{
    let low: Option<String> = match status {
        Some(st) => Some(to_lowercase(st)),
        None => None,
    };
    let ghost pred = |j: JsonV| txn_kept(j, opt_seq(status), opt_seq(from), opt_seq(to));
    let ghost all = items_view(items@);
    let mut out: Vec<Json> = Vec::new();
    let n = items.len();
    proof {
        reveal(Seq::filter);
        assert(all.take(0).filter(pred) =~= Seq::<JsonV>::empty());
        assert(items_view(out@) =~= Seq::<JsonV>::empty());
    }
    for i in 0..n
        invariant
            n == items@.len(),
            all == items_view(items@),
            status matches Some(want) ==> low matches Some(l) && l@ == unicode_lower(want@),
            status is None ==> low is None,
            pred == (|j: JsonV| txn_kept(j, opt_seq(status), opt_seq(from), opt_seq(to))),
            items_view(out@) == all.take(i as int).filter(pred),
    {
        let low_ref: Option<&str> = match &low {
            Some(l) => Some(l.as_str()),
            None => None,
        };
        let keep = txn_passes(&items[i], low_ref, from, to, Ghost(opt_seq(status)));
        proof {
            reveal(Seq::filter);
            assert(all.take(i + 1).drop_last() =~= all.take(i as int));
            assert(all.take(i + 1).last() == items@[i as int]@);
            assert(keep == pred(items@[i as int]@));
        }
        let ghost before = out@;
        if keep {
            out.push(items[i].deep_clone());
            assert(items_view(out@) =~= items_view(before).push(items@[i as int]@));
        }
    }
    assert(all.take(n as int) =~= all);
    out
}

/// A text cut at every `c`: the pieces between the separators, in order
/// (`str::split`); always at least one piece.
pub open spec fn split_on(s: Seq<char>, c: char) -> Seq<Seq<char>>
    decreases s.len(),
{
    if s.len() == 0 {
        seq![Seq::<char>::empty()]
    } else {
        let p = split_on(s.drop_last(), c);
        if s.last() == c {
            p.push(Seq::empty())
        } else {
            p.update(p.len() - 1, p.last().push(s.last()))
        }
    }
}

proof fn lemma_split_nonempty(s: Seq<char>, c: char)
    ensures
        split_on(s, c).len() >= 1,
    decreases s.len(),
{
    if s.len() > 0 {
        lemma_split_nonempty(s.drop_last(), c);
    }
}

/// Cuts a text at every `c`.
pub fn split_text(s: &str, c: char) -> (r: Vec<String>)
    ensures
        texts(r@) == split_on(s@, c),
{
    let cs = chars_of(s);
    let n = cs.len();
    let mut parts: Vec<String> = Vec::new();
    parts.push(String::new());
    assert(texts(parts@) =~= split_on(cs@.take(0), c));
    for i in 0..n
        invariant
            n == cs@.len(),
            cs@ == s@,
            texts(parts@) == split_on(cs@.take(i as int), c),
    {
        proof {
            lemma_split_nonempty(cs@.take(i as int), c);
            assert(cs@.take(i + 1).drop_last() =~= cs@.take(i as int));
            assert(cs@.take(i + 1).last() == cs@[i as int]);
        }
        let ch = cs[i];
        let ghost before = texts(parts@);
        if ch == c {
            parts.push(String::new());
            assert(texts(parts@) =~= before.push(Seq::<char>::empty()));
        } else {
            let mut cur = match parts.pop() {
                Some(p) => p,
                None => String::new(),
            };
            assert(cur@ == before.last());
            push_char(&mut cur, ch);
            parts.push(cur);
            assert(texts(parts@) =~= before.update(before.len() - 1, before.last().push(ch)));
        }
    }
    assert(cs@.take(n as int) =~= cs@);
    parts
}

/// Why a `--l3-product` line was refused.
#[derive(Debug, PartialEq, Eq)]
pub enum ProductError {
    /// Not five comma-separated fields: how many there were, and the line.
    FieldCount(usize, String),
    /// The unit price is not a plain amount.
    UnitPrice(MoneyError),
    /// The quantity is not a plain amount.
    Quantity(MoneyError),
}

/// The entries of a product line item, for its five fields and the two
/// numbers already read: `description`, `sku`, `unitPrice`,
/// `unitOfMeasure`, `quantity` (texts trimmed).
pub open spec fn product_entries(f: Seq<Seq<char>>, price: DecimalValue, qty: DecimalValue) -> Seq<(Seq<char>, JsonV)> {
    seq![
        ("description"@, JsonV::Str(trim(f[0]))),
        ("sku"@, JsonV::Str(trim(f[1]))),
        ("unitPrice"@, JsonV::Number(decimal_display(price))),
        ("unitOfMeasure"@, JsonV::Str(trim(f[3]))),
        ("quantity"@, JsonV::Number(decimal_display(qty))),
    ]
}

/// Whether `r` is what `parse_product` owes for `line`: a line of
/// `Description,SKU,UnitPrice,UnitOfMeasure,Quantity` (exactly five fields
/// split at commas), the unit price and the quantity each read under the
/// amount policy (`checked_decimal` with 2 places), in that order.
pub open spec fn product_result(line: Seq<char>, r: Result<Json, ProductError>) -> bool {
    let f = split_on(line, ',');
    if f.len() != 5 {
        r matches Err(ProductError::FieldCount(n, l)) && n == f.len() && l@ == line
    } else {
        match checked_decimal(f[2], 2) {
            Err(k) => r matches Err(ProductError::UnitPrice(e)) && e.kind() == k && e.raw() == f[2],
            Ok(p) => match checked_decimal(f[4], 2) {
                Err(k) => r matches Err(ProductError::Quantity(e)) && e.kind() == k && e.raw() == f[4],
                Ok(q) => r matches Ok(j) && j@ == JsonV::Object(product_entries(f, p, q)),
            },
        }
    }
}

/// Reads one `--l3-product` line into a product line item.
pub fn parse_product(line: &str) -> (r: Result<Json, ProductError>)
    ensures
        product_result(line@, r),
{
    let f = split_text(line, ',');
    if f.len() != 5 {
        return Err(ProductError::FieldCount(f.len(), owned(line)));
    }
    assert(f@[2]@ == split_on(line@, ',')[2]);
    let price = match parse_amount(f[2].as_str()) {
        Ok(d) => d,
        Err(e) => return Err(ProductError::UnitPrice(e)),
    };
    let qty = match parse_amount(f[4].as_str()) {
        Ok(d) => d,
        Err(e) => return Err(ProductError::Quantity(e)),
    };
    let mut obj: Vec<(String, Json)> = Vec::new();
    push_entry(&mut obj, "description", Json::text(string_of(&trimmed_chars(f[0].as_str())).as_str()));
    push_entry(&mut obj, "sku", Json::text(string_of(&trimmed_chars(f[1].as_str())).as_str()));
    push_entry(&mut obj, "unitPrice", to_amount_number(price));
    push_entry(&mut obj, "unitOfMeasure", Json::text(string_of(&trimmed_chars(f[3].as_str())).as_str()));
    push_entry(&mut obj, "quantity", to_amount_number(qty));
    assert(entries_view(obj@) =~= product_entries(split_on(line@, ','), price, qty));
    Ok(object(obj))
}

/// Whether a product line is accepted: five fields, and a unit price and a
/// quantity the amount policy accepts.
pub open spec fn product_accepted(line: Seq<char>) -> bool {
    let f = split_on(line, ',');
    &&& f.len() == 5
    &&& checked_decimal(f[2], 2) is Ok
    &&& checked_decimal(f[4], 2) is Ok
}

/// Reads every `--l3-product` line, in order; the first refused line
/// refuses them all, with its own error.
pub fn parse_products(lines: &Vec<String>) -> (r: Result<Vec<Json>, ProductError>)
    ensures
        r matches Ok(items) ==> items@.len() == lines@.len()
            && forall|i: int| 0 <= i < lines@.len() ==> product_result(lines@[i]@, Ok::<Json, ProductError>(#[trigger] items@[i])),
        r matches Err(e) ==> exists|i: int|
            0 <= i < lines@.len() && product_result(#[trigger] lines@[i]@, Err::<Json, ProductError>(e))
                && forall|j: int| 0 <= j < i ==> product_accepted(#[trigger] lines@[j]@),
{
    let mut items: Vec<Json> = Vec::new();
    let n = lines.len();
    for i in 0..n
        invariant
            n == lines@.len(),
            items@.len() == i,
            forall|k: int| 0 <= k < i ==> product_result(lines@[k]@, Ok::<Json, ProductError>(#[trigger] items@[k])),
            forall|k: int| 0 <= k < i ==> product_accepted(#[trigger] lines@[k]@),
    {
        match parse_product(lines[i].as_str()) {
            Ok(j) => {
                items.push(j);
                assert(product_accepted(lines@[i as int]@));
            },
            Err(e) => {
                assert(product_result(lines@[i as int]@, Err::<Json, ProductError>(e)));
                return Err(e);
            },
        }
    }
    Ok(items)
}

impl ProductError {
    /// The message shown to the user.
    pub fn describe(&self) -> (r: String)
        ensures
            r@ == match self {
                ProductError::FieldCount(n, l) => "product line must be Description,SKU,UnitPrice,UnitOfMeasure,Quantity (got "@
                    + decimal(*n as nat) + " fields in '"@ + l@ + "')"@,
                ProductError::UnitPrice(e) => "unit price: "@ + money_message(*e, "amount"@),
                ProductError::Quantity(e) => "quantity: "@ + money_message(*e, "amount"@),
            },
    {
        match self {
            ProductError::FieldCount(n, l) => {
                let mut m = owned("product line must be Description,SKU,UnitPrice,UnitOfMeasure,Quantity (got ");
                append_decimal(&mut m, *n as u64);
                append(&mut m, " fields in '");
                append(&mut m, l.as_str());
                append(&mut m, "')");
                m
            },
            ProductError::UnitPrice(e) => {
                let mut m = owned("unit price: ");
                append(&mut m, e.describe("amount").as_str());
                m
            },
            ProductError::Quantity(e) => {
                let mut m = owned("quantity: ");
                append(&mut m, e.describe("amount").as_str());
                m
            },
        }
    }
}

/// A scalar as the inspect view shows it: a string as it is, a number as
/// its literal, a boolean as `true`/`false`; anything else the dash.
pub open spec fn scalar_text(v: Option<JsonV>) -> Seq<char> {
    match v {
        Some(JsonV::Str(s)) => s,
        Some(JsonV::Number(n)) => n,
        Some(JsonV::Bool(b)) => if b { "true"@ } else { "false"@ },
        _ => dash(),
    }
}

fn scalar_cell(v: Option<&Json>) -> (r: String)
    ensures
        r@ == scalar_text(match v { Some(x) => Some(x@), None => None }),
{
    match v {
        Some(Json::Str(s)) => owned(s.as_str()),
        Some(Json::Number(n)) => owned(n.as_str()),
        Some(Json::Bool(b)) => if *b { owned("true") } else { owned("false") },
        _ => owned("\u{2014}"),
    }
}

/// A part of the amount breakdown: the value under `key` of the `amount`
/// object, or the dash.
pub open spec fn amount_part(v: JsonV, key: Seq<char>) -> Seq<char> {
    match v.get("amount"@) {
        Some(a) => scalar_text(a.get(key)),
        None => dash(),
    }
}

fn amount_cell(v: &Json, key: &str) -> (r: String)
    ensures
        r@ == amount_part(v@, key@),
{
    match v.get("amount") {
        Some(a) => scalar_cell(a.get(key)),
        None => owned("\u{2014}"),
    }
}

/// The operations the API says are available, comma-separated; the dash
/// when there is no such list or it is empty.
pub open spec fn operations_text(v: JsonV) -> Seq<char> {
    match v.array_at("availableOperations"@) {
        Some(ops) => if ops.len() > 0 {
            join(Seq::new(ops.len(), |i: int| scalar_text(Some(ops[i]))), ", "@)
        } else {
            dash()
        },
        None => dash(),
    }
}

fn operations_cell(v: &Json) -> (r: String)
    ensures
        r@ == operations_text(v@),
{
    match v.array_at("availableOperations") {
        Some(ops) => {
            if ops.len() == 0 {
                return owned("\u{2014}");
            }
            let ghost ov = items_view(ops@);
            let mut parts: Vec<String> = Vec::new();
            let n = ops.len();
            for i in 0..n
                invariant
                    n == ops@.len(),
                    ov == items_view(ops@),
                    parts@.len() == i,
                    forall|k: int| 0 <= k < i ==> (#[trigger] parts@[k])@ == scalar_text(Some(ov[k])),
            {
                parts.push(scalar_cell(Some(&ops[i])));
            }
            assert(texts(parts@) =~= Seq::new(ov.len(), |i: int| scalar_text(Some(ov[i]))));
            join_strings(&parts, ", ")
        },
        None => owned("\u{2014}"),
    }
}

pub open spec fn inspect_labels() -> Seq<Seq<char>> {
    seq![
        "transactionId:       "@,
        "transactionDateTime: "@,
        "status:              "@,
        "authCode:            "@,
        "responseCode:        "@,
        "responseDescription: "@,
        "customerPan:         "@,
        "cardDataSource:      "@,
        "avsResponse:         "@,
        "baseAmount:          "@,
        "tipAmount:           "@,
        "surchargeAmount:     "@,
        "totalAmount:         "@,
        "availableOperations: "@,
    ]
}

/// The values of the inspect view: the transaction's key fields, its amount
/// breakdown, and the operations the API lists as available.
pub open spec fn inspect_values(v: JsonV) -> Seq<Seq<char>> {
    seq![
        scalar_text(v.get("transactionId"@)),
        scalar_text(v.get("transactionDateTime"@)),
        scalar_text(v.get("status"@)),
        scalar_text(v.get("authCode"@)),
        scalar_text(v.get("responseCode"@)),
        scalar_text(v.get("responseDescription"@)),
        scalar_text(v.get("customerPan"@)),
        scalar_text(v.get("cardDataSource"@)),
        scalar_text(v.get("avsResponse"@)),
        amount_part(v, "baseAmount"@),
        amount_part(v, "tipAmount"@),
        amount_part(v, "surchargeAmount"@),
        amount_part(v, "totalAmount"@),
        operations_text(v),
    ]
}

/// `transactions inspect` in table mode: a card of the transaction's key
/// fields, the amount breakdown (numbers shown as sent, no rounding) and the
/// available operations, all read from the response as it is.
pub fn inspect_table(v: &Json) -> (r: String)
    ensures
        r@ == card_text(inspect_labels(), inspect_values(v@)),
{
    let mut labels: Vec<&str> = Vec::new();
    labels.push("transactionId:       ");
    labels.push("transactionDateTime: ");
    labels.push("status:              ");
    labels.push("authCode:            ");
    labels.push("responseCode:        ");
    labels.push("responseDescription: ");
    labels.push("customerPan:         ");
    labels.push("cardDataSource:      ");
    labels.push("avsResponse:         ");
    labels.push("baseAmount:          ");
    labels.push("tipAmount:           ");
    labels.push("surchargeAmount:     ");
    labels.push("totalAmount:         ");
    labels.push("availableOperations: ");
    let mut values: Vec<String> = Vec::new();
    values.push(scalar_cell(v.get("transactionId")));
    values.push(scalar_cell(v.get("transactionDateTime")));
    values.push(scalar_cell(v.get("status")));
    values.push(scalar_cell(v.get("authCode")));
    values.push(scalar_cell(v.get("responseCode")));
    values.push(scalar_cell(v.get("responseDescription")));
    values.push(scalar_cell(v.get("customerPan")));
    values.push(scalar_cell(v.get("cardDataSource")));
    values.push(scalar_cell(v.get("avsResponse")));
    values.push(amount_cell(v, "baseAmount"));
    values.push(amount_cell(v, "tipAmount"));
    values.push(amount_cell(v, "surchargeAmount"));
    values.push(amount_cell(v, "totalAmount"));
    values.push(operations_cell(v));
    assert(Seq::new(labels@.len(), |i: int| labels@[i]@) =~= inspect_labels());
    assert(texts(values@) =~= inspect_values(v@));
    render_card(&labels, &values)
}

} // verus!
