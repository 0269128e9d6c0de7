//! Money amounts and rates as users type them. Never binary floating point:
//! parsing and printing go through `rust_decimal::Decimal`.

use vstd::prelude::*;

use crate::json::{Json, JsonV};
use crate::text::{trimmed_chars, trim, has_char, string_of, decimal, owned, append, all_digits, digits_value, digit_char, digit_value, is_digit};

verus! {

/// A decimal number as `rust_decimal::Decimal` holds it: a sign flag, a
/// signed mantissa and a scale (the value is `mantissa / 10^scale`).
#[derive(Debug, Clone, Copy, PartialEq, Eq)]
pub struct DecimalValue {
    pub negative: bool,
    pub mantissa: i128,
    pub scale: u32,
}

/// The largest mantissa magnitude a `Decimal` holds (96 bits).
pub open spec fn max_mantissa() -> int {
    0xFFFF_FFFF_FFFF_FFFF_FFFF_FFFF
}

impl DecimalValue {
    /// What every `Decimal` satisfies: scale at most 28, a 96-bit mantissa,
    /// and a mantissa whose sign agrees with the sign flag (zero may carry
    /// either flag).
    pub open spec fn wf(self) -> bool {
        &&& self.scale <= 28
        &&& -max_mantissa() <= self.mantissa <= max_mantissa()
        &&& self.mantissa < 0 ==> self.negative
        &&& self.mantissa > 0 ==> !self.negative
    }
}

/// What `Decimal::from_str` makes of a text. Its grammar (signs, digit
/// separators, rounding past 28 digits, the scientific fallback) is not
/// restated here.
pub uninterp spec fn decimal_parse(text: Seq<char>) -> Option<DecimalValue>;

/// Parses with `Decimal::from_str` and reads back sign, mantissa and scale
/// (`is_sign_negative`, `mantissa`, `scale`). The result is named by
/// `decimal_parse`; every `Decimal` keeps scale <= 28 and a 96-bit mantissa.
#[verifier::external_body]
fn decimal_from_str(text: &str) -> (r: Option<DecimalValue>)
    ensures
        r == decimal_parse(text@),
        r matches Some(d) ==> d.wf(),
{
    match <rust_decimal::Decimal as std::str::FromStr>::from_str(text) {
        Ok(d) => Some(DecimalValue { negative: d.is_sign_negative(), mantissa: d.mantissa(), scale: d.scale() }),
        Err(_) => None,
    }
}

/// The digits of a mantissa: none for zero.
pub open spec fn mantissa_digits(m: int) -> Seq<char> {
    if m == 0 {
        Seq::empty()
    } else if m < 0 {
        decimal((-m) as nat)
    } else {
        decimal(m as nat)
    }
}

/// `n` zero characters.
pub open spec fn zeros(n: int) -> Seq<char> {
    Seq::new(if n > 0 { n as nat } else { 0 }, |i: int| '0')
}

/// How `Decimal`'s `Display` prints a value: a `-` under the sign flag, the
/// digits left-padded with zeros to at least `scale` of them, a decimal point
/// before the last `scale`, and a `0` when no integer digit is left.
pub open spec fn decimal_display(d: DecimalValue) -> Seq<char> {
    let ds = mantissa_digits(d.mantissa as int);
    let padded = zeros(d.scale - ds.len()) + ds;
    let whole = padded.take(padded.len() - d.scale);
    let frac = padded.skip(padded.len() - d.scale);
    (if d.negative { "-"@ } else { Seq::empty() })
        + (if whole.len() == 0 { "0"@ } else { whole })
        + (if d.scale > 0 { "."@ + frac } else { Seq::empty() })
}

/// The integer part of a printed decimal (a `0` when no integer digit is
/// left) and its fraction digits.
pub open spec fn display_parts(d: DecimalValue) -> (Seq<char>, Seq<char>) {
    let ds = mantissa_digits(d.mantissa as int);
    let padded = zeros(d.scale - ds.len()) + ds;
    let whole = padded.take(padded.len() - d.scale);
    let frac = padded.skip(padded.len() - d.scale);
    (if whole.len() == 0 { "0"@ } else { whole }, frac)
}

proof fn lemma_digit_char(k: nat)
    requires
        k < 10,
    ensures
        is_digit(digit_char(k)),
        digit_value(digit_char(k)) == k,
{
    assert(k == 0 || k == 1 || k == 2 || k == 3 || k == 4 || k == 5 || k == 6 || k == 7 || k == 8 || k == 9);
}

proof fn lemma_decimal_digits(n: nat)
    ensures
        all_digits(decimal(n)),
        digits_value(decimal(n)) == n,
        decimal(n).len() > 0,
    decreases n,
{
    if n < 10 {
        lemma_digit_char(n);
        assert(decimal(n) =~= seq![digit_char(n)]);
        assert(decimal(n).drop_last() =~= Seq::<char>::empty());
        assert(digits_value(Seq::<char>::empty()) == 0);
        assert(digits_value(decimal(n)) == digits_value(decimal(n).drop_last()) * 10 + digit_value(decimal(n).last()));
    } else {
        lemma_digit_char(n % 10);
        lemma_decimal_digits(n / 10);
        let s = decimal(n / 10);
        assert(decimal(n) == s.push(digit_char(n % 10)));
        assert(s.push(digit_char(n % 10)).drop_last() =~= s);
        assert(digits_value(decimal(n)) == digits_value(s) * 10 + digit_value(digit_char(n % 10)));
        assert((n / 10) * 10 + n % 10 == n);
        assert forall|i: int| 0 <= i < decimal(n).len() implies is_digit(#[trigger] decimal(n)[i]) by {
            if i < s.len() {
                assert(decimal(n)[i] == s[i]);
            }
        }
    }
}

proof fn lemma_zeros_value(k: int)
    ensures
        all_digits(zeros(k)),
        digits_value(zeros(k)) == 0,
    decreases if k > 0 { k } else { 0 },
{
    if k > 0 {
        lemma_zeros_value(k - 1);
        assert(zeros(k).drop_last() =~= zeros(k - 1));
    } else {
        assert(zeros(k).len() == 0);
    }
}

/// Leading zeros do not change the value of a digit string.
proof fn lemma_leading_zeros(k: int, s: Seq<char>)
    ensures
        digits_value(zeros(k) + s) == digits_value(s),
    decreases s.len(),
{
    if s.len() == 0 {
        assert(zeros(k) + s =~= zeros(k));
        lemma_zeros_value(k);
    } else {
        assert((zeros(k) + s).drop_last() =~= zeros(k) + s.drop_last());
        assert((zeros(k) + s).last() == s.last());
        lemma_leading_zeros(k, s.drop_last());
    }
}

/// An amount goes out exactly as held: no rounding and no lost places. A
/// non-negative decimal is printed as its integer digits, then, when it has a
/// scale, a point and exactly `scale` fraction digits; read together, those
/// digits are the mantissa.
pub proof fn lemma_amount_printed_exactly(d: DecimalValue)
    requires
        d.wf(),
        !d.negative,
    ensures
        decimal_display(d) == display_parts(d).0 + (if d.scale > 0 { "."@ + display_parts(d).1 } else { Seq::<char>::empty() }),
        display_parts(d).1.len() == d.scale,
        display_parts(d).0.len() > 0,
        all_digits(display_parts(d).0),
        all_digits(display_parts(d).1),
        digits_value(display_parts(d).0 + display_parts(d).1) == d.mantissa,
{
    let m = d.mantissa as int;
    let ds = mantissa_digits(m);
    if m == 0 {
        assert(ds.len() == 0);
        assert(all_digits(ds));
        assert(digits_value(ds) == 0);
    } else {
        lemma_decimal_digits(m as nat);
    }
    let k = d.scale - ds.len();
    let padded = zeros(k) + ds;
    lemma_zeros_value(k);
    lemma_leading_zeros(k, ds);
    assert(all_digits(padded)) by {
        assert forall|i: int| 0 <= i < padded.len() implies is_digit(#[trigger] padded[i]) by {
            if i < zeros(k).len() {
                assert(padded[i] == zeros(k)[i]);
            } else {
                assert(padded[i] == ds[i - zeros(k).len()]);
            }
        }
    }
    let cut = padded.len() - d.scale;
    let whole = padded.take(cut);
    let frac = padded.skip(cut);
    assert(whole + frac =~= padded);
    assert(all_digits(frac)) by {
        assert forall|i: int| 0 <= i < frac.len() implies is_digit(#[trigger] frac[i]) by {
            assert(frac[i] == padded[i + cut]);
        }
    }
    if whole.len() == 0 {
        reveal_strlit("0");
        assert("0"@ =~= zeros(1));
        assert("0"@ + frac =~= zeros(1) + padded);
        lemma_leading_zeros(1, padded);
        lemma_zeros_value(1);
    } else {
        assert(all_digits(whole)) by {
            assert forall|i: int| 0 <= i < whole.len() implies is_digit(#[trigger] whole[i]) by {
                assert(whole[i] == padded[i]);
            }
        }
    }
    assert(decimal_display(d) =~= display_parts(d).0 + (if d.scale > 0 { "."@ + display_parts(d).1 } else { Seq::<char>::empty() }));
}

/// Rebuilds the `Decimal` with `Decimal::from_i128_with_scale` and
/// `set_sign_negative` and prints it with `to_string`, as `decimal_display`
/// states.
#[verifier::external_body]
fn decimal_to_text(d: DecimalValue) -> (r: String)
    requires
        d.wf(),
    ensures
        r@ == decimal_display(d),
{
    let mut v = rust_decimal::Decimal::from_i128_with_scale(d.mantissa, d.scale);
    v.set_sign_negative(d.negative);
    v.to_string()
}

/// Why a typed amount or rate was refused; each holds the text as typed.
#[derive(Debug, PartialEq, Eq)]
pub enum MoneyError {
    /// Scientific notation such as `1e2`.
    Scientific(String),
    /// A leading `+`.
    LeadingPlus(String),
    /// Not a decimal number at all.
    Invalid(String),
    /// Below zero.
    Negative(String),
    /// More decimal places than allowed.
    TooManyPlaces(String),
}

pub enum MoneyErrorKind {
    Scientific,
    LeadingPlus,
    Invalid,
    Negative,
    TooManyPlaces,
}

impl MoneyError {
    pub open spec fn kind(self) -> MoneyErrorKind {
        match self {
            MoneyError::Scientific(_) => MoneyErrorKind::Scientific,
            MoneyError::LeadingPlus(_) => MoneyErrorKind::LeadingPlus,
            MoneyError::Invalid(_) => MoneyErrorKind::Invalid,
            MoneyError::Negative(_) => MoneyErrorKind::Negative,
            MoneyError::TooManyPlaces(_) => MoneyErrorKind::TooManyPlaces,
        }
    }

    pub open spec fn raw(self) -> Seq<char> {
        match self {
            MoneyError::Scientific(s) => s@,
            MoneyError::LeadingPlus(s) => s@,
            MoneyError::Invalid(s) => s@,
            MoneyError::Negative(s) => s@,
            MoneyError::TooManyPlaces(s) => s@,
        }
    }
}

/// What a typed decimal is found to be, given what the parser made of it.
pub open spec fn classified(parsed: Option<DecimalValue>, max_scale: u32) -> Result<DecimalValue, MoneyErrorKind> {
    match parsed {
        None => Err(MoneyErrorKind::Invalid),
        Some(d) => if d.negative {
            Err(MoneyErrorKind::Negative)
        } else if d.scale > max_scale {
            Err(MoneyErrorKind::TooManyPlaces)
        } else {
            Ok(d)
        },
    }
}

/// The policy for a typed decimal: after trimming, no `e`/`E`, no leading
/// `+`, a number by `Decimal::from_str`, not negative, at most `max_scale`
/// decimal places.
pub open spec fn checked_decimal(raw: Seq<char>, max_scale: u32) -> Result<DecimalValue, MoneyErrorKind> {
    let s = trim(raw);
    if s.contains('e') || s.contains('E') {
        Err(MoneyErrorKind::Scientific)
    } else if s.len() > 0 && s[0] == '+' {
        Err(MoneyErrorKind::LeadingPlus)
    } else {
        classified(decimal_parse(s), max_scale)
    }
}

pub open spec fn result_matches(r: Result<DecimalValue, MoneyError>, raw: Seq<char>, expected: Result<DecimalValue, MoneyErrorKind>) -> bool {
    match r {
        Ok(d) => expected == Ok::<DecimalValue, MoneyErrorKind>(d),
        Err(e) => expected == Err::<DecimalValue, MoneyErrorKind>(e.kind()) && e.raw() == raw,
    }
}

/// Classifies a parsed decimal: refused when missing, negative, or with more
/// than `max_scale` decimal places; the error carries `raw`.
pub fn classify_decimal(raw: &str, parsed: Option<DecimalValue>, max_scale: u32) -> (r: Result<DecimalValue, MoneyError>)
    ensures
        result_matches(r, raw@, classified(parsed, max_scale)),
{
    match parsed {
        None => Err(MoneyError::Invalid(owned(raw))),
        Some(d) => if d.negative {
            Err(MoneyError::Negative(owned(raw)))
        } else if d.scale > max_scale {
            Err(MoneyError::TooManyPlaces(owned(raw)))
        } else {
            Ok(d)
        },
    }
}

fn parse_decimal(raw: &str, max_scale: u32) -> (r: Result<DecimalValue, MoneyError>)
    ensures
        result_matches(r, raw@, checked_decimal(raw@, max_scale)),
        r matches Ok(d) ==> d.wf(),
{
    let s = trimmed_chars(raw);
    if has_char(&s, 'e') || has_char(&s, 'E') {
        return Err(MoneyError::Scientific(owned(raw)));
    }
    if s.len() > 0 && s[0] == '+' {
        return Err(MoneyError::LeadingPlus(owned(raw)));
    }
    let text = string_of(&s);
    let parsed = decimal_from_str(text.as_str());
    classify_decimal(raw, parsed, max_scale)
}

/// Parses `--amount`/`--tip-amount`: a plain, non-negative decimal with at
/// most 2 decimal places.
pub fn parse_amount(raw: &str) -> (r: Result<DecimalValue, MoneyError>)
    ensures
        result_matches(r, raw@, checked_decimal(raw@, 2)),
        r matches Ok(d) ==> d.wf() && !d.negative && d.scale <= 2,
{
    parse_decimal(raw, 2)
}

/// Parses `--tip-rate` and similar rates: like amounts, but up to 4 decimal
/// places, since rates are not money.
pub fn parse_rate(raw: &str) -> (r: Result<DecimalValue, MoneyError>)
    ensures
        result_matches(r, raw@, checked_decimal(raw@, 4)),
        r matches Ok(d) ==> d.wf() && !d.negative && d.scale <= 4,
{
    parse_decimal(raw, 4)
}

/// A JSON number that carries the exact decimal text (`100.00` stays
/// `100.00`, `0.10` stays `0.10`).
pub fn to_amount_number(d: DecimalValue) -> (r: Json)
    requires
        d.wf(),
    ensures
        r@ == JsonV::Number(decimal_display(d)),
{
    Json::Number(decimal_to_text(d))
}

/// The three typed numbers of a card transaction, read.
#[derive(Debug, PartialEq, Eq)]
pub struct ParsedMoneyArgs {
    pub amount: DecimalValue,
    pub tip_amount: Option<DecimalValue>,
    pub l2_tax_rate: Option<DecimalValue>,
}

/// What the amount policy makes of an optional typed number.
pub open spec fn checked_amount_opt(raw: Option<&str>) -> Result<Option<DecimalValue>, MoneyErrorKind> {
    match raw {
        None => Ok(None),
        Some(s) => match checked_decimal(s@, 2) {
            Ok(d) => Ok(Some(d)),
            Err(k) => Err(k),
        },
    }
}

fn amount_opt(raw: Option<&str>) -> (r: Result<Option<DecimalValue>, MoneyError>)
    ensures
        match checked_amount_opt(raw) {
            Ok(d) => r == Ok::<Option<DecimalValue>, MoneyError>(d),
            Err(k) => r matches Err(e) && e.kind() == k && (raw matches Some(s) && e.raw() == s@),
        },
{
    match raw {
        None => Ok(None),
        Some(s) => match parse_amount(s) {
            Ok(d) => Ok(Some(d)),
            Err(e) => Err(e),
        },
    }
}

/// Reads the amount, tip amount and level-2 tax rate of a card transaction,
/// all three under the amount policy, in that order; the first refusal is
/// returned.
pub fn parse_txn_money(amount: &str, tip_amount: Option<&str>, l2_tax_rate: Option<&str>) -> (r: Result<ParsedMoneyArgs, MoneyError>)
    ensures
        match checked_decimal(amount@, 2) {
            Err(k) => r matches Err(e) && e.kind() == k && e.raw() == amount@,
            Ok(a) => match checked_amount_opt(tip_amount) {
                Err(k) => r matches Err(e) && e.kind() == k && (tip_amount matches Some(s) && e.raw() == s@),
                Ok(t) => match checked_amount_opt(l2_tax_rate) {
                    Err(k) => r matches Err(e) && e.kind() == k && (l2_tax_rate matches Some(s) && e.raw() == s@),
                    Ok(l2) => r == Ok::<ParsedMoneyArgs, MoneyError>(ParsedMoneyArgs { amount: a, tip_amount: t, l2_tax_rate: l2 }),
                },
            },
        },
{
    let a = match parse_amount(amount) {
        Ok(d) => d,
        Err(e) => return Err(e),
    };
    let t = match amount_opt(tip_amount) {
        Ok(d) => d,
        Err(e) => return Err(e),
    };
    let l2 = match amount_opt(l2_tax_rate) {
        Ok(d) => d,
        Err(e) => return Err(e),
    };
    Ok(ParsedMoneyArgs { amount: a, tip_amount: t, l2_tax_rate: l2 })
}

/// The message for a refused typed number; `noun` is `amount` or `rate`.
pub open spec fn money_message(e: MoneyError, noun: Seq<char>) -> Seq<char> {
    match e.kind() {
        MoneyErrorKind::Scientific => noun + " must be a plain decimal, not scientific notation: "@ + e.raw(),
        MoneyErrorKind::LeadingPlus => noun + " must be a plain decimal without a leading '+': "@ + e.raw(),
        MoneyErrorKind::Invalid => "invalid "@ + noun + ": "@ + e.raw(),
        MoneyErrorKind::Negative => noun + " must not be negative: "@ + e.raw(),
        MoneyErrorKind::TooManyPlaces => noun + " must have at most "@ + (if noun == "rate"@ { "4"@ } else { "2"@ }) + " decimal places: "@ + e.raw(),
    }
}

impl MoneyError {
    /// The message shown to the user; `noun` is `amount` or `rate`.
    pub fn describe(&self, noun: &str) -> (r: String)
        ensures
            r@ == money_message(*self, noun@),
    {
        match self {
            MoneyError::Scientific(raw) => {
                let mut m = owned(noun);
                append(&mut m, " must be a plain decimal, not scientific notation: ");
                append(&mut m, raw.as_str());
                m
            },
            MoneyError::LeadingPlus(raw) => {
                let mut m = owned(noun);
                append(&mut m, " must be a plain decimal without a leading '+': ");
                append(&mut m, raw.as_str());
                m
            },
            MoneyError::Invalid(raw) => {
                let mut m = owned("invalid ");
                append(&mut m, noun);
                append(&mut m, ": ");
                append(&mut m, raw.as_str());
                m
            },
            MoneyError::Negative(raw) => {
                let mut m = owned(noun);
                append(&mut m, " must not be negative: ");
                append(&mut m, raw.as_str());
                m
            },
            MoneyError::TooManyPlaces(raw) => {
                let mut m = owned(noun);
                append(&mut m, " must have at most ");
                if crate::text::same_text(noun, "rate") {
                    append(&mut m, "4");
                } else {
                    append(&mut m, "2");
                }
                append(&mut m, " decimal places: ");
                append(&mut m, raw.as_str());
                m
            },
        }
    }
}

} // verus!
