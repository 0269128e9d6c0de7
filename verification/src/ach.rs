//! ACH debit and credit: the account enums as the API numbers them, and the
//! request body shared by both directions.

use vstd::prelude::*;

use crate::json::{Json, JsonV, entries_view, int_number, int_text, object, opt_entry, opt_str, push_entry, push_opt_text, group_lookup, lookup, lemma_lookup_concat, lemma_lookup_opt_entry, lemma_lookup_single};
use crate::pos::money_sent;
use crate::money::{DecimalValue, decimal_display, to_amount_number};
use crate::address::{BillingArgs, ContactArgs, billing_transaction_json, billing_value, contact_info_json, contact_value};

verus! {

/// `--account-type`: checking or savings.
#[derive(Debug, Clone, Copy, PartialEq, Eq, Structural)]
pub enum AccountTypeArg {
    Checking,
    Savings,
}

/// The API's number for an account type: checking 1, savings 2.
pub open spec fn account_type_code(t: AccountTypeArg) -> int {
    match t {
        AccountTypeArg::Checking => 1,
        AccountTypeArg::Savings => 2,
    }
}

impl AccountTypeArg {
    /// The integer the API expects for this account type.
    pub fn to_api_int(self) -> (r: i32)
        ensures
            r == account_type_code(self),
    {
        match self {
            AccountTypeArg::Checking => 1,
            AccountTypeArg::Savings => 2,
        }
    }
}

/// `--account-holder-type`: business or personal.
#[derive(Debug, Clone, Copy, PartialEq, Eq, Structural)]
pub enum AccountHolderTypeArg {
    Business,
    Personal,
}

/// The API's number for an account holder type: business 1, personal 2.
pub open spec fn holder_type_code(t: AccountHolderTypeArg) -> int {
    match t {
        AccountHolderTypeArg::Business => 1,
        AccountHolderTypeArg::Personal => 2,
    }
}

impl AccountHolderTypeArg {
    /// The integer the API expects for this holder type.
    pub fn to_api_int(self) -> (r: i32)
        ensures
            r == holder_type_code(self),
    {
        match self {
            AccountHolderTypeArg::Business => 1,
            AccountHolderTypeArg::Personal => 2,
        }
    }
}

/// The JSON number of an optional account type.
pub open spec fn opt_account_type(t: Option<AccountTypeArg>) -> Option<JsonV> {
    match t {
        Some(t) => Some(JsonV::Number(int_text(account_type_code(t)))),
        None => None,
    }
}

/// The JSON number of an optional holder type.
pub open spec fn opt_holder_type(t: Option<AccountHolderTypeArg>) -> Option<JsonV> {
    match t {
        Some(t) => Some(JsonV::Number(int_text(holder_type_code(t)))),
        None => None,
    }
}

/// Appends an account type entry when one is given.
pub fn push_opt_account_type(out: &mut Vec<(String, Json)>, key: &str, t: Option<AccountTypeArg>)
    ensures
        entries_view(final(out)@) == entries_view(old(out)@) + opt_entry(key@, opt_account_type(t)),
{
    match t {
        Some(t) => push_entry(out, key, int_number(t.to_api_int() as i64)),
        None => {
            assert(entries_view(out@) =~= entries_view(out@) + Seq::<(Seq<char>, JsonV)>::empty());
        },
    }
}

/// Appends a holder type entry when one is given.
pub fn push_opt_holder_type(out: &mut Vec<(String, Json)>, key: &str, t: Option<AccountHolderTypeArg>)
    ensures
        entries_view(final(out)@) == entries_view(old(out)@) + opt_entry(key@, opt_holder_type(t)),
{
    match t {
        Some(t) => push_entry(out, key, int_number(t.to_api_int() as i64)),
        None => {
            assert(entries_view(out@) =~= entries_view(out@) + Seq::<(Seq<char>, JsonV)>::empty());
        },
    }
}

/// Every flag of an ACH `debit` or `credit`; both directions send the same body.
pub struct AchArgs {
    /// The amount, sent as an exact decimal.
    pub amount: DecimalValue,
    /// `paymentProcessorId`.
    pub payment_processor_id: String,
    /// `requesterIpAddress`.
    pub requester_ip: String,
    /// `secCode`, the SEC code as the API numbers it.
    pub sec_code: i32,
    /// `routingNumber`, when given.
    pub routing: Option<String>,
    /// `accountNumber`, when given.
    pub account: Option<String>,
    /// `accountType`, when given.
    pub account_type: Option<AccountTypeArg>,
    /// `accountHolderType`, when given.
    pub account_holder_type: Option<AccountHolderTypeArg>,
    /// `taxId`, when given.
    pub tax_id: Option<String>,
    /// `customerId`, when given.
    pub customer_id: Option<String>,
    /// `paymentMethodId`, when given.
    pub payment_method_id: Option<String>,
    /// `isFasterProcessing`, always sent.
    pub faster: bool,
    /// `billingAddress`, sent when any part is given.
    pub billing: BillingArgs,
    /// `contactInfo`, sent when any part is given.
    pub contact: ContactArgs,
}

/// The entries of an ACH body, in the order they are written: the four
/// required fields, each optional field only when given,
/// `isFasterProcessing` always, then the billing address and the contact,
/// each only when some part of it was given.
pub open spec fn ach_entries(a: AchArgs) -> Seq<(Seq<char>, JsonV)> {
    seq![
        ("amount"@, JsonV::Number(decimal_display(a.amount))),
        ("paymentProcessorId"@, JsonV::Str(a.payment_processor_id@)),
        ("requesterIpAddress"@, JsonV::Str(a.requester_ip@)),
        ("secCode"@, JsonV::Number(int_text(a.sec_code as int))),
    ]
        + opt_entry("routingNumber"@, opt_str(a.routing))
        + opt_entry("accountNumber"@, opt_str(a.account))
        + opt_entry("accountType"@, opt_account_type(a.account_type))
        + opt_entry("accountHolderType"@, opt_holder_type(a.account_holder_type))
        + opt_entry("taxId"@, opt_str(a.tax_id))
        + opt_entry("customerId"@, opt_str(a.customer_id))
        + opt_entry("paymentMethodId"@, opt_str(a.payment_method_id))
        + seq![("isFasterProcessing"@, JsonV::Bool(a.faster))]
        + opt_entry("billingAddress"@, billing_value(a.billing))
        + opt_entry("contactInfo"@, contact_value(a.contact))
}

/// Appends an object entry when there is one.
fn push_opt_object(out: &mut Vec<(String, Json)>, key: &str, v: Option<Json>)
    ensures
        entries_view(final(out)@) == entries_view(old(out)@) + opt_entry(key@, match v { Some(j) => Some(j@), None => None }),
{
    match v {
        Some(j) => push_entry(out, key, j),
        None => {
            assert(entries_view(out@) =~= entries_view(out@) + Seq::<(Seq<char>, JsonV)>::empty());
        },
    }
}

/// The entries of an ACH body up to the account number.
pub open spec fn ach_head(a: AchArgs) -> Seq<(Seq<char>, JsonV)> {
    seq![
        ("amount"@, JsonV::Number(decimal_display(a.amount))),
        ("paymentProcessorId"@, JsonV::Str(a.payment_processor_id@)),
        ("requesterIpAddress"@, JsonV::Str(a.requester_ip@)),
        ("secCode"@, JsonV::Number(int_text(a.sec_code as int))),
    ]
        + opt_entry("routingNumber"@, opt_str(a.routing))
        + opt_entry("accountNumber"@, opt_str(a.account))
}

proof fn lemma_ach_head_fields(a: AchArgs)
    ensures
        lookup(ach_head(a), "amount"@) == Some(JsonV::Number(decimal_display(a.amount))),
        lookup(ach_head(a), "routingNumber"@) == opt_str(a.routing),
        lookup(ach_head(a), "accountNumber"@) == opt_str(a.account),
{
    broadcast use group_lookup;
    reveal_strlit("amount");
    reveal_strlit("paymentProcessorId");
    reveal_strlit("requesterIpAddress");
    reveal_strlit("secCode");
    reveal_strlit("routingNumber");
    reveal_strlit("accountNumber");
    assert("amount"@.len() == 6);
    assert("paymentProcessorId"@.len() == 18);
    assert("requesterIpAddress"@.len() == 18);
    assert("secCode"@.len() == 7);
    assert("routingNumber"@.len() == 13);
    assert("accountNumber"@.len() == 13);
    assert("routingNumber"@[0] != "accountNumber"@[0]);
    let four = seq![
        ("amount"@, JsonV::Number(decimal_display(a.amount))),
        ("paymentProcessorId"@, JsonV::Str(a.payment_processor_id@)),
        ("requesterIpAddress"@, JsonV::Str(a.requester_ip@)),
        ("secCode"@, JsonV::Number(int_text(a.sec_code as int))),
    ];
    let singles = seq![("amount"@, JsonV::Number(decimal_display(a.amount)))]
        + seq![("paymentProcessorId"@, JsonV::Str(a.payment_processor_id@))]
        + seq![("requesterIpAddress"@, JsonV::Str(a.requester_ip@))]
        + seq![("secCode"@, JsonV::Number(int_text(a.sec_code as int)))];
    assert(four =~= singles);
    assert(lookup(singles, "amount"@) == Some(JsonV::Number(decimal_display(a.amount))));
    assert(lookup(singles, "routingNumber"@) is None);
    assert(lookup(singles, "accountNumber"@) is None);
}

/// Appending entries that do not hold a key leaves its lookup unchanged.
proof fn lemma_lookup_skip(x: Seq<(Seq<char>, JsonV)>, y: Seq<(Seq<char>, JsonV)>, key: Seq<char>)
    requires
        lookup(y, key) is None,
    ensures
        lookup(x + y, key) == lookup(x, key),
{
    lemma_lookup_concat(x, y, key);
}

/// The later entries of an ACH body hold neither number.
proof fn lemma_ach_tail_keys(k: Seq<char>)
    requires
        k == "routingNumber"@ || k == "accountNumber"@ || k == "amount"@,
    ensures
        k != "accountType"@,
        k != "accountHolderType"@,
        k != "taxId"@,
        k != "customerId"@,
        k != "paymentMethodId"@,
        k != "isFasterProcessing"@,
        k != "billingAddress"@,
        k != "contactInfo"@,
{
    reveal_strlit("amount");
    reveal_strlit("routingNumber");
    reveal_strlit("accountNumber");
    reveal_strlit("accountType");
    reveal_strlit("accountHolderType");
    reveal_strlit("taxId");
    reveal_strlit("customerId");
    reveal_strlit("paymentMethodId");
    reveal_strlit("isFasterProcessing");
    reveal_strlit("billingAddress");
    reveal_strlit("contactInfo");
    assert("amount"@.len() == 6);
    assert("routingNumber"@.len() == 13);
    assert("accountNumber"@.len() == 13);
    assert("accountType"@.len() == 11);
    assert("accountHolderType"@.len() == 17);
    assert("taxId"@.len() == 5);
    assert("customerId"@.len() == 10);
    assert("paymentMethodId"@.len() == 15);
    assert("isFasterProcessing"@.len() == 18);
    assert("billingAddress"@.len() == 14);
    assert("contactInfo"@.len() == 11);
}

/// Looking a key up in an ACH body finds it in the head, for the keys the
/// rest never holds.
proof fn lemma_ach_lookup_in_head(a: AchArgs, k: Seq<char>)
    requires
        k == "routingNumber"@ || k == "accountNumber"@ || k == "amount"@,
    ensures
        lookup(ach_entries(a), k) == lookup(ach_head(a), k),
{
    lemma_ach_tail_keys(k);
    let t1 = opt_entry("accountType"@, opt_account_type(a.account_type));
    let t2 = opt_entry("accountHolderType"@, opt_holder_type(a.account_holder_type));
    let t3 = opt_entry("taxId"@, opt_str(a.tax_id));
    let t4 = opt_entry("customerId"@, opt_str(a.customer_id));
    let t5 = opt_entry("paymentMethodId"@, opt_str(a.payment_method_id));
    let t6 = seq![("isFasterProcessing"@, JsonV::Bool(a.faster))];
    let t7 = opt_entry("billingAddress"@, billing_value(a.billing));
    let t8 = opt_entry("contactInfo"@, contact_value(a.contact));
    lemma_lookup_opt_entry("accountType"@, opt_account_type(a.account_type), k);
    lemma_lookup_opt_entry("accountHolderType"@, opt_holder_type(a.account_holder_type), k);
    lemma_lookup_opt_entry("taxId"@, opt_str(a.tax_id), k);
    lemma_lookup_opt_entry("customerId"@, opt_str(a.customer_id), k);
    lemma_lookup_opt_entry("paymentMethodId"@, opt_str(a.payment_method_id), k);
    lemma_lookup_single("isFasterProcessing"@, JsonV::Bool(a.faster), k);
    lemma_lookup_opt_entry("billingAddress"@, billing_value(a.billing), k);
    lemma_lookup_opt_entry("contactInfo"@, contact_value(a.contact), k);
    let h = ach_head(a);
    lemma_lookup_skip(h, t1, k);
    lemma_lookup_skip(h + t1, t2, k);
    lemma_lookup_skip(h + t1 + t2, t3, k);
    lemma_lookup_skip(h + t1 + t2 + t3, t4, k);
    lemma_lookup_skip(h + t1 + t2 + t3 + t4, t5, k);
    lemma_lookup_skip(h + t1 + t2 + t3 + t4 + t5, t6, k);
    lemma_lookup_skip(h + t1 + t2 + t3 + t4 + t5 + t6, t7, k);
    lemma_lookup_skip(h + t1 + t2 + t3 + t4 + t5 + t6 + t7, t8, k);
}

/// The fields of an ACH body are the flags they name: `amount` the amount,
/// `routingNumber` the routing number and `accountNumber` the account number
/// (each only when given), never one for the other.
pub proof fn lemma_ach_fields(a: AchArgs)
    ensures
        money_sent(JsonV::Object(ach_entries(a)), "amount"@, Some(a.amount)),
        JsonV::Object(ach_entries(a)).get("routingNumber"@) == opt_str(a.routing),
        JsonV::Object(ach_entries(a)).get("accountNumber"@) == opt_str(a.account),
{
    lemma_ach_head_fields(a);
    lemma_ach_lookup_in_head(a, "amount"@);
    lemma_ach_lookup_in_head(a, "routingNumber"@);
    lemma_ach_lookup_in_head(a, "accountNumber"@);
}

/// The JSON body of an ACH `debit` or `credit`.
pub fn build_ach_body(args: &AchArgs) -> (r: Json)
    requires
        args.amount.wf(),
    ensures
        r@ == JsonV::Object(ach_entries(*args)),
        money_sent(r@, "amount"@, Some(args.amount)),
        r@.get("routingNumber"@) == opt_str(args.routing),
        r@.get("accountNumber"@) == opt_str(args.account),
{
    proof {
        lemma_ach_fields(*args);
    }
    let mut obj: Vec<(String, Json)> = Vec::new();
    push_entry(&mut obj, "amount", to_amount_number(args.amount));
    push_entry(&mut obj, "paymentProcessorId", Json::text(args.payment_processor_id.as_str()));
    push_entry(&mut obj, "requesterIpAddress", Json::text(args.requester_ip.as_str()));
    push_entry(&mut obj, "secCode", int_number(args.sec_code as i64));
    let ghost head = entries_view(obj@);
    assert(head =~= seq![
        ("amount"@, JsonV::Number(decimal_display(args.amount))),
        ("paymentProcessorId"@, JsonV::Str(args.payment_processor_id@)),
        ("requesterIpAddress"@, JsonV::Str(args.requester_ip@)),
        ("secCode"@, JsonV::Number(int_text(args.sec_code as int))),
    ]);
    push_opt_text(&mut obj, "routingNumber", &args.routing);
    push_opt_text(&mut obj, "accountNumber", &args.account);
    push_opt_account_type(&mut obj, "accountType", args.account_type);
    push_opt_holder_type(&mut obj, "accountHolderType", args.account_holder_type);
    push_opt_text(&mut obj, "taxId", &args.tax_id);
    push_opt_text(&mut obj, "customerId", &args.customer_id);
    push_opt_text(&mut obj, "paymentMethodId", &args.payment_method_id);
    let ghost body = entries_view(obj@);
    push_entry(&mut obj, "isFasterProcessing", Json::Bool(args.faster));
    assert(entries_view(obj@) =~= body + seq![("isFasterProcessing"@, JsonV::Bool(args.faster))]);
    push_opt_object(&mut obj, "billingAddress", billing_transaction_json(&args.billing));
    push_opt_object(&mut obj, "contactInfo", contact_info_json(&args.contact));
    object(obj)
}

} // verus!
