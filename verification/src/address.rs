//! The `--billing-*` flags shared by the flows that check the address, and
//! the two spellings the API uses for them; the `--contact-*` flags and the
//! contact object built from them.

use vstd::prelude::*;

use crate::json::{Json, JsonV, entries_view, int_number, object, opt_entry, opt_str, push_entry, push_opt_text};
use crate::subscriptions::opt_int;

verus! {

/// The billing address as typed; every part is optional.
#[derive(Debug, Default)]
pub struct BillingArgs {
    pub line1: Option<String>,
    pub line2: Option<String>,
    pub city: Option<String>,
    pub state_name: Option<String>,
    pub state_id: Option<i32>,
    pub postal_code: Option<String>,
    pub country_id: Option<i32>,
}

impl BillingArgs {
    /// Whether any part of the address was given.
    pub open spec fn any_given(self) -> bool {
        self.line1 is Some || self.line2 is Some || self.city is Some || self.state_name is Some
            || self.state_id is Some || self.postal_code is Some || self.country_id is Some
    }

    /// True when the caller supplied at least one billing field.
    pub fn is_present(&self) -> (r: bool)
        ensures
            r == self.any_given(),
    {
        self.line1.is_some() || self.line2.is_some() || self.city.is_some() || self.state_name.is_some()
            || self.state_id.is_some() || self.postal_code.is_some() || self.country_id.is_some()
    }
}

/// Appends an integer entry when the value is present.
pub fn push_opt_int(out: &mut Vec<(String, Json)>, key: &str, v: Option<i32>)
    ensures
        entries_view(final(out)@) == entries_view(old(out)@) + opt_entry(key@, opt_int(v)),
{
    match v {
        Some(n) => push_entry(out, key, int_number(n as i64)),
        None => {
            assert(entries_view(out@) =~= entries_view(out@) + Seq::<(Seq<char>, JsonV)>::empty());
        },
    }
}

/// The address as a transaction spells it: `line1`, `line2`, `city`,
/// `stateName`, `stateId`, `postalCode`, `countryId`, each when given.
pub open spec fn transaction_address_entries(b: BillingArgs) -> Seq<(Seq<char>, JsonV)> {
    opt_entry("line1"@, opt_str(b.line1))
        + opt_entry("line2"@, opt_str(b.line2))
        + opt_entry("city"@, opt_str(b.city))
        + opt_entry("stateName"@, opt_str(b.state_name))
        + opt_entry("stateId"@, opt_int(b.state_id))
        + opt_entry("postalCode"@, opt_str(b.postal_code))
        + opt_entry("countryId"@, opt_int(b.country_id))
}

/// The address as a customer spells it: `addressLine1`, `addressLine2`,
/// `city`, `zip`, `stateName`, `stateId`, `countryId`, each when given.
pub open spec fn customer_address_entries(b: BillingArgs) -> Seq<(Seq<char>, JsonV)> {
    opt_entry("addressLine1"@, opt_str(b.line1))
        + opt_entry("addressLine2"@, opt_str(b.line2))
        + opt_entry("city"@, opt_str(b.city))
        + opt_entry("zip"@, opt_str(b.postal_code))
        + opt_entry("stateName"@, opt_str(b.state_name))
        + opt_entry("stateId"@, opt_int(b.state_id))
        + opt_entry("countryId"@, opt_int(b.country_id))
}

/// The transaction's `billingAddress`, or nothing when no part was given.
pub fn billing_transaction_json(b: &BillingArgs) -> (r: Option<Json>)
    ensures
        !b.any_given() ==> r is None,
        b.any_given() ==> (r matches Some(j) && j@ == JsonV::Object(transaction_address_entries(*b))),
{
    if !b.is_present() {
        return None;
    }
    let mut m: Vec<(String, Json)> = Vec::new();
    assert(entries_view(m@) =~= Seq::<(Seq<char>, JsonV)>::empty());
    push_opt_text(&mut m, "line1", &b.line1);
    assert(entries_view(m@) =~= opt_entry("line1"@, opt_str(b.line1)));
    push_opt_text(&mut m, "line2", &b.line2);
    push_opt_text(&mut m, "city", &b.city);
    push_opt_text(&mut m, "stateName", &b.state_name);
    push_opt_int(&mut m, "stateId", b.state_id);
    push_opt_text(&mut m, "postalCode", &b.postal_code);
    push_opt_int(&mut m, "countryId", b.country_id);
    Some(object(m))
}

/// The customer's `billingAddress`, or nothing when no part was given.
pub fn billing_customer_json(b: &BillingArgs) -> (r: Option<Json>)
    ensures
        !b.any_given() ==> r is None,
        b.any_given() ==> (r matches Some(j) && j@ == JsonV::Object(customer_address_entries(*b))),
{
    if !b.is_present() {
        return None;
    }
    let mut m: Vec<(String, Json)> = Vec::new();
    assert(entries_view(m@) =~= Seq::<(Seq<char>, JsonV)>::empty());
    push_opt_text(&mut m, "addressLine1", &b.line1);
    assert(entries_view(m@) =~= opt_entry("addressLine1"@, opt_str(b.line1)));
    push_opt_text(&mut m, "addressLine2", &b.line2);
    push_opt_text(&mut m, "city", &b.city);
    push_opt_text(&mut m, "zip", &b.postal_code);
    push_opt_text(&mut m, "stateName", &b.state_name);
    push_opt_int(&mut m, "stateId", b.state_id);
    push_opt_int(&mut m, "countryId", b.country_id);
    Some(object(m))
}

/// The transaction `billingAddress` as a value, when any part was given.
pub open spec fn billing_value(b: BillingArgs) -> Option<JsonV> {
    if b.any_given() {
        Some(JsonV::Object(transaction_address_entries(b)))
    } else {
        None
    }
}

/// The contact of a payment as typed; every part is optional.
#[derive(Debug, Default)]
pub struct ContactArgs {
    pub first_name: Option<String>,
    pub last_name: Option<String>,
    pub email: Option<String>,
    pub phone: Option<String>,
    pub company: Option<String>,
}

impl ContactArgs {
    /// Whether any part of the contact was given.
    pub open spec fn any_given(self) -> bool {
        self.first_name is Some || self.last_name is Some || self.email is Some || self.phone is Some
            || self.company is Some
    }

    /// True when the caller supplied at least one contact field.
    pub fn is_present(&self) -> (r: bool)
        ensures
            r == self.any_given(),
    {
        self.first_name.is_some() || self.last_name.is_some() || self.email.is_some() || self.phone.is_some()
            || self.company.is_some()
    }
}

/// The contact as a payment spells it: `firstName`, `lastName`, `email`,
/// `mobileNumber`, `companyName`, each when given.
pub open spec fn contact_entries(c: ContactArgs) -> Seq<(Seq<char>, JsonV)> {
    opt_entry("firstName"@, opt_str(c.first_name))
        + opt_entry("lastName"@, opt_str(c.last_name))
        + opt_entry("email"@, opt_str(c.email))
        + opt_entry("mobileNumber"@, opt_str(c.phone))
        + opt_entry("companyName"@, opt_str(c.company))
}

/// The `contactInfo` as a value, when any part was given.
pub open spec fn contact_value(c: ContactArgs) -> Option<JsonV> {
    if c.any_given() {
        Some(JsonV::Object(contact_entries(c)))
    } else {
        None
    }
}

/// The payment's `contactInfo`, or nothing when no part was given.
pub fn contact_info_json(c: &ContactArgs) -> (r: Option<Json>)
    ensures
        !c.any_given() ==> r is None,
        c.any_given() ==> (r matches Some(j) && j@ == JsonV::Object(contact_entries(*c))),
{
    if !c.is_present() {
        return None;
    }
    let mut m: Vec<(String, Json)> = Vec::new();
    assert(entries_view(m@) =~= Seq::<(Seq<char>, JsonV)>::empty());
    push_opt_text(&mut m, "firstName", &c.first_name);
    assert(entries_view(m@) =~= opt_entry("firstName"@, opt_str(c.first_name)));
    push_opt_text(&mut m, "lastName", &c.last_name);
    push_opt_text(&mut m, "email", &c.email);
    push_opt_text(&mut m, "mobileNumber", &c.phone);
    push_opt_text(&mut m, "companyName", &c.company);
    Some(object(m))
}

} // verus!
