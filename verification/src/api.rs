//! The requests the CLI makes of the Flute API: method, path (with its query
//! string) and body of each endpoint, and the decisions around a response
//! (one retry after a 401, then success or the API's error).

use vstd::prelude::*;

use crate::api_error::{ApiError, api_parts, decode_aspnet, error_for, from_aspnet};
use crate::json::{Json, json_error_text, parse_json, parsed_json};
use crate::text::{owned, append, decimal, decimal_string, join};
use vstd::utf8::encode_utf8;

verus! {

/// The HTTP methods the API is called with.
#[derive(Debug, Clone, Copy, PartialEq, Eq, Structural)]
pub enum HttpMethod {
    Get,
    Post,
    Put,
    Delete,
}

/// What the caller makes of a successful response: the JSON it carries, or
/// nothing (the body is not read).
#[derive(Debug, Clone, Copy, PartialEq, Eq, Structural)]
pub enum Reply {
    Json,
    Empty,
}

/// One call of the API.
pub struct ApiRequest {
    pub method: HttpMethod,
    /// The path below the base URL, with its query string.
    pub path: String,
    pub body: Option<Json>,
    pub reply: Reply,
}

/// Whether a byte is written as itself in a form-encoded text.
pub open spec fn form_unchanged(b: u8) -> bool {
    b == 0x2a || b == 0x2d || b == 0x2e || b == 0x5f || (0x30 <= b <= 0x39) || (0x41 <= b <= 0x5a) || (0x61 <= b <= 0x7a)
}

/// An upper-case hexadecimal digit.
pub open spec fn hex_digit(n: u8) -> char {
    if n < 10 {
        ((n + 0x30) as u8) as char
    } else {
        ((n - 10 + 0x41) as u8) as char
    }
}

/// One byte as `application/x-www-form-urlencoded` writes it: itself when
/// unchanged, `+` for a space, else `%` and two upper-case hex digits.
pub open spec fn form_byte(b: u8) -> Seq<char> {
    if form_unchanged(b) {
        seq![b as char]
    } else if b == 0x20 {
        "+"@
    } else {
        seq!['%', hex_digit(b / 16), hex_digit(b % 16)]
    }
}

/// Bytes as `application/x-www-form-urlencoded` writes them.
pub open spec fn form_bytes(bs: Seq<u8>) -> Seq<char>
    decreases bs.len(),
{
    if bs.len() == 0 {
        Seq::empty()
    } else {
        form_bytes(bs.drop_last()) + form_byte(bs.last())
    }
}

/// A text form-encoded over its UTF-8 bytes.
pub open spec fn form_encoded(s: Seq<char>) -> Seq<char> {
    form_bytes(encode_utf8(s))
}

/// Appends `name=value`, both form-encoded, to a query string, with a `&`
/// before it unless the string is empty
/// (`url::form_urlencoded::Serializer::append_pair` on a serializer over
/// the string).
#[verifier::external_body]
fn append_query_pair(query: &mut String, name: &str, value: &str)
    ensures
        final(query)@ == old(query)@ + (if old(query)@.len() > 0 { "&"@ } else { Seq::<char>::empty() })
            + form_encoded(name@) + "="@ + form_encoded(value@),
{
    url::form_urlencoded::Serializer::new(query).append_pair(name, value);
}

/// A query pair as it appears in the query string.
pub open spec fn encoded_pair(p: (Seq<char>, Seq<char>)) -> Seq<char> {
    form_encoded(p.0) + "="@ + form_encoded(p.1)
}

/// The query string of the given pairs, in order.
pub open spec fn query_text(pairs: Seq<(Seq<char>, Seq<char>)>) -> Seq<char> {
    join(pairs.map_values(|p: (Seq<char>, Seq<char>)| encoded_pair(p)), "&"@)
}

/// A path with its query string; no `?` when there are no pairs.
pub open spec fn with_query(base: Seq<char>, pairs: Seq<(Seq<char>, Seq<char>)>) -> Seq<char> {
    if pairs.len() == 0 {
        base
    } else {
        base + "?"@ + query_text(pairs)
    }
}

/// The views of a list of query pairs.
pub open spec fn pairs_view(pairs: Seq<(String, String)>) -> Seq<(Seq<char>, Seq<char>)> {
    pairs.map_values(|p: (String, String)| (p.0@, p.1@))
}

/// A path followed by the query string of the pairs.
pub fn path_with_query(base: &str, pairs: &Vec<(String, String)>) -> (r: String)
    ensures
        r@ == with_query(base@, pairs_view(pairs@)),
{
    let mut qs = String::new();
    let n = pairs.len();
    let ghost pv = pairs_view(pairs@);
    for i in 0..n
        invariant
            n == pairs@.len(),
            pv == pairs_view(pairs@),
            qs@ == query_text(pv.take(i as int)),
    {
        let ghost prev = pv.take(i as int);
        proof {
            assert(pv.take(i + 1).drop_last() =~= prev);
            assert(pv.take(i + 1).map_values(|p: (Seq<char>, Seq<char>)| encoded_pair(p)).drop_last()
                =~= prev.map_values(|p: (Seq<char>, Seq<char>)| encoded_pair(p)));
            if i > 0 {
                let parts = prev.map_values(|p: (Seq<char>, Seq<char>)| encoded_pair(p));
                assert(parts.last() == encoded_pair(pv[i - 1]));
                reveal_strlit("=");
                assert(encoded_pair(pv[i - 1]).len() > 0);
                lemma_join_nonempty(parts, "&"@);
            } else {
                assert(prev.map_values(|p: (Seq<char>, Seq<char>)| encoded_pair(p)) =~= Seq::<Seq<char>>::empty());
            }
        }
        append_query_pair(&mut qs, pairs[i].0.as_str(), pairs[i].1.as_str());
        proof {
            assert(pv.take(i + 1).map_values(|p: (Seq<char>, Seq<char>)| encoded_pair(p)).last() == encoded_pair(pv[i as int]));
            assert(encoded_pair(pv[i as int]) =~= form_encoded(pairs@[i as int].0@) + "="@ + form_encoded(pairs@[i as int].1@));
        }
    }
    assert(pv.take(n as int) =~= pv);
    if n == 0 {
        owned(base)
    } else {
        let mut p = owned(base);
        append(&mut p, "?");
        append(&mut p, qs.as_str());
        p
    }
}

/// A join of non-empty parts, at least one of them, is not empty.
proof fn lemma_join_nonempty(parts: Seq<Seq<char>>, sep: Seq<char>)
    requires
        parts.len() > 0,
        parts.last().len() > 0,
    ensures
        join(parts, sep).len() > 0,
{
    if parts.len() > 1 {
        assert(join(parts, sep) == join(parts.drop_last(), sep) + sep + parts.last());
    }
}

/// An optional query pair.
pub open spec fn opt_pair(name: Seq<char>, v: Option<Seq<char>>) -> Seq<(Seq<char>, Seq<char>)> {
    match v {
        Some(x) => seq![(name, x)],
        None => Seq::empty(),
    }
}

/// An optional number in decimal.
pub open spec fn opt_decimal(v: Option<u32>) -> Option<Seq<char>> {
    match v {
        Some(n) => Some(decimal(n as nat)),
        None => None,
    }
}

/// An optional borrowed text.
pub open spec fn opt_chars(v: Option<&str>) -> Option<Seq<char>> {
    match v {
        Some(s) => Some(s@),
        None => None,
    }
}

/// Appends a numeric query pair when the number is given.
fn push_number_pair(pairs: &mut Vec<(String, String)>, name: &str, v: Option<u32>)
    ensures
        pairs_view(final(pairs)@) == pairs_view(old(pairs)@) + opt_pair(name@, opt_decimal(v)),
{
    let ghost before = pairs_view(pairs@);
    match v {
        Some(n) => {
            pairs.push((owned(name), decimal_string(n as u64)));
            assert(pairs_view(pairs@) =~= before + seq![(name@, decimal(n as nat))]);
        },
        None => {
            assert(pairs_view(pairs@) =~= before + Seq::<(Seq<char>, Seq<char>)>::empty());
        },
    }
}

/// Appends a text query pair when the text is given.
fn push_text_pair(pairs: &mut Vec<(String, String)>, name: &str, v: Option<&str>)
    ensures
        pairs_view(final(pairs)@) == pairs_view(old(pairs)@) + opt_pair(name@, opt_chars(v)),
{
    let ghost before = pairs_view(pairs@);
    match v {
        Some(t) => {
            pairs.push((owned(name), owned(t)));
            assert(pairs_view(pairs@) =~= before + seq![(name@, t@)]);
        },
        None => {
            assert(pairs_view(pairs@) =~= before + Seq::<(Seq<char>, Seq<char>)>::empty());
        },
    }
}

/// An optional flag as `true` or `false`.
pub open spec fn opt_flag(v: Option<bool>) -> Option<Seq<char>> {
    match v {
        Some(true) => Some("true"@),
        Some(false) => Some("false"@),
        None => None,
    }
}

/// Appends a flag query pair when the flag is given.
fn push_flag_pair(pairs: &mut Vec<(String, String)>, name: &str, v: Option<bool>)
    ensures
        pairs_view(final(pairs)@) == pairs_view(old(pairs)@) + opt_pair(name@, opt_flag(v)),
{
    let ghost before = pairs_view(pairs@);
    match v {
        Some(b) => {
            let t = if b { owned("true") } else { owned("false") };
            pairs.push((owned(name), t));
            assert(pairs_view(pairs@) =~= before + opt_pair(name@, opt_flag(v)));
        },
        None => {
            assert(pairs_view(pairs@) =~= before + Seq::<(Seq<char>, Seq<char>)>::empty());
        },
    }
}

/// `prefix`, then the id, then `suffix`: a resource path. Ids are used as
/// given.
pub fn id_path(prefix: &str, id: &str, suffix: &str) -> (r: String)
    ensures
        r@ == prefix@ + id@ + suffix@,
{
    let mut p = owned(prefix);
    append(&mut p, id);
    append(&mut p, suffix);
    p
}

/// `prefix` followed by the id: a resource path.
pub fn child_path(prefix: &str, id: &str) -> (r: String)
    ensures
        r@ == prefix@ + id@,
{
    let mut p = owned(prefix);
    append(&mut p, id);
    p
}

/// Whether a request is the given call.
pub open spec fn is_call(r: ApiRequest, method: HttpMethod, path: Seq<char>, body: Option<Json>, reply: Reply) -> bool {
    r.method == method && r.path@ == path && r.body == body && r.reply == reply
}

impl ApiRequest {
    fn call(method: HttpMethod, path: String, body: Option<Json>, reply: Reply) -> (r: ApiRequest)
        ensures
            is_call(r, method, path@, body, reply),
    {
        ApiRequest { method, path, body, reply }
    }

    /// Whether the request goes out with an explicit empty body
    /// (`Content-Length: 0`): a POST or PUT that carries no JSON, which the
    /// API refuses without that header.
    pub fn sends_empty_body(&self) -> (r: bool)
        ensures
            r == (self.body is None && (self.method == HttpMethod::Post || self.method == HttpMethod::Put)),
    {
        self.body.is_none() && (self.method == HttpMethod::Post || self.method == HttpMethod::Put)
    }

    /// `GET /pay-int-api/ping`, the health check.
    pub fn ping() -> (r: ApiRequest)
        ensures
            is_call(r, HttpMethod::Get, "/pay-int-api/ping"@, None, Reply::Json),
    {
        ApiRequest::call(HttpMethod::Get, owned("/pay-int-api/ping"), None, Reply::Json)
    }

    /// An ACH debit.
    pub fn ach_debit(body: Json) -> (r: ApiRequest)
        ensures
            is_call(r, HttpMethod::Post, "/pay-api/v1/transactions/ach/payment"@, Some(body), Reply::Json),
    {
        ApiRequest::call(HttpMethod::Post, owned("/pay-api/v1/transactions/ach/payment"), Some(body), Reply::Json)
    }

    /// An ACH credit.
    pub fn ach_credit(body: Json) -> (r: ApiRequest)
        ensures
            is_call(r, HttpMethod::Post, "/pay-api/v1/transactions/ach/payment/credit"@, Some(body), Reply::Json),
    {
        ApiRequest::call(HttpMethod::Post, owned("/pay-api/v1/transactions/ach/payment/credit"), Some(body), Reply::Json)
    }

    /// Voids an ACH transaction.
    pub fn ach_void(id: &str) -> (r: ApiRequest)
        ensures
            is_call(r, HttpMethod::Post, "/pay-api/v1/transactions/ach/"@ + id@ + "/void"@, None, Reply::Json),
    {
        ApiRequest::call(HttpMethod::Post, id_path("/pay-api/v1/transactions/ach/", id, "/void"), None, Reply::Json)
    }

    /// Refunds an ACH transaction.
    pub fn ach_refund(id: &str) -> (r: ApiRequest)
        ensures
            is_call(r, HttpMethod::Post, "/pay-api/v1/transactions/ach/"@ + id@ + "/refund"@, None, Reply::Json),
    {
        ApiRequest::call(HttpMethod::Post, id_path("/pay-api/v1/transactions/ach/", id, "/refund"), None, Reply::Json)
    }

    /// A card sale.
    pub fn sale(body: Json) -> (r: ApiRequest)
        ensures
            is_call(r, HttpMethod::Post, "/pay-api/v1/transactions/sale"@, Some(body), Reply::Json),
    {
        ApiRequest::call(HttpMethod::Post, owned("/pay-api/v1/transactions/sale"), Some(body), Reply::Json)
    }

    /// A card authorization.
    pub fn auth_txn(body: Json) -> (r: ApiRequest)
        ensures
            is_call(r, HttpMethod::Post, "/pay-api/v1/transactions/auth"@, Some(body), Reply::Json),
    {
        ApiRequest::call(HttpMethod::Post, owned("/pay-api/v1/transactions/auth"), Some(body), Reply::Json)
    }

    /// Captures an authorized card transaction.
    pub fn capture(body: Json) -> (r: ApiRequest)
        ensures
            is_call(r, HttpMethod::Post, "/pay-api/v1/transactions/capture"@, Some(body), Reply::Json),
    {
        ApiRequest::call(HttpMethod::Post, owned("/pay-api/v1/transactions/capture"), Some(body), Reply::Json)
    }

    /// Voids a card transaction.
    pub fn void(body: Json) -> (r: ApiRequest)
        ensures
            is_call(r, HttpMethod::Post, "/pay-api/v1/transactions/void"@, Some(body), Reply::Json),
    {
        ApiRequest::call(HttpMethod::Post, owned("/pay-api/v1/transactions/void"), Some(body), Reply::Json)
    }

    /// Refunds a card transaction; the API calls it a return.
    pub fn refund(body: Json) -> (r: ApiRequest)
        ensures
            is_call(r, HttpMethod::Post, "/pay-api/v1/transactions/return"@, Some(body), Reply::Json),
    {
        ApiRequest::call(HttpMethod::Post, owned("/pay-api/v1/transactions/return"), Some(body), Reply::Json)
    }

    /// Settles a payment processor's open batch.
    pub fn settle(body: Json) -> (r: ApiRequest)
        ensures
            is_call(r, HttpMethod::Post, "/pay-api/v1/transactions/settle"@, Some(body), Reply::Json),
    {
        ApiRequest::call(HttpMethod::Post, owned("/pay-api/v1/transactions/settle"), Some(body), Reply::Json)
    }

    /// Adjusts the tip of a card transaction.
    pub fn tip_adjust(body: Json) -> (r: ApiRequest)
        ensures
            is_call(r, HttpMethod::Post, "/pay-api/v1/transactions/tip-adjustment"@, Some(body), Reply::Json),
    {
        ApiRequest::call(HttpMethod::Post, owned("/pay-api/v1/transactions/tip-adjustment"), Some(body), Reply::Json)
    }

    /// Fetches one card transaction.
    pub fn get_transaction(id: &str) -> (r: ApiRequest)
        ensures
            is_call(r, HttpMethod::Get, "/pay-api/v1/transactions/"@ + id@, None, Reply::Json),
    {
        ApiRequest::call(HttpMethod::Get, child_path("/pay-api/v1/transactions/", id), None, Reply::Json)
    }

    /// Lists card transactions; only the parameters given are sent.
    pub fn list_transactions(page: Option<u32>, page_size: Option<u32>, no_batch: Option<bool>) -> (r: ApiRequest)
        ensures
            is_call(r, HttpMethod::Get, with_query("/pay-api/v1/transactions"@,
                opt_pair("page"@, opt_decimal(page)) + opt_pair("pageSize"@, opt_decimal(page_size))
                    + opt_pair("noBatch"@, opt_flag(no_batch))), None, Reply::Json),
    {
        let mut pairs: Vec<(String, String)> = Vec::new();
        assert(pairs_view(pairs@) =~= Seq::<(Seq<char>, Seq<char>)>::empty());
        push_number_pair(&mut pairs, "page", page);
        assert(pairs_view(pairs@) =~= opt_pair("page"@, opt_decimal(page)));
        push_number_pair(&mut pairs, "pageSize", page_size);
        push_flag_pair(&mut pairs, "noBatch", no_batch);
        ApiRequest::call(HttpMethod::Get, path_with_query("/pay-api/v1/transactions", &pairs), None, Reply::Json)
    }

    /// Creates a customer.
    pub fn create_customer(body: Json) -> (r: ApiRequest)
        ensures
            is_call(r, HttpMethod::Post, "/pay-api/v1/customers"@, Some(body), Reply::Json),
    {
        ApiRequest::call(HttpMethod::Post, owned("/pay-api/v1/customers"), Some(body), Reply::Json)
    }

    /// Reads a customer.
    pub fn get_customer(id: &str) -> (r: ApiRequest)
        ensures
            is_call(r, HttpMethod::Get, "/pay-api/v1/customers/"@ + id@, None, Reply::Json),
    {
        ApiRequest::call(HttpMethod::Get, child_path("/pay-api/v1/customers/", id), None, Reply::Json)
    }

    /// Lists customers; only the parameters given are sent.
    pub fn list_customers(page: Option<u32>, page_size: Option<u32>, search: Option<&str>) -> (r: ApiRequest)
        ensures
            is_call(r, HttpMethod::Get, with_query("/pay-api/v1/customers"@,
                opt_pair("page"@, opt_decimal(page)) + opt_pair("pageSize"@, opt_decimal(page_size))
                    + opt_pair("search"@, opt_chars(search))), None, Reply::Json),
    {
        let mut pairs: Vec<(String, String)> = Vec::new();
        assert(pairs_view(pairs@) =~= Seq::<(Seq<char>, Seq<char>)>::empty());
        push_number_pair(&mut pairs, "page", page);
        assert(pairs_view(pairs@) =~= opt_pair("page"@, opt_decimal(page)));
        push_number_pair(&mut pairs, "pageSize", page_size);
        push_text_pair(&mut pairs, "search", search);
        ApiRequest::call(HttpMethod::Get, path_with_query("/pay-api/v1/customers", &pairs), None, Reply::Json)
    }

    /// Replaces a customer's fields.
    pub fn update_customer(id: &str, body: Json) -> (r: ApiRequest)
        ensures
            is_call(r, HttpMethod::Put, "/pay-api/v1/customers/"@ + id@, Some(body), Reply::Json),
    {
        ApiRequest::call(HttpMethod::Put, child_path("/pay-api/v1/customers/", id), Some(body), Reply::Json)
    }

    /// Deletes a customer; the reply has no body.
    pub fn delete_customer(id: &str) -> (r: ApiRequest)
        ensures
            is_call(r, HttpMethod::Delete, "/pay-api/v1/customers/"@ + id@, None, Reply::Empty),
    {
        ApiRequest::call(HttpMethod::Delete, child_path("/pay-api/v1/customers/", id), None, Reply::Empty)
    }

    /// Vaults a card for a customer.
    pub fn add_card(id: &str, body: Json) -> (r: ApiRequest)
        ensures
            is_call(r, HttpMethod::Post, "/pay-api/v1/customers/"@ + id@ + "/payment-methods/cards"@, Some(body), Reply::Json),
    {
        ApiRequest::call(HttpMethod::Post, id_path("/pay-api/v1/customers/", id, "/payment-methods/cards"), Some(body), Reply::Json)
    }

    /// Vaults a bank account for a customer.
    pub fn add_ach(id: &str, body: Json) -> (r: ApiRequest)
        ensures
            is_call(r, HttpMethod::Post, "/pay-api/v1/customers/"@ + id@ + "/payment-methods/ach"@, Some(body), Reply::Json),
    {
        ApiRequest::call(HttpMethod::Post, id_path("/pay-api/v1/customers/", id, "/payment-methods/ach"), Some(body), Reply::Json)
    }

    /// Lists a customer's payment methods.
    pub fn list_payment_methods(id: &str) -> (r: ApiRequest)
        ensures
            is_call(r, HttpMethod::Get, "/pay-api/v1/customers/"@ + id@ + "/payment-methods"@, None, Reply::Json),
    {
        ApiRequest::call(HttpMethod::Get, id_path("/pay-api/v1/customers/", id, "/payment-methods"), None, Reply::Json)
    }

    /// Removes a payment method; the reply has no body.
    pub fn remove_payment_method(id: &str, mid: &str) -> (r: ApiRequest)
        ensures
            is_call(r, HttpMethod::Delete, "/pay-api/v1/customers/"@ + id@ + "/payment-methods/"@ + mid@, None, Reply::Empty),
    {
        let mut p = id_path("/pay-api/v1/customers/", id, "/payment-methods/");
        append(&mut p, mid);
        ApiRequest::call(HttpMethod::Delete, p, None, Reply::Empty)
    }

    /// Lists the devices.
    pub fn list_devices() -> (r: ApiRequest)
        ensures
            is_call(r, HttpMethod::Get, "/pay-api/v1/devices"@, None, Reply::Json),
    {
        ApiRequest::call(HttpMethod::Get, owned("/pay-api/v1/devices"), None, Reply::Json)
    }

    /// Reads a device.
    pub fn get_device(id: &str) -> (r: ApiRequest)
        ensures
            is_call(r, HttpMethod::Get, "/pay-api/v1/devices/"@ + id@, None, Reply::Json),
    {
        ApiRequest::call(HttpMethod::Get, child_path("/pay-api/v1/devices/", id), None, Reply::Json)
    }

    /// Creates or updates a device.
    pub fn register_device(body: Json) -> (r: ApiRequest)
        ensures
            is_call(r, HttpMethod::Post, "/pay-api/v1/devices"@, Some(body), Reply::Json),
    {
        ApiRequest::call(HttpMethod::Post, owned("/pay-api/v1/devices"), Some(body), Reply::Json)
    }

    /// Issues a tap-to-pay token.
    pub fn ttp_jwt(body: Json) -> (r: ApiRequest)
        ensures
            is_call(r, HttpMethod::Post, "/pay-api/v1/devices/tap-to-pay/jwt"@, Some(body), Reply::Json),
    {
        ApiRequest::call(HttpMethod::Post, owned("/pay-api/v1/devices/tap-to-pay/jwt"), Some(body), Reply::Json)
    }

    /// Activates tap-to-pay on a device; the reply has no body.
    pub fn ttp_activate(id: &str) -> (r: ApiRequest)
        ensures
            is_call(r, HttpMethod::Post, "/pay-api/v1/devices/"@ + id@ + "/tap-to-pay/activate"@, None, Reply::Empty),
    {
        ApiRequest::call(HttpMethod::Post, id_path("/pay-api/v1/devices/", id, "/tap-to-pay/activate"), None, Reply::Empty)
    }

    /// Creates a POS transaction.
    pub fn create_pos_transaction(body: Json) -> (r: ApiRequest)
        ensures
            is_call(r, HttpMethod::Post, "/pos-api/v1/pos-transactions"@, Some(body), Reply::Json),
    {
        ApiRequest::call(HttpMethod::Post, owned("/pos-api/v1/pos-transactions"), Some(body), Reply::Json)
    }

    /// Reads a POS transaction.
    pub fn get_pos_transaction(id: &str) -> (r: ApiRequest)
        ensures
            is_call(r, HttpMethod::Get, "/pos-api/v1/pos-transactions/"@ + id@, None, Reply::Json),
    {
        ApiRequest::call(HttpMethod::Get, child_path("/pos-api/v1/pos-transactions/", id), None, Reply::Json)
    }

    /// Lists POS transactions; only the parameters given are sent.
    pub fn list_pos_transactions(page: Option<u32>, page_size: Option<u32>, terminal_id: Option<&str>) -> (r: ApiRequest)
        ensures
            is_call(r, HttpMethod::Get, with_query("/pos-api/v1/pos-transactions"@,
                opt_pair("page"@, opt_decimal(page)) + opt_pair("pageSize"@, opt_decimal(page_size))
                    + opt_pair("terminalId"@, opt_chars(terminal_id))), None, Reply::Json),
    {
        let mut pairs: Vec<(String, String)> = Vec::new();
        assert(pairs_view(pairs@) =~= Seq::<(Seq<char>, Seq<char>)>::empty());
        push_number_pair(&mut pairs, "page", page);
        assert(pairs_view(pairs@) =~= opt_pair("page"@, opt_decimal(page)));
        push_number_pair(&mut pairs, "pageSize", page_size);
        push_text_pair(&mut pairs, "terminalId", terminal_id);
        ApiRequest::call(HttpMethod::Get, path_with_query("/pos-api/v1/pos-transactions", &pairs), None, Reply::Json)
    }

    /// Cancels a POS transaction.
    pub fn cancel_pos_transaction(id: &str) -> (r: ApiRequest)
        ensures
            is_call(r, HttpMethod::Post, "/pos-api/v1/pos-transactions/"@ + id@ + "/cancel"@, None, Reply::Json),
    {
        ApiRequest::call(HttpMethod::Post, id_path("/pos-api/v1/pos-transactions/", id, "/cancel"), None, Reply::Json)
    }

    /// Lists settlement batches; only the filters given are sent.
    pub fn list_settlement_batches(
        page: Option<u32>,
        page_size: Option<u32>,
        date_from: Option<&str>,
        date_to: Option<&str>,
        status_id: Option<u32>,
    ) -> (r: ApiRequest)
        ensures
            is_call(r, HttpMethod::Get, with_query("/pay-api/v1/settlements/batches"@,
                opt_pair("page"@, opt_decimal(page)) + opt_pair("pageSize"@, opt_decimal(page_size))
                    + opt_pair("dateFrom"@, opt_chars(date_from)) + opt_pair("dateTo"@, opt_chars(date_to))
                    + opt_pair("statusId"@, opt_decimal(status_id))), None, Reply::Json),
    {
        let mut pairs: Vec<(String, String)> = Vec::new();
        assert(pairs_view(pairs@) =~= Seq::<(Seq<char>, Seq<char>)>::empty());
        push_number_pair(&mut pairs, "page", page);
        assert(pairs_view(pairs@) =~= opt_pair("page"@, opt_decimal(page)));
        push_number_pair(&mut pairs, "pageSize", page_size);
        push_text_pair(&mut pairs, "dateFrom", date_from);
        push_text_pair(&mut pairs, "dateTo", date_to);
        push_number_pair(&mut pairs, "statusId", status_id);
        ApiRequest::call(HttpMethod::Get, path_with_query("/pay-api/v1/settlements/batches", &pairs), None, Reply::Json)
    }

    /// Creates a subscription.
    pub fn create_subscription(body: Json) -> (r: ApiRequest)
        ensures
            is_call(r, HttpMethod::Post, "/sub-api/v1/subscriptions"@, Some(body), Reply::Json),
    {
        ApiRequest::call(HttpMethod::Post, owned("/sub-api/v1/subscriptions"), Some(body), Reply::Json)
    }

    /// Reads a subscription.
    pub fn get_subscription(id: &str) -> (r: ApiRequest)
        ensures
            is_call(r, HttpMethod::Get, "/sub-api/v1/subscriptions/"@ + id@, None, Reply::Json),
    {
        ApiRequest::call(HttpMethod::Get, child_path("/sub-api/v1/subscriptions/", id), None, Reply::Json)
    }

    /// Lists subscriptions; only the filters given are sent (the customer
    /// as `customerIds`).
    pub fn list_subscriptions(page: Option<u32>, page_size: Option<u32>, search: Option<&str>, customer_id: Option<&str>) -> (r: ApiRequest)
        ensures
            is_call(r, HttpMethod::Get, with_query("/sub-api/v1/subscriptions"@,
                opt_pair("page"@, opt_decimal(page)) + opt_pair("pageSize"@, opt_decimal(page_size))
                    + opt_pair("search"@, opt_chars(search)) + opt_pair("customerIds"@, opt_chars(customer_id))), None, Reply::Json),
    {
        let mut pairs: Vec<(String, String)> = Vec::new();
        assert(pairs_view(pairs@) =~= Seq::<(Seq<char>, Seq<char>)>::empty());
        push_number_pair(&mut pairs, "page", page);
        assert(pairs_view(pairs@) =~= opt_pair("page"@, opt_decimal(page)));
        push_number_pair(&mut pairs, "pageSize", page_size);
        push_text_pair(&mut pairs, "search", search);
        push_text_pair(&mut pairs, "customerIds", customer_id);
        ApiRequest::call(HttpMethod::Get, path_with_query("/sub-api/v1/subscriptions", &pairs), None, Reply::Json)
    }

    /// The payments of a subscription.
    pub fn subscription_payments(id: &str) -> (r: ApiRequest)
        ensures
            is_call(r, HttpMethod::Get, "/sub-api/v1/subscriptions/"@ + id@ + "/payments"@, None, Reply::Json),
    {
        ApiRequest::call(HttpMethod::Get, id_path("/sub-api/v1/subscriptions/", id, "/payments"), None, Reply::Json)
    }

    /// Terminates a subscription.
    pub fn terminate_subscription(id: &str) -> (r: ApiRequest)
        ensures
            is_call(r, HttpMethod::Put, "/sub-api/v1/subscriptions/"@ + id@ + "/terminate"@, None, Reply::Json),
    {
        ApiRequest::call(HttpMethod::Put, id_path("/sub-api/v1/subscriptions/", id, "/terminate"), None, Reply::Json)
    }

    /// Lists terminals; only the parameters given are sent.
    pub fn list_terminals(page: Option<u32>, page_size: Option<u32>) -> (r: ApiRequest)
        ensures
            is_call(r, HttpMethod::Get, with_query("/pos-api/v1/terminals"@,
                opt_pair("page"@, opt_decimal(page)) + opt_pair("pageSize"@, opt_decimal(page_size))), None, Reply::Json),
    {
        let mut pairs: Vec<(String, String)> = Vec::new();
        assert(pairs_view(pairs@) =~= Seq::<(Seq<char>, Seq<char>)>::empty());
        push_number_pair(&mut pairs, "page", page);
        assert(pairs_view(pairs@) =~= opt_pair("page"@, opt_decimal(page)));
        push_number_pair(&mut pairs, "pageSize", page_size);
        ApiRequest::call(HttpMethod::Get, path_with_query("/pos-api/v1/terminals", &pairs), None, Reply::Json)
    }

    /// A terminal's live status.
    pub fn terminal_status(id: &str) -> (r: ApiRequest)
        ensures
            is_call(r, HttpMethod::Get, "/pos-api/v1/terminals/"@ + id@ + "/status"@, None, Reply::Json),
    {
        ApiRequest::call(HttpMethod::Get, id_path("/pos-api/v1/terminals/", id, "/status"), None, Reply::Json)
    }

    /// Creates an ISV token.
    pub fn create_token(body: Json) -> (r: ApiRequest)
        ensures
            is_call(r, HttpMethod::Post, "/pay-api/v1/merchants/tokens"@, Some(body), Reply::Json),
    {
        ApiRequest::call(HttpMethod::Post, owned("/pay-api/v1/merchants/tokens"), Some(body), Reply::Json)
    }

    /// Lists ISV tokens, of one merchant when given.
    pub fn list_tokens(merchant_id: Option<&str>) -> (r: ApiRequest)
        ensures
            is_call(r, HttpMethod::Get, with_query("/pay-api/v1/merchants/tokens"@, opt_pair("merchantId"@, opt_chars(merchant_id))), None, Reply::Json),
    {
        let mut pairs: Vec<(String, String)> = Vec::new();
        assert(pairs_view(pairs@) =~= Seq::<(Seq<char>, Seq<char>)>::empty());
        push_text_pair(&mut pairs, "merchantId", merchant_id);
        assert(pairs_view(pairs@) =~= opt_pair("merchantId"@, opt_chars(merchant_id)));
        ApiRequest::call(HttpMethod::Get, path_with_query("/pay-api/v1/merchants/tokens", &pairs), None, Reply::Json)
    }

    /// Revokes an ISV token of a merchant (the API needs the merchant); the
    /// reply has no body.
    pub fn revoke_token(client_id: &str, merchant_id: &str) -> (r: ApiRequest)
        ensures
            is_call(r, HttpMethod::Delete, with_query("/pay-api/v1/merchants/tokens/"@ + client_id@, seq![("merchantId"@, merchant_id@)]), None, Reply::Empty),
    {
        let mut pairs: Vec<(String, String)> = Vec::new();
        push_text_pair(&mut pairs, "merchantId", Some(merchant_id));
        assert(pairs_view(pairs@) =~= seq![("merchantId"@, merchant_id@)]);
        let base = child_path("/pay-api/v1/merchants/tokens/", client_id);
        ApiRequest::call(HttpMethod::Delete, path_with_query(base.as_str(), &pairs), None, Reply::Empty)
    }
}

/// Whether an HTTP status is a success (2xx).
pub open spec fn is_success(status: u16) -> bool {
    200 <= status && status <= 299
}

/// Whether a response calls for a fresh token and the same request again:
/// a 401 that was not already the answer to a retry.
pub open spec fn refresh_wanted(status: u16, retried: bool) -> bool {
    status == 401 && !retried
}

/// Decides whether to drop the cached token and issue the request once
/// more. A request is retried at most once: never after a retry.
pub fn needs_refresh(status: u16, retried: bool) -> (r: bool)
    ensures
        r == refresh_wanted(status, retried),
        retried ==> !r,
{
    status == 401 && !retried
}

/// The error of a failed response, as the API's error envelope gives it.
pub open spec fn failure_parts(status: u16, body: Seq<char>) -> Option<(u16, Option<Seq<char>>, Seq<char>)> {
    Some(error_for(
        status,
        body,
        match parsed_json(body) {
            Some(doc) => decode_aspnet(doc),
            None => None,
        },
    ))
}

/// A successful reply's body, once parsed: the document, or a decode error
/// carrying the parser's message.
pub fn decode_reply(parsed: Result<Json, String>) -> (r: Result<Json, ApiError>)
    ensures
        match parsed {
            Ok(j) => r == Ok::<Json, ApiError>(j),
            Err(m) => r == Err::<Json, ApiError>(ApiError::Decode(m)),
        },
{
    match parsed {
        Ok(j) => Ok(j),
        Err(m) => Err(ApiError::Decode(m)),
    }
}

/// The result of a call that replies with JSON, from its final response: on
/// success the parsed body (a body that is not JSON is a decode error); on
/// failure the API's error.
pub fn finish_json(status: u16, text: &str) -> (r: Result<Json, ApiError>)
    ensures
        is_success(status) ==> match parsed_json(text@) {
            Some(doc) => r matches Ok(j) && j@ == doc,
            None => r matches Err(ApiError::Decode(m)) && m@ == json_error_text(text@),
        },
        !is_success(status) ==> (r matches Err(e) && api_parts(e) == failure_parts(status, text@)),
{
    if 200 <= status && status <= 299 {
        decode_reply(parse_json(text))
    } else {
        Err(from_aspnet(status, text))
    }
}

/// The result of a call whose reply has no body: success, or the API's
/// error.
pub fn finish_empty(status: u16, text: &str) -> (r: Result<(), ApiError>)
    ensures
        is_success(status) ==> r is Ok,
        !is_success(status) ==> (r matches Err(e) && api_parts(e) == failure_parts(status, text@)),
{
    if 200 <= status && status <= 299 {
        Ok(())
    } else {
        Err(from_aspnet(status, text))
    }
}

} // verus!
