//! POS (terminal) transactions: the create body, the field names that differ
//! between response shapes, and the decisions of the `--wait` long poll.

use vstd::prelude::*;

use crate::json::{Json, JsonV, entries_view, int_number, int_text, object, opt_entry, opt_str, push_entry, push_opt_text, group_lookup, lookup};
use crate::money::{DecimalValue, MoneyError, MoneyErrorKind, checked_decimal, decimal_display, parse_amount, parse_rate, to_amount_number};
use crate::subscriptions::opt_int;
use crate::text::{owned, append, append_decimal, decimal, texts};
use crate::table::{card_text, dash, nats, or_dash, render_card, render_table, rows_texts, rule_width, str_or_dash, table_text, true_false, true_false_at, yes_no, yes_no_at};

verus! {

/// Every flag of `pos create`.
pub struct PosCreateArgs {
    pub terminal_id: String,
    pub transaction_type: i32,
    /// The amount as typed, when given.
    pub amount: Option<String>,
    pub currency_id: i32,
    /// The tip amount as typed, when given.
    pub tip_amount: Option<String>,
    /// The tip rate as typed, when given.
    pub tip_rate: Option<String>,
    pub pos_device_id: Option<String>,
    pub reference_id: Option<String>,
    pub payment_processor_id: Option<String>,
    pub customer_id: Option<String>,
    pub target_transaction_id: Option<String>,
    pub reading_method: Option<i32>,
    /// Sets `waitForAcceptanceByTerminal` and turns on the poll.
    pub wait: bool,
}

/// Which typed number of `pos create` was refused.
#[derive(Debug, PartialEq, Eq)]
pub enum PosBodyError {
    Amount(MoneyError),
    TipAmount(MoneyError),
    TipRate(MoneyError),
}

impl PosBodyError {
    /// The message shown to the user: amounts speak of an `amount`, the rate
    /// of a `rate`.
    pub fn describe(&self) -> (r: String)
        ensures
            r@ == match *self {
                PosBodyError::Amount(e) => crate::money::money_message(e, "amount"@),
                PosBodyError::TipAmount(e) => crate::money::money_message(e, "amount"@),
                PosBodyError::TipRate(e) => crate::money::money_message(e, "rate"@),
            },
    {
        match self {
            PosBodyError::Amount(e) => e.describe("amount"),
            PosBodyError::TipAmount(e) => e.describe("amount"),
            PosBodyError::TipRate(e) => e.describe("rate"),
        }
    }
}

/// An optional decimal as an optional JSON number.
pub open spec fn opt_amount(d: Option<DecimalValue>) -> Option<JsonV> {
    match d {
        Some(d) => Some(JsonV::Number(decimal_display(d))),
        None => None,
    }
}

/// The entries of a `pos create` body, for the typed numbers already read.
pub open spec fn pos_entries(
    a: PosCreateArgs,
    amount: Option<DecimalValue>,
    tip: Option<DecimalValue>,
    rate: Option<DecimalValue>,
) -> Seq<(Seq<char>, JsonV)> {
    seq![
        ("terminalId"@, JsonV::Str(a.terminal_id@)),
        ("transactionTypeId"@, JsonV::Number(int_text(a.transaction_type as int))),
        ("currencyId"@, JsonV::Number(int_text(a.currency_id as int))),
    ]
        + opt_entry("amount"@, opt_amount(amount))
        + opt_entry("tipAmount"@, opt_amount(tip))
        + opt_entry("tipRate"@, opt_amount(rate))
        + opt_entry("posDeviceId"@, opt_str(a.pos_device_id))
        + opt_entry("referenceId"@, opt_str(a.reference_id))
        + opt_entry("paymentProcessorId"@, opt_str(a.payment_processor_id))
        + opt_entry("customerId"@, opt_str(a.customer_id))
        + opt_entry("targetTransactionId"@, opt_str(a.target_transaction_id))
        + opt_entry("readingMethodId"@, opt_int(a.reading_method))
        + seq![("waitForAcceptanceByTerminal"@, JsonV::Bool(a.wait))]
}

/// Whether every present decimal is one a `Decimal` can hold.
pub open spec fn opt_wf(d: Option<DecimalValue>) -> bool {
    d matches Some(x) ==> x.wf()
}

/// Appends a decimal entry when one is given.
pub fn push_opt_amount(out: &mut Vec<(String, Json)>, key: &str, d: Option<DecimalValue>)
    requires
        opt_wf(d),
    ensures
        entries_view(final(out)@) == entries_view(old(out)@) + opt_entry(key@, opt_amount(d)),
{
    match d {
        Some(x) => push_entry(out, key, to_amount_number(x)),
        None => {
            assert(entries_view(out@) =~= entries_view(out@) + Seq::<(Seq<char>, JsonV)>::empty());
        },
    }
}

/// Whether a document carries a money value under `key` exactly when one
/// is given, as that value's exact decimal text.
pub open spec fn money_sent(doc: JsonV, key: Seq<char>, d: Option<DecimalValue>) -> bool {
    doc.get(key) == match d {
        Some(x) => Some(JsonV::Number(decimal_display(x))),
        None => None,
    }
}

/// Each money field of a `pos create` body is its own flag: `amount` the
/// amount, `tipAmount` the tip amount, `tipRate` the tip rate, each sent
/// exactly when given.
pub proof fn lemma_pos_money_fields(a: PosCreateArgs, amount: Option<DecimalValue>, tip: Option<DecimalValue>, rate: Option<DecimalValue>)
    ensures
        money_sent(JsonV::Object(pos_entries(a, amount, tip, rate)), "amount"@, amount),
        money_sent(JsonV::Object(pos_entries(a, amount, tip, rate)), "tipAmount"@, tip),
        money_sent(JsonV::Object(pos_entries(a, amount, tip, rate)), "tipRate"@, rate),
{
    broadcast use group_lookup;
    reveal_strlit("terminalId");
    reveal_strlit("transactionTypeId");
    reveal_strlit("currencyId");
    reveal_strlit("amount");
    reveal_strlit("tipAmount");
    reveal_strlit("tipRate");
    reveal_strlit("posDeviceId");
    reveal_strlit("referenceId");
    reveal_strlit("paymentProcessorId");
    reveal_strlit("customerId");
    reveal_strlit("targetTransactionId");
    reveal_strlit("readingMethodId");
    reveal_strlit("waitForAcceptanceByTerminal");
    assert("terminalId"@.len() == 10);
    assert("transactionTypeId"@.len() == 17);
    assert("currencyId"@.len() == 10);
    assert("amount"@.len() == 6);
    assert("tipAmount"@.len() == 9);
    assert("tipRate"@.len() == 7);
    assert("posDeviceId"@.len() == 11);
    assert("referenceId"@.len() == 11);
    assert("paymentProcessorId"@.len() == 18);
    assert("customerId"@.len() == 10);
    assert("targetTransactionId"@.len() == 19);
    assert("readingMethodId"@.len() == 15);
    assert("waitForAcceptanceByTerminal"@.len() == 27);
    let head = seq![
        ("terminalId"@, JsonV::Str(a.terminal_id@)),
        ("transactionTypeId"@, JsonV::Number(int_text(a.transaction_type as int))),
        ("currencyId"@, JsonV::Number(int_text(a.currency_id as int))),
    ];
    let split = seq![("terminalId"@, JsonV::Str(a.terminal_id@))]
        + seq![("transactionTypeId"@, JsonV::Number(int_text(a.transaction_type as int)))]
        + seq![("currencyId"@, JsonV::Number(int_text(a.currency_id as int)))];
    assert(head =~= split);
    assert(lookup(split, "amount"@) is None);
    assert(lookup(split, "tipAmount"@) is None);
    assert(lookup(split, "tipRate"@) is None);
}

/// The `pos create` body for the typed numbers already read.
pub fn pos_body(args: &PosCreateArgs, amount: Option<DecimalValue>, tip: Option<DecimalValue>, rate: Option<DecimalValue>) -> (r: Json)
    requires
        opt_wf(amount),
        opt_wf(tip),
        opt_wf(rate),
    ensures
        r@ == JsonV::Object(pos_entries(*args, amount, tip, rate)),
        money_sent(r@, "amount"@, amount),
        money_sent(r@, "tipAmount"@, tip),
        money_sent(r@, "tipRate"@, rate),
{
    proof {
        lemma_pos_money_fields(*args, amount, tip, rate);
    }
    let mut obj: Vec<(String, Json)> = Vec::new();
    push_entry(&mut obj, "terminalId", Json::text(args.terminal_id.as_str()));
    push_entry(&mut obj, "transactionTypeId", int_number(args.transaction_type as i64));
    push_entry(&mut obj, "currencyId", int_number(args.currency_id as i64));
    assert(entries_view(obj@) =~= seq![
        ("terminalId"@, JsonV::Str(args.terminal_id@)),
        ("transactionTypeId"@, JsonV::Number(int_text(args.transaction_type as int))),
        ("currencyId"@, JsonV::Number(int_text(args.currency_id as int))),
    ]);
    push_opt_amount(&mut obj, "amount", amount);
    push_opt_amount(&mut obj, "tipAmount", tip);
    push_opt_amount(&mut obj, "tipRate", rate);
    push_opt_text(&mut obj, "posDeviceId", &args.pos_device_id);
    push_opt_text(&mut obj, "referenceId", &args.reference_id);
    push_opt_text(&mut obj, "paymentProcessorId", &args.payment_processor_id);
    push_opt_text(&mut obj, "customerId", &args.customer_id);
    push_opt_text(&mut obj, "targetTransactionId", &args.target_transaction_id);
    let ghost before_rm = entries_view(obj@);
    match args.reading_method {
        Some(rm) => push_entry(&mut obj, "readingMethodId", int_number(rm as i64)),
        None => {},
    }
    assert(entries_view(obj@) =~= before_rm + opt_entry("readingMethodId"@, opt_int(args.reading_method)));
    let ghost before_wait = entries_view(obj@);
    push_entry(&mut obj, "waitForAcceptanceByTerminal", Json::Bool(args.wait));
    assert(entries_view(obj@) =~= before_wait + seq![("waitForAcceptanceByTerminal"@, JsonV::Bool(args.wait))]);
    object(obj)
}

/// What the policy makes of an optional typed number.
pub open spec fn checked_opt(raw: Option<String>, max_scale: u32) -> Result<Option<DecimalValue>, MoneyErrorKind> {
    match raw {
        None => Ok(None),
        Some(s) => match checked_decimal(s@, max_scale) {
            Ok(d) => Ok(Some(d)),
            Err(k) => Err(k),
        },
    }
}

/// Whether an error reports the given policy failure for the given text.
pub open spec fn refused_as(e: MoneyError, k: MoneyErrorKind, raw: Option<String>) -> bool {
    &&& e.kind() == k
    &&& raw matches Some(s) && e.raw() == s@
}

/// Reads an optional typed number with the given policy.
fn read_opt(raw: &Option<String>, rate: bool) -> (r: Result<Option<DecimalValue>, MoneyError>)
    ensures
        match checked_opt(*raw, if rate { 4 } else { 2 }) {
            Ok(d) => r == Ok::<Option<DecimalValue>, MoneyError>(d) && opt_wf(d),
            Err(k) => r matches Err(e) && refused_as(e, k, *raw),
        },
{
    match raw {
        None => Ok(None),
        Some(s) => {
            let p = if rate { parse_rate(s.as_str()) } else { parse_amount(s.as_str()) };
            match p {
                Ok(d) => Ok(Some(d)),
                Err(e) => Err(e),
            }
        },
    }
}

/// The body of `pos create`. The amount and the tip amount go through the
/// amount policy and the tip rate through the rate policy, in that order; the
/// first refusal is returned.
pub fn build_pos_create_body(args: &PosCreateArgs) -> (r: Result<Json, PosBodyError>)
    ensures
        match checked_opt(args.amount, 2) {
            Err(k) => r matches Err(PosBodyError::Amount(e)) && refused_as(e, k, args.amount),
            Ok(a) => match checked_opt(args.tip_amount, 2) {
                Err(k) => r matches Err(PosBodyError::TipAmount(e)) && refused_as(e, k, args.tip_amount),
                Ok(t) => match checked_opt(args.tip_rate, 4) {
                    Err(k) => r matches Err(PosBodyError::TipRate(e)) && refused_as(e, k, args.tip_rate),
                    Ok(rt) => r matches Ok(j) && j@ == JsonV::Object(pos_entries(*args, a, t, rt))
                        && money_sent(j@, "amount"@, a) && money_sent(j@, "tipAmount"@, t) && money_sent(j@, "tipRate"@, rt),
                },
            },
        },
{
    let amount = match read_opt(&args.amount, false) {
        Ok(d) => d,
        Err(e) => return Err(PosBodyError::Amount(e)),
    };
    let tip = match read_opt(&args.tip_amount, false) {
        Ok(d) => d,
        Err(e) => return Err(PosBodyError::TipAmount(e)),
    };
    let rate = match read_opt(&args.tip_rate, true) {
        Ok(d) => d,
        Err(e) => return Err(PosBodyError::TipRate(e)),
    };
    Ok(pos_body(args, amount, tip, rate))
}

/// The id of a POS transaction in either response shape: `id` (get, list),
/// else `posTransactionId` (create, cancel).
pub open spec fn pos_id_of(v: JsonV) -> Option<Seq<char>> {
    match v.str_at("id"@) {
        Some(s) => Some(s),
        None => v.str_at("posTransactionId"@),
    }
}

/// The id of a POS transaction, whichever operation produced it.
pub fn pos_id(v: &Json) -> (r: Option<&str>)
    ensures
        r matches Some(s) ==> pos_id_of(v@) == Some(s@),
        r is None <==> pos_id_of(v@) is None,
{
    match v.str_at("id") {
        Some(s) => Some(s),
        None => v.str_at("posTransactionId"),
    }
}

/// The status of a POS transaction in either response shape:
/// `posTransactionStatus` (get, list), else `status` (create, cancel).
pub open spec fn pos_status_of(v: JsonV) -> Option<Seq<char>> {
    match v.str_at("posTransactionStatus"@) {
        Some(s) => Some(s),
        None => v.str_at("status"@),
    }
}

/// The status of a POS transaction, whichever operation produced it.
pub fn pos_status(v: &Json) -> (r: Option<&str>)
    ensures
        r matches Some(s) ==> pos_status_of(v@) == Some(s@),
        r is None <==> pos_status_of(v@) is None,
{
    match v.str_at("posTransactionStatus") {
        Some(s) => Some(s),
        None => v.str_at("status"),
    }
}

/// Whether a POS transaction has finished: `isCompleted` is `true`; absent
/// or not a boolean counts as not finished.
pub open spec fn is_final(v: JsonV) -> bool {
    v.bool_at("isCompleted"@) == Some(true)
}

/// The poll's exit signal.
pub fn pos_is_final(v: &Json) -> (r: bool)
    ensures
        r == is_final(v@),
{
    match v.bool_at("isCompleted") {
        Some(b) => b,
        None => false,
    }
}

} // verus!

verus! {

/// How a `--wait` poll ended.
#[derive(Debug)]
pub enum PollOutcome {
    /// `isCompleted` became true in time.
    Completed(Json),
    /// Time ran out first; the last response.
    TimedOut(Json),
    /// Ctrl-C; the last known response (`null` before the first poll).
    Interrupted(Json),
}

/// What woke the poll loop.
pub enum PollEvent {
    /// Ctrl-C arrived while waiting for the next poll.
    Interrupted,
    /// A poll answered `response`, `elapsed_secs` whole seconds after the
    /// loop started.
    Polled { response: Json, elapsed_secs: u64 },
}

/// What the loop does after an event.
pub enum PollStep {
    /// Wait for the next poll, remembering this response.
    Wait(Json),
    /// Stop with this outcome.
    Finish(PollOutcome),
}

/// The mathematical value of a poll outcome.
pub enum PollEnd {
    Completed(JsonV),
    TimedOut(JsonV),
    Interrupted(JsonV),
}

/// The mathematical value of a poll event.
pub enum PollSignal {
    Interrupted,
    Polled(JsonV, nat),
}

/// The mathematical value of a poll step.
pub enum PollMove {
    Wait(JsonV),
    Finish(PollEnd),
}

pub open spec fn outcome_view(o: PollOutcome) -> PollEnd {
    match o {
        PollOutcome::Completed(v) => PollEnd::Completed(v@),
        PollOutcome::TimedOut(v) => PollEnd::TimedOut(v@),
        PollOutcome::Interrupted(v) => PollEnd::Interrupted(v@),
    }
}

pub open spec fn event_view(e: PollEvent) -> PollSignal {
    match e {
        PollEvent::Interrupted => PollSignal::Interrupted,
        PollEvent::Polled { response, elapsed_secs } => PollSignal::Polled(response@, elapsed_secs as nat),
    }
}

pub open spec fn step_view(s: PollStep) -> PollMove {
    match s {
        PollStep::Wait(v) => PollMove::Wait(v@),
        PollStep::Finish(o) => PollMove::Finish(outcome_view(o)),
    }
}

/// One decision of the poll: Ctrl-C ends it with the last known response; a
/// finished transaction ends it as completed, whatever the time; otherwise it
/// times out once `timeout` seconds have passed, and else waits on.
pub open spec fn poll_decision(last: JsonV, timeout: nat, ev: PollSignal) -> PollMove {
    match ev {
        PollSignal::Interrupted => PollMove::Finish(PollEnd::Interrupted(last)),
        PollSignal::Polled(v, elapsed) => if is_final(v) {
            PollMove::Finish(PollEnd::Completed(v))
        } else if elapsed >= timeout {
            PollMove::Finish(PollEnd::TimedOut(v))
        } else {
            PollMove::Wait(v)
        },
    }
}

/// What the poll remembers before its first answer.
pub fn poll_start() -> (r: Json)
    ensures
        r@ == JsonV::Null,
{
    Json::Null
}

/// Decides what the `--wait` loop does after an event.
pub fn poll_step(last_known: Json, timeout_secs: u64, event: PollEvent) -> (r: PollStep)
    ensures
        step_view(r) == poll_decision(last_known@, timeout_secs as nat, event_view(event)),
{
    match event {
        PollEvent::Interrupted => PollStep::Finish(PollOutcome::Interrupted(last_known)),
        PollEvent::Polled { response, elapsed_secs } => {
            if pos_is_final(&response) {
                PollStep::Finish(PollOutcome::Completed(response))
            } else if elapsed_secs >= timeout_secs {
                PollStep::Finish(PollOutcome::TimedOut(response))
            } else {
                PollStep::Wait(response)
            }
        },
    }
}

/// A whole poll: the decisions over a run of events, from `last`, up to the
/// first that finishes (still waiting when the events run out).
pub open spec fn poll_run(last: JsonV, timeout: nat, evs: Seq<PollSignal>) -> PollMove
    decreases evs.len(),
{
    if evs.len() == 0 {
        PollMove::Wait(last)
    } else {
        match poll_decision(last, timeout, evs[0]) {
            PollMove::Finish(o) => PollMove::Finish(o),
            PollMove::Wait(v) => poll_run(v, timeout, evs.drop_first()),
        }
    }
}

/// A poll reports completion only for a finished transaction, and a time-out
/// or an interruption only with a transaction that had not finished (or with
/// nothing, before the first answer).
pub proof fn lemma_poll_outcome_truthful(last: JsonV, timeout: nat, evs: Seq<PollSignal>)
    requires
        last == JsonV::Null || !is_final(last),
    ensures
        poll_run(last, timeout, evs) matches PollMove::Finish(PollEnd::Completed(v)) ==> is_final(v),
        poll_run(last, timeout, evs) matches PollMove::Finish(PollEnd::TimedOut(v)) ==> !is_final(v),
        poll_run(last, timeout, evs) matches PollMove::Finish(PollEnd::Interrupted(v)) ==> (v == JsonV::Null || !is_final(v)),
    decreases evs.len(),
{
    if evs.len() > 0 {
        match poll_decision(last, timeout, evs[0]) {
            PollMove::Finish(o) => {},
            PollMove::Wait(v) => {
                lemma_poll_outcome_truthful(v, timeout, evs.drop_first());
            },
        }
    }
}

/// Whether the first `k` events are polls that answered an unfinished
/// transaction before the time-out.
pub open spec fn pending_before(timeout: nat, evs: Seq<PollSignal>, k: int) -> bool {
    forall|j: int| 0 <= j < k ==> (#[trigger] evs[j] matches PollSignal::Polled(w, e) && !is_final(w) && e < timeout)
}

/// The poll ends at the first finished answer: once the earlier polls all
/// answered "not yet" in time, a finished transaction completes the poll,
/// even when it arrives after the time-out; an unfinished one at or after
/// the time-out times it out; Ctrl-C interrupts it with the previous answer.
pub proof fn lemma_poll_first_answer_decides(last: JsonV, timeout: nat, evs: Seq<PollSignal>, k: int)
    requires
        0 <= k < evs.len(),
        pending_before(timeout, evs, k),
    ensures
        evs[k] matches PollSignal::Polled(v, _) ==> (is_final(v) ==> poll_run(last, timeout, evs) == PollMove::Finish(PollEnd::Completed(v))),
        evs[k] matches PollSignal::Polled(v, e) ==> (!is_final(v) && e >= timeout ==> poll_run(last, timeout, evs) == PollMove::Finish(PollEnd::TimedOut(v))),
        evs[k] is Interrupted ==> poll_run(last, timeout, evs) == PollMove::Finish(PollEnd::Interrupted(
            if k == 0 { last } else { evs[k - 1]->Polled_0 },
        )),
    decreases k,
{
    if k > 0 {
        let first = evs[0];
        assert(pending_before(timeout, evs, k));
        assert(first matches PollSignal::Polled(w, e) && !is_final(w) && e < timeout);
        let w = first->Polled_0;
        assert(poll_decision(last, timeout, first) == PollMove::Wait(w));
        let rest = evs.drop_first();
        assert forall|j: int| 0 <= j < k - 1 implies (#[trigger] rest[j] matches PollSignal::Polled(w2, e2) && !is_final(w2) && e2 < timeout) by {
            assert(rest[j] == evs[j + 1]);
        }
        lemma_poll_first_answer_decides(w, timeout, rest, k - 1);
        assert(rest[k - 1] == evs[k]);
        if k >= 2 {
            assert(rest[k - 2] == evs[k - 1]);
        }
    }
}

/// What the command does with a poll's outcome: whether it shows the
/// transaction, what it prints on standard error, and its exit code.
pub struct PollReport {
    pub show: bool,
    pub warning: Option<String>,
    pub exit_code: i32,
}

/// The status named in an interruption message.
pub open spec fn interrupted_status(v: JsonV) -> Seq<char> {
    match v.str_at("posTransactionStatus"@) {
        Some(s) => s,
        None => "unknown"@,
    }
}

/// Turns a poll's outcome into what the command prints and its exit code:
/// completion shows the transaction (exit 0); a time-out shows it too, warns,
/// and exits 1; Ctrl-C shows nothing, says what was last known, and exits
/// 130 as an interrupted program does.
pub fn poll_report(outcome: &PollOutcome, pos_id: &str, wait_timeout: u64) -> (r: PollReport)
    ensures
        match outcome_view(*outcome) {
            PollEnd::Completed(_) => r.show && r.warning is None && r.exit_code == 0,
            PollEnd::TimedOut(_) => r.show && r.exit_code == 1 && (r.warning matches Some(w)
                && w@ == "Warning: --wait-timeout ("@ + decimal(wait_timeout as nat) + "s) expired; last status shown above."@),
            PollEnd::Interrupted(v) => !r.show && r.exit_code == 130 && (r.warning matches Some(w)
                && w@ == (if v == JsonV::Null {
                    "Interrupted before first poll. Transaction id: "@ + pos_id@
                } else {
                    "Interrupted. Last known status: "@ + interrupted_status(v) + " (id: "@ + pos_id@ + ")"@
                })),
        },
{
    match outcome {
        PollOutcome::Completed(_) => PollReport { show: true, warning: None, exit_code: 0 },
        PollOutcome::TimedOut(_) => {
            let mut w = owned("Warning: --wait-timeout (");
            append_decimal(&mut w, wait_timeout);
            append(&mut w, "s) expired; last status shown above.");
            PollReport { show: true, warning: Some(w), exit_code: 1 }
        },
        PollOutcome::Interrupted(v) => {
            if v.is_null() {
                let mut w = owned("Interrupted before first poll. Transaction id: ");
                append(&mut w, pos_id);
                PollReport { show: false, warning: Some(w), exit_code: 130 }
            } else {
                let mut w = owned("Interrupted. Last known status: ");
                match v.str_at("posTransactionStatus") {
                    Some(s) => append(&mut w, s),
                    None => append(&mut w, "unknown"),
                }
                append(&mut w, " (id: ");
                append(&mut w, pos_id);
                append(&mut w, ")");
                PollReport { show: false, warning: Some(w), exit_code: 130 }
            }
        },
    }
}

/// The id of a POS transaction, or the dash.
fn pos_id_cell(v: &Json) -> (r: String)
    ensures
        r@ == or_dash(pos_id_of(v@)),
{
    match pos_id(v) {
        Some(s) => owned(s),
        None => owned("\u{2014}"),
    }
}

/// The status of a POS transaction, or the dash.
fn pos_status_cell(v: &Json) -> (r: String)
    ensures
        r@ == or_dash(pos_status_of(v@)),
{
    match pos_status(v) {
        Some(s) => owned(s),
        None => owned("\u{2014}"),
    }
}

pub open spec fn pos_card_labels() -> Seq<Seq<char>> {
    seq![
        "id:                   "@,
        "terminalId:           "@,
        "transactionType:      "@,
        "posTransactionStatus: "@,
        "amount:               "@,
        "isCompleted:          "@,
        "transactionId:        "@,
    ]
}

/// The values of the POS transaction card; `amount` is the printed amount.
pub open spec fn pos_card_values(v: JsonV, amount: Seq<char>) -> Seq<Seq<char>> {
    seq![
        or_dash(pos_id_of(v)),
        or_dash(v.str_at("terminalId"@)),
        or_dash(v.str_at("transactionType"@)),
        or_dash(pos_status_of(v)),
        amount,
        true_false(v.bool_at("isCompleted"@)),
        or_dash(v.str_at("transactionId"@)),
    ]
}

/// The table-mode card of one POS transaction, in either response shape.
/// The amount is printed by the caller (two decimals of a number, a string
/// as it is, or the dash) and shown as given.
pub fn pos_transaction_table(v: &Json, amount: &str) -> (r: String)
    ensures
        r@ == card_text(pos_card_labels(), pos_card_values(v@, amount@)),
{
    let mut labels: Vec<&str> = Vec::new();
    labels.push("id:                   ");
    labels.push("terminalId:           ");
    labels.push("transactionType:      ");
    labels.push("posTransactionStatus: ");
    labels.push("amount:               ");
    labels.push("isCompleted:          ");
    labels.push("transactionId:        ");
    let mut values: Vec<String> = Vec::new();
    values.push(pos_id_cell(v));
    values.push(str_or_dash(v, "terminalId"));
    values.push(str_or_dash(v, "transactionType"));
    values.push(pos_status_cell(v));
    values.push(owned(amount));
    values.push(true_false_at(v, "isCompleted"));
    values.push(str_or_dash(v, "transactionId"));
    assert(Seq::new(labels@.len(), |i: int| labels@[i]@) =~= pos_card_labels());
    assert(texts(values@) =~= pos_card_values(v@, amount@));
    render_card(&labels, &values)
}

/// The cells of one POS transaction row; `amount` is the printed amount.
pub open spec fn pos_row(v: JsonV, amount: Seq<char>) -> Seq<Seq<char>> {
    seq![
        or_dash(pos_id_of(v)),
        or_dash(v.str_at("terminalId"@)),
        or_dash(v.str_at("transactionType"@)),
        or_dash(pos_status_of(v)),
        amount,
        yes_no(v.bool_at("isCompleted"@)),
    ]
}

fn pos_row_cells(v: &Json, amount: &str) -> (r: Vec<String>)
    ensures
        texts(r@) == pos_row(v@, amount@),
        r@.len() == 6,
{
    let mut cells: Vec<String> = Vec::new();
    cells.push(pos_id_cell(v));
    cells.push(str_or_dash(v, "terminalId"));
    cells.push(str_or_dash(v, "transactionType"));
    cells.push(pos_status_cell(v));
    cells.push(owned(amount));
    cells.push(yes_no_at(v, "isCompleted"));
    assert(texts(cells@) =~= pos_row(v@, amount@));
    cells
}

pub open spec fn pos_list_headers() -> Seq<Seq<char>> {
    seq!["ID"@, "TERMINAL ID"@, "TYPE"@, "STATUS"@, "AMOUNT"@, "DONE"@]
}

pub open spec fn pos_list_widths() -> Seq<nat> {
    seq![36, 36, 24, 28, 12, 6]
}

/// The table-mode list of POS transactions: ID, TERMINAL ID, TYPE, STATUS,
/// AMOUNT, DONE. `amounts[i]` is the printed amount of `items[i]`.
pub fn pos_transaction_list_table(items: &Vec<Json>, amounts: &Vec<String>) -> (r: String)
    requires
        amounts@.len() == items@.len(),
    ensures
        r@ == table_text(
            pos_list_headers(),
            pos_list_widths(),
            Seq::new(items@.len(), |i: int| pos_row(items@[i]@, amounts@[i]@)),
        ),
{
    let mut rows: Vec<Vec<String>> = Vec::new();
    let n = items.len();
    for i in 0..n
        invariant
            n == items@.len(),
            n == amounts@.len(),
            rows@.len() == i,
            forall|j: int| 0 <= j < i ==> (#[trigger] rows@[j])@.len() == 6 && texts(rows@[j]@) == pos_row(items@[j]@, amounts@[j]@),
    {
        rows.push(pos_row_cells(&items[i], amounts[i].as_str()));
    }
    let mut headers: Vec<String> = Vec::new();
    headers.push(owned("ID"));
    headers.push(owned("TERMINAL ID"));
    headers.push(owned("TYPE"));
    headers.push(owned("STATUS"));
    headers.push(owned("AMOUNT"));
    headers.push(owned("DONE"));
    let mut widths: Vec<usize> = Vec::new();
    widths.push(36);
    widths.push(36);
    widths.push(24);
    widths.push(28);
    widths.push(12);
    widths.push(6);
    proof {
        assert(texts(headers@) =~= pos_list_headers());
        assert(nats(widths@) =~= pos_list_widths());
        reveal_with_fuel(rule_width, 7);
        assert(rows_texts(rows@) =~= Seq::new(items@.len(), |i: int| pos_row(items@[i]@, amounts@[i]@)));
    }
    render_table(&headers, &widths, 152, &rows)
}

} // verus!
