//! The records of the reservation book and the codes under which they are stored.

use vstd::prelude::*;
use crate::calendar::{date_text, push_date, push_time, time_text, ClockTime, Date};
use crate::ids::{push_uuid, uuid_text};
use crate::text::{int_text, push_int, push_str_chars, str_debug, str_debug_text, string_of};

verus! {

/// How an advance payment for a reservation was made.
#[derive(Debug, Clone, Copy, PartialEq, Eq, Structural)]
pub enum PaymentMode {
    NotPaid,
    Cash,
    Card,
    Gpay,
}

/// The integer stored in the database column for a payment mode.
pub open spec fn payment_mode_code(mode: PaymentMode) -> int {
    match mode {
        PaymentMode::NotPaid => 0,
        PaymentMode::Cash => 1,
        PaymentMode::Card => 2,
        PaymentMode::Gpay => 3,
    }
}

/// The payment mode that a stored integer stands for, if any.
pub open spec fn payment_mode_of_code(code: int) -> Option<PaymentMode> {
    if code == 0 {
        Some(PaymentMode::NotPaid)
    } else if code == 1 {
        Some(PaymentMode::Cash)
    } else if code == 2 {
        Some(PaymentMode::Card)
    } else if code == 3 {
        Some(PaymentMode::Gpay)
    } else {
        None
    }
}

/// A stored integer that names no payment mode.
#[derive(Debug, Clone, Copy, PartialEq, Eq, Structural)]
pub struct UnrecognizedVariant {
    pub code: i32,
}

/// The text of the error for an integer that names no payment mode.
pub open spec fn unrecognized_text(code: i32) -> Seq<char> {
    UNRECOGNIZED_PREFIX@ + int_text(code as int)
}

/// The start of the error for an integer that names no payment mode.
pub const UNRECOGNIZED_PREFIX: &'static str = "Unrecognized variant ";

impl UnrecognizedVariant {
    /// The error's text: `Unrecognized variant ` and the integer.
    pub fn message(&self) -> (res: String)
        ensures
            res@ == unrecognized_text(self.code),
    {
        let mut out: Vec<char> = Vec::new();
        push_str_chars(&mut out, UNRECOGNIZED_PREFIX);
        push_int(&mut out, self.code as i64);
        string_of(out.as_slice())
    }
}

impl PaymentMode {
    /// The integer under which this mode is written to the database.
    pub fn to_sql(&self) -> (code: i32)
        ensures
            code == payment_mode_code(*self),
    {
        match self {
            PaymentMode::NotPaid => 0,
            PaymentMode::Cash => 1,
            PaymentMode::Card => 2,
            PaymentMode::Gpay => 3,
        }
    }

    /// Reads a payment mode back from its stored integer; any integer other
    /// than the four codes is refused with that integer.
    pub fn from_sql(code: i32) -> (res: Result<PaymentMode, UnrecognizedVariant>)
        ensures
            match payment_mode_of_code(code as int) {
                Some(mode) => res == Ok::<PaymentMode, UnrecognizedVariant>(mode),
                None => res == Err::<PaymentMode, UnrecognizedVariant>(UnrecognizedVariant { code }),
            },
    {
        match code {
            0 => Ok(PaymentMode::NotPaid),
            1 => Ok(PaymentMode::Cash),
            2 => Ok(PaymentMode::Card),
            3 => Ok(PaymentMode::Gpay),
            x => Err(UnrecognizedVariant { code: x }),
        }
    }
}

/// Reading back the code written for a payment mode gives that mode again.
pub proof fn lemma_payment_mode_code_round_trip(mode: PaymentMode)
    ensures
        payment_mode_of_code(payment_mode_code(mode)) == Some(mode),
{
}

/// Every code that reads back as a mode is the code written for that mode,
/// and exactly the codes 0 to 3 read back.
pub proof fn lemma_payment_mode_code_exact(code: int)
    ensures
        payment_mode_of_code(code) is Some <==> 0 <= code <= 3,
        payment_mode_of_code(code) matches Some(mode) ==> payment_mode_code(mode) == code,
{
}


/// How an advance was paid, as recorded with a reservation: the mode, and for
/// a payment made the transaction id (none for cash), who received it and on
/// which day.
#[derive(Debug, PartialEq, Eq)]
pub struct PaymentMethod {
    pub mode_of_payment: PaymentMode,
    pub payment_transaction_id: Option<String>,
    pub payment_receiver: Option<String>,
    pub payment_received_date: Option<Date>,
}

/// A role that user accounts can have.
#[derive(Debug, PartialEq, Eq)]
pub struct Roles {
    pub role_id: i32,
    pub role_name: String,
}

/// A payment method as the contracts speak of it.
pub struct PaymentMethodView {
    pub mode_of_payment: PaymentMode,
    pub payment_transaction_id: Option<Seq<char>>,
    pub payment_receiver: Option<Seq<char>>,
    pub payment_received_date: Option<Date>,
}

/// The view of an optional text.
pub open spec fn option_text_view(t: Option<String>) -> Option<Seq<char>> {
    match t {
        Some(s) => Some(s@),
        None => None,
    }
}

impl View for PaymentMethod {
    type V = PaymentMethodView;

    open spec fn view(&self) -> PaymentMethodView {
        PaymentMethodView {
            mode_of_payment: self.mode_of_payment,
            payment_transaction_id: option_text_view(self.payment_transaction_id),
            payment_receiver: option_text_view(self.payment_receiver),
            payment_received_date: self.payment_received_date,
        }
    }
}

impl PaymentMethod {
    /// A copy of the record.
    pub fn clone_method(&self) -> (res: PaymentMethod)
        ensures
            res@ == self@,
    {
        PaymentMethod {
            mode_of_payment: self.mode_of_payment,
            payment_transaction_id: match &self.payment_transaction_id {
                Some(t) => Some(t.clone()),
                None => None,
            },
            payment_receiver: match &self.payment_receiver {
                Some(t) => Some(t.clone()),
                None => None,
            },
            payment_received_date: self.payment_received_date,
        }
    }

    /// The record of a reservation taken without an advance.
    pub fn not_paid() -> (res: PaymentMethod)
        ensures
            res@ == not_paid_view(),
    {
        PaymentMethod {
            mode_of_payment: PaymentMode::NotPaid,
            payment_transaction_id: None,
            payment_receiver: None,
            payment_received_date: None,
        }
    }
}

/// The record of a reservation taken without an advance: not paid, no details.
pub open spec fn not_paid_view() -> PaymentMethodView {
    PaymentMethodView {
        mode_of_payment: PaymentMode::NotPaid,
        payment_transaction_id: None,
        payment_receiver: None,
        payment_received_date: None,
    }
}

/// A JSON value as stored in a JSON column: a number is held as the text
/// serde_json shows for it, an object as its entries in the order the map
/// yields them.
#[derive(Debug, PartialEq, Eq)]
pub enum JsonValue {
    Null,
    Bool(bool),
    Number(String),
    String(String),
    Array(Vec<JsonValue>),
    Object(Vec<(String, JsonValue)>),
}

/// The text serde_json's `Debug` writes for a JSON value: the variant's tag,
/// then its contents; a text quoted as std's `Debug` quotes it, a list as
/// `[a, b]`, a map as `{"k": v}`.
pub open spec fn json_debug_text(v: JsonValue) -> Seq<char>
    decreases v,
{
    match v {
        JsonValue::Null => seq!['N', 'u', 'l', 'l'],
        JsonValue::Bool(b) => seq!['B', 'o', 'o', 'l', '('] + bool_text(b) + seq![')'],
        JsonValue::Number(n) => seq!['N', 'u', 'm', 'b', 'e', 'r', '('] + n@ + seq![')'],
        JsonValue::String(t) => seq!['S', 't', 'r', 'i', 'n', 'g', '('] + str_debug_text(t@) + seq![')'],
        JsonValue::Array(items) => seq!['A', 'r', 'r', 'a', 'y', ' ', '['] + json_items_text(items@) + seq![']'],
        JsonValue::Object(entries) => seq!['O', 'b', 'j', 'e', 'c', 't', ' ', '{'] + json_entries_text(entries@)
            + seq!['}'],
    }
}

/// The values of a list as `Debug` shows them, separated by `, `.
pub open spec fn json_items_text(items: Seq<JsonValue>) -> Seq<char>
    decreases items,
{
    if items.len() == 0 {
        seq![]
    } else {
        let sep = if items.len() > 1 { seq![',', ' '] } else { seq![] };
        json_items_text(items.drop_last()) + sep + json_debug_text(items.last())
    }
}

/// The entries of a map as `Debug` shows them: `"key": value`, separated by
/// `, `.
pub open spec fn json_entries_text(entries: Seq<(String, JsonValue)>) -> Seq<char>
    decreases entries,
{
    if entries.len() == 0 {
        seq![]
    } else {
        let sep = if entries.len() > 1 { seq![',', ' '] } else { seq![] };
        json_entries_text(entries.drop_last()) + sep + str_debug_text(entries.last().0@) + seq![':', ' ']
            + json_debug_text(entries.last().1)
    }
}

/// The id of a stored reservation: a serial number in the reservation table
/// that the reservation handlers use, a UUID in the older table.
#[derive(Debug, Clone, Copy, PartialEq, Eq, Structural)]
pub enum ReservationId {
    Serial(i32),
    Uuid(u128),
}

/// An id as `{}` shows it: the number, or the UUID's text.
pub open spec fn reservation_id_text(id: ReservationId) -> Seq<char> {
    match id {
        ReservationId::Serial(n) => int_text(n as int),
        ReservationId::Uuid(v) => uuid_text(v),
    }
}

/// A reservation as stored.
#[derive(Debug)]
pub struct Reservation {
    pub id: ReservationId,
    pub name: String,
    pub contact: String,
    pub seating: String,
    pub specific_seating_requested: bool,
    pub advance: bool,
    pub advance_method: JsonValue,
    pub advance_amount: Option<i32>,
    pub confirmed: bool,
    pub reservation_date: Date,
    pub reservation_time: ClockTime,
}

/// `true` or `false`, as `{}` shows a boolean.
pub open spec fn bool_text(b: bool) -> Seq<char> {
    if b {
        seq!['t', 'r', 'u', 'e']
    } else {
        seq!['f', 'a', 'l', 's', 'e']
    }
}

/// An optional amount as `{:?}` shows it: `Some(n)` or `None`.
pub open spec fn option_i32_debug_text(v: Option<i32>) -> Seq<char> {
    match v {
        Some(n) => seq!['S', 'o', 'm', 'e', '('] + int_text(n as int) + seq![')'],
        None => seq!['N', 'o', 'n', 'e'],
    }
}

/// The text under which a reservation is shown, given the text shown for its
/// advance method: its fields in order, in brackets.
pub open spec fn reservation_text(r: Reservation, advance_method_text: Seq<char>) -> Seq<char> {
    seq!['('] + reservation_id_text(r.id) + seq![',', ' '] + r.name@ + seq![',', ' '] + r.contact@ + seq![',', ' ']
        + r.seating@ + seq![',', ' '] + bool_text(r.specific_seating_requested) + seq![',']
        + bool_text(r.advance) + seq![',', ' '] + option_i32_debug_text(r.advance_amount) + seq![',', ' ']
        + advance_method_text + seq![',', ' '] + bool_text(r.confirmed) + seq![',', ' ']
        + date_text(r.reservation_date.year as int, r.reservation_date.month as nat, r.reservation_date.day as nat)
        + seq![',', ' '] + time_text(r.reservation_time.hour as nat, r.reservation_time.minute as nat,
        r.reservation_time.second as nat, r.reservation_time.nanosecond as nat) + seq![' ', ')']
}

fn push_bool(out: &mut Vec<char>, b: bool)
    ensures
        final(out)@ == old(out)@ + bool_text(b),
{
    if b {
        out.push('t');
        out.push('r');
        out.push('u');
        out.push('e');
    } else {
        out.push('f');
        out.push('a');
        out.push('l');
        out.push('s');
        out.push('e');
    }
}

/// Appends the text serde_json's `Debug` writes for `v`.
fn push_json_debug(out: &mut Vec<char>, v: &JsonValue)
    ensures
        final(out)@ == old(out)@ + json_debug_text(*v),
    decreases v,
{
    match v {
        JsonValue::Null => push_lit(out, &['N', 'u', 'l', 'l']),
        JsonValue::Bool(b) => {
            push_lit(out, &['B', 'o', 'o', 'l', '(']);
            push_bool(out, *b);
            push_lit(out, &[')']);
        },
        JsonValue::Number(n) => {
            push_lit(out, &['N', 'u', 'm', 'b', 'e', 'r', '(']);
            push_str_chars(out, n.as_str());
            push_lit(out, &[')']);
        },
        JsonValue::String(t) => {
            push_lit(out, &['S', 't', 'r', 'i', 'n', 'g', '(']);
            let quoted = str_debug(t.as_str());
            push_str_chars(out, quoted.as_str());
            push_lit(out, &[')']);
        },
        JsonValue::Array(items) => {
            push_lit(out, &['A', 'r', 'r', 'a', 'y', ' ', '[']);
            let ghost start = out@;
            let mut i: usize = 0;
            while i < items.len()
                invariant
                    i <= items@.len(),
                    *v == JsonValue::Array(*items),
                    out@ == start + json_items_text(items@.take(i as int)),
                decreases items@.len() - i,
            {
                if i > 0 {
                    push_lit(out, &[',', ' ']);
                }
                proof {
                    assert(decreases_to!(*v => v->Array_0));
                    assert(decreases_to!(v->Array_0 => items@));
                    assert(decreases_to!(items@ => items@[i as int]));
                }
                push_json_debug(out, &items[i]);
                assert(items@.take(i + 1).drop_last() == items@.take(i as int));
                i = i + 1;
            }
            assert(items@.take(i as int) == items@);
            push_lit(out, &[']']);
        },
        JsonValue::Object(entries) => {
            push_lit(out, &['O', 'b', 'j', 'e', 'c', 't', ' ', '{']);
            let ghost start = out@;
            let mut i: usize = 0;
            while i < entries.len()
                invariant
                    i <= entries@.len(),
                    *v == JsonValue::Object(*entries),
                    out@ == start + json_entries_text(entries@.take(i as int)),
                decreases entries@.len() - i,
            {
                if i > 0 {
                    push_lit(out, &[',', ' ']);
                }
                let quoted = str_debug(entries[i].0.as_str());
                push_str_chars(out, quoted.as_str());
                push_lit(out, &[':', ' ']);
                proof {
                    assert(decreases_to!(*v => v->Object_0));
                    assert(decreases_to!(v->Object_0 => entries@));
                    assert(decreases_to!(entries@ => entries@[i as int]));
                    assert(decreases_to!(entries@[i as int] => entries@[i as int].1));
                }
                push_json_debug(out, &entries[i].1);
                assert(entries@.take(i + 1).drop_last() == entries@.take(i as int));
                i = i + 1;
            }
            assert(entries@.take(i as int) == entries@);
            push_lit(out, &['}']);
        },
    }
}

impl Reservation {
    /// Whether the date and the time of the reservation are well formed.
    pub open spec fn wf(self) -> bool {
        self.reservation_date.wf() && self.reservation_time.wf()
    }

    /// The text under which the reservation is shown, its advance method as
    /// serde_json's `Debug` shows it.
    pub fn fmt(&self) -> (res: String)
        requires
            self.wf(),
        ensures
            res@ == reservation_text(*self, json_debug_text(self.advance_method)),
    {
        let mut method: Vec<char> = Vec::new();
        push_json_debug(&mut method, &self.advance_method);
        let method = string_of(method.as_slice());
        self.fmt_with_advance_method_text(method.as_str())
    }

    /// The text under which the reservation is shown, given the text for
    /// its advance method.
    pub fn fmt_with_advance_method_text(&self, advance_method_text: &str) -> (res: String)
        requires
            self.wf(),
        ensures
            res@ == reservation_text(*self, advance_method_text@),
    {
        let mut out: Vec<char> = Vec::new();
        push_lit(&mut out, &['(']);
        assert(out@ == seq!['(']);
        match self.id {
            ReservationId::Serial(n) => push_int(&mut out, n as i64),
            ReservationId::Uuid(v) => push_uuid(&mut out, v),
        }
        push_lit(&mut out, &[',', ' ']);
        push_str_chars(&mut out, self.name.as_str());
        push_lit(&mut out, &[',', ' ']);
        push_str_chars(&mut out, self.contact.as_str());
        push_lit(&mut out, &[',', ' ']);
        push_str_chars(&mut out, self.seating.as_str());
        push_lit(&mut out, &[',', ' ']);
        push_bool(&mut out, self.specific_seating_requested);
        push_lit(&mut out, &[',']);
        push_bool(&mut out, self.advance);
        push_lit(&mut out, &[',', ' ']);
        push_option_i32_debug(&mut out, self.advance_amount);
        push_lit(&mut out, &[',', ' ']);
        push_str_chars(&mut out, advance_method_text);
        push_lit(&mut out, &[',', ' ']);
        push_bool(&mut out, self.confirmed);
        push_lit(&mut out, &[',', ' ']);
        push_date(&mut out, &self.reservation_date);
        push_lit(&mut out, &[',', ' ']);
        push_time(&mut out, &self.reservation_time);
        push_lit(&mut out, &[' ', ')']);
        string_of(out.as_slice())
    }
}

/// Appends the given characters to `out`.
pub(crate) fn push_lit(out: &mut Vec<char>, lit: &[char])
    ensures
        final(out)@ == old(out)@ + lit@,
{
    let mut k: usize = 0;
    let ghost before = out@;
    while k < lit.len()
        invariant
            k <= lit@.len(),
            out@ == before + lit@.take(k as int),
        decreases lit@.len() - k,
    {
        out.push(lit[k]);
        assert(lit@.take(k + 1) == lit@.take(k as int).push(lit@[k as int]));
        k = k + 1;
    }
    assert(lit@.take(k as int) == lit@);
}

fn push_option_i32_debug(out: &mut Vec<char>, v: Option<i32>)
    ensures
        final(out)@ == old(out)@ + option_i32_debug_text(v),
{
    let ghost before = out@;
    match v {
        Some(n) => {
            push_lit(out, &['S', 'o', 'm', 'e', '(']);
            push_int(out, n as i64);
            push_lit(out, &[')']);
        },
        None => {
            push_lit(out, &['N', 'o', 'n', 'e']);
        },
    }
}

/// The part of a reservation's text before its advance flag: the opening
/// bracket, the id, name, contact and seating each followed by `, `, and the
/// specific-seating flag followed by a comma.
pub open spec fn reservation_lead_text(r: Reservation) -> Seq<char> {
    seq!['('] + reservation_id_text(r.id) + seq![',', ' '] + r.name@ + seq![',', ' '] + r.contact@ + seq![',', ' ']
        + r.seating@ + seq![',', ' '] + bool_text(r.specific_seating_requested) + seq![',']
}

/// The flags of a reservation are shown in their places: the advance flag
/// right after the specific-seating flag, then the advance amount and the
/// advance method's text; the confirmed flag right after that text and
/// before the date.
pub proof fn lemma_flags_shown_in_place(r: Reservation, t: Seq<char>)
    ensures
        ({
            let text = reservation_text(r, t);
            let a = reservation_lead_text(r).len() as int;
            let b = a + bool_text(r.advance).len() + 2;
            let c = b + option_i32_debug_text(r.advance_amount).len() + 2;
            let e = c + t.len() + 2;
            &&& text.subrange(a, a + bool_text(r.advance).len()) == bool_text(r.advance)
            &&& text.subrange(b, b + option_i32_debug_text(r.advance_amount).len()) == option_i32_debug_text(r.advance_amount)
            &&& text.subrange(c, c + t.len()) == t
            &&& text.subrange(e, e + bool_text(r.confirmed).len()) == bool_text(r.confirmed)
            &&& text.subrange(e + bool_text(r.confirmed).len() + 2, text.len() as int) == date_text(
                r.reservation_date.year as int,
                r.reservation_date.month as nat,
                r.reservation_date.day as nat,
            ) + seq![',', ' '] + time_text(
                r.reservation_time.hour as nat,
                r.reservation_time.minute as nat,
                r.reservation_time.second as nat,
                r.reservation_time.nanosecond as nat,
            ) + seq![' ', ')']
        }),
{
    lemma_fields_in_place(
        reservation_lead_text(r),
        bool_text(r.advance),
        option_i32_debug_text(r.advance_amount),
        t,
        bool_text(r.confirmed),
        date_text(r.reservation_date.year as int, r.reservation_date.month as nat, r.reservation_date.day as nat),
        time_text(
            r.reservation_time.hour as nat,
            r.reservation_time.minute as nat,
            r.reservation_time.second as nat,
            r.reservation_time.nanosecond as nat,
        ),
    );
}

/// Where each part lies in a text made of a lead, four fields separated by
/// `, `, then a date and a time.
proof fn lemma_fields_in_place(
    lead: Seq<char>,
    adv: Seq<char>,
    amt: Seq<char>,
    t: Seq<char>,
    conf: Seq<char>,
    date: Seq<char>,
    time: Seq<char>,
)
    ensures
        ({
            let sep = seq![',', ' '];
            let text = lead + adv + sep + amt + sep + t + sep + conf + sep + date + sep + time + seq![' ', ')'];
            let a = lead.len() as int;
            let b = a + adv.len() + 2;
            let c = b + amt.len() + 2;
            let e = c + t.len() + 2;
            &&& text.subrange(a, a + adv.len()) == adv
            &&& text.subrange(b, b + amt.len()) == amt
            &&& text.subrange(c, c + t.len()) == t
            &&& text.subrange(e, e + conf.len()) == conf
            &&& text.subrange(e + conf.len() + 2, text.len() as int) == date + sep + time + seq![' ', ')']
        }),
{
    let sep = seq![',', ' '];
    let text = lead + adv + sep + amt + sep + t + sep + conf + sep + date + sep + time + seq![' ', ')'];
    let a = lead.len() as int;
    let b = a + adv.len() + 2;
    let c = b + amt.len() + 2;
    let e = c + t.len() + 2;
    assert(text.subrange(a, a + adv.len()) =~= adv);
    assert(text.subrange(b, b + amt.len()) =~= amt);
    assert(text.subrange(c, c + t.len()) =~= t);
    assert(text.subrange(e, e + conf.len()) =~= conf);
    assert(text.subrange(e + conf.len() + 2, text.len() as int) =~= date + sep + time + seq![' ', ')']);
}

} // verus!
