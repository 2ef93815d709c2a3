//! The session with which a reservation is entered at the terminal: the guest,
//! the seating, the advance and how it was paid, whether it is confirmed, the
//! day and time, and the property; at its end, the request to file.

use vstd::prelude::*;
use crate::calendar::{date_text, push_date, valid_ymd, ClockTime, Date};
use crate::helpers::{
    receipt_of, date_answer_step, payment_mode_handler, payment_next, payment_start, PaymentEntry,
    PaymentEntryView, PaymentReceiptView, PaymentStage, DATE_PANIC, DAY_PANIC,
    MONTH_PANIC, YEAR_PANIC,
};
use crate::ids::{parse_uuid, uuid_parse_result};
use crate::models::{not_paid_view, PaymentMethod, PaymentMethodView, PaymentMode};
use crate::prompt::{
    ask_line, ask_to_end, panic_with, short_yes, is_short_yes, u8_error_kind, u8_parse_error,
    yes_no, yes_no_spec, Failure, Question, ReadMode, Step, StepSpec,
};
use crate::text::{
    int_text, parse_i32, parse_i32_spec, parse_u32, parse_u32_spec, parse_u8,
    parse_u8_spec, push_int, push_str_chars, string_of, trim, trim_spec,
};

verus! {

pub const NAME_PROMPT: &'static str = "\nEnter reservation name\n";
pub const CONTACT_PROMPT: &'static str = "\nEnter contact details\n";
pub const SEATING_REQUESTED_PROMPT: &'static str = "\nSpecific seating requested?\n";
pub const TABLE_PROMPT: &'static str = "\nEnter table which the guest has requested.\n";
/// The seating recorded when no table was asked for.
pub const DEFAULT_SEATING: &'static str = "Table not specifically requested";
pub const ADVANCE_PROMPT: &'static str = "\nAdvance received? Enter Y or N\n";
pub const PAYMENT_CHOICE_PROMPT: &'static str = "\nHow was the advance paid? 1 -> Cash, 2 -> Card, 3 -> Gpay\n";
pub const PAYMENT_CHOICE_PANIC: &'static str = "failed to parse PaymentMethod";
pub const UNKNOWN_MODE_PANIC: &'static str = "Unknown payment mode entered";
pub const AMOUNT_PROMPT: &'static str = "\nEnter advance amount.\n";
pub const AMOUNT_PANIC: &'static str = "failed to parse advance_amount";
pub const CONFIRMED_PROMPT: &'static str = "\nConfirmed? Enter Y or N\n";
pub const FOR_TODAY_PREFIX: &'static str = "\nIs the reservation for today: ";
pub const FOR_THIS_MONTH_PREFIX: &'static str = "\nIs the reservation for this month: ";
pub const FOR_THIS_YEAR_PREFIX: &'static str = "\nIs the reservation for this year: ";
pub const YES_NO_SUFFIX: &'static str = "?. Enter Y or N\n";
pub const DAY_PROMPT: &'static str = "\nEnter Date\n";
pub const MONTH_PROMPT: &'static str = "\nEnter month\n";
pub const YEAR_PROMPT: &'static str = "\nEnter Year\n";
pub const TODAY_ANSWER_PANIC: &'static str = "Reservation for today has to be answered (Y, Yes, N, No) only";
pub const MONTH_ANSWER_PANIC: &'static str = "Reservation month has to be answered (Y, Yes, N, No) only";
pub const YEAR_ANSWER_PANIC: &'static str = "Reservation year has to be answered (Y, Yes, N, No) only";
pub const HOUR_PROMPT: &'static str = "\nEnter time: Hour\n";
pub const MINUTE_PROMPT: &'static str = "\nEnter time: Minute\n";
pub const TIME_PANIC: &'static str = "creating time for reservation failed.";
pub const PROPERTY_ID_PROMPT: &'static str = "\nEnter property id.\n";
pub const PROPERTY_ID_PANIC: &'static str = "Failed to parse into uuid type";

/// The question whether the reservation is for `today`.
pub open spec fn for_today_prompt(today: Date) -> Seq<char> {
    FOR_TODAY_PREFIX@ + date_text(today.year as int, today.month as nat, today.day as nat) + YES_NO_SUFFIX@
}

/// The question whether the reservation is for the month of `today`.
pub open spec fn for_this_month_prompt(today: Date) -> Seq<char> {
    FOR_THIS_MONTH_PREFIX@ + int_text(today.month as int) + YES_NO_SUFFIX@
}

/// The question whether the reservation is for the year of `today`.
pub open spec fn for_this_year_prompt(today: Date) -> Seq<char> {
    FOR_THIS_YEAR_PREFIX@ + int_text(today.year as int) + YES_NO_SUFFIX@
}

/// The reservation a session files: the texts trimmed, the advance and how
/// it was paid, the day and time, and the property.
#[derive(Debug, PartialEq, Eq)]
pub struct ReservationRequest {
    pub name: String,
    pub contact: String,
    pub seating: String,
    pub specific_seating_requested: bool,
    pub advance: bool,
    pub advance_method: PaymentMethod,
    pub advance_amount: i32,
    pub confirmed: bool,
    pub reservation_date: Date,
    pub reservation_time: ClockTime,
    pub property_id: u128,
}

/// A reservation request as the contracts speak of it.
pub struct ReservationRequestView {
    pub name: Seq<char>,
    pub contact: Seq<char>,
    pub seating: Seq<char>,
    pub specific_seating_requested: bool,
    pub advance: bool,
    pub advance_method: PaymentMethodView,
    pub advance_amount: i32,
    pub confirmed: bool,
    pub reservation_date: Date,
    pub reservation_time: ClockTime,
    pub property_id: u128,
}

impl View for ReservationRequest {
    type V = ReservationRequestView;

    open spec fn view(&self) -> ReservationRequestView {
        ReservationRequestView {
            name: self.name@,
            contact: self.contact@,
            seating: self.seating@,
            specific_seating_requested: self.specific_seating_requested,
            advance: self.advance,
            advance_method: self.advance_method@,
            advance_amount: self.advance_amount,
            confirmed: self.confirmed,
            reservation_date: self.reservation_date,
            reservation_time: self.reservation_time,
            property_id: self.property_id,
        }
    }
}

/// Where a reservation session stands: the question last asked, or finished.
#[derive(Debug, Clone, Copy, PartialEq, Eq, Structural)]
pub enum EntryStage {
    Name,
    Contact,
    SeatingRequested,
    Table,
    AdvanceReceived,
    PaymentChoice,
    Payment,
    AdvanceAmount,
    Confirmed,
    ForToday,
    Day,
    ThisMonth,
    Month,
    ThisYear,
    Year,
    Hour,
    Minute,
    PropertyId,
    Finished,
}

/// The session that takes down a reservation (`create_new_reservation`).
/// `current_date` is the local date read when the confirmation question is
/// answered, the date the day questions then speak of.
pub struct ReservationEntry {
    pub stage: EntryStage,
    pub current_date: Option<Date>,
    pub name: String,
    pub contact: String,
    pub specific_seating_requested: bool,
    pub seating: String,
    pub advance: bool,
    pub payment_mode: PaymentMode,
    pub payment: PaymentEntry,
    pub advance_method: PaymentMethod,
    pub advance_amount: i32,
    pub confirmed: bool,
    pub day_line: String,
    pub month: u32,
    pub reservation_date: Option<Date>,
    pub hour_line: String,
    pub reservation_time: ClockTime,
}

/// A reservation session as the contracts speak of it.
pub struct ReservationEntryView {
    pub stage: EntryStage,
    pub current_date: Option<Date>,
    pub name: Seq<char>,
    pub contact: Seq<char>,
    pub specific_seating_requested: bool,
    pub seating: Seq<char>,
    pub advance: bool,
    pub payment_mode: PaymentMode,
    pub payment: PaymentEntryView,
    pub advance_method: PaymentMethodView,
    pub advance_amount: i32,
    pub confirmed: bool,
    pub day_line: Seq<char>,
    pub month: u32,
    pub reservation_date: Option<Date>,
    pub hour_line: Seq<char>,
    pub reservation_time: ClockTime,
}

impl View for ReservationEntry {
    type V = ReservationEntryView;

    open spec fn view(&self) -> ReservationEntryView {
        ReservationEntryView {
            stage: self.stage,
            current_date: self.current_date,
            name: self.name@,
            contact: self.contact@,
            specific_seating_requested: self.specific_seating_requested,
            seating: self.seating@,
            advance: self.advance,
            payment_mode: self.payment_mode,
            payment: self.payment@,
            advance_method: self.advance_method@,
            advance_amount: self.advance_amount,
            confirmed: self.confirmed,
            day_line: self.day_line@,
            month: self.month,
            reservation_date: self.reservation_date,
            hour_line: self.hour_line@,
            reservation_time: self.reservation_time,
        }
    }
}

/// The payment method recorded once a payment session has given its receipt.
pub open spec fn method_of_receipt(mode: PaymentMode, r: PaymentReceiptView) -> PaymentMethodView {
    PaymentMethodView {
        mode_of_payment: mode,
        payment_transaction_id: r.transaction_id,
        payment_receiver: Some(r.receiver),
        payment_received_date: Some(r.received_date),
    }
}

/// The request filed at the end of session `v` for the property `id`.
pub open spec fn request_of(v: ReservationEntryView, id: u128) -> ReservationRequestView {
    ReservationRequestView {
        name: trim_spec(v.name),
        contact: trim_spec(v.contact),
        seating: trim_spec(v.seating),
        specific_seating_requested: v.specific_seating_requested,
        advance: v.advance,
        advance_method: v.advance_method,
        advance_amount: v.advance_amount,
        confirmed: v.confirmed,
        reservation_date: v.reservation_date.unwrap(),
        reservation_time: v.reservation_time,
        property_id: id,
    }
}

/// What follows once year and month of a reservation are known: the day
/// answer read into a date, or a panic.
pub open spec fn date_known(v: ReservationEntryView, year: i32, month: u32) -> (ReservationEntryView, StepSpec<ReservationRequestView>) {
    match parse_u32_spec(trim_spec(v.day_line)) {
        None => (ReservationEntryView { stage: EntryStage::Finished, ..v }, StepSpec::Panic(DAY_PANIC@)),
        Some(d) => if valid_ymd(year as int, month as int, d as int) {
            (
                ReservationEntryView {
                    stage: EntryStage::Hour,
                    reservation_date: Some(Date { year, month, day: d }),
                    ..v
                },
                StepSpec::Ask(HOUR_PROMPT@, ReadMode::Line),
            )
        } else {
            (ReservationEntryView { stage: EntryStage::Finished, ..v }, StepSpec::Panic(DATE_PANIC@))
        },
    }
}

/// The payment mode chosen by number at the payment question.
pub open spec fn chosen_mode(k: i32) -> Option<PaymentMode> {
    if k == 1 {
        Some(PaymentMode::Cash)
    } else if k == 2 {
        Some(PaymentMode::Card)
    } else if k == 3 {
        Some(PaymentMode::Gpay)
    } else {
        None
    }
}

/// How a reservation session goes on after the answer `line`, taken when the
/// local date is `today`: its next state and what it does. The local date is
/// read where the answer to the confirmation question is taken, and where a
/// payment is recorded as received today.
pub open spec fn entry_next(v: ReservationEntryView, line: Seq<char>, today: Date) -> (ReservationEntryView, StepSpec<ReservationRequestView>) {
    let finished = ReservationEntryView { stage: EntryStage::Finished, ..v };
    match v.stage {
        EntryStage::Name => (
            ReservationEntryView { stage: EntryStage::Contact, name: line, ..v },
            StepSpec::Ask(CONTACT_PROMPT@, ReadMode::ToEnd),
        ),
        EntryStage::Contact => (
            ReservationEntryView { stage: EntryStage::SeatingRequested, contact: line, ..v },
            StepSpec::Ask(SEATING_REQUESTED_PROMPT@, ReadMode::Line),
        ),
        EntryStage::SeatingRequested => if is_short_yes(line) {
            (
                ReservationEntryView { stage: EntryStage::Table, specific_seating_requested: true, ..v },
                StepSpec::Ask(TABLE_PROMPT@, ReadMode::ToEnd),
            )
        } else {
            (
                ReservationEntryView {
                    stage: EntryStage::AdvanceReceived,
                    specific_seating_requested: false,
                    seating: DEFAULT_SEATING@,
                    ..v
                },
                StepSpec::Ask(ADVANCE_PROMPT@, ReadMode::Line),
            )
        },
        EntryStage::Table => (
            ReservationEntryView { stage: EntryStage::AdvanceReceived, seating: line, ..v },
            StepSpec::Ask(ADVANCE_PROMPT@, ReadMode::Line),
        ),
        EntryStage::AdvanceReceived => if is_short_yes(line) {
            (
                ReservationEntryView { stage: EntryStage::PaymentChoice, advance: true, ..v },
                StepSpec::Ask(PAYMENT_CHOICE_PROMPT@, ReadMode::Line),
            )
        } else {
            (
                ReservationEntryView {
                    stage: EntryStage::Confirmed,
                    advance: false,
                    advance_method: not_paid_view(),
                    advance_amount: 0,
                    ..v
                },
                StepSpec::Ask(CONFIRMED_PROMPT@, ReadMode::Line),
            )
        },
        EntryStage::PaymentChoice => match parse_i32_spec(trim_spec(line)) {
            None => (finished, StepSpec::Panic(PAYMENT_CHOICE_PANIC@)),
            Some(k) => match chosen_mode(k) {
                None => (finished, StepSpec::Panic(UNKNOWN_MODE_PANIC@)),
                Some(mode) => (
                    ReservationEntryView {
                        stage: EntryStage::Payment,
                        payment_mode: mode,
                        payment: payment_start(k),
                        ..v
                    },
                    payment_start_step(k),
                ),
            },
        },
        EntryStage::Payment => {
            let (p, step) = payment_next(v.payment, line, today);
            match step {
                StepSpec::Ask(prompt, read) => (
                    ReservationEntryView { payment: p, ..v },
                    StepSpec::Ask(prompt, read),
                ),
                StepSpec::Done(r) => (
                    ReservationEntryView {
                        stage: EntryStage::AdvanceAmount,
                        payment: p,
                        advance_method: method_of_receipt(v.payment_mode, r),
                        ..v
                    },
                    StepSpec::Ask(AMOUNT_PROMPT@, ReadMode::Line),
                ),
                StepSpec::Panic(m) => (
                    ReservationEntryView { stage: EntryStage::Finished, payment: p, ..v },
                    StepSpec::Panic(m),
                ),
                StepSpec::ParseInt(k) => (
                    ReservationEntryView { stage: EntryStage::Finished, payment: p, ..v },
                    StepSpec::ParseInt(k),
                ),
            }
        },
        EntryStage::AdvanceAmount => match parse_i32_spec(trim_spec(line)) {
            None => (finished, StepSpec::Panic(AMOUNT_PANIC@)),
            Some(a) => (
                ReservationEntryView { stage: EntryStage::Confirmed, advance_amount: a, ..v },
                StepSpec::Ask(CONFIRMED_PROMPT@, ReadMode::Line),
            ),
        },
        EntryStage::Confirmed => (
            ReservationEntryView {
                stage: EntryStage::ForToday,
                confirmed: is_short_yes(line),
                current_date: Some(today),
                ..v
            },
            StepSpec::Ask(for_today_prompt(today), ReadMode::Line),
        ),
        EntryStage::ForToday => match yes_no_spec(line) {
            Some(true) => (
                ReservationEntryView { stage: EntryStage::Hour, reservation_date: v.current_date, ..v },
                StepSpec::Ask(HOUR_PROMPT@, ReadMode::Line),
            ),
            Some(false) => (
                ReservationEntryView { stage: EntryStage::Day, ..v },
                StepSpec::Ask(DAY_PROMPT@, ReadMode::Line),
            ),
            None => (finished, StepSpec::Panic(TODAY_ANSWER_PANIC@)),
        },
        EntryStage::Day => (
            ReservationEntryView { stage: EntryStage::ThisMonth, day_line: line, ..v },
            StepSpec::Ask(for_this_month_prompt(v.current_date.unwrap()), ReadMode::Line),
        ),
        EntryStage::ThisMonth => match yes_no_spec(line) {
            Some(true) => (
                ReservationEntryView { stage: EntryStage::ThisYear, month: v.current_date.unwrap().month, ..v },
                StepSpec::Ask(for_this_year_prompt(v.current_date.unwrap()), ReadMode::Line),
            ),
            Some(false) => (
                ReservationEntryView { stage: EntryStage::Month, ..v },
                StepSpec::Ask(MONTH_PROMPT@, ReadMode::Line),
            ),
            None => (finished, StepSpec::Panic(MONTH_ANSWER_PANIC@)),
        },
        EntryStage::Month => match parse_u32_spec(trim_spec(line)) {
            None => (finished, StepSpec::Panic(MONTH_PANIC@)),
            Some(m) => (
                ReservationEntryView { stage: EntryStage::ThisYear, month: m, ..v },
                StepSpec::Ask(for_this_year_prompt(v.current_date.unwrap()), ReadMode::Line),
            ),
        },
        EntryStage::ThisYear => match yes_no_spec(line) {
            Some(true) => date_known(v, v.current_date.unwrap().year, v.month),
            Some(false) => (
                ReservationEntryView { stage: EntryStage::Year, ..v },
                StepSpec::Ask(YEAR_PROMPT@, ReadMode::Line),
            ),
            None => (finished, StepSpec::Panic(YEAR_ANSWER_PANIC@)),
        },
        EntryStage::Year => match parse_i32_spec(trim_spec(line)) {
            None => (finished, StepSpec::Panic(YEAR_PANIC@)),
            Some(y) => date_known(v, y, v.month),
        },
        EntryStage::Hour => (
            ReservationEntryView { stage: EntryStage::Minute, hour_line: line, ..v },
            StepSpec::Ask(MINUTE_PROMPT@, ReadMode::Line),
        ),
        EntryStage::Minute => match parse_u8_spec(trim_spec(v.hour_line)) {
            None => (finished, StepSpec::ParseInt(u8_error_kind(trim_spec(v.hour_line)))),
            Some(h) => match parse_u8_spec(trim_spec(line)) {
                None => (finished, StepSpec::ParseInt(u8_error_kind(trim_spec(line)))),
                Some(m) => if h < 24 && m < 60 {
                    (
                        ReservationEntryView {
                            stage: EntryStage::PropertyId,
                            reservation_time: ClockTime { hour: h, minute: m, second: 0, nanosecond: 0 },
                            ..v
                        },
                        StepSpec::Ask(PROPERTY_ID_PROMPT@, ReadMode::Line),
                    )
                } else {
                    (finished, StepSpec::Panic(TIME_PANIC@))
                },
            },
        },
        _ => match uuid_parse_result(trim_spec(line)) {
            None => (finished, StepSpec::Panic(PROPERTY_ID_PANIC@)),
            Some(id) => (finished, StepSpec::Done(request_of(v, id))),
        },
    }
}

/// The first question of a payment session for mode number `k`.
pub open spec fn payment_start_step(k: i32) -> StepSpec<ReservationRequestView> {
    if k == 1 {
        StepSpec::Ask(crate::helpers::RECEIVER_PROMPT@, ReadMode::Line)
    } else {
        StepSpec::Ask(crate::helpers::TX_ID_PROMPT@, ReadMode::Line)
    }
}


fn question_step<T: View>(prompt: String) -> (res: Step<T>)
    ensures
        res@ == StepSpec::<T::V>::Ask(prompt@, ReadMode::Line),
{
    Step::Ask(Question { prompt, read: ReadMode::Line })
}

fn for_today_question(today: &Date) -> (res: String)
    requires
        today.wf(),
    ensures
        res@ == for_today_prompt(*today),
{
    let mut out: Vec<char> = Vec::new();
    push_str_chars(&mut out, FOR_TODAY_PREFIX);
    push_date(&mut out, today);
    push_str_chars(&mut out, YES_NO_SUFFIX);
    string_of(out.as_slice())
}

fn for_this_month_question(today: &Date) -> (res: String)
    ensures
        res@ == for_this_month_prompt(*today),
{
    let mut out: Vec<char> = Vec::new();
    push_str_chars(&mut out, FOR_THIS_MONTH_PREFIX);
    push_int(&mut out, today.month as i64);
    push_str_chars(&mut out, YES_NO_SUFFIX);
    string_of(out.as_slice())
}

fn for_this_year_question(today: &Date) -> (res: String)
    ensures
        res@ == for_this_year_prompt(*today),
{
    let mut out: Vec<char> = Vec::new();
    push_str_chars(&mut out, FOR_THIS_YEAR_PREFIX);
    push_int(&mut out, today.year as i64);
    push_str_chars(&mut out, YES_NO_SUFFIX);
    string_of(out.as_slice())
}

/// The state in which a reservation session starts.
pub open spec fn entry_start() -> ReservationEntryView {
    ReservationEntryView {
        stage: EntryStage::Name,
        current_date: None,
        name: Seq::empty(),
        contact: Seq::empty(),
        specific_seating_requested: false,
        seating: Seq::empty(),
        advance: false,
        payment_mode: PaymentMode::NotPaid,
        payment: payment_start(0),
        advance_method: not_paid_view(),
        advance_amount: 0,
        confirmed: false,
        day_line: Seq::empty(),
        month: 0,
        reservation_date: None,
        hour_line: Seq::empty(),
        reservation_time: ClockTime { hour: 0, minute: 0, second: 0, nanosecond: 0 },
    }
}

/// What a reservation session keeps true from question to question: the
/// payment session is under way while a payment is taken down, and once the
/// local date has been read, from the day questions on, it is a date.
pub open spec fn entry_wf(v: ReservationEntryView) -> bool {
    &&& v.stage == EntryStage::Payment ==> v.payment.stage != PaymentStage::Finished
    &&& 9 <= stage_index(v.stage) <= 17 ==> (v.current_date matches Some(d) && d.wf())
    &&& 15 <= stage_index(v.stage) <= 17 ==> (v.reservation_date matches Some(d) && d.wf())
}

proof fn lemma_payment_next_asks_on(v: PaymentEntryView, line: Seq<char>, today: Date)
    ensures
        payment_next(v, line, today).1 is Ask ==> payment_next(v, line, today).0.stage != PaymentStage::Finished,
{
}

/// A reservation session keeps `entry_wf` from question to question.
pub proof fn lemma_entry_next_wf(v: ReservationEntryView, line: Seq<char>, today: Date)
    requires
        entry_wf(v),
        v.stage != EntryStage::Finished,
        today.wf(),
    ensures
        entry_wf(entry_next(v, line, today).0),
{
    lemma_payment_next_asks_on(v.payment, line, today);
    if v.stage == EntryStage::ThisYear || v.stage == EntryStage::Year {
        assert(entry_wf(date_known(v, v.current_date.unwrap().year, v.month).0));
        if let Some(y) = parse_i32_spec(trim_spec(line)) {
            assert(entry_wf(date_known(v, y, v.month).0));
        }
    }
}

/// The place of a stage in the order the questions come.
pub open spec fn stage_index(s: EntryStage) -> int {
    match s {
        EntryStage::Name => 0,
        EntryStage::Contact => 1,
        EntryStage::SeatingRequested => 2,
        EntryStage::Table => 3,
        EntryStage::AdvanceReceived => 4,
        EntryStage::PaymentChoice => 5,
        EntryStage::Payment => 6,
        EntryStage::AdvanceAmount => 7,
        EntryStage::Confirmed => 8,
        EntryStage::ForToday => 9,
        EntryStage::Day => 10,
        EntryStage::ThisMonth => 11,
        EntryStage::Month => 12,
        EntryStage::ThisYear => 13,
        EntryStage::Year => 14,
        EntryStage::Hour => 15,
        EntryStage::Minute => 16,
        EntryStage::PropertyId => 17,
        EntryStage::Finished => 18,
    }
}

/// A payment record for an advance that was paid: a mode other than not
/// paid, who received it and on which day, and a transaction id exactly when
/// it was not paid in cash.
pub open spec fn is_paid_method(m: PaymentMethodView) -> bool {
    &&& m.mode_of_payment != PaymentMode::NotPaid
    &&& m.payment_receiver is Some
    &&& m.payment_received_date matches Some(d) && d.wf()
    &&& (m.payment_transaction_id is None <==> m.mode_of_payment == PaymentMode::Cash)
}

/// What every filed reservation request holds: without an advance it records
/// no payment and an amount of 0; with one, a paid payment record; without a
/// table asked for, the default seating; and its day and time are well formed.
pub open spec fn request_consistent(r: ReservationRequestView) -> bool {
    &&& !r.advance ==> r.advance_method == not_paid_view() && r.advance_amount == 0
    &&& r.advance ==> is_paid_method(r.advance_method)
    &&& !r.specific_seating_requested ==> r.seating == DEFAULT_SEATING@
    &&& r.reservation_date.wf()
    &&& r.reservation_time.wf()
}

/// What a reservation session keeps true of the answers taken so far, until
/// it has finished.
pub open spec fn entry_consistent(v: ReservationEntryView) -> bool {
    v.stage == EntryStage::Finished || entry_answers_consistent(v)
}

/// What the answers taken so far hold at each question.
pub open spec fn entry_answers_consistent(v: ReservationEntryView) -> bool {
    &&& stage_index(v.stage) > 2 && !v.specific_seating_requested ==> v.seating == DEFAULT_SEATING@
    &&& v.stage == EntryStage::Table ==> v.specific_seating_requested
    &&& 5 <= stage_index(v.stage) <= 7 ==> v.advance
    &&& stage_index(v.stage) >= 7 && v.advance ==> is_paid_method(v.advance_method)
    &&& stage_index(v.stage) >= 8 && !v.advance ==> v.advance_method == not_paid_view() && v.advance_amount == 0
    &&& v.stage == EntryStage::Payment ==> v.payment.cash == (v.payment_mode == PaymentMode::Cash)
        && v.payment_mode != PaymentMode::NotPaid
    &&& v.stage == EntryStage::PropertyId ==> v.reservation_time.wf()
}

proof fn lemma_default_seating_trimmed()
    ensures
        trim_spec(DEFAULT_SEATING@) == DEFAULT_SEATING@,
{
    reveal_strlit("Table not specifically requested");
    let s = DEFAULT_SEATING@;
    assert(!crate::text::is_whitespace(s[0]));
    assert(crate::text::leading_whitespace(s) == 0);
    assert(s.skip(0) == s);
    assert(!crate::text::is_whitespace(s.last()));
    assert(crate::text::trailing_whitespace(s) == 0);
    assert(s.take(s.len() as int) == s);
}

proof fn lemma_payment_done(v: PaymentEntryView, line: Seq<char>, today: Date)
    requires
        today.wf(),
    ensures
        payment_next(v, line, today).1 matches StepSpec::Done(r) ==> r.received_date.wf()
            && (r.transaction_id is None <==> v.cash),
{
    if v.stage == PaymentStage::Day {
        let step = date_answer_step(v.year_line, v.month_line, line, |d: Date| receipt_of(v, d));
        if let StepSpec::Done(r) = step {
            let y = parse_i32_spec(trim_spec(v.year_line)).unwrap();
            let m = parse_u32_spec(trim_spec(v.month_line)).unwrap();
            let d = parse_u32_spec(trim_spec(line)).unwrap();
            assert(r == receipt_of(v, Date { year: y, month: m, day: d }));
        }
    }
}

/// The session starts consistent.
pub proof fn lemma_entry_start_consistent()
    ensures
        entry_consistent(entry_start()),
        entry_wf(entry_start()),
{
}

/// Every answer keeps a reservation session consistent, and every request a
/// session files is consistent: an advance is recorded with its payment
/// details, no advance with none and an amount of 0, a reservation without a
/// table asked for gets the default seating, and day and time are well formed.
pub proof fn lemma_entry_next_consistent(v: ReservationEntryView, line: Seq<char>, today: Date)
    requires
        entry_wf(v),
        entry_consistent(v),
        v.stage != EntryStage::Finished,
        today.wf(),
    ensures
        entry_consistent(entry_next(v, line, today).0),
        entry_next(v, line, today).1 matches StepSpec::Done(r) ==> request_consistent(r),
{
    lemma_default_seating_trimmed();
    if v.stage == EntryStage::Payment {
        lemma_payment_done(v.payment, line, today);
    }
    if v.stage == EntryStage::ThisYear || v.stage == EntryStage::Year {
        assert(entry_consistent(date_known(v, v.current_date.unwrap().year, v.month).0));
        if let Some(y) = parse_i32_spec(trim_spec(line)) {
            assert(entry_consistent(date_known(v, y, v.month).0));
        }
    }
    if v.stage == EntryStage::PaymentChoice {
        if let Some(k) = parse_i32_spec(trim_spec(line)) {
            if let Some(mode) = chosen_mode(k) {
                assert(payment_start(k).cash == (mode == PaymentMode::Cash));
            }
        }
    }
}

impl ReservationEntry {
    /// Starts taking down a reservation, asking for the name.
    pub fn create_new_reservation() -> (res: (ReservationEntry, Step<ReservationRequest>))
        ensures
            res.0@ == entry_start(),
            entry_wf(res.0@),
            entry_consistent(res.0@),
            res.1@ == StepSpec::<ReservationRequestView>::Ask(NAME_PROMPT@, ReadMode::Line),
    {
        let (payment, _) = payment_mode_handler(0);
        let entry = ReservationEntry {
            stage: EntryStage::Name,
            current_date: None,
            name: String::new(),
            contact: String::new(),
            specific_seating_requested: false,
            seating: String::new(),
            advance: false,
            payment_mode: PaymentMode::NotPaid,
            payment,
            advance_method: PaymentMethod::not_paid(),
            advance_amount: 0,
            confirmed: false,
            day_line: String::new(),
            month: 0,
            reservation_date: None,
            hour_line: String::new(),
            reservation_time: ClockTime { hour: 0, minute: 0, second: 0, nanosecond: 0 },
        };
        (entry, ask_line(NAME_PROMPT))
    }

    /// Takes the answer to the question last asked, given when the local date
    /// is `today`.
    pub fn answer(&mut self, line: String, today: Date) -> (res: Step<ReservationRequest>)
        requires
            old(self)@.stage != EntryStage::Finished,
            entry_wf(old(self)@),
            today.wf(),
        ensures
            (final(self)@, res@) == entry_next(old(self)@, line@, today),
            entry_wf(final(self)@),
            entry_consistent(old(self)@) ==> entry_consistent(final(self)@),
            entry_consistent(old(self)@) ==> (res matches Step::Done(r) ==> request_consistent(r@)),
    {
        proof {
            lemma_entry_next_wf(self@, line@, today);
            if entry_consistent(self@) {
                lemma_entry_next_consistent(self@, line@, today);
            }
        }
        self.step(line, today)
    }

    #[verifier::rlimit(40)]
    fn step(&mut self, line: String, today: Date) -> (res: Step<ReservationRequest>)
        requires
            old(self)@.stage != EntryStage::Finished,
            entry_wf(old(self)@),
            today.wf(),
        ensures
            (final(self)@, res@) == entry_next(old(self)@, line@, today),
    {
        match self.stage {
            EntryStage::Name => {
                self.name = line;
                self.stage = EntryStage::Contact;
                ask_to_end(CONTACT_PROMPT)
            },
            EntryStage::Contact => {
                self.contact = line;
                self.stage = EntryStage::SeatingRequested;
                ask_line(SEATING_REQUESTED_PROMPT)
            },
            EntryStage::SeatingRequested => {
                if short_yes(line.as_str()) {
                    self.specific_seating_requested = true;
                    self.stage = EntryStage::Table;
                    ask_to_end(TABLE_PROMPT)
                } else {
                    self.specific_seating_requested = false;
                    self.seating = String::from_str(DEFAULT_SEATING);
                    self.stage = EntryStage::AdvanceReceived;
                    ask_line(ADVANCE_PROMPT)
                }
            },
            EntryStage::Table => {
                self.seating = line;
                self.stage = EntryStage::AdvanceReceived;
                ask_line(ADVANCE_PROMPT)
            },
            EntryStage::AdvanceReceived => {
                if short_yes(line.as_str()) {
                    self.advance = true;
                    self.stage = EntryStage::PaymentChoice;
                    ask_line(PAYMENT_CHOICE_PROMPT)
                } else {
                    self.advance = false;
                    self.advance_method = PaymentMethod::not_paid();
                    self.advance_amount = 0;
                    self.stage = EntryStage::Confirmed;
                    ask_line(CONFIRMED_PROMPT)
                }
            },
            EntryStage::PaymentChoice => {
                let t = trim(line.as_str());
                match parse_i32(t.as_str()) {
                    None => {
                        self.stage = EntryStage::Finished;
                        panic_with(PAYMENT_CHOICE_PANIC)
                    },
                    Some(k) => {
                        let mode = if k == 1 {
                            PaymentMode::Cash
                        } else if k == 2 {
                            PaymentMode::Card
                        } else if k == 3 {
                            PaymentMode::Gpay
                        } else {
                            self.stage = EntryStage::Finished;
                            return panic_with(UNKNOWN_MODE_PANIC);
                        };
                        let (payment, first) = payment_mode_handler(k);
                        self.payment_mode = mode;
                        self.payment = payment;
                        self.stage = EntryStage::Payment;
                        match first {
                            Step::Ask(q) => Step::Ask(q),
                            Step::Done(_) => panic_with(UNKNOWN_MODE_PANIC),
                            Step::Fail(f) => Step::Fail(f),
                        }
                    },
                }
            },
            EntryStage::Payment => {
                let step = self.payment.answer(line, today);
                match step {
                    Step::Ask(q) => Step::Ask(q),
                    Step::Done(r) => {
                        self.advance_method = PaymentMethod {
                            mode_of_payment: self.payment_mode,
                            payment_transaction_id: r.transaction_id,
                            payment_receiver: Some(r.receiver),
                            payment_received_date: Some(r.received_date),
                        };
                        self.stage = EntryStage::AdvanceAmount;
                        ask_line(AMOUNT_PROMPT)
                    },
                    Step::Fail(f) => {
                        self.stage = EntryStage::Finished;
                        Step::Fail(f)
                    },
                }
            },
            EntryStage::AdvanceAmount => {
                let t = trim(line.as_str());
                match parse_i32(t.as_str()) {
                    None => {
                        self.stage = EntryStage::Finished;
                        panic_with(AMOUNT_PANIC)
                    },
                    Some(a) => {
                        self.advance_amount = a;
                        self.stage = EntryStage::Confirmed;
                        ask_line(CONFIRMED_PROMPT)
                    },
                }
            },
            EntryStage::Confirmed => {
                self.confirmed = short_yes(line.as_str());
                self.stage = EntryStage::ForToday;
                self.current_date = Some(today);
                question_step(for_today_question(&today))
            },
            EntryStage::ForToday => {
                match yes_no(line.as_str()) {
                    Some(true) => {
                        self.reservation_date = self.current_date;
                        self.stage = EntryStage::Hour;
                        ask_line(HOUR_PROMPT)
                    },
                    Some(false) => {
                        self.stage = EntryStage::Day;
                        ask_line(DAY_PROMPT)
                    },
                    None => {
                        self.stage = EntryStage::Finished;
                        panic_with(TODAY_ANSWER_PANIC)
                    },
                }
            },
            EntryStage::Day => {
                self.day_line = line;
                self.stage = EntryStage::ThisMonth;
                let current = self.current_date.unwrap();
                question_step(for_this_month_question(&current))
            },
            EntryStage::ThisMonth => {
                match yes_no(line.as_str()) {
                    Some(true) => {
                        let current = self.current_date.unwrap();
                        self.month = current.month;
                        self.stage = EntryStage::ThisYear;
                        question_step(for_this_year_question(&current))
                    },
                    Some(false) => {
                        self.stage = EntryStage::Month;
                        ask_line(MONTH_PROMPT)
                    },
                    None => {
                        self.stage = EntryStage::Finished;
                        panic_with(MONTH_ANSWER_PANIC)
                    },
                }
            },
            EntryStage::Month => {
                let month_text = trim(line.as_str());
                match parse_u32(month_text.as_str()) {
                    None => {
                        self.stage = EntryStage::Finished;
                        panic_with(MONTH_PANIC)
                    },
                    Some(m) => {
                        self.month = m;
                        self.stage = EntryStage::ThisYear;
                        let current = self.current_date.unwrap();
                        question_step(for_this_year_question(&current))
                    },
                }
            },
            EntryStage::ThisYear => {
                match yes_no(line.as_str()) {
                    Some(true) => {
                        let y = self.current_date.unwrap().year;
                        self.date_known(y)
                    },
                    Some(false) => {
                        self.stage = EntryStage::Year;
                        ask_line(YEAR_PROMPT)
                    },
                    None => {
                        self.stage = EntryStage::Finished;
                        panic_with(YEAR_ANSWER_PANIC)
                    },
                }
            },
            EntryStage::Year => {
                let year_text = trim(line.as_str());
                match parse_i32(year_text.as_str()) {
                    None => {
                        self.stage = EntryStage::Finished;
                        panic_with(YEAR_PANIC)
                    },
                    Some(y) => self.date_known(y),
                }
            },
            EntryStage::Hour => {
                self.hour_line = line;
                self.stage = EntryStage::Minute;
                ask_line(MINUTE_PROMPT)
            },
            EntryStage::Minute => {
                let hour_text = trim(self.hour_line.as_str());
                let h = match parse_u8(hour_text.as_str()) {
                    None => {
                        self.stage = EntryStage::Finished;
                        return Step::Fail(Failure::ParseInt(u8_parse_error(hour_text.as_str())));
                    },
                    Some(h) => h,
                };
                let minute_text = trim(line.as_str());
                let m = match parse_u8(minute_text.as_str()) {
                    None => {
                        self.stage = EntryStage::Finished;
                        return Step::Fail(Failure::ParseInt(u8_parse_error(minute_text.as_str())));
                    },
                    Some(m) => m,
                };
                match ClockTime::from_hms(h, m, 0) {
                    Some(t) => {
                        self.reservation_time = t;
                        self.stage = EntryStage::PropertyId;
                        ask_line(PROPERTY_ID_PROMPT)
                    },
                    None => {
                        self.stage = EntryStage::Finished;
                        panic_with(TIME_PANIC)
                    },
                }
            },
            _ => {
                self.stage = EntryStage::Finished;
                let t = trim(line.as_str());
                match parse_uuid(t.as_str()) {
                    None => panic_with(PROPERTY_ID_PANIC),
                    Some(id) => Step::Done(self.request(id)),
                }
            },
        }
    }

    fn date_known(&mut self, year: i32) -> (res: Step<ReservationRequest>)
        ensures
            (final(self)@, res@) == date_known(old(self)@, year, old(self)@.month),
    {
        let day_text = trim(self.day_line.as_str());
        match parse_u32(day_text.as_str()) {
            None => {
                self.stage = EntryStage::Finished;
                panic_with(DAY_PANIC)
            },
            Some(d) => {
                match Date::from_ymd_opt(year, self.month, d) {
                    Some(date) => {
                        self.reservation_date = Some(date);
                        self.stage = EntryStage::Hour;
                        ask_line(HOUR_PROMPT)
                    },
                    None => {
                        self.stage = EntryStage::Finished;
                        panic_with(DATE_PANIC)
                    },
                }
            },
        }
    }

    fn request(&self, property_id: u128) -> (res: ReservationRequest)
        requires
            self@.reservation_date is Some,
        ensures
            res@ == request_of(self@, property_id),
    {
        ReservationRequest {
            name: trim(self.name.as_str()),
            contact: trim(self.contact.as_str()),
            seating: trim(self.seating.as_str()),
            specific_seating_requested: self.specific_seating_requested,
            advance: self.advance,
            advance_method: self.advance_method.clone_method(),
            advance_amount: self.advance_amount,
            confirmed: self.confirmed,
            reservation_date: self.reservation_date.unwrap(),
            reservation_time: self.reservation_time,
            property_id,
        }
    }
}

/// The answer to the confirmation question decides whether the reservation
/// is confirmed: it is exactly when the answer, trimmed, is `Y` or `y`.
pub proof fn lemma_confirmation_answer_recorded(v: ReservationEntryView, line: Seq<char>, today: Date)
    requires
        v.stage == EntryStage::Confirmed,
    ensures
        entry_next(v, line, today).0.stage == EntryStage::ForToday,
        entry_next(v, line, today).0.confirmed == (trim_spec(line) == "Y"@ || trim_spec(line) == "y"@),
{
}

/// Once the confirmation question is answered, no later answer changes
/// whether the reservation is confirmed, nor whether an advance was taken.
pub proof fn lemma_later_answers_keep_confirmation(v: ReservationEntryView, line: Seq<char>, today: Date)
    requires
        stage_index(v.stage) > stage_index(EntryStage::Confirmed),
        v.stage != EntryStage::Finished,
    ensures
        entry_next(v, line, today).0.confirmed == v.confirmed,
        entry_next(v, line, today).0.advance == v.advance,
{
}

/// A request filed by a session records the answers the session holds: the
/// texts trimmed, the seating, advance and confirmation answers, the payment
/// record and amount, and the day and time taken down.
pub proof fn lemma_filed_request_records_answers(v: ReservationEntryView, line: Seq<char>, today: Date)
    requires
        v.stage != EntryStage::Finished,
        entry_wf(v),
    ensures
        entry_next(v, line, today).1 matches StepSpec::Done(r) ==> {
            &&& v.stage == EntryStage::PropertyId
            &&& r.name == trim_spec(v.name)
            &&& r.contact == trim_spec(v.contact)
            &&& r.seating == trim_spec(v.seating)
            &&& r.specific_seating_requested == v.specific_seating_requested
            &&& r.advance == v.advance
            &&& r.advance_method == v.advance_method
            &&& r.advance_amount == v.advance_amount
            &&& r.confirmed == v.confirmed
            &&& v.reservation_date == Some(r.reservation_date)
            &&& r.reservation_time == v.reservation_time
            &&& uuid_parse_result(trim_spec(line)) == Some(r.property_id)
        },
{
}

} // verus!
