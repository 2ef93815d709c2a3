//! Password salting: argon2 hashing of a secret with a fresh random salt.

use vstd::prelude::*;
use vstd::utf8::encode_utf8;
use crate::calendar::{valid_ymd, Date};
use crate::prompt::{ask_line, panic_with, yes_no, yes_no_spec, ReadMode, Step, StepSpec};
use crate::text::{parse_i32, parse_i32_spec, parse_u32, parse_u32_spec, trim, trim_spec};

verus! {

/// The length of the salt that passwords are hashed with.
pub const SALT_LEN: usize = 8;

/// The encoded hash (`$argon2id$v=19$m=19456,t=2,p=1$salt$hash`) that
/// rust-argon2's `hash_encoded` makes of a password and a salt under its
/// default configuration.
pub uninterp spec fn argon2_encoded(pwd: Seq<u8>, salt: Seq<u8>) -> Seq<char>;

/// Whether rust-argon2's `hash_encoded` accepts a password and a salt under its
/// default configuration: its source refuses only a password longer than
/// `0xFFFF_FFFF` bytes or a salt outside 8 to `0xFFFF_FFFF` bytes.
pub open spec fn argon2_accepts(pwd: Seq<u8>, salt: Seq<u8>) -> bool {
    pwd.len() <= 0xFFFF_FFFF && 8 <= salt.len() <= 0xFFFF_FFFF
}

/// rust-argon2's `hash_encoded` with `Config::default()`. The hash itself is
/// named, not stated; that it fails exactly where the lengths are refused is
/// taken from the checks in its `Context::new`, which the default configuration
/// passes otherwise.
#[verifier::external_body]
fn argon2_hash_encoded(pwd: &[u8], salt: &[u8]) -> (res: Option<String>)
    ensures
        res is Some <==> argon2_accepts(pwd@, salt@),
        res matches Some(h) ==> h@ == argon2_encoded(pwd@, salt@),
{
    match argon2::hash_encoded(pwd, salt, &argon2::Config::default()) {
        Ok(h) => Some(h),
        Err(_) => None,
    }
}

/// What rust-argon2's `verify_encoded` answers for an encoded hash and a
/// password: `Some(true)` or `Some(false)`, or `None` where it fails.
pub uninterp spec fn argon2_verify_result(encoded: Seq<char>, pwd: Seq<u8>) -> Option<bool>;

/// rust-argon2's `verify_encoded`. Its result is named; two facts from its
/// source are stated: an encoded hash that `hash_encoded` made of the same
/// password verifies (the hash is decoded with its parameters and salt, the
/// password hashed again and compared), and a text without `$` is refused
/// (decoding splits on `$` and wants five or six parts).
#[verifier::external_body]
pub(crate) fn argon2_verify_encoded(encoded: &str, pwd: &[u8]) -> (res: Option<bool>)
    ensures
        res == argon2_verify_result(encoded@, pwd@),
        forall|salt: Seq<u8>|
            argon2_accepts(pwd@, salt) && encoded@ == argon2_encoded(pwd@, salt) ==> res == Some(true),
        !encoded@.contains('$') ==> res is None,
{
    match argon2::verify_encoded(encoded, pwd) {
        Ok(b) => Some(b),
        Err(_) => None,
    }
}

/// Eight bytes from rand's `thread_rng`. Nothing is promised of their values.
#[verifier::external_body]
fn random_salt() -> (salt: [u8; 8]) {
    let mut salt = [0u8; 8];
    rand::RngCore::fill_bytes(&mut rand::thread_rng(), &mut salt);
    salt
}

/// A secret too long to be hashed (more than `0xFFFF_FFFF` bytes).
#[derive(Debug, Clone, Copy, PartialEq, Eq, Structural)]
pub struct PasswordTooLong;

/// Whether `hash` is the salted hash of `secret` under some salt of
/// `SALT_LEN` bytes.
pub open spec fn is_salted_hash_of(hash: Seq<char>, secret: Seq<char>) -> bool {
    exists|salt: Seq<u8>| salt.len() == SALT_LEN && hash == argon2_encoded(encode_utf8(secret), salt)
}

/// Hashes `secret` with the given salt.
pub fn salt_password_with(secret: &str, salt: &[u8; 8]) -> (res: Result<String, PasswordTooLong>)
    ensures
        match res {
            Ok(h) => encode_utf8(secret@).len() <= 0xFFFF_FFFF && h@ == argon2_encoded(
                encode_utf8(secret@),
                salt@,
            ),
            Err(_) => encode_utf8(secret@).len() > 0xFFFF_FFFF,
        },
{
    let bytes = secret.as_bytes();
    match argon2_hash_encoded(bytes, salt.as_slice()) {
        Some(h) => Ok(h),
        None => Err(PasswordTooLong),
    }
}

/// Hashes `secret` with a fresh random salt (password hasher).
pub fn salt_password(secret: &str) -> (res: Result<String, PasswordTooLong>)
    ensures
        match res {
            Ok(h) => encode_utf8(secret@).len() <= 0xFFFF_FFFF && is_salted_hash_of(h@, secret@),
            Err(_) => encode_utf8(secret@).len() > 0xFFFF_FFFF,
        },
{
    let salt = random_salt();
    let res = salt_password_with(secret, &salt);
    proof {
        if res is Ok {
            assert(salt@.len() == SALT_LEN);
        }
    }
    res
}


/// Asks for the transaction id of a payment.
pub const TX_ID_PROMPT: &'static str = "\nEnter tx_id of payment receipt.\n";

/// Asks who received a payment.
pub const RECEIVER_PROMPT: &'static str = "\nEnter name of the payment receiver.\n";

/// Asks whether a payment was received today.
pub const RECEIVED_TODAY_PROMPT: &'static str = "\nAdvance received_today? Enter Y or N\n";

/// Asks for the year a payment was received.
pub const PAID_YEAR_PROMPT: &'static str = "\nEnter payment received year\n";

/// Asks for the month a payment was received.
pub const PAID_MONTH_PROMPT: &'static str = "\nEnter payment received month\n";

/// Asks for the day a payment was received.
pub const PAID_DAY_PROMPT: &'static str = "\nEnter payment received date\n";

/// The panic when the received-today question is answered with neither yes nor no.
pub const RECEIVED_TODAY_PANIC: &'static str = "Payment received today should be answered with Y or N";

/// The panic when a year answer is no integer.
pub const YEAR_PANIC: &'static str = "Failed to parse year.";

/// The panic when a month answer is no integer.
pub const MONTH_PANIC: &'static str = "Failed to parse month.";

/// The panic when a day answer is no integer.
pub const DAY_PANIC: &'static str = "Failed to parse day.";

/// The panic when year, month and day name no calendar date.
pub const DATE_PANIC: &'static str = "Failed to structure reservation date.";

/// Where a payment session stands: the question last asked, or finished.
#[derive(Debug, Clone, Copy, PartialEq, Eq, Structural)]
pub enum PaymentStage {
    TxId,
    Receiver,
    ReceivedToday,
    Year,
    Month,
    Day,
    Finished,
}

/// The details of a received advance: its transaction id (none for cash),
/// who received it, and on which day.
#[derive(Debug, PartialEq, Eq)]
pub struct PaymentReceipt {
    pub transaction_id: Option<String>,
    pub receiver: String,
    pub received_date: Date,
}

/// A payment receipt as the contracts speak of it.
pub struct PaymentReceiptView {
    pub transaction_id: Option<Seq<char>>,
    pub receiver: Seq<char>,
    pub received_date: Date,
}

impl View for PaymentReceipt {
    type V = PaymentReceiptView;

    open spec fn view(&self) -> PaymentReceiptView {
        PaymentReceiptView {
            transaction_id: match self.transaction_id {
                Some(t) => Some(t@),
                None => None,
            },
            receiver: self.receiver@,
            received_date: self.received_date,
        }
    }
}

/// The session that takes down how an advance was paid: for a payment other
/// than cash its transaction id, then who received it, and whether today or
/// on which day. The transaction id and receiver are kept as typed; "today" is the local date at
/// the moment that question is answered.
pub struct PaymentEntry {
    pub stage: PaymentStage,
    pub cash: bool,
    pub tx_id: String,
    pub receiver: String,
    pub year_line: String,
    pub month_line: String,
}

/// A payment session as the contracts speak of it.
pub struct PaymentEntryView {
    pub stage: PaymentStage,
    pub cash: bool,
    pub tx_id: Seq<char>,
    pub receiver: Seq<char>,
    pub year_line: Seq<char>,
    pub month_line: Seq<char>,
}

impl View for PaymentEntry {
    type V = PaymentEntryView;

    open spec fn view(&self) -> PaymentEntryView {
        PaymentEntryView {
            stage: self.stage,
            cash: self.cash,
            tx_id: self.tx_id@,
            receiver: self.receiver@,
            year_line: self.year_line@,
            month_line: self.month_line@,
        }
    }
}

/// The receipt a payment session gives once it knows the day.
pub open spec fn receipt_of(v: PaymentEntryView, date: Date) -> PaymentReceiptView {
    PaymentReceiptView {
        transaction_id: if v.cash {
            None
        } else {
            Some(v.tx_id)
        },
        receiver: v.receiver,
        received_date: date,
    }
}

/// How a payment session goes on after the answer `line`, taken when the
/// local date is `today`: its next state and what it does.
pub open spec fn payment_next(v: PaymentEntryView, line: Seq<char>, today: Date) -> (PaymentEntryView, StepSpec<PaymentReceiptView>) {
    match v.stage {
        PaymentStage::TxId => (
            PaymentEntryView { stage: PaymentStage::Receiver, tx_id: line, ..v },
            StepSpec::Ask(RECEIVER_PROMPT@, ReadMode::Line),
        ),
        PaymentStage::Receiver => (
            PaymentEntryView { stage: PaymentStage::ReceivedToday, receiver: line, ..v },
            StepSpec::Ask(RECEIVED_TODAY_PROMPT@, ReadMode::Line),
        ),
        PaymentStage::ReceivedToday => match yes_no_spec(line) {
            Some(true) => (
                PaymentEntryView { stage: PaymentStage::Finished, ..v },
                StepSpec::Done(receipt_of(v, today)),
            ),
            Some(false) => (
                PaymentEntryView { stage: PaymentStage::Year, ..v },
                StepSpec::Ask(PAID_YEAR_PROMPT@, ReadMode::Line),
            ),
            None => (
                PaymentEntryView { stage: PaymentStage::Finished, ..v },
                StepSpec::Panic(RECEIVED_TODAY_PANIC@),
            ),
        },
        PaymentStage::Year => (
            PaymentEntryView { stage: PaymentStage::Month, year_line: line, ..v },
            StepSpec::Ask(PAID_MONTH_PROMPT@, ReadMode::Line),
        ),
        PaymentStage::Month => (
            PaymentEntryView { stage: PaymentStage::Day, month_line: line, ..v },
            StepSpec::Ask(PAID_DAY_PROMPT@, ReadMode::Line),
        ),
        _ => (
            PaymentEntryView { stage: PaymentStage::Finished, ..v },
            date_answer_step(v.year_line, v.month_line, line, |d: Date| receipt_of(v, d)),
        ),
    }
}

/// What follows the last of three answers for year, month and day, each read
/// with surrounding whitespace trimmed: a panic for the first that is no integer, a panic when they name
/// no date, and otherwise `done` applied to the date.
pub open spec fn date_answer_step<T>(
    year_line: Seq<char>,
    month_line: Seq<char>,
    day_line: Seq<char>,
    done: spec_fn(Date) -> T,
) -> StepSpec<T> {
    match parse_i32_spec(trim_spec(year_line)) {
        None => StepSpec::Panic(YEAR_PANIC@),
        Some(y) => match parse_u32_spec(trim_spec(month_line)) {
            None => StepSpec::Panic(MONTH_PANIC@),
            Some(m) => match parse_u32_spec(trim_spec(day_line)) {
                None => StepSpec::Panic(DAY_PANIC@),
                Some(d) => if valid_ymd(y as int, m as int, d as int) {
                    StepSpec::Done(done(Date { year: y, month: m, day: d }))
                } else {
                    StepSpec::Panic(DATE_PANIC@)
                },
            },
        },
    }
}

/// Reads year, month and day answers, each trimmed, into a date.
pub(crate) fn date_from_answers(year_line: &str, month_line: &str, day_line: &str) -> (res: Result<Date, &'static str>)
    ensures
        match date_answer_step(year_line@, month_line@, day_line@, |d: Date| d) {
            StepSpec::Done(d) => res == Ok::<Date, &'static str>(d),
            StepSpec::Panic(m) => res matches Err(e) && e@ == m,
            _ => false,
        },
{
    let year_text = trim(year_line);
    let y = match parse_i32(year_text.as_str()) {
        Some(y) => y,
        None => return Err(YEAR_PANIC),
    };
    let month_text = trim(month_line);
    let m = match parse_u32(month_text.as_str()) {
        Some(m) => m,
        None => return Err(MONTH_PANIC),
    };
    let day_text = trim(day_line);
    let d = match parse_u32(day_text.as_str()) {
        Some(d) => d,
        None => return Err(DAY_PANIC),
    };
    match Date::from_ymd_opt(y, m, d) {
        Some(date) => Ok(date),
        None => Err(DATE_PANIC),
    }
}

/// The state in which a payment session starts.
pub open spec fn payment_start(payment_mode: i32) -> PaymentEntryView {
    PaymentEntryView {
        stage: if payment_mode == 1 {
            PaymentStage::Receiver
        } else {
            PaymentStage::TxId
        },
        cash: payment_mode == 1,
        tx_id: Seq::empty(),
        receiver: Seq::empty(),
        year_line: Seq::empty(),
        month_line: Seq::empty(),
    }
}

/// Starts the session that takes down how an advance was paid, the payment
/// mode having been chosen as `payment_mode` (1 for cash). All payment modes
/// are handled alike but cash, which has no transaction id.
pub fn payment_mode_handler(payment_mode: i32) -> (res: (PaymentEntry, Step<PaymentReceipt>))
    ensures
        res.0@ == payment_start(payment_mode),
        res.1@ == (if payment_mode == 1 {
            StepSpec::<PaymentReceiptView>::Ask(RECEIVER_PROMPT@, ReadMode::Line)
        } else {
            StepSpec::<PaymentReceiptView>::Ask(TX_ID_PROMPT@, ReadMode::Line)
        }),
{
    let cash = payment_mode == 1;
    let entry = PaymentEntry {
        stage: if cash { PaymentStage::Receiver } else { PaymentStage::TxId },
        cash,
        tx_id: String::new(),
        receiver: String::new(),
        year_line: String::new(),
        month_line: String::new(),
    };
    if cash {
        (entry, ask_line(RECEIVER_PROMPT))
    } else {
        (entry, ask_line(TX_ID_PROMPT))
    }
}

impl PaymentEntry {
    /// Takes the answer to the question last asked, given when the local date
    /// is `today`.
    pub fn answer(&mut self, line: String, today: Date) -> (res: Step<PaymentReceipt>)
        requires
            old(self)@.stage != PaymentStage::Finished,
        ensures
            (final(self)@, res@) == payment_next(old(self)@, line@, today),
    {
        match self.stage {
            PaymentStage::TxId => {
                self.tx_id = line;
                self.stage = PaymentStage::Receiver;
                ask_line(RECEIVER_PROMPT)
            },
            PaymentStage::Receiver => {
                self.receiver = line;
                self.stage = PaymentStage::ReceivedToday;
                ask_line(RECEIVED_TODAY_PROMPT)
            },
            PaymentStage::ReceivedToday => {
                match yes_no(line.as_str()) {
                    Some(true) => {
                        self.stage = PaymentStage::Finished;
                        Step::Done(self.receipt(today))
                    },
                    Some(false) => {
                        self.stage = PaymentStage::Year;
                        ask_line(PAID_YEAR_PROMPT)
                    },
                    None => {
                        self.stage = PaymentStage::Finished;
                        panic_with(RECEIVED_TODAY_PANIC)
                    },
                }
            },
            PaymentStage::Year => {
                self.year_line = line;
                self.stage = PaymentStage::Month;
                ask_line(PAID_MONTH_PROMPT)
            },
            PaymentStage::Month => {
                self.month_line = line;
                self.stage = PaymentStage::Day;
                ask_line(PAID_DAY_PROMPT)
            },
            _ => {
                self.stage = PaymentStage::Finished;
                match date_from_answers(self.year_line.as_str(), self.month_line.as_str(), line.as_str()) {
                    Ok(date) => Step::Done(self.receipt(date)),
                    Err(m) => panic_with(m),
                }
            },
        }
    }

    fn receipt(&self, date: Date) -> (res: PaymentReceipt)
        ensures
            res@ == receipt_of(self@, date),
    {
        PaymentReceipt {
            transaction_id: if self.cash { None } else { Some(self.tx_id.clone()) },
            receiver: self.receiver.clone(),
            received_date: date,
        }
    }
}

/// Year, month and day answers that name a calendar date are read as that
/// date: its year from the year answer, its month from the month answer and
/// its day from the day answer.
pub proof fn lemma_typed_date_read<T>(
    year_line: Seq<char>,
    month_line: Seq<char>,
    day_line: Seq<char>,
    done: spec_fn(Date) -> T,
    y: i32,
    m: u32,
    d: u32,
)
    requires
        parse_i32_spec(trim_spec(year_line)) == Some(y),
        parse_u32_spec(trim_spec(month_line)) == Some(m),
        parse_u32_spec(trim_spec(day_line)) == Some(d),
        valid_ymd(y as int, m as int, d as int),
    ensures
        date_answer_step(year_line, month_line, day_line, done) == StepSpec::Done(done(Date { year: y, month: m, day: d })),
{
}

/// The first answers of a payment session are kept as typed: the transaction
/// id, then who received the payment.
pub proof fn lemma_payment_answers_kept(v: PaymentEntryView, line: Seq<char>, today: Date)
    ensures
        v.stage == PaymentStage::TxId ==> payment_next(v, line, today).0.tx_id == line
            && payment_next(v, line, today).0.stage == PaymentStage::Receiver,
        v.stage == PaymentStage::Receiver ==> payment_next(v, line, today).0.receiver == line
            && payment_next(v, line, today).0.stage == PaymentStage::ReceivedToday,
{
}

/// A payment received today is recorded with the local date at which that is
/// answered, its transaction id (none for cash) and its receiver.
pub proof fn lemma_paid_today(v: PaymentEntryView, line: Seq<char>, today: Date)
    requires
        v.stage == PaymentStage::ReceivedToday,
        yes_no_spec(line) == Some(true),
    ensures
        payment_next(v, line, today).1 == StepSpec::Done(PaymentReceiptView {
            transaction_id: if v.cash { None } else { Some(v.tx_id) },
            receiver: v.receiver,
            received_date: today,
        }),
{
}

/// A payment not received today is recorded with the day typed in the three
/// answers that follow, whatever the local date at each answer: its year,
/// month and day are those answered.
pub proof fn lemma_paid_on_the_typed_day(
    v: PaymentEntryView,
    no_line: Seq<char>,
    year_line: Seq<char>,
    month_line: Seq<char>,
    day_line: Seq<char>,
    t1: Date,
    t2: Date,
    t3: Date,
    t4: Date,
    y: i32,
    m: u32,
    d: u32,
)
    requires
        v.stage == PaymentStage::ReceivedToday,
        yes_no_spec(no_line) == Some(false),
        parse_i32_spec(trim_spec(year_line)) == Some(y),
        parse_u32_spec(trim_spec(month_line)) == Some(m),
        parse_u32_spec(trim_spec(day_line)) == Some(d),
        valid_ymd(y as int, m as int, d as int),
    ensures
        ({
            let s1 = payment_next(v, no_line, t1).0;
            let s2 = payment_next(s1, year_line, t2).0;
            let s3 = payment_next(s2, month_line, t3).0;
            payment_next(s3, day_line, t4).1 == StepSpec::Done(PaymentReceiptView {
                transaction_id: if v.cash { None } else { Some(v.tx_id) },
                receiver: v.receiver,
                received_date: Date { year: y, month: m, day: d },
            })
        }),
{
    let s1 = payment_next(v, no_line, t1).0;
    let s2 = payment_next(s1, year_line, t2).0;
    let s3 = payment_next(s2, month_line, t3).0;
    assert(s3.stage == PaymentStage::Day && s3.year_line == year_line && s3.month_line == month_line);
    lemma_typed_date_read(year_line, month_line, day_line, |x: Date| receipt_of(s3, x), y, m, d);
}

} // verus!
