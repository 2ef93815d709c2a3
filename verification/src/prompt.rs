//! The question-and-answer sessions with which staff enter data at a
//! terminal: what is asked, how the answer is read, and how answers are
//! understood.

use vstd::prelude::*;
use crate::text::{chars_of, is_digit, trim, trim_spec};

verus! {

/// How the answer to a question is read: one line, or all input to its end.
#[derive(Debug, Clone, Copy, PartialEq, Eq, Structural)]
pub enum ReadMode {
    Line,
    ToEnd,
}

/// A question put to the user.
#[derive(Debug, PartialEq, Eq)]
pub struct Question {
    pub prompt: String,
    pub read: ReadMode,
}

/// Why the standard library refused a text as an integer.
#[derive(Debug, Clone, Copy, PartialEq, Eq, Structural)]
pub enum IntErrorKind {
    Empty,
    InvalidDigit,
    PosOverflow,
}

impl IntErrorKind {
    /// The text the standard library shows for the error.
    pub fn message(&self) -> (res: &'static str)
        ensures
            res@ == int_error_message(*self)@,
    {
        match self {
            IntErrorKind::Empty => "cannot parse integer from empty string",
            IntErrorKind::InvalidDigit => "invalid digit found in string",
            IntErrorKind::PosOverflow => "number too large to fit in target type",
        }
    }
}

/// The text the standard library shows for an integer parse error.
pub open spec fn int_error_message(kind: IntErrorKind) -> &'static str {
    match kind {
        IntErrorKind::Empty => "cannot parse integer from empty string",
        IntErrorKind::InvalidDigit => "invalid digit found in string",
        IntErrorKind::PosOverflow => "number too large to fit in target type",
    }
}

/// How a session ends without its result: a panic with a message, or an
/// integer parse error handed up to the caller.
#[derive(Debug, PartialEq, Eq)]
pub enum Failure {
    Panic(String),
    ParseInt(IntErrorKind),
}

/// What a session does after an answer: ask the next question, finish with
/// its result, or fail.
#[derive(Debug, PartialEq, Eq)]
pub enum Step<T> {
    Ask(Question),
    Done(T),
    Fail(Failure),
}

/// What a session does after an answer, as the contracts speak of it: the
/// question asked (its prompt and how it is read), the result, or the failure.
pub enum StepSpec<T> {
    Ask(Seq<char>, ReadMode),
    Done(T),
    Panic(Seq<char>),
    ParseInt(IntErrorKind),
}

impl<T: View> View for Step<T> {
    type V = StepSpec<T::V>;

    open spec fn view(&self) -> StepSpec<T::V> {
        match self {
            Step::Ask(q) => StepSpec::Ask(q.prompt@, q.read),
            Step::Done(t) => StepSpec::Done(t@),
            Step::Fail(Failure::Panic(m)) => StepSpec::Panic(m@),
            Step::Fail(Failure::ParseInt(k)) => StepSpec::ParseInt(*k),
        }
    }
}

/// Asks the question with the given prompt, read as one line.
pub fn ask_line<T>(prompt: &str) -> (res: Step<T>)
    ensures
        res matches Step::Ask(q) && q.prompt@ == prompt@ && q.read == ReadMode::Line,
{
    Step::Ask(Question { prompt: String::from_str(prompt), read: ReadMode::Line })
}

/// Asks the question with the given prompt, read to the end of the input.
pub fn ask_to_end<T>(prompt: &str) -> (res: Step<T>)
    ensures
        res matches Step::Ask(q) && q.prompt@ == prompt@ && q.read == ReadMode::ToEnd,
{
    Step::Ask(Question { prompt: String::from_str(prompt), read: ReadMode::ToEnd })
}

/// Fails with a panic carrying the given message.
pub fn panic_with<T>(message: &str) -> (res: Step<T>)
    ensures
        res matches Step::Fail(Failure::Panic(m)) && m@ == message@,
{
    Step::Fail(Failure::Panic(String::from_str(message)))
}

/// Whether two texts are equal.
pub fn str_eq(a: &str, b: &str) -> (res: bool)
    ensures
        res == (a@ == b@),
{
    let x = chars_of(a);
    let y = chars_of(b);
    if x.len() != y.len() {
        return false;
    }
    let mut i: usize = 0;
    while i < x.len()
        invariant
            i <= x@.len(),
            x@.len() == y@.len(),
            x@ == a@,
            y@ == b@,
            forall|j: int| 0 <= j < i ==> x@[j] == y@[j],
        decreases x@.len() - i,
    {
        if x[i] != y[i] {
            return false;
        }
        i = i + 1;
    }
    assert(x@ =~= y@);
    true
}

/// Whether a trimmed answer is `Y` or `y`.
pub open spec fn is_short_yes(answer: Seq<char>) -> bool {
    trim_spec(answer) == "Y"@ || trim_spec(answer) == "y"@
}

/// Whether the answer is `Y` or `y` once trimmed; every other answer counts as
/// no.
pub fn short_yes(answer: &str) -> (res: bool)
    ensures
        res == is_short_yes(answer@),
{
    let t = trim(answer);
    str_eq(t.as_str(), "Y") || str_eq(t.as_str(), "y")
}

/// How a trimmed answer to a yes-or-no question reads: `Y`, `y`, `yes` or
/// `Yes` for yes, `N`, `n`, `no` or `No` for no, and nothing otherwise.
pub open spec fn yes_no_spec(answer: Seq<char>) -> Option<bool> {
    let t = trim_spec(answer);
    if t == "Y"@ || t == "y"@ || t == "yes"@ || t == "Yes"@ {
        Some(true)
    } else if t == "N"@ || t == "n"@ || t == "no"@ || t == "No"@ {
        Some(false)
    } else {
        None
    }
}

/// Reads an answer to a yes-or-no question.
pub fn yes_no(answer: &str) -> (res: Option<bool>)
    ensures
        res == yes_no_spec(answer@),
{
    let t = trim(answer);
    let s = t.as_str();
    if str_eq(s, "Y") || str_eq(s, "y") || str_eq(s, "yes") || str_eq(s, "Yes") {
        Some(true)
    } else if str_eq(s, "N") || str_eq(s, "n") || str_eq(s, "no") || str_eq(s, "No") {
        Some(false)
    } else {
        None
    }
}


/// The first error met reading the digits `body` into a `u8`, the digits
/// before it having given `acc`: a character that is no digit, or a value past
/// 255.
pub open spec fn u8_digit_scan(body: Seq<char>, acc: nat) -> Option<IntErrorKind>
    decreases body.len(),
{
    if body.len() == 0 {
        None
    } else if !is_digit(body[0]) {
        Some(IntErrorKind::InvalidDigit)
    } else {
        let v = acc * 10 + ((body[0] as nat) - 48) as nat;
        if v > 255 {
            Some(IntErrorKind::PosOverflow)
        } else {
            u8_digit_scan(body.drop_first(), v)
        }
    }
}

/// Why `str::parse::<u8>` refuses a text it refuses: empty text, a lone sign,
/// the first character that is no digit, or a value past 255, whichever it
/// meets first reading from the left.
pub open spec fn u8_error_kind(s: Seq<char>) -> IntErrorKind {
    if s.len() == 0 {
        IntErrorKind::Empty
    } else if (s[0] == '+' || s[0] == '-') && s.len() == 1 {
        IntErrorKind::InvalidDigit
    } else {
        let body = if s[0] == '+' {
            s.drop_first()
        } else {
            s
        };
        match u8_digit_scan(body, 0) {
            Some(kind) => kind,
            None => IntErrorKind::InvalidDigit,
        }
    }
}

/// The kind of error `str::parse::<u8>` reports for `s`.
pub fn u8_parse_error(s: &str) -> (res: IntErrorKind)
    ensures
        res == u8_error_kind(s@),
{
    let chars = chars_of(s);
    if chars.len() == 0 {
        return IntErrorKind::Empty;
    }
    if (chars[0] == '+' || chars[0] == '-') && chars.len() == 1 {
        return IntErrorKind::InvalidDigit;
    }
    let mut i: usize = if chars[0] == '+' { 1 } else { 0 };
    let ghost body = if s@[0] == '+' { s@.drop_first() } else { s@ };
    let mut acc: u64 = 0;
    assert(body == chars@.skip(i as int));
    while i < chars.len()
        invariant
            i <= chars@.len(),
            acc <= 255,
            chars@ == s@,
            s@.len() > 0,
            !((s@[0] == '+' || s@[0] == '-') && s@.len() == 1),
            body == (if s@[0] == '+' { s@.drop_first() } else { s@ }),
            u8_digit_scan(body, 0) == u8_digit_scan(chars@.skip(i as int), acc as nat),
        decreases chars@.len() - i,
    {
        let c = chars[i];
        let ghost rest = chars@.skip(i as int);
        assert(rest[0] == c);
        if !('0' <= c && c <= '9') {
            return IntErrorKind::InvalidDigit;
        }
        let v = acc * 10 + ((c as u32) - 48) as u64;
        if v > 255 {
            return IntErrorKind::PosOverflow;
        }
        assert(rest.drop_first() == chars@.skip(i + 1));
        acc = v;
        i = i + 1;
    }
    assert(chars@.skip(i as int).len() == 0);
    IntErrorKind::InvalidDigit
}

} // verus!
