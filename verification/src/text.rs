//! Text handling shared by the library: Unicode whitespace trimming, decimal
//! integer texts, and the decimal integer parsing that answers typed at a
//! prompt go through.

use vstd::prelude::*;

verus! {

broadcast use vstd::string::group_string_axioms;

/// Appends one character to a string (std's `String::push`).
#[verifier::external_body]
pub(crate) fn push_char(s: &mut String, c: char)
    ensures
        final(s)@ == old(s)@.push(c),
{
    s.push(c);
}

/// The characters of a string slice, in order.
pub fn chars_of(s: &str) -> (res: Vec<char>)
    ensures
        res@ == s@,
{
    let mut res: Vec<char> = Vec::new();
    for c in it: s.chars()
        invariant
            res@ == it.seq().take(it.index() as int),
            it.seq() == s@,
    {
        res.push(c);
    }
    res
}


/// A string holding exactly the given characters.
pub fn string_of(chars: &[char]) -> (res: String)
    ensures
        res@ == chars@,
{
    let mut res = String::new();
    let mut i: usize = 0;
    while i < chars.len()
        invariant
            i <= chars@.len(),
            res@ == chars@.take(i as int),
        decreases chars@.len() - i,
    {
        push_char(&mut res, chars[i]);
        assert(chars@.take(i + 1) == chars@.take(i as int).push(chars@[i as int]));
        i = i + 1;
    }
    assert(chars@.take(i as int) == chars@);
    res
}

/// Whether a character has the Unicode `White_Space` property, the
/// whitespace that `str::trim` removes.
pub open spec fn is_whitespace(c: char) -> bool {
    let u = c as u32;
    ||| 0x09 <= u <= 0x0D
    ||| u == 0x20
    ||| u == 0x85
    ||| u == 0xA0
    ||| u == 0x1680
    ||| 0x2000 <= u <= 0x200A
    ||| u == 0x2028
    ||| u == 0x2029
    ||| u == 0x202F
    ||| u == 0x205F
    ||| u == 0x3000
}

/// The number of whitespace characters that begin `s`.
pub open spec fn leading_whitespace(s: Seq<char>) -> nat
    decreases s.len(),
{
    if s.len() > 0 && is_whitespace(s[0]) {
        1 + leading_whitespace(s.drop_first())
    } else {
        0
    }
}

/// The number of whitespace characters that end `s`.
pub open spec fn trailing_whitespace(s: Seq<char>) -> nat
    decreases s.len(),
{
    if s.len() > 0 && is_whitespace(s.last()) {
        1 + trailing_whitespace(s.drop_last())
    } else {
        0
    }
}

/// `s` without its trailing whitespace.
pub open spec fn trim_end_spec(s: Seq<char>) -> Seq<char> {
    s.take(s.len() - trailing_whitespace(s))
}

/// `s` without its leading and trailing whitespace.
pub open spec fn trim_spec(s: Seq<char>) -> Seq<char> {
    trim_end_spec(s.skip(leading_whitespace(s) as int))
}

/// Whether a character is whitespace in the sense of `is_whitespace`.
pub fn char_is_whitespace(c: char) -> (res: bool)
    ensures
        res == is_whitespace(c),
{
    let u = c as u32;
    (0x09 <= u && u <= 0x0D) || u == 0x20 || u == 0x85 || u == 0xA0 || u == 0x1680
        || (0x2000 <= u && u <= 0x200A) || u == 0x2028 || u == 0x2029 || u == 0x202F
        || u == 0x205F || u == 0x3000
}

proof fn lemma_leading_whitespace_is(s: Seq<char>, n: nat)
    requires
        n <= s.len(),
        forall|i: int| 0 <= i < n ==> is_whitespace(#[trigger] s[i]),
        n < s.len() ==> !is_whitespace(s[n as int]),
    ensures
        leading_whitespace(s) == n,
    decreases n,
{
    if n > 0 {
        assert(is_whitespace(s[0]));
        assert forall|i: int| 0 <= i < n - 1 implies is_whitespace(#[trigger] s.drop_first()[i]) by {
            assert(s.drop_first()[i] == s[i + 1]);
        }
        if n - 1 < s.drop_first().len() {
            assert(s.drop_first()[n - 1] == s[n as int]);
        }
        lemma_leading_whitespace_is(s.drop_first(), (n - 1) as nat);
    }
}

proof fn lemma_trailing_whitespace_is(s: Seq<char>, n: nat)
    requires
        n <= s.len(),
        forall|i: int| s.len() - n <= i < s.len() ==> is_whitespace(#[trigger] s[i]),
        n < s.len() ==> !is_whitespace(s[s.len() - n - 1]),
    ensures
        trailing_whitespace(s) == n,
    decreases n,
{
    if n > 0 {
        assert(is_whitespace(s[s.len() - 1]));
        assert forall|i: int|
            s.drop_last().len() - (n - 1) <= i < s.drop_last().len() implies is_whitespace(
            #[trigger] s.drop_last()[i],
        ) by {
            assert(s.drop_last()[i] == s[i]);
        }
        if n - 1 < s.drop_last().len() {
            assert(s.drop_last()[s.drop_last().len() - (n - 1) - 1] == s[s.len() - n - 1]);
        }
        lemma_trailing_whitespace_is(s.drop_last(), (n - 1) as nat);
    } else {
        if s.len() > 0 {
            assert(!is_whitespace(s.last()));
        }
    }
}

/// The end position of `chars` once trailing whitespace is dropped.
fn trimmed_end(chars: &Vec<char>, start: usize) -> (end: usize)
    requires
        start <= chars@.len(),
    ensures
        start <= end <= chars@.len(),
        chars@.subrange(start as int, chars@.len() as int).len() - trailing_whitespace(
            chars@.subrange(start as int, chars@.len() as int),
        ) == end - start,
{
    let ghost t = chars@.subrange(start as int, chars@.len() as int);
    let mut end = chars.len();
    while end > start && char_is_whitespace(chars[end - 1])
        invariant
            start <= end <= chars@.len(),
            t == chars@.subrange(start as int, chars@.len() as int),
            forall|i: int| end <= i < chars@.len() ==> is_whitespace(#[trigger] chars@[i]),
        decreases end,
    {
        end = end - 1;
    }
    proof {
        let n = (chars@.len() - end) as nat;
        assert forall|i: int| t.len() - n <= i < t.len() implies is_whitespace(#[trigger] t[i]) by {
            assert(t[i] == chars@[start + i]);
        }
        if n < t.len() {
            assert(t[t.len() - n - 1] == chars@[end - 1]);
        }
        lemma_trailing_whitespace_is(t, n);
    }
    end
}

/// `s` with leading and trailing whitespace removed (std's `str::trim`).
pub fn trim(s: &str) -> (res: String)
    ensures
        res@ == trim_spec(s@),
{
    let chars = chars_of(s);
    let mut start: usize = 0;
    while start < chars.len() && char_is_whitespace(chars[start])
        invariant
            start <= chars@.len(),
            chars@ == s@,
            forall|i: int| 0 <= i < start ==> is_whitespace(#[trigger] chars@[i]),
        decreases chars@.len() - start,
    {
        start = start + 1;
    }
    proof {
        lemma_leading_whitespace_is(s@, start as nat);
    }
    let end = trimmed_end(&chars, start);
    let kept = vstd::slice::slice_subrange(chars.as_slice(), start, end);
    assert(s@.skip(start as int) == chars@.subrange(start as int, chars@.len() as int));
    assert(kept@ == trim_spec(s@));
    string_of(kept)
}

/// `s` with trailing whitespace removed (std's `str::trim_end`).
pub fn trim_end(s: &str) -> (res: String)
    ensures
        res@ == trim_end_spec(s@),
{
    let chars = chars_of(s);
    let end = trimmed_end(&chars, 0);
    let kept = vstd::slice::slice_subrange(chars.as_slice(), 0, end);
    assert(s@.subrange(0, s@.len() as int) == s@);
    string_of(kept)
}


/// The character for a decimal digit.
pub open spec fn digit_char(d: nat) -> char {
    (d + 48) as char
}

/// Whether a character is an ASCII decimal digit.
pub open spec fn is_digit(c: char) -> bool {
    '0' <= c <= '9'
}

/// The decimal text of a natural number, most significant digit first,
/// without leading zeros.
pub open spec fn decimal(n: nat) -> Seq<char>
    decreases n,
{
    if n < 10 {
        seq![digit_char(n)]
    } else {
        decimal(n / 10).push(digit_char(n % 10))
    }
}

/// The decimal text of an integer as `{}` writes it: a `-` before negative ones.
pub open spec fn int_text(i: int) -> Seq<char> {
    if i < 0 {
        seq!['-'] + decimal((-i) as nat)
    } else {
        decimal(i as nat)
    }
}

fn digit_to_char(d: u64) -> (c: char)
    requires
        d < 10,
    ensures
        c == digit_char(d as nat),
{
    match d {
        0 => '0',
        1 => '1',
        2 => '2',
        3 => '3',
        4 => '4',
        5 => '5',
        6 => '6',
        7 => '7',
        8 => '8',
        _ => '9',
    }
}

fn push_decimal(out: &mut Vec<char>, n: u64)
    ensures
        final(out)@ == old(out)@ + decimal(n as nat),
    decreases n,
{
    if n >= 10 {
        push_decimal(out, n / 10);
    }
    out.push(digit_to_char(n % 10));
}

/// The decimal text of an unsigned integer.
pub fn u64_text(n: u64) -> (res: String)
    ensures
        res@ == decimal(n as nat),
{
    let mut out: Vec<char> = Vec::new();
    push_decimal(&mut out, n);
    string_of(out.as_slice())
}

/// The decimal text of a signed integer, as `{}` and `{:?}` write it.
pub fn i64_text(i: i64) -> (res: String)
    ensures
        res@ == int_text(i as int),
{
    let mut out: Vec<char> = Vec::new();
    if i < 0 {
        out.push('-');
        let magnitude: u64 = if i == i64::MIN {
            9223372036854775808u64
        } else {
            (-i) as u64
        };
        push_decimal(&mut out, magnitude);
    } else {
        push_decimal(&mut out, i as u64);
    }
    string_of(out.as_slice())
}

/// The value of a run of decimal digits.
pub open spec fn digits_value(s: Seq<char>) -> nat
    decreases s.len(),
{
    if s.len() == 0 {
        0
    } else {
        digits_value(s.drop_last()) * 10 + ((s.last() as nat) - 48) as nat
    }
}

/// Whether every character of `s` is a decimal digit.
pub open spec fn all_digits(s: Seq<char>) -> bool {
    forall|i: int| 0 <= i < s.len() ==> is_digit(#[trigger] s[i])
}

/// The digits that follow an optional leading `+`.
pub open spec fn unsigned_body(s: Seq<char>) -> Seq<char> {
    if s.len() > 0 && s[0] == '+' {
        s.drop_first()
    } else {
        s
    }
}

/// What `str::parse` gives for an unsigned integer type of unbounded range:
/// an optional `+` and then at least one decimal digit, nothing else.
pub open spec fn parse_unsigned_spec(s: Seq<char>) -> Option<nat> {
    let body = unsigned_body(s);
    if body.len() > 0 && all_digits(body) {
        Some(digits_value(body))
    } else {
        None
    }
}

/// What `str::parse` gives for a signed integer type of unbounded range:
/// an optional `+` or `-` and then at least one decimal digit, nothing else.
pub open spec fn parse_signed_spec(s: Seq<char>) -> Option<int> {
    if s.len() > 0 && s[0] == '-' {
        let body = s.drop_first();
        if body.len() > 0 && all_digits(body) {
            Some(-(digits_value(body) as int))
        } else {
            None
        }
    } else {
        match parse_unsigned_spec(s) {
            Some(v) => Some(v as int),
            None => None,
        }
    }
}

/// `str::parse::<i32>`: the signed parse, refused when out of range.
pub open spec fn parse_i32_spec(s: Seq<char>) -> Option<i32> {
    match parse_signed_spec(s) {
        Some(v) => if i32::MIN <= v <= i32::MAX {
            Some(v as i32)
        } else {
            None
        },
        None => None,
    }
}

/// `str::parse::<u32>`: the unsigned parse, refused when out of range.
pub open spec fn parse_u32_spec(s: Seq<char>) -> Option<u32> {
    match parse_unsigned_spec(s) {
        Some(v) => if v <= u32::MAX {
            Some(v as u32)
        } else {
            None
        },
        None => None,
    }
}

/// `str::parse::<u8>`: the unsigned parse, refused when out of range.
pub open spec fn parse_u8_spec(s: Seq<char>) -> Option<u8> {
    match parse_unsigned_spec(s) {
        Some(v) => if v <= u8::MAX {
            Some(v as u8)
        } else {
            None
        },
        None => None,
    }
}

proof fn lemma_digits_value_prefix_monotone(s: Seq<char>, k: int)
    requires
        0 <= k <= s.len(),
        all_digits(s),
    ensures
        digits_value(s.take(k)) <= digits_value(s),
    decreases s.len() - k,
{
    if k < s.len() {
        let t = s.take(k + 1);
        assert(t.drop_last() == s.take(k));
        assert(is_digit(s[k]));
        lemma_digits_value_prefix_monotone(s, k + 1);
    } else {
        assert(s.take(k) == s);
    }
}

/// The value of the digits `chars[start..]` when they are all digits, there
/// is at least one, and the value is at most `cap`; `None` otherwise.
fn digits_up_to(chars: &Vec<char>, start: usize, cap: u64) -> (res: Option<u64>)
    requires
        start <= chars@.len(),
        cap <= 0x1_0000_0000,
    ensures
        ({
            let body = chars@.skip(start as int);
            match res {
                Some(v) => body.len() > 0 && all_digits(body) && v == digits_value(body) && v <= cap,
                None => !(body.len() > 0 && all_digits(body) && digits_value(body) <= cap),
            }
        }),
{
    let ghost body = chars@.skip(start as int);
    if start == chars.len() {
        return None;
    }
    let mut acc: u64 = 0;
    let mut i: usize = start;
    while i < chars.len()
        invariant
            start <= i <= chars@.len(),
            body == chars@.skip(start as int),
            cap <= 0x1_0000_0000,
            acc <= cap,
            all_digits(body.take(i - start)),
            acc == digits_value(body.take(i - start)),
        decreases chars@.len() - i,
    {
        let c = chars[i];
        if !('0' <= c && c <= '9') {
            assert(body[i - start] == c);
            return None;
        }
        proof {
            let t = body.take(i - start + 1);
            assert(t.drop_last() == body.take(i - start));
            assert(t.last() == c);
            assert forall|j: int| 0 <= j < t.len() implies is_digit(#[trigger] t[j]) by {
                if j < t.len() - 1 {
                    assert(t[j] == body.take(i - start)[j]);
                }
            }
        }
        acc = acc * 10 + ((c as u32) - 48) as u64;
        i = i + 1;
        if acc > cap {
            proof {
                if all_digits(body) {
                    lemma_digits_value_prefix_monotone(body, i - start);
                }
            }
            return None;
        }
    }
    assert(body.take(i - start) == body);
    Some(acc)
}

/// `str::parse::<i32>` on the text `s`.
pub fn parse_i32(s: &str) -> (res: Option<i32>)
    ensures
        res == parse_i32_spec(s@),
{
    let chars = chars_of(s);
    if chars.len() > 0 && chars[0] == '-' {
        assert(chars@.skip(1) == s@.drop_first());
        match digits_up_to(&chars, 1, 0x8000_0000) {
            Some(v) => {
                if v == 0x8000_0000 {
                    Some(i32::MIN)
                } else {
                    Some(-(v as i32))
                }
            },
            None => None,
        }
    } else {
        let start: usize = if chars.len() > 0 && chars[0] == '+' { 1 } else { 0 };
        assert(chars@.skip(start as int) == unsigned_body(s@));
        match digits_up_to(&chars, start, 0x7fff_ffff) {
            Some(v) => Some(v as i32),
            None => None,
        }
    }
}

/// `str::parse::<u32>` on the text `s`.
pub fn parse_u32(s: &str) -> (res: Option<u32>)
    ensures
        res == parse_u32_spec(s@),
{
    let chars = chars_of(s);
    let start: usize = if chars.len() > 0 && chars[0] == '+' { 1 } else { 0 };
    assert(chars@.skip(start as int) == unsigned_body(s@));
    match digits_up_to(&chars, start, 0xffff_ffff) {
        Some(v) => Some(v as u32),
        None => None,
    }
}

/// `str::parse::<u8>` on the text `s`.
pub fn parse_u8(s: &str) -> (res: Option<u8>)
    ensures
        res == parse_u8_spec(s@),
{
    let chars = chars_of(s);
    let start: usize = if chars.len() > 0 && chars[0] == '+' { 1 } else { 0 };
    assert(chars@.skip(start as int) == unsigned_body(s@));
    match digits_up_to(&chars, start, 0xff) {
        Some(v) => Some(v as u8),
        None => None,
    }
}


/// `decimal(n)` preceded by as many `0` as bring it to `width` characters.
pub open spec fn padded(n: nat, width: nat) -> Seq<char> {
    let digits = decimal(n);
    if digits.len() < width {
        Seq::new((width - digits.len()) as nat, |i: int| '0') + digits
    } else {
        digits
    }
}

/// Appends `padded(n, width)` to `out`.
pub(crate) fn push_padded(out: &mut Vec<char>, n: u64, width: usize)
    requires
        width <= 20,
    ensures
        final(out)@ == old(out)@ + padded(n as nat, width as nat),
{
    let mut digits: Vec<char> = Vec::new();
    push_decimal(&mut digits, n);
    assert(digits@ == decimal(n as nat));
    if digits.len() < width {
        let zeros = width - digits.len();
        let mut i: usize = 0;
        while i < zeros
            invariant
                i <= zeros,
                zeros == width - digits@.len(),
                out@ == old(out)@ + Seq::new(i as nat, |j: int| '0'),
            decreases zeros - i,
        {
            out.push('0');
            assert(Seq::new((i + 1) as nat, |j: int| '0') == Seq::new(i as nat, |j: int| '0').push('0'));
            i = i + 1;
        }
    }
    let mut k: usize = 0;
    let ghost before = out@;
    while k < digits.len()
        invariant
            k <= digits@.len(),
            out@ == before + digits@.take(k as int),
        decreases digits@.len() - k,
    {
        out.push(digits[k]);
        assert(digits@.take(k + 1) == digits@.take(k as int).push(digits@[k as int]));
        k = k + 1;
    }
    assert(digits@.take(k as int) == digits@);
}

/// Appends the characters of `s` to `out`.
pub(crate) fn push_str_chars(out: &mut Vec<char>, s: &str)
    ensures
        final(out)@ == old(out)@ + s@,
{
    let chars = chars_of(s);
    let mut k: usize = 0;
    let ghost before = out@;
    while k < chars.len()
        invariant
            k <= chars@.len(),
            chars@ == s@,
            out@ == before + chars@.take(k as int),
        decreases chars@.len() - k,
    {
        out.push(chars[k]);
        assert(chars@.take(k + 1) == chars@.take(k as int).push(chars@[k as int]));
        k = k + 1;
    }
    assert(chars@.take(k as int) == chars@);
}

/// Appends `int_text(i)` to `out`.
pub(crate) fn push_int(out: &mut Vec<char>, i: i64)
    ensures
        final(out)@ == old(out)@ + int_text(i as int),
{
    if i < 0 {
        out.push('-');
        let magnitude: u64 = if i == i64::MIN {
            9223372036854775808u64
        } else {
            (-i) as u64
        };
        push_decimal(out, magnitude);
    } else {
        push_decimal(out, i as u64);
    }
}


proof fn lemma_decimal_digits(n: nat)
    ensures
        decimal(n).len() > 0,
        all_digits(decimal(n)),
        digits_value(decimal(n)) == n,
    decreases n,
{
    if n >= 10 {
        lemma_decimal_digits(n / 10);
        let s = decimal(n / 10);
        let t = s.push(digit_char(n % 10));
        assert(t.drop_last() == s);
        assert((digit_char(n % 10) as nat) == n % 10 + 48);
        assert(t.last() == digit_char(n % 10));
        assert(digits_value(t) == digits_value(s) * 10 + n % 10);
        assert forall|i: int| 0 <= i < t.len() implies is_digit(#[trigger] t[i]) by {
            if i < s.len() {
                assert(t[i] == s[i]);
            }
        }
    } else {
        let t = seq![digit_char(n)];
        assert(t.drop_last() == Seq::<char>::empty());
        assert((digit_char(n) as nat) == n + 48);
        assert(digits_value(Seq::<char>::empty()) == 0);
    }
}

/// The decimal text of an integer reads back as that integer: what `{}`
/// writes, `str::parse` reads.
pub proof fn lemma_int_text_parses_back(i: i32)
    ensures
        parse_i32_spec(int_text(i as int)) == Some(i),
{
    if i < 0 {
        let m = (-i) as nat;
        lemma_decimal_digits(m);
        let t = seq!['-'] + decimal(m);
        assert(t.drop_first() == decimal(m));
        assert(t[0] == '-');
    } else {
        let m = i as nat;
        lemma_decimal_digits(m);
        let d = decimal(m);
        assert(is_digit(d[0]));
        assert(unsigned_body(d) == d);
    }
}

/// What the standard library's `Debug` writes for a text: the text quoted,
/// with its special characters escaped.
pub uninterp spec fn str_debug_text(s: Seq<char>) -> Seq<char>;

/// `{:?}` of a text (std's `Debug` for `str`); its result is named, not stated.
#[verifier::external_body]
pub(crate) fn str_debug(s: &str) -> (res: String)
    ensures
        res@ == str_debug_text(s@),
{
    format!("{:?}", s)
}

} // verus!
