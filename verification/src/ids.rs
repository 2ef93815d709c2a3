//! Identifiers of properties and reservations: 128-bit UUIDs, their text and
//! their parsing.

use vstd::prelude::*;
use crate::text::string_of;

verus! {

/// The lowercase hexadecimal digit for a value below 16.
pub open spec fn hex_char(d: nat) -> char {
    if d < 10 {
        (d + 48) as char
    } else {
        (d - 10 + 97) as char
    }
}

/// The last `k` hexadecimal digits of `v`, most significant first.
pub open spec fn hex_digits(v: nat, k: nat) -> Seq<char>
    decreases k,
{
    if k == 0 {
        Seq::empty()
    } else {
        hex_digits(v / 16, (k - 1) as nat).push(hex_char(v % 16))
    }
}

/// A UUID as uuid's `Display` and `Debug` show it: its 32 lowercase
/// hexadecimal digits in groups of 8, 4, 4, 4 and 12, joined by `-`.
pub open spec fn uuid_text(v: u128) -> Seq<char> {
    let h = hex_digits(v as nat, 32);
    h.subrange(0, 8) + seq!['-'] + h.subrange(8, 12) + seq!['-'] + h.subrange(12, 16) + seq!['-']
        + h.subrange(16, 20) + seq!['-'] + h.subrange(20, 32)
}

fn hex_to_char(d: u128) -> (c: char)
    requires
        d < 16,
    ensures
        c == hex_char(d as nat),
{
    match d {
        0 => '0',
        1 => '1',
        2 => '2',
        3 => '3',
        4 => '4',
        5 => '5',
        6 => '6',
        7 => '7',
        8 => '8',
        9 => '9',
        10 => 'a',
        11 => 'b',
        12 => 'c',
        13 => 'd',
        14 => 'e',
        _ => 'f',
    }
}

fn push_hex(out: &mut Vec<char>, v: u128, k: u32)
    ensures
        final(out)@ == old(out)@ + hex_digits(v as nat, k as nat),
    decreases k,
{
    if k > 0 {
        push_hex(out, v / 16, k - 1);
        out.push(hex_to_char(v % 16));
    }
}

fn push_range(out: &mut Vec<char>, h: &Vec<char>, from: usize, to: usize)
    requires
        from <= to <= h@.len(),
    ensures
        final(out)@ == old(out)@ + h@.subrange(from as int, to as int),
{
    let mut k = from;
    let ghost before = out@;
    while k < to
        invariant
            from <= k <= to,
            to <= h@.len(),
            out@ == before + h@.subrange(from as int, k as int),
        decreases to - k,
    {
        out.push(h[k]);
        assert(h@.subrange(from as int, k + 1) == h@.subrange(from as int, k as int).push(h@[k as int]));
        k = k + 1;
    }
}

/// Appends the text of a UUID to `out`.
pub(crate) fn push_uuid(out: &mut Vec<char>, v: u128)
    ensures
        final(out)@ == old(out)@ + uuid_text(v),
{
    let mut h: Vec<char> = Vec::new();
    push_hex(&mut h, v, 32);
    assert(h@ == hex_digits(v as nat, 32));
    assert(h@.len() == 32) by {
        lemma_hex_digits_len(v as nat, 32);
    }
    push_range(out, &h, 0, 8);
    out.push('-');
    push_range(out, &h, 8, 12);
    out.push('-');
    push_range(out, &h, 12, 16);
    out.push('-');
    push_range(out, &h, 16, 20);
    out.push('-');
    push_range(out, &h, 20, 32);
}

proof fn lemma_hex_digits_len(v: nat, k: nat)
    ensures
        hex_digits(v, k).len() == k,
    decreases k,
{
    if k > 0 {
        lemma_hex_digits_len(v / 16, (k - 1) as nat);
    }
}

/// The text of a UUID, as uuid shows it.
pub fn uuid_to_text(v: u128) -> (res: String)
    ensures
        res@ == uuid_text(v),
{
    let mut out: Vec<char> = Vec::new();
    push_uuid(&mut out, v);
    string_of(out.as_slice())
}

/// What uuid's parser (`Uuid::parse_str`) makes of a text: the UUID's 128-bit
/// value, or `None` where it refuses the text.
pub uninterp spec fn uuid_parse_result(s: Seq<char>) -> Option<u128>;

/// Parses a UUID with uuid's `Uuid::parse_str`, which takes the simple,
/// hyphenated, URN and braced forms. The result is named, not stated, except
/// that the hyphenated text that uuid writes for a value parses back to that
/// value, which its documentation gives ("Any of the formats generated by this
/// module ... are supported").
#[verifier::external_body]
pub fn parse_uuid(s: &str) -> (res: Option<u128>)
    ensures
        res == uuid_parse_result(s@),
        forall|v: u128| s@ == uuid_text(v) ==> res == Some(v),
{
    match uuid::Uuid::parse_str(s) {
        Ok(u) => Some(u.as_u128()),
        Err(_) => None,
    }
}

} // verus!
