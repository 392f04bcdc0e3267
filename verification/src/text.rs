//! UTF-8 decoding of byte fields.
use vstd::prelude::*;
use vstd::utf8::{decode_utf8, valid_utf8};

verus! {

/// `core::str::from_utf8`: the bytes as a `str` when they are valid UTF-8,
/// `None` otherwise (the error value is dropped).  The contract states what
/// the standard library documents: success exactly on valid UTF-8, with the
/// decoded characters.
#[verifier::external_body]
pub(crate) fn str_from_utf8(bytes: &[u8]) -> (r: Option<&str>)
    ensures
        r is Some <==> valid_utf8(bytes@),
        r matches Some(s) ==> s@ == decode_utf8(bytes@),
{
    core::str::from_utf8(bytes).ok()
}

/// `String::push`: appends one character.
#[verifier::external_body]
pub(crate) fn string_push(s: &mut String, c: char)
    ensures
        final(s)@ == old(s)@.push(c),
{
    s.push(c)
}

/// The ASCII digit of `d` (0–9).
pub open spec fn spec_digit(d: nat) -> char {
    (48 + d) as char
}

/// Decimal representation of `n`, without leading zeros ("0" for zero).
pub open spec fn spec_decimal(n: nat) -> Seq<char>
    decreases n,
{
    if n < 10 {
        seq![spec_digit(n)]
    } else {
        spec_decimal(n / 10).push(spec_digit(n % 10))
    }
}

/// Decimal representation of `n` padded with zeros to at least two digits.
pub open spec fn spec_decimal_pad2(n: nat) -> Seq<char> {
    if n < 10 {
        seq!['0'] + spec_decimal(n)
    } else {
        spec_decimal(n)
    }
}

/// Lower-case hexadecimal digit of `d` (0–15).
pub open spec fn spec_hex_digit(d: nat) -> char {
    if d < 10 {
        (48 + d) as char
    } else {
        (87 + d) as char
    }
}

/// Two lower-case hex digits per byte, high nibble first.
pub open spec fn spec_hex_lower(bytes: Seq<u8>) -> Seq<char>
    decreases bytes.len(),
{
    if bytes.len() == 0 {
        Seq::empty()
    } else {
        spec_hex_lower(bytes.drop_last()) + seq![
            spec_hex_digit((bytes.last() / 16) as nat),
            spec_hex_digit((bytes.last() % 16) as nat),
        ]
    }
}

/// The ASCII digit of `d`.
fn digit(d: u32) -> (c: char)
    requires
        d < 10,
    ensures
        c == spec_digit(d as nat),
{
    if d == 0 {
        '0'
    } else if d == 1 {
        '1'
    } else if d == 2 {
        '2'
    } else if d == 3 {
        '3'
    } else if d == 4 {
        '4'
    } else if d == 5 {
        '5'
    } else if d == 6 {
        '6'
    } else if d == 7 {
        '7'
    } else if d == 8 {
        '8'
    } else {
        '9'
    }
}

/// Appends every character of `t`.
pub fn push_all(s: &mut String, t: &str)
    ensures
        final(s)@ == old(s)@ + t@,
{
    let n = t.unicode_len();
    let mut i: usize = 0;
    while i < n
        invariant
            i <= n,
            n == t@.len(),
            s@ == old(s)@ + t@.take(i as int),
        decreases n - i,
    {
        string_push(s, t.get_char(i));
        assert(s@ =~= old(s)@ + t@.take(i + 1));
        i += 1;
    }
    assert(t@.take(n as int) =~= t@);
}

/// Appends the decimal representation of `n`.
pub fn push_decimal(s: &mut String, n: u32)
    ensures
        final(s)@ == old(s)@ + spec_decimal(n as nat),
    decreases n,
{
    if n >= 10 {
        push_decimal(s, n / 10);
        string_push(s, digit(n % 10));
        assert(final(s)@ =~= old(s)@ + spec_decimal(n as nat));
    } else {
        string_push(s, digit(n));
        assert(final(s)@ =~= old(s)@ + spec_decimal(n as nat));
    }
}

/// Appends `n` in decimal, padded with zeros to at least two digits (`{:02}`).
pub fn push_decimal_pad2(s: &mut String, n: u32)
    ensures
        final(s)@ == old(s)@ + spec_decimal_pad2(n as nat),
{
    if n < 10 {
        string_push(s, '0');
    }
    push_decimal(s, n);
    assert(final(s)@ =~= old(s)@ + spec_decimal_pad2(n as nat));
}

/// The lower-case hex digit of `d`.
fn hex_digit(d: u8) -> (c: char)
    requires
        d < 16,
    ensures
        c == spec_hex_digit(d as nat),
{
    if d < 10 {
        digit(d as u32)
    } else if d == 10 {
        'a'
    } else if d == 11 {
        'b'
    } else if d == 12 {
        'c'
    } else if d == 13 {
        'd'
    } else if d == 14 {
        'e'
    } else {
        'f'
    }
}

/// Two lower-case hex digits per byte, high nibble first.
pub fn hex_lower(bytes: &[u8]) -> (s: String)
    ensures
        s@ == spec_hex_lower(bytes@),
{
    let mut s = String::new();
    let n = bytes.len();
    let mut i: usize = 0;
    while i < n
        invariant
            i <= n,
            n == bytes@.len(),
            s@ == spec_hex_lower(bytes@.take(i as int)),
        decreases n - i,
    {
        let b = bytes[i];
        string_push(&mut s, hex_digit(b / 16));
        string_push(&mut s, hex_digit(b % 16));
        proof {
            assert(bytes@.take(i + 1).drop_last() =~= bytes@.take(i as int));
            assert(s@ =~= spec_hex_lower(bytes@.take(i + 1)));
        }
        i = i + 1;
    }
    assert(bytes@.take(n as int) =~= bytes@);
    s
}

} // verus!
