//! Character and string primitives that the validation, scoring and
//! response rules are built from.
//!
//! Every text is modelled as the sequence of its Unicode scalar values, so a
//! length is a count of characters, never of bytes.

use vstd::prelude::*;
use vstd::std_specs::iter::IteratorSpec;
use vstd::string::StringExecFns;

verus! {

/// Whether `c` is one of the Unicode `White_Space` code points.
pub open spec fn is_whitespace_char(c: char) -> bool {
    let n = c as u32;
    ||| 0x09 <= n <= 0x0d
    ||| n == 0x20
    ||| n == 0x85
    ||| n == 0xa0
    ||| n == 0x1680
    ||| 0x2000 <= n <= 0x200a
    ||| n == 0x2028
    ||| n == 0x2029
    ||| n == 0x202f
    ||| n == 0x205f
    ||| n == 0x3000
}

/// A text is blank when nothing but whitespace occurs in it; trimming such a
/// text leaves the empty text, and only such a text.
pub open spec fn is_blank_text(s: Seq<char>) -> bool {
    forall|i: int| 0 <= i < s.len() ==> is_whitespace_char(#[trigger] s[i])
}

/// The code point of `c`, with the ASCII capitals mapped onto the ASCII
/// small letters.
pub open spec fn ascii_fold(c: char) -> u32 {
    let n = c as u32;
    if 0x41 <= n <= 0x5a {
        (n + 0x20) as u32
    } else {
        n
    }
}

/// Equality of two texts up to the case of their ASCII letters.
pub open spec fn eq_ignoring_ascii_case(a: Seq<char>, b: Seq<char>) -> bool {
    &&& a.len() == b.len()
    &&& forall|i: int| 0 <= i < a.len() ==> ascii_fold(#[trigger] a[i]) == ascii_fold(b[i])
}

/// The digit that stands for `d` in radix sixteen or below, small letters
/// for ten to fifteen.
pub open spec fn digit_char(d: int) -> char {
    seq!['0', '1', '2', '3', '4', '5', '6', '7', '8', '9', 'a', 'b', 'c', 'd', 'e', 'f'][d]
}

/// The decimal digits of `n`, most significant first, none for zero.
pub open spec fn decimal_digits(n: nat) -> Seq<char>
    decreases n,
{
    if n == 0 {
        Seq::empty()
    } else {
        decimal_digits(n / 10).push(digit_char((n % 10) as int))
    }
}

/// The decimal numeral of `n`, without sign or leading zeros.
pub open spec fn decimal_text(n: nat) -> Seq<char> {
    if n == 0 {
        seq!['0']
    } else {
        decimal_digits(n)
    }
}

/// Each byte as two hexadecimal digits, high nibble first, small letters.
pub open spec fn lower_hex(bytes: Seq<u8>) -> Seq<char> {
    Seq::new(
        2 * bytes.len(),
        |i: int|
            digit_char(
                if i % 2 == 0 {
                    bytes[i / 2] as int / 16
                } else {
                    bytes[i / 2] as int % 16
                },
            ),
    )
}

/// Whether `c` is whitespace.
pub fn is_whitespace(c: char) -> (b: bool)
    ensures
        b == is_whitespace_char(c),
{
    let n: u32 = c as u32;
    (0x09 <= n && n <= 0x0d) || n == 0x20 || n == 0x85 || n == 0xa0 || n == 0x1680 || (0x2000 <= n
        && n <= 0x200a) || n == 0x2028 || n == 0x2029 || n == 0x202f || n == 0x205f || n == 0x3000
}

/// Whether `s` is empty or all whitespace. Stops at the first character
/// that is not.
pub fn is_blank(s: &str) -> (b: bool)
    ensures
        b == is_blank_text(s@),
{
    for c in it: s.chars()
        invariant
            it.seq() == s@,
            forall|j: int| 0 <= j < it.index() ==> is_whitespace_char(#[trigger] s@[j]),
    {
        if !is_whitespace(c) {
            return false;
        }
    }
    true
}

/// Whether `s` has more than `limit` characters. Reads at most `limit + 1`
/// of them.
pub fn longer_than(s: &str, limit: usize) -> (b: bool)
    ensures
        b == (s@.len() > limit),
{
    let mut seen: usize = 0;
    for c in it: s.chars()
        invariant
            it.seq() == s@,
            seen == it.index(),
            seen <= limit,
    {
        if seen == limit {
            return true;
        }
        seen = seen + 1;
    }
    false
}

/// Whether `s` begins with `prefix`, character for character.
pub fn starts_with(s: &str, prefix: &str) -> (b: bool)
    ensures
        b == prefix@.is_prefix_of(s@),
{
    let mut rest = s.chars();
    for p in it: prefix.chars()
        invariant
            it.seq() == prefix@,
            rest.obeys_prophetic_iter_laws(),
            it.index() <= s@.len(),
            rest.remaining() == s@.skip(it.index() as int),
            forall|j: int| 0 <= j < it.index() ==> s@[j] == prefix@[j],
    {
        match rest.next() {
            Some(c) => {
                if c != p {
                    return false;
                }
            },
            None => {
                return false;
            },
        }
    }
    true
}

/// Whether `a` and `b` hold the same characters.
pub fn same_text(a: &str, b: &str) -> (same: bool)
    ensures
        same == (a@ == b@),
{
    let mut rest = b.chars();
    for x in it: a.chars()
        invariant
            it.seq() == a@,
            rest.obeys_prophetic_iter_laws(),
            it.index() <= b@.len(),
            rest.remaining() == b@.skip(it.index() as int),
            forall|j: int| 0 <= j < it.index() ==> a@[j] == b@[j],
    {
        match rest.next() {
            Some(y) => {
                if x != y {
                    return false;
                }
            },
            None => {
                return false;
            },
        }
    }
    let done = rest.next().is_none();
    assert(done ==> a@ =~= b@);
    done
}

/// The code point of `c`, an ASCII capital as its small letter.
pub fn fold_ascii(c: char) -> (n: u32)
    ensures
        n == ascii_fold(c),
{
    let n: u32 = c as u32;
    if 0x41 <= n && n <= 0x5a {
        n + 0x20
    } else {
        n
    }
}

/// Whether `a` and `b` are equal up to the case of their ASCII letters.
pub fn eq_ignore_ascii_case(a: &str, b: &str) -> (same: bool)
    ensures
        same == eq_ignoring_ascii_case(a@, b@),
{
    let mut rest = b.chars();
    for x in it: a.chars()
        invariant
            it.seq() == a@,
            rest.obeys_prophetic_iter_laws(),
            it.index() <= b@.len(),
            rest.remaining() == b@.skip(it.index() as int),
            forall|j: int| 0 <= j < it.index() ==> ascii_fold(#[trigger] a@[j]) == ascii_fold(b@[j]),
    {
        match rest.next() {
            Some(y) => {
                if fold_ascii(x) != fold_ascii(y) {
                    return false;
                }
            },
            None => {
                return false;
            },
        }
    }
    rest.next().is_none()
}

/// The one-character text of the digit for `d`.
fn digit_str(d: u8) -> (s: &'static str)
    requires
        d < 16,
    ensures
        s@ == seq![digit_char(d as int)],
{
    proof {
        reveal_strlit("0");
        reveal_strlit("1");
        reveal_strlit("2");
        reveal_strlit("3");
        reveal_strlit("4");
        reveal_strlit("5");
        reveal_strlit("6");
        reveal_strlit("7");
        reveal_strlit("8");
        reveal_strlit("9");
        reveal_strlit("a");
        reveal_strlit("b");
        reveal_strlit("c");
        reveal_strlit("d");
        reveal_strlit("e");
        reveal_strlit("f");
    }
    match d {
        0 => "0",
        1 => "1",
        2 => "2",
        3 => "3",
        4 => "4",
        5 => "5",
        6 => "6",
        7 => "7",
        8 => "8",
        9 => "9",
        10 => "a",
        11 => "b",
        12 => "c",
        13 => "d",
        14 => "e",
        _ => "f",
    }
}

/// Appends the decimal digits of `n` to `out`, nothing for zero.
fn append_decimal_digits(out: &mut String, n: u64)
    ensures
        final(out)@ == old(out)@ + decimal_digits(n as nat),
    decreases n,
{
    if n > 0 {
        append_decimal_digits(out, n / 10);
        out.append(digit_str((n % 10) as u8));
    }
}

/// Appends the decimal numeral of `n` to `out`.
pub fn append_decimal(out: &mut String, n: u64)
    ensures
        final(out)@ == old(out)@ + decimal_text(n as nat),
{
    if n == 0 {
        out.append(digit_str(0));
    } else {
        append_decimal_digits(out, n);
    }
}

/// Appends `bytes` to `out` in hexadecimal, two small digits for each byte.
pub fn append_lower_hex(out: &mut String, bytes: &[u8])
    ensures
        final(out)@ == old(out)@ + lower_hex(bytes@),
{
    let ghost before = out@;
    let n = bytes.len();
    for i in 0..n
        invariant
            n == bytes@.len(),
            out@ == before + lower_hex(bytes@.take(i as int)),
    {
        let b: u8 = bytes[i];
        out.append(digit_str(b / 16));
        out.append(digit_str(b % 16));
        assert(lower_hex(bytes@.take(i + 1)) == lower_hex(bytes@.take(i as int)) + seq![
            digit_char(b as int / 16),
        ] + seq![digit_char(b as int % 16)]);
    }
    assert(bytes@.take(n as int) == bytes@);
}

} // verus!
