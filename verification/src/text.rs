//! Numbers as text: the digits that the address syntax is made of.

use vstd::prelude::*;
use vstd::string::*;

verus! {

/// `String::push` of std appends one character to the end of the string.
pub assume_specification[ String::push ](s: &mut String, c: char)
    ensures
        final(s)@ == old(s)@.push(c),
;

/// Whether `c` is one of `0` to `9`.
pub open spec fn is_digit(c: char) -> bool {
    '0' <= c <= '9'
}

/// Whether `c` is a digit of base 16, in either case.
pub open spec fn is_hex_digit(c: char) -> bool {
    is_digit(c) || 'a' <= c <= 'f' || 'A' <= c <= 'F'
}

/// The base that a number is written in.
#[derive(Clone, Copy, Debug, PartialEq, Eq, Structural)]
pub enum Radix {
    Octal,
    Decimal,
    Hex,
}

impl Radix {
    /// The base as a number.
    pub open spec fn base(self) -> int {
        match self {
            Radix::Octal => 8,
            Radix::Decimal => 10,
            Radix::Hex => 16,
        }
    }
}

/// Whether `c` is a digit of the base `radix`.
pub open spec fn is_radix_digit(c: char, radix: Radix) -> bool {
    is_hex_digit(c) && digit_value(c) < radix.base()
}

/// The value of the digit `c`.
pub open spec fn digit_value(c: char) -> int {
    if is_digit(c) {
        c as int - '0' as int
    } else if 'a' <= c <= 'f' {
        c as int - 'a' as int + 10
    } else {
        c as int - 'A' as int + 10
    }
}

/// Where the longest run of digits that starts at `pos` ends.
pub open spec fn digits_end(s: Seq<char>, pos: int, radix: Radix) -> int
    decreases s.len() - pos,
{
    if 0 <= pos < s.len() && is_radix_digit(s[pos], radix) {
        digits_end(s, pos + 1, radix)
    } else {
        pos
    }
}

/// The number that the digits `s` spell, most significant digit first.
pub open spec fn digits_value(s: Seq<char>, radix: Radix) -> int
    decreases s.len(),
{
    if s.len() == 0 {
        0
    } else {
        match radix {
            Radix::Octal => digits_value(s.drop_last(), radix) * 8 + digit_value(s.last()),
            Radix::Decimal => digits_value(s.drop_last(), radix) * 10 + digit_value(s.last()),
            Radix::Hex => digits_value(s.drop_last(), radix) * 16 + digit_value(s.last()),
        }
    }
}

/// Whether every character of `s` is a digit.
pub open spec fn all_digits(s: Seq<char>, radix: Radix) -> bool {
    forall|i: int| 0 <= i < s.len() ==> is_radix_digit(#[trigger] s[i], radix)
}

/// The character that stands for the digit `d`, in lower case.
pub open spec fn digit_char(d: int) -> char {
    if d < 10 {
        ('0' as u8 + d) as char
    } else {
        ('a' as u8 + (d - 10)) as char
    }
}

/// `n` in base 10, without leading zeros.
pub open spec fn decimal_text(n: nat) -> Seq<char>
    decreases n,
{
    if n < 10 {
        seq![digit_char(n as int)]
    } else {
        decimal_text(n / 10).push(digit_char((n % 10) as int))
    }
}

/// `n` in base 16, in lower case and without leading zeros.
pub open spec fn hex_text(n: nat) -> Seq<char>
    decreases n,
{
    if n < 16 {
        seq![digit_char(n as int)]
    } else {
        hex_text(n / 16).push(digit_char((n % 16) as int))
    }
}

/// A run of digits at `pos` whose value is at most `max`: the value and
/// where the run ends. The run takes every digit that follows.
pub open spec fn read_number_spec(s: Seq<char>, pos: int, radix: Radix, max: int) -> Option<
    (int, int),
> {
    let end = digits_end(s, pos, radix);
    let value = digits_value(s.subrange(pos, end), radix);
    if end == pos || value > max {
        None
    } else {
        Some((value, end))
    }
}

/// The number that the whole of `s` spells in the base `radix`, if it is at
/// most `max`: one or more digits, after an optional `+`.
pub open spec fn parse_radix_spec(s: Seq<char>, radix: Radix, max: int) -> Option<int> {
    let start: int = if s.len() > 0 && s[0] == '+' {
        1
    } else {
        0
    };
    match read_number_spec(s, start, radix, max) {
        Some((value, end)) => if end == s.len() {
            Some(value)
        } else {
            None
        },
        None => None,
    }
}

/// The number that the whole of `s` spells in base 10, if it is at most
/// `max`: one or more digits, after an optional `+`.
pub open spec fn parse_unsigned_spec(s: Seq<char>, max: int) -> Option<int> {
    parse_radix_spec(s, Radix::Decimal, max)
}

/// The run of digits that starts at `pos` reaches at least to any `mid` up
/// to which there are only digits, and ends where the run from `mid` ends.
pub(crate) proof fn lemma_digits_end_from(s: Seq<char>, pos: int, mid: int, radix: Radix)
    requires
        0 <= pos <= mid <= s.len(),
        forall|i: int| pos <= i < mid ==> is_radix_digit(#[trigger] s[i], radix),
    ensures
        digits_end(s, pos, radix) == digits_end(s, mid, radix),
        mid <= digits_end(s, mid, radix) <= s.len(),
        forall|i: int|
            mid <= i < digits_end(s, mid, radix) ==> is_radix_digit(#[trigger] s[i], radix),
        digits_end(s, mid, radix) < s.len() ==> !is_radix_digit(
            s[digits_end(s, mid, radix)],
            radix,
        ),
    decreases s.len() - pos, s.len() - mid,
{
    if pos < mid {
        lemma_digits_end_from(s, pos + 1, mid, radix);
    } else if mid < s.len() && is_radix_digit(s[mid], radix) {
        lemma_digits_end_from(s, mid + 1, mid + 1, radix);
    }
}

/// A digit is worth less than its base, and a run of digits never loses
/// value by growing.
pub(crate) proof fn lemma_digits_value_bounds(s: Seq<char>, radix: Radix)
    requires
        all_digits(s, radix),
    ensures
        0 <= digits_value(s, radix),
        forall|k: int|
            0 <= k <= s.len() ==> digits_value(#[trigger] s.subrange(0, k), radix)
                <= digits_value(s, radix),
    decreases s.len(),
{
    if s.len() > 0 {
        let init = s.drop_last();
        lemma_digits_value_bounds(init, radix);
        assert forall|k: int| 0 <= k <= s.len() implies digits_value(
            #[trigger] s.subrange(0, k),
            radix,
        ) <= digits_value(s, radix) by {
            if k == s.len() {
                assert(s.subrange(0, k) =~= s);
            } else {
                assert(s.subrange(0, k) =~= init.subrange(0, k));
            }
        }
    } else {
        assert forall|k: int| 0 <= k <= s.len() implies digits_value(
            #[trigger] s.subrange(0, k),
            radix,
        ) <= digits_value(s, radix) by {
            assert(s.subrange(0, k) =~= s);
        }
    }
}

/// The character `c` of an ASCII string, read from its bytes.
pub(crate) fn ascii_at(s: &str, i: usize) -> (c: char)
    requires
        s.is_ascii(),
        i < s@.len(),
    ensures
        c == s@[i as int],
{
    let b: u8 = s.get_ascii(i);
    b as char
}

/// The number of characters of an ASCII string.
pub(crate) fn ascii_len(s: &str) -> (n: usize)
    requires
        s.is_ascii(),
    ensures
        n == s@.len(),
{
    proof {
        is_ascii_spec_bytes(s);
    }
    s.as_bytes().len()
}

/// The value of `c` as a digit of the base `radix`, if it is one.
pub fn to_digit(c: char, radix: Radix) -> (r: Option<u8>)
    ensures
        r is Some <==> is_radix_digit(c, radix),
        r is Some ==> r->0 as int == digit_value(c) && r->0 < radix.base(),
{
    let value: u8 = if c >= '0' && c <= '9' {
        (c as u32 - '0' as u32) as u8
    } else if c >= 'a' && c <= 'f' {
        (c as u32 - 'a' as u32 + 10) as u8
    } else if c >= 'A' && c <= 'F' {
        (c as u32 - 'A' as u32 + 10) as u8
    } else {
        return None;
    };
    let base: u8 = match radix {
        Radix::Octal => 8,
        Radix::Decimal => 10,
        Radix::Hex => 16,
    };
    if value < base {
        Some(value)
    } else {
        None
    }
}

/// Reads the run of digits of `s` that starts at `pos`.
pub(crate) fn read_number(s: &str, pos: usize, radix: Radix, max: u64) -> (r: Option<(u64, usize)>)
    requires
        s.is_ascii(),
        pos <= s@.len(),
    ensures
        match r {
            Some((value, end)) => read_number_spec(s@, pos as int, radix, max as int) == Some(
                (value as int, end as int),
            ) && pos < end <= s@.len() && end == digits_end(s@, pos as int, radix),
            None => read_number_spec(s@, pos as int, radix, max as int) is None,
        },
{
    let n = ascii_len(s);
    let mut i: usize = pos;
    let mut value: u64 = 0;
    proof {
        assert(s@.subrange(pos as int, pos as int) =~= Seq::<char>::empty());
    }
    loop
        invariant
            s.is_ascii(),
            n == s@.len(),
            pos <= i <= n,
            forall|k: int| pos <= k < i ==> is_radix_digit(#[trigger] s@[k], radix),
            value as int == digits_value(s@.subrange(pos as int, i as int), radix),
            value <= max,
        ensures
            i == n || !is_radix_digit(s@[i as int], radix),
        decreases n - i,
    {
        if i >= n {
            break ;
        }
        let c = ascii_at(s, i);
        match to_digit(c, radix) {
            None => {
                break ;
            },
            Some(d) => {
                proof {
                    let next = s@.subrange(pos as int, i + 1);
                    assert(next.drop_last() =~= s@.subrange(pos as int, i as int));
                    assert(next.last() == c);
                    lemma_digits_end_from(s@, pos as int, i + 1, radix);
                    let end = digits_end(s@, pos as int, radix);
                    let whole = s@.subrange(pos as int, end);
                    assert(all_digits(whole, radix));
                    lemma_digits_value_bounds(whole, radix);
                    assert(whole.subrange(0, i + 1 - pos) =~= next);
                }
                let shifted: u64 = match radix {
                    Radix::Octal => {
                        if value > max / 8 {
                            return None;
                        }
                        value * 8
                    },
                    Radix::Decimal => {
                        if value > max / 10 {
                            return None;
                        }
                        value * 10
                    },
                    Radix::Hex => {
                        if value > max / 16 {
                            return None;
                        }
                        value * 16
                    },
                };
                if d as u64 > max - shifted {
                    return None;
                }
                value = shifted + d as u64;
                i = i + 1;
            },
        }
    }
    proof {
        lemma_digits_end_from(s@, pos as int, i as int, radix);
    }
    if i == pos {
        None
    } else {
        Some((value, i))
    }
}

/// Reads an unsigned number in the base `radix` that takes the whole of
/// `s`.
pub fn parse_radix(s: &str, radix: Radix, max: u64) -> (r: Option<u64>)
    ensures
        match r {
            Some(value) => parse_radix_spec(s@, radix, max as int) == Some(value as int),
            None => parse_radix_spec(s@, radix, max as int) is None,
        },
{
    if !s.is_ascii() {
        proof {
            lemma_not_ascii_not_number(s@, radix, max as int);
        }
        return None;
    }
    let n = ascii_len(s);
    let start: usize = if n > 0 && ascii_at(s, 0) == '+' {
        1
    } else {
        0
    };
    match read_number(s, start, radix, max) {
        Some((value, end)) => if end == n {
            Some(value)
        } else {
            None
        },
        None => None,
    }
}

/// Reads an unsigned number in base 10 that takes the whole of `s`.
pub fn parse_unsigned(s: &str, max: u64) -> (r: Option<u64>)
    ensures
        match r {
            Some(value) => parse_unsigned_spec(s@, max as int) == Some(value as int),
            None => parse_unsigned_spec(s@, max as int) is None,
        },
{
    parse_radix(s, Radix::Decimal, max)
}

/// A text with a character outside ASCII spells no number.
pub(crate) proof fn lemma_not_ascii_not_number(s: Seq<char>, radix: Radix, max: int)
    requires
        !vstd::utf8::is_ascii_chars(s),
    ensures
        parse_radix_spec(s, radix, max) is None,
{
    let start: int = if s.len() > 0 && s[0] == '+' {
        1
    } else {
        0
    };
    let bad = choose|i: int| 0 <= i < s.len() && !('\0' <= #[trigger] s[i] <= '\u{7f}');
    lemma_digits_end_from(s, start, start, radix);
    let end = digits_end(s, start, radix);
    if end == s.len() {
        assert(is_radix_digit(s[bad], radix));
    }
}

/// The character that stands for the digit `d`.
pub(crate) fn digit_to_char(d: u8) -> (c: char)
    requires
        d < 16,
    ensures
        c == digit_char(d as int),
        is_hex_digit(c),
        d < 10 ==> is_digit(c),
        digit_value(c) == d,
{
    if d < 10 {
        (48u8 + d) as char
    } else {
        (97u8 + (d - 10)) as char
    }
}

/// Appends `n` in base 10 to `out`.
pub fn push_decimal(out: &mut String, n: u64)
    ensures
        final(out)@ == old(out)@ + decimal_text(n as nat),
    decreases n,
{
    if n >= 10 {
        push_decimal(out, n / 10);
    }
    out.push(digit_to_char((n % 10) as u8));
    proof {
        assert(out@ =~= old(out)@ + decimal_text(n as nat));
    }
}

/// Appends `n` in base 16 to `out`.
pub fn push_hex(out: &mut String, n: u16)
    ensures
        final(out)@ == old(out)@ + hex_text(n as nat),
    decreases n,
{
    if n >= 16 {
        push_hex(out, n / 16);
    }
    out.push(digit_to_char((n % 16) as u8));
    proof {
        assert(out@ =~= old(out)@ + hex_text(n as nat));
    }
}

} // verus!
