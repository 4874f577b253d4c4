//! Numbers as they are written, read back.

use crate::text::{
    all_digits,
    decimal_text,
    digit_char,
    digit_value,
    digits_end,
    digits_value,
    hex_text,
    is_digit,
    is_hex_digit,
    is_radix_digit,
    lemma_digits_end_from,
    parse_unsigned_spec,
    read_number_spec,
    Radix,
};
use vstd::prelude::*;

verus! {

/// Whether `c` is a digit of base 16 in lower case.
pub open spec fn is_lower_hex(c: char) -> bool {
    is_digit(c) || 'a' <= c <= 'f'
}

/// Whether `s` holds the text `t` at `pos`.
pub open spec fn text_at(s: Seq<char>, pos: int, t: Seq<char>) -> bool {
    &&& 0 <= pos
    &&& pos + t.len() <= s.len()
    &&& s.subrange(pos, pos + t.len()) == t
}

/// Whether `s` ends at `pos`, or goes on with a character that is no digit
/// of the base `radix`.
pub open spec fn number_stops(s: Seq<char>, pos: int, radix: Radix) -> bool {
    pos == s.len() || (0 <= pos < s.len() && !is_radix_digit(s[pos], radix))
}

/// The character for a digit is that digit.
pub(crate) proof fn lemma_digit_char(d: int)
    requires
        0 <= d < 16,
    ensures
        is_lower_hex(digit_char(d)),
        is_hex_digit(digit_char(d)),
        digit_value(digit_char(d)) == d,
        d < 10 ==> is_digit(digit_char(d)),
        digit_char(d) != ':',
        digit_char(d) != '.',
        digit_char(d) != '+',
        digit_char(d) == 'f' <==> d == 15,
        digit_char(d) == 'd' <==> d == 13,
        digit_char(d) == '0' <==> d == 0,
{
}

/// A number written in base 10 is made of decimal digits and spells that
/// number; it starts with a zero only if it is zero; and a number below
/// 10, 100 or 1000 has at most one, two or three digits.
pub(crate) proof fn lemma_decimal_text(n: nat)
    ensures
        decimal_text(n).len() >= 1,
        all_digits(decimal_text(n), Radix::Decimal),
        digits_value(decimal_text(n), Radix::Decimal) == n,
        decimal_text(n).len() > 1 ==> decimal_text(n)[0] != '0',
        n < 10 ==> decimal_text(n).len() == 1,
        n < 100 ==> decimal_text(n).len() <= 2,
        n < 1000 ==> decimal_text(n).len() <= 3,
    decreases n,
{
    let t = decimal_text(n);
    lemma_digit_char((n % 10) as int);
    assert(digits_value(Seq::<char>::empty(), Radix::Decimal) == 0);
    if n < 10 {
        assert(t.drop_last() =~= Seq::<char>::empty());
    } else {
        let init = decimal_text(n / 10);
        lemma_decimal_text(n / 10);
        assert(t.drop_last() =~= init);
        assert(t[0] == init[0]);
        if init.len() == 1 {
            assert(init.drop_last() =~= Seq::<char>::empty());
            assert(digits_value(init, Radix::Decimal) == digit_value(init[0]));
        }
        assert forall|i: int| 0 <= i < t.len() implies is_radix_digit(
            #[trigger] t[i],
            Radix::Decimal,
        ) by {
            if i < init.len() {
                assert(t[i] == init[i]);
            }
        }
    }
}

/// A number written in base 16 is made of digits of base 16 in lower case
/// and spells that number; and a number below 16, 256, 4096 or 65536 has
/// at most one, two, three or four digits.
pub(crate) proof fn lemma_hex_text(n: nat)
    ensures
        hex_text(n).len() >= 1,
        all_digits(hex_text(n), Radix::Hex),
        forall|i: int| 0 <= i < hex_text(n).len() ==> is_lower_hex(#[trigger] hex_text(n)[i]),
        digits_value(hex_text(n), Radix::Hex) == n,
        n < 0x10 ==> hex_text(n).len() == 1,
        n < 0x100 ==> hex_text(n).len() <= 2,
        n < 0x1000 ==> hex_text(n).len() <= 3,
        n < 0x10000 ==> hex_text(n).len() <= 4,
    decreases n,
{
    let t = hex_text(n);
    lemma_digit_char((n % 16) as int);
    assert(digits_value(Seq::<char>::empty(), Radix::Hex) == 0);
    if n < 16 {
        assert(t.drop_last() =~= Seq::<char>::empty());
    } else {
        let init = hex_text(n / 16);
        lemma_hex_text(n / 16);
        assert(t.drop_last() =~= init);
        assert forall|i: int| 0 <= i < t.len() implies is_radix_digit(#[trigger] t[i], Radix::Hex)
            && is_lower_hex(t[i]) by {
            if i < init.len() {
                assert(t[i] == init[i]);
            }
        }
    }
}

/// A run of digits that stands in a text, with no digit after it, is the
/// longest run of digits at its place.
pub(crate) proof fn lemma_digits_end_text(s: Seq<char>, pos: int, t: Seq<char>, radix: Radix)
    requires
        text_at(s, pos, t),
        all_digits(t, radix),
        number_stops(s, pos + t.len(), radix),
    ensures
        digits_end(s, pos, radix) == pos + t.len(),
{
    assert forall|i: int| pos <= i < pos + t.len() implies is_radix_digit(
        #[trigger] s[i],
        radix,
    ) by {
        assert(s[i] == s.subrange(pos, pos + t.len())[i - pos]);
    }
    lemma_digits_end_from(s, pos, pos + t.len(), radix);
}

/// A number that stands in a text in base 10, with no digit after it, is
/// read as that number.
pub(crate) proof fn lemma_read_decimal_text(s: Seq<char>, pos: int, n: nat, max: int)
    requires
        text_at(s, pos, decimal_text(n)),
        number_stops(s, pos + decimal_text(n).len(), Radix::Decimal),
        n <= max,
    ensures
        read_number_spec(s, pos, Radix::Decimal, max) == Some(
            (n as int, pos + decimal_text(n).len()),
        ),
{
    lemma_decimal_text(n);
    lemma_digits_end_text(s, pos, decimal_text(n), Radix::Decimal);
}

/// A number written in base 10 reads back as that number.
pub(crate) proof fn lemma_parse_decimal_text(n: nat, max: int)
    requires
        n <= max,
    ensures
        parse_unsigned_spec(decimal_text(n), max) == Some(n as int),
{
    let t = decimal_text(n);
    lemma_decimal_text(n);
    assert(is_radix_digit(t[0], Radix::Decimal));
    assert(t.subrange(0, t.len() as int) =~= t);
    lemma_read_decimal_text(t, 0, n, max);
}

/// The text `a + b` holds `b` after `a`, and whatever `a` holds.
pub(crate) proof fn lemma_text_at_concat(a: Seq<char>, b: Seq<char>)
    ensures
        text_at(a + b, a.len() as int, b),
        text_at(a + b, 0, a),
        forall|pos: int, t: Seq<char>| #[trigger] text_at(a, pos, t) ==> text_at(a + b, pos, t),
{
    assert((a + b).subrange(a.len() as int, (a.len() + b.len()) as int) =~= b);
    assert((a + b).subrange(0, a.len() as int) =~= a);
    assert forall|pos: int, t: Seq<char>| #[trigger] text_at(a, pos, t) implies text_at(
        a + b,
        pos,
        t,
    ) by {
        assert((a + b).subrange(pos, pos + t.len()) =~= a.subrange(pos, pos + t.len()));
    }
}

/// A text that holds `a + b` at `pos` holds `a` there and `b` after it.
pub(crate) proof fn lemma_text_at_split(s: Seq<char>, pos: int, a: Seq<char>, b: Seq<char>)
    requires
        text_at(s, pos, a + b),
    ensures
        text_at(s, pos, a),
        text_at(s, pos + a.len(), b),
{
    let whole = s.subrange(pos, pos + (a + b).len());
    assert(s.subrange(pos, pos + a.len()) =~= whole.subrange(0, a.len() as int));
    assert((a + b).subrange(0, a.len() as int) =~= a);
    assert(s.subrange(pos + a.len(), pos + a.len() + b.len()) =~= whole.subrange(
        a.len() as int,
        (a.len() + b.len()) as int,
    ));
    assert((a + b).subrange(a.len() as int, (a.len() + b.len()) as int) =~= b);
}

/// A number has one text without leading zeros: decimal digits that do not
/// start with a zero, unless they are a single zero, are the text of the
/// number that they spell.
pub(crate) proof fn lemma_decimal_text_is_unique(t: Seq<char>)
    requires
        t.len() >= 1,
        all_digits(t, Radix::Decimal),
        t.len() > 1 ==> t[0] != '0',
    ensures
        digits_value(t, Radix::Decimal) >= 0,
        t == decimal_text(digits_value(t, Radix::Decimal) as nat),
    decreases t.len(),
{
    let value = digits_value(t, Radix::Decimal);
    let init = t.drop_last();
    let last = digit_value(t.last());
    assert(is_radix_digit(t[t.len() - 1], Radix::Decimal));
    lemma_digit_char(last);
    assert(digits_value(Seq::<char>::empty(), Radix::Decimal) == 0);
    if t.len() == 1 {
        assert(init =~= Seq::<char>::empty());
        assert(t =~= seq![t[0]]);
        assert(digit_char(last) == t[0]);
    } else {
        assert(is_radix_digit(init[0], Radix::Decimal));
        assert(forall|i: int| 0 <= i < init.len() ==> init[i] == t[i]);
        lemma_decimal_text_is_unique(init);
        let high = digits_value(init, Radix::Decimal);
        if init.len() == 1 {
            assert(init.drop_last() =~= Seq::<char>::empty());
            assert(high == digit_value(init[0]));
            lemma_digit_char(high);
        } else {
            lemma_decimal_text(high as nat);
        }
        assert(high >= 1);
        assert(value == high * 10 + last);
        assert(digit_char(last) == t.last());
        assert(t =~= init.push(t.last()));
    }
}

} // verus!
