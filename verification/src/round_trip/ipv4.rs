//! IPv4 addresses as they are written, read back.

use crate::ip::parse::{end_of, read_dot_octet_spec, read_ipv4_spec, read_octet_spec};
use crate::ip::text::ipv4_text;
use crate::ip::Ipv4Address;
use crate::round_trip::numbers::{
    is_lower_hex,
    lemma_decimal_text,
    lemma_decimal_text_is_unique,
    lemma_digits_end_text,
    lemma_text_at_split,
    number_stops,
    text_at,
};
use crate::text::{
    all_digits,
    decimal_text,
    digits_end,
    is_radix_digit,
    lemma_digits_end_from,
    Radix,
};
use vstd::prelude::*;

verus! {

/// An octet that stands in a text, with no digit after it, is read as
/// that octet.
pub(crate) proof fn lemma_read_octet_text(s: Seq<char>, pos: int, octet: u8)
    requires
        text_at(s, pos, decimal_text(octet as nat)),
        number_stops(s, pos + decimal_text(octet as nat).len(), Radix::Decimal),
    ensures
        read_octet_spec(s, pos) == Some((octet, pos + decimal_text(octet as nat).len())),
{
    let t = decimal_text(octet as nat);
    lemma_decimal_text(octet as nat);
    lemma_digits_end_text(s, pos, t, Radix::Decimal);
    assert(s[pos] == s.subrange(pos, pos + t.len())[0]);
}

/// An IPv4 address that stands in a text, with no digit after it, is read
/// as that address.
pub(crate) proof fn lemma_read_ipv4_text(s: Seq<char>, pos: int, a: Ipv4Address)
    requires
        text_at(s, pos, ipv4_text(a)),
        number_stops(s, pos + ipv4_text(a).len(), Radix::Decimal),
    ensures
        read_ipv4_spec(s, pos) == Some((a, pos + ipv4_text(a).len())),
{
    let t0 = decimal_text(a.0 as nat);
    let t1 = decimal_text(a.1 as nat);
    let t2 = decimal_text(a.2 as nat);
    let t3 = decimal_text(a.3 as nat);
    let dot = seq!['.'];
    lemma_decimal_text(a.0 as nat);
    lemma_decimal_text(a.1 as nat);
    lemma_decimal_text(a.2 as nat);
    lemma_decimal_text(a.3 as nat);
    let p1 = pos + t0.len();
    let p2 = p1 + 1 + t1.len();
    let p3 = p2 + 1 + t2.len();
    let p4 = p3 + 1 + t3.len();
    assert(ipv4_text(a) =~= t0 + (dot + (t1 + (dot + (t2 + (dot + t3))))));
    lemma_text_at_split(s, pos, t0, dot + (t1 + (dot + (t2 + (dot + t3)))));
    lemma_text_at_split(s, p1, dot, t1 + (dot + (t2 + (dot + t3))));
    lemma_text_at_split(s, p1 + 1, t1, dot + (t2 + (dot + t3)));
    lemma_text_at_split(s, p2, dot, t2 + (dot + t3));
    lemma_text_at_split(s, p2 + 1, t2, dot + t3);
    lemma_text_at_split(s, p3, dot, t3);
    assert(s[p1] == s.subrange(p1, p1 + 1)[0]);
    assert(s[p2] == s.subrange(p2, p2 + 1)[0]);
    assert(s[p3] == s.subrange(p3, p3 + 1)[0]);
    lemma_read_octet_text(s, pos, a.0);
    lemma_read_octet_text(s, p1 + 1, a.1);
    lemma_read_octet_text(s, p2 + 1, a.2);
    lemma_read_octet_text(s, p3 + 1, a.3);
    assert(read_dot_octet_spec(s, p1) == Some((a.1, p2)));
    assert(read_dot_octet_spec(s, p2) == Some((a.2, p3)));
    assert(read_dot_octet_spec(s, p3) == Some((a.3, p4)));
}

/// Whether `c` can stand in the text of an IP address.
pub open spec fn is_ip_char(c: char) -> bool {
    is_lower_hex(c) || c == ':' || c == '.'
}

/// The text of an IPv4 address is made of decimal digits and dots.
pub(crate) proof fn lemma_ipv4_chars(a: Ipv4Address)
    ensures
        forall|i: int| 0 <= i < ipv4_text(a).len() ==> is_ip_char(#[trigger] ipv4_text(a)[i]),
{
    let t0 = decimal_text(a.0 as nat);
    let t1 = decimal_text(a.1 as nat);
    let t2 = decimal_text(a.2 as nat);
    let t3 = decimal_text(a.3 as nat);
    lemma_decimal_text(a.0 as nat);
    lemma_decimal_text(a.1 as nat);
    lemma_decimal_text(a.2 as nat);
    lemma_decimal_text(a.3 as nat);
    let all = ipv4_text(a);
    let p1 = t0.len() as int;
    let p2 = p1 + 1 + t1.len();
    let p3 = p2 + 1 + t2.len();
    assert forall|i: int| 0 <= i < all.len() implies is_ip_char(#[trigger] all[i]) by {
        if i < p1 {
            assert(all[i] == t0[i]);
            assert(is_radix_digit(t0[i], Radix::Decimal));
        } else if p1 < i < p2 {
            assert(all[i] == t1[i - p1 - 1]);
            assert(is_radix_digit(t1[i - p1 - 1], Radix::Decimal));
        } else if p2 < i < p3 {
            assert(all[i] == t2[i - p2 - 1]);
            assert(is_radix_digit(t2[i - p2 - 1], Radix::Decimal));
        } else if p3 < i {
            assert(all[i] == t3[i - p3 - 1]);
            assert(is_radix_digit(t3[i - p3 - 1], Radix::Decimal));
        }
    }
}

/// What is read as an octet is the text of that octet.
pub(crate) proof fn lemma_octet_read_is_text(s: Seq<char>, pos: int)
    requires
        0 <= pos <= s.len(),
        read_octet_spec(s, pos) is Some,
    ensures
        ({
            let (octet, end) = read_octet_spec(s, pos)->0;
            &&& pos < end <= s.len()
            &&& s.subrange(pos, end) == decimal_text(octet as nat)
        }),
{
    lemma_digits_end_from(s, pos, pos, Radix::Decimal);
    let end = digits_end(s, pos, Radix::Decimal);
    let run = s.subrange(pos, end);
    assert(all_digits(run, Radix::Decimal));
    assert(run[0] == s[pos]);
    lemma_decimal_text_is_unique(run);
}

/// A part of a text is made of its two halves.
proof fn lemma_subrange_join(s: Seq<char>, from: int, mid: int, to: int)
    requires
        0 <= from <= mid <= to <= s.len(),
    ensures
        s.subrange(from, to) == s.subrange(from, mid) + s.subrange(mid, to),
{
    assert(s.subrange(from, to) =~= s.subrange(from, mid) + s.subrange(mid, to));
}

/// What is read as a dot and an octet is a dot and the text of that octet.
proof fn lemma_dot_octet_read_is_text(s: Seq<char>, dot: int)
    requires
        0 <= dot <= s.len(),
        read_dot_octet_spec(s, dot) is Some,
    ensures
        ({
            let (octet, end) = read_dot_octet_spec(s, dot)->0;
            &&& dot + 1 < end <= s.len()
            &&& s.subrange(dot, end) == seq!['.'] + decimal_text(octet as nat)
        }),
{
    let (octet, end) = read_dot_octet_spec(s, dot)->0;
    lemma_octet_read_is_text(s, dot + 1);
    lemma_subrange_join(s, dot, dot + 1, end);
    assert(s.subrange(dot, dot + 1) =~= seq!['.']);
}

/// What is read as an IPv4 address is the text of that address.
#[verifier::rlimit(40)]
pub(crate) proof fn lemma_ipv4_read_is_text(s: Seq<char>, pos: int)
    requires
        0 <= pos <= s.len(),
        read_ipv4_spec(s, pos) is Some,
    ensures
        ({
            let (a, end) = read_ipv4_spec(s, pos)->0;
            &&& pos < end <= s.len()
            &&& s.subrange(pos, end) == ipv4_text(a)
        }),
{
    let (a, end) = read_ipv4_spec(s, pos)->0;
    lemma_octet_read_is_text(s, pos);
    let p1 = end_of(read_octet_spec(s, pos));
    lemma_dot_octet_read_is_text(s, p1);
    let p2 = end_of(read_dot_octet_spec(s, p1));
    lemma_dot_octet_read_is_text(s, p2);
    let p3 = end_of(read_dot_octet_spec(s, p2));
    lemma_dot_octet_read_is_text(s, p3);
    assert(end == end_of(read_dot_octet_spec(s, p3)));
    lemma_subrange_join(s, pos, p1, end);
    lemma_subrange_join(s, p1, p2, end);
    lemma_subrange_join(s, p2, p3, end);
    let dot = seq!['.'];
    let t0 = decimal_text(a.0 as nat);
    let t1 = decimal_text(a.1 as nat);
    let t2 = decimal_text(a.2 as nat);
    let t3 = decimal_text(a.3 as nat);
    assert(ipv4_text(a) =~= t0 + ((dot + t1) + ((dot + t2) + (dot + t3))));
}

} // verus!
