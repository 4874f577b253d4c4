//! The text of an IP address, written.

use crate::ip::{IpAddress, Ipv4Address, Ipv6Address};
use crate::text::{decimal_text, hex_text, push_decimal, push_hex};
use vstd::prelude::*;

verus! {

/// An IPv4 address as text: its octets in base 10, with dots between them.
pub open spec fn ipv4_text(a: Ipv4Address) -> Seq<char> {
    decimal_text(a.0 as nat) + seq!['.'] + decimal_text(a.1 as nat) + seq!['.'] + decimal_text(
        a.2 as nat,
    ) + seq!['.'] + decimal_text(a.3 as nat)
}

/// The groups of `g` from `from` on as text, a colon before each.
pub open spec fn more_groups_text(g: Seq<u16>, from: int) -> Seq<char>
    decreases g.len() - from,
{
    if from < 0 || from >= g.len() {
        Seq::empty()
    } else {
        seq![':'] + hex_text(g[from] as nat) + more_groups_text(g, from + 1)
    }
}

/// Groups as text: each in base 16 without leading zeros, with colons
/// between them.
pub open spec fn groups_text(g: Seq<u16>) -> Seq<char> {
    if g.len() == 0 {
        Seq::empty()
    } else {
        hex_text(g[0] as nat) + more_groups_text(g, 1)
    }
}

/// Whether the `len` groups of `g` from `start` on are all zero.
pub open spec fn is_zero_run(g: Seq<u16>, start: int, len: int) -> bool {
    &&& 0 <= start
    &&& 0 <= len
    &&& start + len <= g.len()
    &&& forall|i: int| start <= i < start + len ==> g[i] == 0
}

/// Whether the `len` groups from `start` on are the longest run of zero
/// groups in `g`, and the first of that length.
pub open spec fn is_longest_zero_run(g: Seq<u16>, start: int, len: int) -> bool {
    &&& is_zero_run(g, start, len)
    &&& forall|s: int, l: int| #[trigger]
        is_zero_run(g, s, l) ==> l < len || (l == len && start <= s)
}

/// The first of the longest runs of zero groups in `g`: where it starts,
/// and how long it is.
pub open spec fn longest_zero_run(g: Seq<u16>) -> (int, int) {
    choose|r: (int, int)| is_longest_zero_run(g, r.0, r.1)
}

/// Whether the address stands for an IPv4 address: five groups of zero and
/// one of `ffff` come before the IPv4 address.
pub open spec fn is_ipv4_mapped(a: Ipv6Address) -> bool {
    a.0 == 0 && a.1 == 0 && a.2 == 0 && a.3 == 0 && a.4 == 0 && a.5 == 0xffff
}

/// The IPv4 address in the last two groups.
pub open spec fn embedded_ipv4(a: Ipv6Address) -> Ipv4Address {
    Ipv4Address((a.6 / 256) as u8, (a.6 % 256) as u8, (a.7 / 256) as u8, (a.7 % 256) as u8)
}

/// An IPv6 address as text. An address that stands for an IPv4 address is
/// written `::ffff:` and that address. In any other, the longest run of
/// two or more groups of zero, the first of them if there are several, is
/// written `::`; the other groups are written in base 16.
pub open spec fn ipv6_text(a: Ipv6Address) -> Seq<char> {
    if is_ipv4_mapped(a) {
        seq![':', ':', 'f', 'f', 'f', 'f', ':'] + ipv4_text(embedded_ipv4(a))
    } else {
        let g = a.segments();
        let (start, len) = longest_zero_run(g);
        if len > 1 {
            groups_text(g.subrange(0, start)) + seq![':', ':'] + groups_text(
                g.subrange(start + len, 8),
            )
        } else {
            groups_text(g)
        }
    }
}

/// An IP address as text.
pub open spec fn ip_text(a: IpAddress) -> Seq<char> {
    match a {
        IpAddress::V4(a) => ipv4_text(a),
        IpAddress::V6(a) => ipv6_text(a),
    }
}

/// An IP address and a port as text: `1.2.3.4:5`, or `[1::2]:3`.
pub open spec fn ip_port_text(a: IpAddress, port: u16) -> Seq<char> {
    match a {
        IpAddress::V4(a) => ipv4_text(a) + seq![':'] + decimal_text(port as nat),
        IpAddress::V6(a) => seq!['['] + ipv6_text(a) + seq![']', ':'] + decimal_text(port as nat),
    }
}

/// The longest run of zero groups is one, and there is no other.
pub(crate) proof fn lemma_longest_zero_run(g: Seq<u16>, start: int, len: int)
    requires
        is_longest_zero_run(g, start, len),
    ensures
        longest_zero_run(g) == (start, len),
{
    let r = longest_zero_run(g);
    assert(is_longest_zero_run(g, (start, len).0, (start, len).1));
    assert(is_longest_zero_run(g, r.0, r.1));
    assert(is_zero_run(g, start, len));
    assert(is_zero_run(g, r.0, r.1));
}

/// Appends an IPv4 address to `out`.
pub fn push_ipv4(out: &mut String, a: &Ipv4Address)
    ensures
        final(out)@ == old(out)@ + ipv4_text(*a),
{
    push_decimal(out, a.0 as u64);
    out.push('.');
    push_decimal(out, a.1 as u64);
    out.push('.');
    push_decimal(out, a.2 as u64);
    out.push('.');
    push_decimal(out, a.3 as u64);
    proof {
        assert(out@ =~= old(out)@ + ipv4_text(*a));
    }
}

/// Appends the groups of `a` from `from` up to `to` to `out`.
fn push_groups(out: &mut String, a: &Ipv6Address, from: usize, to: usize)
    requires
        from <= to <= 8,
    ensures
        final(out)@ == old(out)@ + groups_text(a.segments().subrange(from as int, to as int)),
{
    let ghost g = a.segments().subrange(from as int, to as int);
    if from >= to {
        proof {
            assert(out@ =~= old(out)@ + groups_text(g));
        }
        return ;
    }
    push_hex(out, a.segment(from));
    let mut i: usize = from + 1;
    while i < to
        invariant
            from < i <= to <= 8,
            g == a.segments().subrange(from as int, to as int),
            out@ + more_groups_text(g, i - from) == old(out)@ + groups_text(g),
        decreases to - i,
    {
        let ghost before = out@;
        out.push(':');
        push_hex(out, a.segment(i));
        proof {
            assert(out@ + more_groups_text(g, i + 1 - from) =~= before + more_groups_text(
                g,
                i - from,
            ));
        }
        i = i + 1;
    }
    proof {
        assert(out@ =~= out@ + more_groups_text(g, to - from));
    }
}

/// Finds the first of the longest runs of zero groups of `a`.
fn find_zero_run(a: &Ipv6Address) -> (r: (usize, usize))
    ensures
        is_longest_zero_run(a.segments(), r.0 as int, r.1 as int),
        r.0 + r.1 <= 8,
{
    let ghost g = a.segments();
    let mut longest_start: usize = 0;
    let mut longest_len: usize = 0;
    let mut current_start: usize = 0;
    let mut current_len: usize = 0;
    let mut i: usize = 0;
    while i < 8
        invariant
            i <= 8,
            g == a.segments(),
            is_zero_run(g, longest_start as int, longest_len as int),
            longest_start + longest_len <= i,
            longest_len == 0 ==> longest_start == 0,
            forall|s: int, l: int| #[trigger]
                is_zero_run(g, s, l) && s + l <= i ==> l < longest_len || (l == longest_len
                    && longest_start <= s),
            is_zero_run(g, current_start as int, current_len as int),
            current_len > 0 ==> current_start + current_len == i,
            current_len > 0 && current_start > 0 ==> g[current_start - 1] != 0,
            current_len == 0 && i > 0 ==> g[i - 1] != 0,
            current_len <= longest_len,
        decreases 8 - i,
    {
        if a.segment(i) == 0 {
            if current_len == 0 {
                current_start = i;
            }
            current_len = current_len + 1;
            if current_len > longest_len {
                longest_start = current_start;
                longest_len = current_len;
            }
        } else {
            current_start = 0;
            current_len = 0;
        }
        proof {
            assert forall|s: int, l: int| #[trigger]
                is_zero_run(g, s, l) && s + l <= i + 1 implies l < longest_len || (l
                == longest_len && longest_start <= s) by {
                if s + l <= i {
                } else if l > 0 {
                    assert(g[i as int] == 0);
                    if s < current_start {
                        assert(g[current_start - 1] == 0);
                    }
                }
            }
        }
        i = i + 1;
    }
    proof {
        assert forall|s: int, l: int| #[trigger] is_zero_run(g, s, l) implies l < longest_len || (l
            == longest_len && longest_start <= s) by {
            assert(s + l <= 8);
        }
    }
    (longest_start, longest_len)
}

/// Appends an IPv6 address to `out`.
#[verifier::rlimit(40)]
pub fn push_ipv6(out: &mut String, a: &Ipv6Address)
    ensures
        final(out)@ == old(out)@ + ipv6_text(*a),
{
    if a.0 == 0 && a.1 == 0 && a.2 == 0 && a.3 == 0 && a.4 == 0 && a.5 == 0xffff {
        out.push(':');
        out.push(':');
        out.push('f');
        out.push('f');
        out.push('f');
        out.push('f');
        out.push(':');
        let v4 = Ipv4Address(
            (a.6 / 256) as u8,
            (a.6 % 256) as u8,
            (a.7 / 256) as u8,
            (a.7 % 256) as u8,
        );
        push_ipv4(out, &v4);
        proof {
            assert(out@ =~= old(out)@ + ipv6_text(*a));
        }
        return ;
    }
    let (start, len) = find_zero_run(a);
    proof {
        lemma_longest_zero_run(a.segments(), start as int, len as int);
    }
    if len > 1 {
        push_groups(out, a, 0, start);
        out.push(':');
        out.push(':');
        push_groups(out, a, start + len, 8);
        proof {
            assert(out@ =~= old(out)@ + ipv6_text(*a));
        }
    } else {
        push_groups(out, a, 0, 8);
        proof {
            assert(a.segments().subrange(0, 8) =~= a.segments());
        }
    }
}

/// Appends an IP address to `out`.
pub fn push_ip(out: &mut String, a: &IpAddress)
    ensures
        final(out)@ == old(out)@ + ip_text(*a),
{
    match a {
        IpAddress::V4(a) => push_ipv4(out, a),
        IpAddress::V6(a) => push_ipv6(out, a),
    }
}

/// Appends an IP address and a port to `out`.
pub fn push_ip_port(out: &mut String, a: &IpAddress, port: u16)
    ensures
        final(out)@ == old(out)@ + ip_port_text(*a, port),
{
    match a {
        IpAddress::V4(a) => {
            push_ipv4(out, a);
            out.push(':');
            push_decimal(out, port as u64);
        },
        IpAddress::V6(a) => {
            out.push('[');
            push_ipv6(out, a);
            out.push(']');
            out.push(':');
            push_decimal(out, port as u64);
        },
    }
    proof {
        assert(out@ =~= old(out)@ + ip_port_text(*a, port));
    }
}

} // verus!
