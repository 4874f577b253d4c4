//! IPv6 addresses as they are written, read back.

use crate::addr::fd_prefix;
use crate::ip::parse::{
    group_step_spec,
    has_char,
    ipv4_groups,
    read_group_spec,
    read_groups_spec,
    read_ipv4_spec,
    read_ipv6_spec,
    zero_groups,
    GroupStep,
};
use crate::ip::text::{
    embedded_ipv4,
    groups_text,
    ipv4_text,
    ipv6_text,
    is_ipv4_mapped,
    is_longest_zero_run,
    is_zero_run,
    longest_zero_run,
    more_groups_text,
};
use crate::ip::Ipv6Address;
use crate::round_trip::ipv4::{is_ip_char, lemma_ipv4_chars, lemma_read_ipv4_text};
use crate::round_trip::numbers::{
    is_lower_hex,
    lemma_digits_end_text,
    lemma_hex_text,
    lemma_text_at_split,
    number_stops,
    text_at,
};
use crate::round_trip::prefixes::lemma_prefixes;
use crate::text::{
    digits_end,
    digits_value,
    hex_text,
    is_hex_digit,
    is_radix_digit,
    lemma_digits_end_from,
    Radix,
};
use vstd::prelude::*;

verus! {

/// Whether a group of an IPv6 address that ends at `pos` ends there for
/// sure: the text ends, or goes on with a character that is neither a
/// digit of base 16 nor a dot.
pub open spec fn group_stops(s: Seq<char>, pos: int) -> bool {
    pos == s.len() || (0 <= pos < s.len() && !is_hex_digit(s[pos]) && s[pos] != '.')
}

/// Whether a run of groups that ends at `pos` with `count` groups, of at
/// most `limit`, ends there for sure: the run is full, or no colon
/// follows, or no group follows the colon.
pub open spec fn run_stops(s: Seq<char>, pos: int, count: int, limit: int) -> bool {
    &&& group_stops(s, pos)
    &&& count >= limit || !has_char(s, pos, ':') || number_stops(s, pos + 1, Radix::Hex)
}

/// Where nothing of a number stands, neither a group nor an IPv4 address
/// is read.
pub(crate) proof fn lemma_nothing_to_read(s: Seq<char>, pos: int)
    requires
        0 <= pos <= s.len(),
        number_stops(s, pos, Radix::Hex),
    ensures
        read_group_spec(s, pos) is None,
        read_ipv4_spec(s, pos) is None,
{
    if pos < s.len() {
        assert(!is_radix_digit(s[pos], Radix::Decimal));
    }
}

/// A group that stands in a text and ends there for sure is read as that
/// group, and not as the start of an IPv4 address.
pub(crate) proof fn lemma_read_group_text(s: Seq<char>, pos: int, group: u16)
    requires
        text_at(s, pos, hex_text(group as nat)),
        group_stops(s, pos + hex_text(group as nat).len()),
    ensures
        read_group_spec(s, pos) == Some((group, pos + hex_text(group as nat).len())),
        read_ipv4_spec(s, pos) is None,
{
    let t = hex_text(group as nat);
    let end = pos + t.len();
    lemma_hex_text(group as nat);
    lemma_digits_end_text(s, pos, t, Radix::Hex);
    lemma_digits_end_from(s, pos, pos, Radix::Decimal);
    let p1 = digits_end(s, pos, Radix::Decimal);
    if p1 > end {
        assert(is_radix_digit(s[end], Radix::Decimal));
    }
    if p1 < end {
        assert(s[p1] == s.subrange(pos, end)[p1 - pos]);
        assert(is_lower_hex(t[p1 - pos]));
    }
    assert(!has_char(s, p1, '.'));
}

/// More groups that stand in a text, a colon before each, are read as
/// those groups if the run ends after them for sure.
pub(crate) proof fn lemma_read_more_groups(
    s: Seq<char>,
    pos: int,
    g: Seq<u16>,
    from: int,
    index: int,
    limit: int,
)
    requires
        1 <= index,
        0 <= from <= g.len(),
        index + (g.len() - from) <= limit,
        text_at(s, pos, more_groups_text(g, from)),
        run_stops(s, pos + more_groups_text(g, from).len(), index + g.len() - from, limit),
    ensures
        read_groups_spec(s, pos, index, limit) == (
            g.subrange(from, g.len() as int),
            false,
            pos + more_groups_text(g, from).len(),
        ),
    decreases g.len() - from,
{
    if from == g.len() {
        assert(g.subrange(from, g.len() as int) =~= Seq::<u16>::empty());
        if index < limit {
            if has_char(s, pos, ':') {
                lemma_nothing_to_read(s, pos + 1);
            }
            assert(group_step_spec(s, pos, index, limit) == GroupStep::End);
        }
    } else {
        let colon = seq![':'];
        let t = hex_text(g[from] as nat);
        let rest = more_groups_text(g, from + 1);
        lemma_hex_text(g[from] as nat);
        assert(more_groups_text(g, from) =~= colon + (t + rest));
        lemma_text_at_split(s, pos, colon, t + rest);
        lemma_text_at_split(s, pos + 1, t, rest);
        assert(s[pos] == s.subrange(pos, pos + 1)[0]);
        let end = pos + 1 + t.len();
        if from + 1 < g.len() {
            let next = hex_text(g[from + 1] as nat);
            assert(rest =~= colon + (next + more_groups_text(g, from + 2)));
            assert(s[end] == s.subrange(end, end + rest.len())[0]);
        } else {
            assert(rest =~= Seq::<char>::empty());
        }
        lemma_read_group_text(s, pos + 1, g[from]);
        assert(group_step_spec(s, pos, index, limit) == GroupStep::Group(g[from], end));
        lemma_read_more_groups(s, end, g, from + 1, index + 1, limit);
        assert(seq![g[from]] + g.subrange(from + 1, g.len() as int) =~= g.subrange(
            from,
            g.len() as int,
        ));
    }
}

/// Groups that stand in a text, with colons between them, are read as
/// those groups if the run ends after them for sure.
pub(crate) proof fn lemma_read_groups_text(s: Seq<char>, pos: int, g: Seq<u16>, limit: int)
    requires
        g.len() <= limit,
        text_at(s, pos, groups_text(g)),
        run_stops(s, pos + groups_text(g).len(), g.len() as int, limit),
    ensures
        read_groups_spec(s, pos, 0, limit) == (g, false, pos + groups_text(g).len()),
{
    if g.len() == 0 {
        if 0 < limit {
            lemma_nothing_to_read(s, pos);
            assert(group_step_spec(s, pos, 0, limit) == GroupStep::End);
        }
        assert(g =~= Seq::<u16>::empty());
    } else {
        let t = hex_text(g[0] as nat);
        let rest = more_groups_text(g, 1);
        lemma_hex_text(g[0] as nat);
        lemma_text_at_split(s, pos, t, rest);
        let end = pos + t.len();
        if 1 < g.len() {
            let next = hex_text(g[1] as nat);
            assert(rest =~= seq![':'] + (next + more_groups_text(g, 2)));
            assert(s[end] == s.subrange(end, end + rest.len())[0]);
        } else {
            assert(rest =~= Seq::<char>::empty());
        }
        lemma_read_group_text(s, pos, g[0]);
        assert(group_step_spec(s, pos, 0, limit) == GroupStep::Group(g[0], end));
        lemma_read_more_groups(s, end, g, 1, 1, limit);
        assert(seq![g[0]] + g.subrange(1, g.len() as int) =~= g);
    }
}

/// Among the runs of zero groups there is a longest that comes first:
/// none is longer than `len`, and none of that length starts before
/// `start`.
pub(crate) proof fn lemma_longest_zero_run_exists(g: Seq<u16>, start: int, len: int)
    requires
        0 <= start,
        0 <= len,
        start + len <= g.len(),
        forall|s: int, l: int| #[trigger]
            is_zero_run(g, s, l) ==> l < len || (l == len && start <= s),
    ensures
        exists|r: (int, int)| is_longest_zero_run(g, r.0, r.1),
    decreases len, g.len() - start,
{
    if is_zero_run(g, start, len) {
        assert(is_longest_zero_run(g, (start, len).0, (start, len).1));
    } else if start + len < g.len() {
        lemma_longest_zero_run_exists(g, start + 1, len);
    } else {
        assert(len > 0);
        lemma_longest_zero_run_exists(g, 0, len - 1);
    }
}

/// The longest run of zero groups of an address is one.
pub(crate) proof fn lemma_longest_zero_run_is_one(g: Seq<u16>)
    ensures
        is_longest_zero_run(g, longest_zero_run(g).0, longest_zero_run(g).1),
{
    assert forall|s: int, l: int| #[trigger] is_zero_run(g, s, l) implies l < g.len() || (l
        == g.len() && 0 <= s) by {}
    lemma_longest_zero_run_exists(g, 0, g.len() as int);
}

/// Whether an IPv6 address that ends at `pos` ends there for sure: the
/// text ends, or goes on with a closing bracket.
pub open spec fn address_stops(s: Seq<char>, pos: int) -> bool {
    pos == s.len() || (0 <= pos < s.len() && s[pos] == ']')
}

/// Where groups stand in a text and end for sure, no IPv4 address is
/// read.
pub(crate) proof fn lemma_first_group(s: Seq<char>, pos: int, g: Seq<u16>)
    requires
        g.len() > 0,
        text_at(s, pos, groups_text(g)),
        group_stops(s, pos + groups_text(g).len()),
    ensures
        read_ipv4_spec(s, pos) is None,
        read_group_spec(s, pos) == Some((g[0], pos + hex_text(g[0] as nat).len())),
{
    let t = hex_text(g[0] as nat);
    let rest = more_groups_text(g, 1);
    lemma_hex_text(g[0] as nat);
    lemma_text_at_split(s, pos, t, rest);
    let end = pos + t.len();
    if 1 < g.len() {
        let next = hex_text(g[1] as nat);
        assert(rest =~= seq![':'] + (next + more_groups_text(g, 2)));
        assert(s[end] == s.subrange(end, end + rest.len())[0]);
    } else {
        assert(rest =~= Seq::<char>::empty());
    }
    lemma_read_group_text(s, pos, g[0]);
}

/// The text of an address that stands for an IPv4 address is read as that
/// address.
#[verifier::rlimit(40)]
pub(crate) proof fn lemma_read_mapped_text(s: Seq<char>, pos: int, a: Ipv6Address)
    requires
        is_ipv4_mapped(a),
        text_at(s, pos, ipv6_text(a)),
        address_stops(s, pos + ipv6_text(a).len()),
    ensures
        read_ipv6_spec(s, pos) == Some((a, pos + ipv6_text(a).len())),
        read_ipv4_spec(s, pos) is None,
{
    let g = a.segments();
    let text = ipv6_text(a);
    let end = pos + text.len();
    let elided = seq![':', ':'];
    let colon = seq![':'];
    let v4 = embedded_ipv4(a);
    let ffff = hex_text(0xffff);
    assert(ffff =~= seq!['f', 'f', 'f', 'f']) by {
        reveal_with_fuel(hex_text, 5);
    }
    assert(text =~= elided + (ffff + (colon + ipv4_text(v4))));
    lemma_text_at_split(s, pos, elided, ffff + (colon + ipv4_text(v4)));
    lemma_text_at_split(s, pos + 2, ffff, colon + ipv4_text(v4));
    lemma_text_at_split(s, pos + 6, colon, ipv4_text(v4));
    assert(s[pos] == s.subrange(pos, pos + 2)[0]);
    assert(s[pos + 1] == s.subrange(pos, pos + 2)[1]);
    assert(s[pos + 6] == s.subrange(pos + 6, pos + 7)[0]);
    // Nothing stands before the two colons.
    lemma_nothing_to_read(s, pos);
    assert(group_step_spec(s, pos, 0, 8) == GroupStep::End);
    assert(read_groups_spec(s, pos, 0, 8) == (Seq::<u16>::empty(), false, pos));
    // After them come `ffff` and the IPv4 address.
    lemma_read_group_text(s, pos + 2, 0xffff);
    assert(group_step_spec(s, pos + 2, 0, 7) == GroupStep::Group(0xffff, pos + 6));
    lemma_read_ipv4_text(s, pos + 7, v4);
    assert(group_step_spec(s, pos + 6, 1, 7) == GroupStep::Embedded(v4, end));
    let tail = seq![0xffffu16] + ipv4_groups(v4);
    assert(read_groups_spec(s, pos + 6, 1, 7) == (ipv4_groups(v4), true, end));
    assert(read_groups_spec(s, pos + 2, 0, 7) == (tail, true, end));
    let all = Seq::<u16>::empty() + zero_groups(8 - 0 - tail.len()) + tail;
    assert(all =~= g);
}

/// The text of eight groups, of which a run of zero groups is written as
/// two colons, is read as those groups.
#[verifier::rlimit(40)]
pub(crate) proof fn lemma_read_elided_text(
    s: Seq<char>,
    pos: int,
    g: Seq<u16>,
    start: int,
    len: int,
)
    requires
        g.len() == 8,
        len >= 1,
        is_zero_run(g, start, len),
        text_at(
            s,
            pos,
            groups_text(g.subrange(0, start)) + seq![':', ':'] + groups_text(
                g.subrange(start + len, 8),
            ),
        ),
        address_stops(
            s,
            pos + (groups_text(g.subrange(0, start)) + seq![':', ':'] + groups_text(
                g.subrange(start + len, 8),
            )).len(),
        ),
    ensures
        read_ipv6_spec(s, pos) == Some(
            (
                Ipv6Address::from_segments(g),
                pos + (groups_text(g.subrange(0, start)) + seq![':', ':'] + groups_text(
                    g.subrange(start + len, 8),
                )).len(),
            ),
        ),
        read_ipv4_spec(s, pos) is None,
{
    let elided = seq![':', ':'];
    let head = g.subrange(0, start);
    let tail = g.subrange(start + len, 8);
    let head_text = groups_text(head);
    let tail_text = groups_text(tail);
    let text = head_text + elided + tail_text;
    let end = pos + text.len();
    assert(text =~= head_text + (elided + tail_text));
    lemma_text_at_split(s, pos, head_text, elided + tail_text);
    let mid = pos + head_text.len();
    lemma_text_at_split(s, mid, elided, tail_text);
    assert(s[mid] == s.subrange(mid, mid + 2)[0]);
    assert(s[mid + 1] == s.subrange(mid, mid + 2)[1]);
    assert(run_stops(s, mid, start, 8));
    lemma_read_groups_text(s, pos, head, 8);
    assert(group_stops(s, end));
    assert(run_stops(s, end, tail.len() as int, 7 - start));
    lemma_read_groups_text(s, mid + 2, tail, 7 - start);
    let all = head + zero_groups(8 - head.len() - tail.len()) + tail;
    assert(all =~= g);
    if start == 0 {
        lemma_nothing_to_read(s, pos);
    } else {
        lemma_first_group(s, pos, head);
    }
}

/// The text of eight groups is read as those groups.
pub(crate) proof fn lemma_read_plain_text(s: Seq<char>, pos: int, g: Seq<u16>)
    requires
        g.len() == 8,
        text_at(s, pos, groups_text(g)),
        address_stops(s, pos + groups_text(g).len()),
    ensures
        read_ipv6_spec(s, pos) == Some(
            (Ipv6Address::from_segments(g), pos + groups_text(g).len()),
        ),
        read_ipv4_spec(s, pos) is None,
{
    let end = pos + groups_text(g).len();
    assert(group_stops(s, end));
    assert(run_stops(s, end, 8, 8));
    lemma_read_groups_text(s, pos, g, 8);
    lemma_first_group(s, pos, g);
}

/// An IPv6 address that stands in a text, before the end or a closing
/// bracket, is read as that address, and not as an IPv4 address.
pub(crate) proof fn lemma_read_ipv6_text(s: Seq<char>, pos: int, a: Ipv6Address)
    requires
        text_at(s, pos, ipv6_text(a)),
        address_stops(s, pos + ipv6_text(a).len()),
    ensures
        read_ipv6_spec(s, pos) == Some((a, pos + ipv6_text(a).len())),
        read_ipv4_spec(s, pos) is None,
{
    let g = a.segments();
    if is_ipv4_mapped(a) {
        lemma_read_mapped_text(s, pos, a);
    } else {
        lemma_longest_zero_run_is_one(g);
        let (start, len) = longest_zero_run(g);
        if len > 1 {
            lemma_read_elided_text(s, pos, g, start, len);
        } else {
            lemma_read_plain_text(s, pos, g);
        }
    }
}

/// The text of more groups is made of digits of base 16 and colons.
pub(crate) proof fn lemma_more_groups_chars(g: Seq<u16>, from: int)
    requires
        0 <= from,
    ensures
        forall|i: int|
            0 <= i < more_groups_text(g, from).len() ==> is_ip_char(
                #[trigger] more_groups_text(g, from)[i],
            ),
    decreases g.len() - from,
{
    if from < g.len() {
        let t = hex_text(g[from] as nat);
        let rest = more_groups_text(g, from + 1);
        lemma_hex_text(g[from] as nat);
        lemma_more_groups_chars(g, from + 1);
        let all = more_groups_text(g, from);
        assert(all =~= seq![':'] + t + rest);
        assert forall|i: int| 0 <= i < all.len() implies is_ip_char(#[trigger] all[i]) by {
            if 1 <= i < 1 + t.len() {
                assert(all[i] == t[i - 1]);
                assert(is_lower_hex(t[i - 1]));
            } else if i >= 1 + t.len() {
                assert(all[i] == rest[i - 1 - t.len()]);
            }
        }
    }
}

/// The text of groups is made of digits of base 16 and colons, and starts
/// with a digit.
pub(crate) proof fn lemma_groups_chars(g: Seq<u16>)
    ensures
        forall|i: int|
            0 <= i < groups_text(g).len() ==> is_ip_char(#[trigger] groups_text(g)[i]),
        g.len() > 0 ==> groups_text(g).len() > 0 && is_lower_hex(groups_text(g)[0]),
{
    if g.len() > 0 {
        let t = hex_text(g[0] as nat);
        let rest = more_groups_text(g, 1);
        lemma_hex_text(g[0] as nat);
        lemma_more_groups_chars(g, 1);
        let all = groups_text(g);
        assert(is_lower_hex(t[0]));
        assert(all[0] == t[0]);
        assert forall|i: int| 0 <= i < all.len() implies is_ip_char(#[trigger] all[i]) by {
            if i < t.len() {
                assert(all[i] == t[i]);
                assert(is_lower_hex(t[i]));
            } else {
                assert(all[i] == rest[i - t.len()]);
            }
        }
    }
}

/// The text of an IPv6 address is made of digits of base 16, colons and
/// dots, and starts with a digit or a colon.
pub(crate) proof fn lemma_ipv6_chars(a: Ipv6Address)
    ensures
        ipv6_text(a).len() > 0,
        is_lower_hex(ipv6_text(a)[0]) || ipv6_text(a)[0] == ':',
        forall|i: int| 0 <= i < ipv6_text(a).len() ==> is_ip_char(#[trigger] ipv6_text(a)[i]),
{
    let g = a.segments();
    let all = ipv6_text(a);
    if is_ipv4_mapped(a) {
        let start = seq![':', ':', 'f', 'f', 'f', 'f', ':'];
        let rest = ipv4_text(embedded_ipv4(a));
        lemma_ipv4_chars(embedded_ipv4(a));
        assert(all[0] == start[0]);
        assert forall|i: int| 0 <= i < all.len() implies is_ip_char(#[trigger] all[i]) by {
            if i < 7 {
                assert(all[i] == start[i]);
            } else {
                assert(all[i] == rest[i - 7]);
            }
        }
    } else {
        lemma_longest_zero_run_is_one(g);
        let (start, len) = longest_zero_run(g);
        if len > 1 {
            let head = groups_text(g.subrange(0, start));
            let tail = groups_text(g.subrange(start + len, 8));
            lemma_groups_chars(g.subrange(0, start));
            lemma_groups_chars(g.subrange(start + len, 8));
            let elided = seq![':', ':'];
            assert(all =~= head + elided + tail);
            if head.len() > 0 {
                assert(all[0] == head[0]);
            } else {
                assert(all[0] == elided[0]);
            }
            assert forall|i: int| 0 <= i < all.len() implies is_ip_char(#[trigger] all[i]) by {
                if i < head.len() {
                    assert(all[i] == head[i]);
                } else if i < head.len() + 2 {
                    assert(all[i] == elided[i - head.len()]);
                } else {
                    assert(all[i] == tail[i - head.len() - 2]);
                }
            }
        } else {
            lemma_groups_chars(g);
        }
    }
}

/// A text that starts with `fd:` starts with the group `fd`.
pub(crate) proof fn lemma_fd_is_a_group(s: Seq<char>)
    requires
        fd_prefix().is_prefix_of(s),
    ensures
        read_group_spec(s, 0) == Some((0xfdu16, 2int)),
{
    lemma_prefixes(s);
    lemma_digits_end_from(s, 0, 2, Radix::Hex);
    let run = s.subrange(0, 2);
    assert(run.drop_last() =~= seq!['f']);
    assert(seq!['f'].drop_last() =~= Seq::<char>::empty());
    assert(digits_value(Seq::<char>::empty(), Radix::Hex) == 0);
    assert(digits_value(seq!['f'], Radix::Hex) == 15);
    assert(digits_value(run, Radix::Hex) == 0xfd);
}

/// The text of an IPv6 address starts with `fd:` only if the first group
/// of the address is `fd`.
#[verifier::rlimit(40)]
pub(crate) proof fn lemma_ipv6_first_group(a: Ipv6Address)
    requires
        fd_prefix().is_prefix_of(ipv6_text(a)),
    ensures
        a.0 == 0xfd,
{
    let s = ipv6_text(a);
    let g = a.segments();
    lemma_prefixes(s);
    lemma_fd_is_a_group(s);
    assert(s.subrange(0, s.len() as int) =~= s);
    if is_ipv4_mapped(a) {
        assert(s[0] == seq![':', ':', 'f', 'f', 'f', 'f', ':'][0]);
    } else {
        lemma_longest_zero_run_is_one(g);
        let (start, len) = longest_zero_run(g);
        if len > 1 {
            let head = g.subrange(0, start);
            let head_text = groups_text(head);
            let elided = seq![':', ':'];
            let tail_text = groups_text(g.subrange(start + len, 8));
            assert(s =~= head_text + (elided + tail_text));
            if start == 0 {
                assert(s[0] == elided[0]);
            } else {
                lemma_text_at_split(s, 0, head_text, elided + tail_text);
                lemma_text_at_split(s, head_text.len() as int, elided, tail_text);
                let mid = head_text.len() as int;
                assert(s[mid] == s.subrange(mid, mid + 2)[0]);
                lemma_first_group(s, 0, head);
            }
        } else {
            lemma_first_group(s, 0, g);
        }
    }
}

} // verus!
