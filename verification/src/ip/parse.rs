//! The text of an IP address, read.
//!
//! The readers go through a text from left to right. Each takes as much as
//! it can: a number takes every digit that follows, and a run of groups
//! every group. The whole text must be taken for it to spell an address.

use crate::ip::{IpAddress, Ipv4Address, Ipv6Address};
use crate::text::{
    all_digits,
    ascii_at,
    ascii_len,
    digits_end,
    digits_value,
    is_radix_digit,
    lemma_digits_end_from,
    read_number,
    read_number_spec,
    Radix,
};
use vstd::prelude::*;
use vstd::string::*;

verus! {

/// Whether the character of `s` at `pos` is `c`.
pub open spec fn has_char(s: Seq<char>, pos: int, c: char) -> bool {
    0 <= pos < s.len() && s[pos] == c
}

/// An octet of an IPv4 address at `pos`: one to three decimal digits, with
/// no zero in front of another digit, that spell at most 255. The octet
/// takes every digit that follows.
pub open spec fn read_octet_spec(s: Seq<char>, pos: int) -> Option<(u8, int)> {
    let end = digits_end(s, pos, Radix::Decimal);
    let value = digits_value(s.subrange(pos, end), Radix::Decimal);
    if end == pos || end - pos > 3 || (end - pos > 1 && s[pos] == '0') || value > 255 {
        None
    } else {
        Some((value as u8, end))
    }
}

/// An octet at `pos`, after the dot that must stand at `dot`.
pub open spec fn read_dot_octet_spec(s: Seq<char>, dot: int) -> Option<(u8, int)> {
    if has_char(s, dot, '.') {
        read_octet_spec(s, dot + 1)
    } else {
        None
    }
}

/// An IPv4 address at `pos`: four octets with dots between them.
pub open spec fn read_ipv4_spec(s: Seq<char>, pos: int) -> Option<(Ipv4Address, int)> {
    match read_octet_spec(s, pos) {
        None => None,
        Some((a, p1)) => match read_dot_octet_spec(s, p1) {
            None => None,
            Some((b, p2)) => match read_dot_octet_spec(s, p2) {
                None => None,
                Some((c, p3)) => match read_dot_octet_spec(s, p3) {
                    None => None,
                    Some((d, p4)) => Some((Ipv4Address(a, b, c, d), p4)),
                },
            },
        },
    }
}

/// A group of an IPv6 address at `pos`: one to four digits of base 16, in
/// either case. The group takes every such digit that follows.
pub open spec fn read_group_spec(s: Seq<char>, pos: int) -> Option<(u16, int)> {
    let end = digits_end(s, pos, Radix::Hex);
    let value = digits_value(s.subrange(pos, end), Radix::Hex);
    if end == pos || end - pos > 4 {
        None
    } else {
        Some((value as u16, end))
    }
}

/// The two groups of an IPv6 address that an embedded IPv4 address fills.
pub open spec fn ipv4_groups(a: Ipv4Address) -> Seq<u16> {
    seq![(a.0 * 256 + a.1) as u16, (a.2 * 256 + a.3) as u16]
}

/// Where a group starts that is the `index`-th of its run and is looked
/// for at `pos`: the first group starts right there, every other one after
/// a colon.
pub open spec fn group_start(s: Seq<char>, pos: int, index: int) -> Option<int> {
    if index == 0 {
        Some(pos)
    } else if has_char(s, pos, ':') {
        Some(pos + 1)
    } else {
        None
    }
}

/// What stands where a group of an IPv6 address is looked for.
pub enum GroupStep {
    /// Nothing that continues the run.
    End,
    /// An IPv4 address, which ends the run, and where it ends.
    Embedded(Ipv4Address, int),
    /// A group, and where it ends.
    Group(u16, int),
}

/// What stands at `pos`, where the `index`-th group of a run of at most
/// `limit` is looked for. A group after the first needs a colon before it.
/// As long as two groups are still wanted, an IPv4 address is read in
/// place of a group if there is one.
pub open spec fn group_step_spec(s: Seq<char>, pos: int, index: int, limit: int) -> GroupStep {
    match group_start(s, pos, index) {
        None => GroupStep::End,
        Some(start) => {
            let embedded = if index < limit - 1 {
                read_ipv4_spec(s, start)
            } else {
                None
            };
            match embedded {
                Some((a, end)) => GroupStep::Embedded(a, end),
                None => match read_group_spec(s, start) {
                    None => GroupStep::End,
                    Some((group, end)) => GroupStep::Group(group, end),
                },
            }
        },
    }
}

/// A run of groups at `pos`, of which `index` have been read and at most
/// `limit` are taken: the groups, whether the run ends in an embedded IPv4
/// address, and where the run ends. The run takes every group that
/// follows.
pub open spec fn read_groups_spec(s: Seq<char>, pos: int, index: int, limit: int) -> (
    Seq<u16>,
    bool,
    int,
)
    decreases limit - index,
{
    if index >= limit {
        (Seq::empty(), false, pos)
    } else {
        match group_step_spec(s, pos, index, limit) {
            GroupStep::End => (Seq::empty(), false, pos),
            GroupStep::Embedded(a, end) => (ipv4_groups(a), true, end),
            GroupStep::Group(group, end) => {
                let rest = read_groups_spec(s, end, index + 1, limit);
                (seq![group] + rest.0, rest.1, rest.2)
            },
        }
    }
}

/// `n` groups of zero.
pub open spec fn zero_groups(n: int) -> Seq<u16> {
    Seq::new(n as nat, |i: int| 0u16)
}

/// An IPv6 address at `pos`: eight groups; or fewer, with one `::` among
/// them that stands for the groups of zero that are missing, at least one.
/// The last two groups may be written as an IPv4 address.
pub open spec fn read_ipv6_spec(s: Seq<char>, pos: int) -> Option<(Ipv6Address, int)> {
    let (head, embedded, mid) = read_groups_spec(s, pos, 0, 8);
    if head.len() == 8 {
        Some((Ipv6Address::from_segments(head), mid))
    } else if embedded || !has_char(s, mid, ':') || !has_char(s, mid + 1, ':') {
        None
    } else {
        let (tail, _, end) = read_groups_spec(s, mid + 2, 0, 7 - head.len());
        Some(
            (
                Ipv6Address::from_segments(head + zero_groups(8 - head.len() - tail.len()) + tail),
                end,
            ),
        )
    }
}

/// An IP address at `pos`, of either version.
pub open spec fn read_ip_spec(s: Seq<char>, pos: int) -> Option<(IpAddress, int)> {
    match read_ipv4_spec(s, pos) {
        Some((a, end)) => Some((IpAddress::V4(a), end)),
        None => match read_ipv6_spec(s, pos) {
            Some((a, end)) => Some((IpAddress::V6(a), end)),
            None => None,
        },
    }
}

/// The IP address that the whole of `s` spells.
pub open spec fn parse_ip_spec(s: Seq<char>) -> Option<IpAddress> {
    match read_ip_spec(s, 0) {
        Some((a, end)) => if end == s.len() {
            Some(a)
        } else {
            None
        },
        None => None,
    }
}

/// A port at `pos`: a colon and a decimal number of at most 65535, with
/// any number of digits.
pub open spec fn read_port_spec(s: Seq<char>, pos: int) -> Option<(u16, int)> {
    if has_char(s, pos, ':') {
        match read_number_spec(s, pos + 1, Radix::Decimal, 0xffff) {
            Some((port, end)) => Some((port as u16, end)),
            None => None,
        }
    } else {
        None
    }
}

/// Where the scope of an IPv6 address ends that may stand at `pos`: a
/// percent sign and a decimal number of at most 32 bits. Where there is
/// none, nothing is taken.
pub open spec fn skip_scope_spec(s: Seq<char>, pos: int) -> int {
    if has_char(s, pos, '%') {
        match read_number_spec(s, pos + 1, Radix::Decimal, 0xffff_ffff) {
            Some((_, end)) => end,
            None => pos,
        }
    } else {
        pos
    }
}

/// An IPv6 address in brackets at `pos`, with a port after it. A scope
/// inside the brackets is read and dropped.
pub open spec fn read_bracketed_spec(s: Seq<char>, pos: int) -> Option<(Ipv6Address, u16, int)> {
    if !has_char(s, pos, '[') {
        None
    } else {
        match read_ipv6_spec(s, pos + 1) {
            None => None,
            Some((a, p1)) => {
                let p2 = skip_scope_spec(s, p1);
                if !has_char(s, p2, ']') {
                    None
                } else {
                    match read_port_spec(s, p2 + 1) {
                        None => None,
                        Some((port, end)) => Some((a, port, end)),
                    }
                }
            },
        }
    }
}

/// An IPv4 address at `pos` with a port after it.
pub open spec fn read_ipv4_port_spec(s: Seq<char>, pos: int) -> Option<(Ipv4Address, u16, int)> {
    match read_ipv4_spec(s, pos) {
        None => None,
        Some((a, p1)) => match read_port_spec(s, p1) {
            None => None,
            Some((port, end)) => Some((a, port, end)),
        },
    }
}

/// The IP address and port that the whole of `s` spells: `1.2.3.4:5`, or
/// `[1::2]:3`.
pub open spec fn parse_ip_port_spec(s: Seq<char>) -> Option<(IpAddress, u16)> {
    match read_ipv4_port_spec(s, 0) {
        Some((a, port, end)) => if end == s.len() {
            Some((IpAddress::V4(a), port))
        } else {
            None
        },
        None => match read_bracketed_spec(s, 0) {
            Some((a, port, end)) => if end == s.len() {
                Some((IpAddress::V6(a), port))
            } else {
                None
            },
            None => None,
        },
    }
}

/// A run of `n` digits of base 16, `n` at most four, spells less than the
/// `n`-th power of 16.
proof fn lemma_hex_below(s: Seq<char>)
    requires
        all_digits(s, Radix::Hex),
        s.len() <= 4,
    ensures
        s.len() == 0 ==> digits_value(s, Radix::Hex) == 0,
        s.len() == 1 ==> digits_value(s, Radix::Hex) < 0x10,
        s.len() == 2 ==> digits_value(s, Radix::Hex) < 0x100,
        s.len() == 3 ==> digits_value(s, Radix::Hex) < 0x1000,
        s.len() == 4 ==> digits_value(s, Radix::Hex) < 0x10000,
        0 <= digits_value(s, Radix::Hex),
    decreases s.len(),
{
    if s.len() > 0 {
        lemma_hex_below(s.drop_last());
        assert(is_radix_digit(s[s.len() - 1], Radix::Hex));
    }
}

/// Reads an octet of an IPv4 address.
pub(crate) fn read_octet(s: &str, pos: usize) -> (r: Option<(u8, usize)>)
    requires
        s.is_ascii(),
        pos <= s@.len(),
    ensures
        match r {
            Some((value, end)) => read_octet_spec(s@, pos as int) == Some((value, end as int))
                && pos < end <= s@.len(),
            None => read_octet_spec(s@, pos as int) is None,
        },
{
    match read_number(s, pos, Radix::Decimal, 255) {
        None => None,
        Some((value, end)) => {
            if end - pos > 3 || (end - pos > 1 && ascii_at(s, pos) == '0') {
                None
            } else {
                Some((value as u8, end))
            }
        },
    }
}

/// Reads a dot and an octet of an IPv4 address.
fn read_dot_octet(s: &str, dot: usize) -> (r: Option<(u8, usize)>)
    requires
        s.is_ascii(),
        dot <= s@.len(),
    ensures
        match r {
            Some((value, end)) => read_dot_octet_spec(s@, dot as int) == Some((value, end as int))
                && dot < end <= s@.len(),
            None => read_dot_octet_spec(s@, dot as int) is None,
        },
{
    if dot < ascii_len(s) && ascii_at(s, dot) == '.' {
        read_octet(s, dot + 1)
    } else {
        None
    }
}

/// Reads an IPv4 address.
pub(crate) fn read_ipv4(s: &str, pos: usize) -> (r: Option<(Ipv4Address, usize)>)
    requires
        s.is_ascii(),
        pos <= s@.len(),
    ensures
        match r {
            Some((addr, end)) => read_ipv4_spec(s@, pos as int) == Some((addr, end as int)) && pos
                < end <= s@.len(),
            None => read_ipv4_spec(s@, pos as int) is None,
        },
{
    let (a, p1) = match read_octet(s, pos) {
        Some(found) => found,
        None => {
            return None;
        },
    };
    let (b, p2) = match read_dot_octet(s, p1) {
        Some(found) => found,
        None => {
            return None;
        },
    };
    let (c, p3) = match read_dot_octet(s, p2) {
        Some(found) => found,
        None => {
            return None;
        },
    };
    let (d, p4) = match read_dot_octet(s, p3) {
        Some(found) => found,
        None => {
            return None;
        },
    };
    Some((Ipv4Address(a, b, c, d), p4))
}

/// Reads a group of an IPv6 address.
pub(crate) fn read_group(s: &str, pos: usize) -> (r: Option<(u16, usize)>)
    requires
        s.is_ascii(),
        pos <= s@.len(),
    ensures
        match r {
            Some((value, end)) => read_group_spec(s@, pos as int) == Some((value, end as int))
                && pos < end <= s@.len(),
            None => read_group_spec(s@, pos as int) is None,
        },
{
    proof {
        lemma_digits_end_from(s@, pos as int, pos as int, Radix::Hex);
        let end = digits_end(s@, pos as int, Radix::Hex);
        let run = s@.subrange(pos as int, end);
        assert(all_digits(run, Radix::Hex));
        if end - pos <= 4 {
            lemma_hex_below(run);
        }
    }
    match read_number(s, pos, Radix::Hex, 0xffff) {
        None => None,
        Some((value, end)) => {
            if end - pos > 4 {
                None
            } else {
                Some((value as u16, end))
            }
        },
    }
}

/// What was found where a group of an IPv6 address was looked for.
enum FoundGroup {
    End,
    Embedded(Ipv4Address, usize),
    Group(u16, usize),
}

/// Reads what stands where a group of an IPv6 address is looked for.
fn read_group_step(s: &str, pos: usize, index: usize, limit: usize) -> (r: FoundGroup)
    requires
        s.is_ascii(),
        pos <= s@.len(),
        index < limit <= 8,
    ensures
        match r {
            FoundGroup::End => group_step_spec(s@, pos as int, index as int, limit as int)
                == GroupStep::End,
            FoundGroup::Embedded(a, end) => group_step_spec(
                s@,
                pos as int,
                index as int,
                limit as int,
            ) == GroupStep::Embedded(a, end as int) && pos < end <= s@.len(),
            FoundGroup::Group(group, end) => group_step_spec(
                s@,
                pos as int,
                index as int,
                limit as int,
            ) == GroupStep::Group(group, end as int) && pos < end <= s@.len(),
        },
{
    let start: usize = if index == 0 {
        pos
    } else if pos < ascii_len(s) && ascii_at(s, pos) == ':' {
        pos + 1
    } else {
        return FoundGroup::End;
    };
    if index < limit - 1 {
        if let Some((a, end)) = read_ipv4(s, start) {
            return FoundGroup::Embedded(a, end);
        }
    }
    match read_group(s, start) {
        None => FoundGroup::End,
        Some((group, end)) => FoundGroup::Group(group, end),
    }
}

/// Reads a run of groups of an IPv6 address and appends them to `groups`.
/// Returns whether the run ends in an embedded IPv4 address, and where it
/// ends.
#[verifier::rlimit(40)]
pub(crate) fn read_groups(
    s: &str,
    pos: usize,
    index: usize,
    limit: usize,
    groups: &mut Vec<u16>,
) -> (r: (bool, usize))
    requires
        s.is_ascii(),
        pos <= s@.len(),
        index <= limit <= 8,
    ensures
        ({
            let found = read_groups_spec(s@, pos as int, index as int, limit as int);
            &&& final(groups)@ == old(groups)@ + found.0
            &&& r.0 == found.1
            &&& r.1 == found.2
            &&& pos <= r.1 <= s@.len()
            &&& found.0.len() <= limit - index
        }),
    decreases limit - index,
{
    if index >= limit {
        proof {
            assert(groups@ =~= old(groups)@ + Seq::<u16>::empty());
        }
        return (false, pos);
    }
    match read_group_step(s, pos, index, limit) {
        FoundGroup::End => {
            proof {
                assert(groups@ =~= old(groups)@ + Seq::<u16>::empty());
            }
            (false, pos)
        },
        FoundGroup::Embedded(a, end) => {
            groups.push(a.0 as u16 * 256 + a.1 as u16);
            groups.push(a.2 as u16 * 256 + a.3 as u16);
            proof {
                assert(groups@ =~= old(groups)@ + ipv4_groups(a));
            }
            (true, end)
        },
        FoundGroup::Group(group, end) => {
            groups.push(group);
            let r = read_groups(s, end, index + 1, limit, groups);
            proof {
                let rest = read_groups_spec(s@, end as int, index + 1, limit as int);
                assert(groups@ =~= old(groups)@ + (seq![group] + rest.0));
            }
            r
        },
    }
}

/// The address with the eight segments of `groups`.
fn ipv6_from_groups(groups: &Vec<u16>) -> (r: Ipv6Address)
    requires
        groups@.len() == 8,
    ensures
        r == Ipv6Address::from_segments(groups@),
{
    Ipv6Address(
        groups[0],
        groups[1],
        groups[2],
        groups[3],
        groups[4],
        groups[5],
        groups[6],
        groups[7],
    )
}

/// Reads an IPv6 address.
pub(crate) fn read_ipv6(s: &str, pos: usize) -> (r: Option<(Ipv6Address, usize)>)
    requires
        s.is_ascii(),
        pos <= s@.len(),
    ensures
        match r {
            Some((addr, end)) => read_ipv6_spec(s@, pos as int) == Some((addr, end as int)) && pos
                <= end <= s@.len(),
            None => read_ipv6_spec(s@, pos as int) is None,
        },
{
    let n = ascii_len(s);
    let mut head: Vec<u16> = Vec::new();
    let (embedded, mid) = read_groups(s, pos, 0, 8, &mut head);
    proof {
        assert(head@ =~= read_groups_spec(s@, pos as int, 0, 8).0);
    }
    if head.len() == 8 {
        return Some((ipv6_from_groups(&head), mid));
    }
    if embedded || mid >= n || n - mid < 2 || ascii_at(s, mid) != ':' || ascii_at(s, mid + 1)
        != ':' {
        return None;
    }
    let mut tail: Vec<u16> = Vec::new();
    let (_, end) = read_groups(s, mid + 2, 0, 7 - head.len(), &mut tail);
    proof {
        assert(tail@ =~= read_groups_spec(s@, mid + 2, 0, 7 - head@.len()).0);
    }
    let mut all: Vec<u16> = Vec::new();
    let mut i: usize = 0;
    while i < 8
        invariant
            i <= 8,
            head@.len() + tail@.len() <= 7,
            all@.len() == i,
            forall|k: int|
                0 <= k < i ==> all@[k] == (head@ + zero_groups(8 - head@.len() - tail@.len())
                    + tail@)[k],
        decreases 8 - i,
    {
        let group: u16 = if i < head.len() {
            head[i]
        } else if i < 8 - tail.len() {
            0
        } else {
            tail[i - (8 - tail.len())]
        };
        all.push(group);
        i = i + 1;
    }
    proof {
        assert(all@ =~= head@ + zero_groups(8 - head@.len() - tail@.len()) + tail@);
    }
    Some((ipv6_from_groups(&all), end))
}

/// Reads the IP address that the whole of `s` spells.
pub fn parse_ip(s: &str) -> (r: Option<IpAddress>)
    ensures
        r == parse_ip_spec(s@),
{
    if !s.is_ascii() {
        proof {
            lemma_ip_text_is_ascii(s@);
        }
        return None;
    }
    let n = ascii_len(s);
    let (addr, end) = match read_ipv4(s, 0) {
        Some((a, end)) => (IpAddress::V4(a), end),
        None => match read_ipv6(s, 0) {
            Some((a, end)) => (IpAddress::V6(a), end),
            None => {
                return None;
            },
        },
    };
    if end == n {
        Some(addr)
    } else {
        None
    }
}

/// Reads a colon and a port.
pub(crate) fn read_port(s: &str, pos: usize) -> (r: Option<(u16, usize)>)
    requires
        s.is_ascii(),
        pos <= s@.len(),
    ensures
        match r {
            Some((port, end)) => read_port_spec(s@, pos as int) == Some((port, end as int)) && pos
                < end <= s@.len(),
            None => read_port_spec(s@, pos as int) is None,
        },
{
    if pos < ascii_len(s) && ascii_at(s, pos) == ':' {
        match read_number(s, pos + 1, Radix::Decimal, 0xffff) {
            Some((port, end)) => Some((port as u16, end)),
            None => None,
        }
    } else {
        None
    }
}

/// Skips the scope of an IPv6 address, if there is one.
fn skip_scope(s: &str, pos: usize) -> (end: usize)
    requires
        s.is_ascii(),
        pos <= s@.len(),
    ensures
        end == skip_scope_spec(s@, pos as int),
        pos <= end <= s@.len(),
{
    if pos < ascii_len(s) && ascii_at(s, pos) == '%' {
        match read_number(s, pos + 1, Radix::Decimal, 0xffff_ffff) {
            Some((_, end)) => end,
            None => pos,
        }
    } else {
        pos
    }
}

/// Reads an IPv6 address in brackets and the port after it.
fn read_bracketed(s: &str, pos: usize) -> (r: Option<(Ipv6Address, u16, usize)>)
    requires
        s.is_ascii(),
        pos <= s@.len(),
    ensures
        match r {
            Some((addr, port, end)) => read_bracketed_spec(s@, pos as int) == Some(
                (addr, port, end as int),
            ) && end <= s@.len(),
            None => read_bracketed_spec(s@, pos as int) is None,
        },
{
    let n = ascii_len(s);
    if !(pos < n && ascii_at(s, pos) == '[') {
        return None;
    }
    let (addr, p1) = match read_ipv6(s, pos + 1) {
        Some(found) => found,
        None => {
            return None;
        },
    };
    let p2 = skip_scope(s, p1);
    if !(p2 < n && ascii_at(s, p2) == ']') {
        return None;
    }
    match read_port(s, p2 + 1) {
        Some((port, end)) => Some((addr, port, end)),
        None => None,
    }
}

/// Reads the IP address and port that the whole of `s` spells.
pub fn parse_ip_port(s: &str) -> (r: Option<(IpAddress, u16)>)
    ensures
        r == parse_ip_port_spec(s@),
{
    if !s.is_ascii() {
        proof {
            lemma_ip_text_is_ascii(s@);
        }
        return None;
    }
    let n = ascii_len(s);
    let v4 = match read_ipv4(s, 0) {
        None => None,
        Some((a, p1)) => match read_port(s, p1) {
            None => None,
            Some((port, end)) => Some((a, port, end)),
        },
    };
    match v4 {
        Some((a, port, end)) => if end == n {
            Some((IpAddress::V4(a), port))
        } else {
            None
        },
        None => match read_bracketed(s, 0) {
            Some((a, port, end)) => if end == n {
                Some((IpAddress::V6(a), port))
            } else {
                None
            },
            None => None,
        },
    }
}

/// Where the reading that `found` stands for ended.
pub open spec fn end_of<T>(found: Option<(T, int)>) -> int {
    match found {
        Some((_, end)) => end,
        None => 0,
    }
}

/// Where the reading of an address and a port that `found` stands for
/// ended.
pub open spec fn end_with_port<T>(found: Option<(T, u16, int)>) -> int {
    match found {
        Some((_, _, end)) => end,
        None => 0,
    }
}

/// Whether the characters of `s` from `from` up to `to` are all ASCII.
pub open spec fn ascii_between(s: Seq<char>, from: int, to: int) -> bool {
    forall|i: int| from <= i < to ==> '\0' <= #[trigger] s[i] <= '\u{7f}'
}

/// A number is made of ASCII characters.
pub(crate) proof fn lemma_number_is_ascii(s: Seq<char>, pos: int, radix: Radix)
    requires
        0 <= pos <= s.len(),
    ensures
        pos <= digits_end(s, pos, radix) <= s.len(),
        ascii_between(s, pos, digits_end(s, pos, radix)),
{
    lemma_digits_end_from(s, pos, pos, radix);
    let end = digits_end(s, pos, radix);
    assert forall|i: int| pos <= i < end implies '\0' <= #[trigger] s[i] <= '\u{7f}' by {
        assert(is_radix_digit(s[i], radix));
    }
}

/// An octet after a dot is made of ASCII characters.
proof fn lemma_dot_octet_is_ascii(s: Seq<char>, dot: int)
    requires
        0 <= dot <= s.len(),
        read_dot_octet_spec(s, dot) is Some,
    ensures
        dot < end_of(read_dot_octet_spec(s, dot)) <= s.len(),
        ascii_between(s, dot, end_of(read_dot_octet_spec(s, dot))),
{
    lemma_number_is_ascii(s, dot + 1, Radix::Decimal);
}

/// An IPv4 address is made of ASCII characters.
pub(crate) proof fn lemma_ipv4_is_ascii(s: Seq<char>, pos: int)
    requires
        0 <= pos <= s.len(),
        read_ipv4_spec(s, pos) is Some,
    ensures
        pos <= end_of(read_ipv4_spec(s, pos)) <= s.len(),
        ascii_between(s, pos, end_of(read_ipv4_spec(s, pos))),
{
    lemma_number_is_ascii(s, pos, Radix::Decimal);
    let p1 = end_of(read_octet_spec(s, pos));
    lemma_dot_octet_is_ascii(s, p1);
    let p2 = end_of(read_dot_octet_spec(s, p1));
    lemma_dot_octet_is_ascii(s, p2);
    let p3 = end_of(read_dot_octet_spec(s, p2));
    lemma_dot_octet_is_ascii(s, p3);
}

/// A run of groups is made of ASCII characters, and holds no more groups
/// than were wanted.
pub(crate) proof fn lemma_groups_are_ascii(s: Seq<char>, pos: int, index: int, limit: int)
    requires
        0 <= pos <= s.len(),
        0 <= index <= limit,
    ensures
        pos <= read_groups_spec(s, pos, index, limit).2 <= s.len(),
        ascii_between(s, pos, read_groups_spec(s, pos, index, limit).2),
        read_groups_spec(s, pos, index, limit).0.len() <= limit - index,
    decreases limit - index,
{
    if index < limit {
        match group_step_spec(s, pos, index, limit) {
            GroupStep::End => {},
            GroupStep::Embedded(a, end) => {
                let start = group_start(s, pos, index)->0;
                lemma_ipv4_is_ascii(s, start);
            },
            GroupStep::Group(group, end) => {
                let start = group_start(s, pos, index)->0;
                lemma_number_is_ascii(s, start, Radix::Hex);
                lemma_groups_are_ascii(s, end, index + 1, limit);
            },
        }
    }
}

/// An IPv6 address is made of ASCII characters.
pub(crate) proof fn lemma_ipv6_is_ascii(s: Seq<char>, pos: int)
    requires
        0 <= pos <= s.len(),
        read_ipv6_spec(s, pos) is Some,
    ensures
        pos <= end_of(read_ipv6_spec(s, pos)) <= s.len(),
        ascii_between(s, pos, end_of(read_ipv6_spec(s, pos))),
{
    lemma_groups_are_ascii(s, pos, 0, 8);
    let (head, embedded, mid) = read_groups_spec(s, pos, 0, 8);
    if head.len() != 8 {
        lemma_groups_are_ascii(s, mid + 2, 0, 7 - head.len());
    }
}

/// A text that spells an IP address is made of ASCII characters.
#[verifier::rlimit(40)]
proof fn lemma_ip_is_ascii(s: Seq<char>)
    requires
        parse_ip_spec(s) is Some,
    ensures
        vstd::utf8::is_ascii_chars(s),
{
    let end = s.len() as int;
    if read_ipv4_spec(s, 0) is Some {
        lemma_ipv4_is_ascii(s, 0);
        assert(end_of(read_ipv4_spec(s, 0)) == end);
    } else {
        lemma_ipv6_is_ascii(s, 0);
        assert(end_of(read_ipv6_spec(s, 0)) == end);
    }
    assert(ascii_between(s, 0, end));
}

/// An IPv4 address with a port is made of ASCII characters.
proof fn lemma_ipv4_port_is_ascii(s: Seq<char>, pos: int)
    requires
        0 <= pos <= s.len(),
        read_ipv4_port_spec(s, pos) is Some,
    ensures
        ({
            let end = end_with_port(read_ipv4_port_spec(s, pos));
            pos <= end <= s.len() && ascii_between(s, pos, end)
        }),
{
    lemma_ipv4_is_ascii(s, pos);
    let p1 = end_of(read_ipv4_spec(s, pos));
    lemma_number_is_ascii(s, p1 + 1, Radix::Decimal);
}

/// An IPv6 address in brackets with a port is made of ASCII characters.
#[verifier::rlimit(40)]
proof fn lemma_bracketed_is_ascii(s: Seq<char>, pos: int)
    requires
        0 <= pos <= s.len(),
        read_bracketed_spec(s, pos) is Some,
    ensures
        ({
            let end = end_with_port(read_bracketed_spec(s, pos));
            pos <= end <= s.len() && ascii_between(s, pos, end)
        }),
{
    lemma_ipv6_is_ascii(s, pos + 1);
    let p1 = end_of(read_ipv6_spec(s, pos + 1));
    let p2 = skip_scope_spec(s, p1);
    if p2 != p1 {
        lemma_number_is_ascii(s, p1 + 1, Radix::Decimal);
    }
    lemma_number_is_ascii(s, p2 + 2, Radix::Decimal);
    let end = end_with_port(read_bracketed_spec(s, pos));
    assert forall|i: int| pos <= i < end implies '\0' <= #[trigger] s[i] <= '\u{7f}' by {
        if i == pos {
        } else if i < p1 {
        } else if i < p2 {
        } else if i == p2 {
        } else if i == p2 + 1 {
        } else {
        }
    }
}

/// A text that spells an IP address, with or without a port, is made of
/// ASCII characters.
pub proof fn lemma_ip_text_is_ascii(s: Seq<char>)
    ensures
        parse_ip_spec(s) is Some ==> vstd::utf8::is_ascii_chars(s),
        parse_ip_port_spec(s) is Some ==> vstd::utf8::is_ascii_chars(s),
{
    if parse_ip_spec(s) is Some {
        lemma_ip_is_ascii(s);
    }
    if parse_ip_port_spec(s) is Some {
        let end = s.len() as int;
        if read_ipv4_port_spec(s, 0) is Some {
            lemma_ipv4_port_is_ascii(s, 0);
        } else {
            lemma_bracketed_is_ascii(s, 0);
        }
        assert(ascii_between(s, 0, end));
    }
}

} // verus!
