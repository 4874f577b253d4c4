//! What is written for an address reads back as that address.

mod ipv4;
mod ipv6;
mod numbers;
mod prefixes;

use crate::addr::{
    fd_prefix,
    format_spec,
    is_unix_prefix,
    parse_spec,
    relative_prefix,
    socket_prefix,
    stdin_text,
    systemd_prefix,
    written_path,
    SocketAddrView,
};
use crate::errors::InvalidSocketAddrError;
use crate::ip::parse::{
    group_step_spec,
    parse_ip_spec,
    read_bracketed_spec,
    read_groups_spec,
    read_ipv6_spec,
    read_port_spec,
    skip_scope_spec,
    GroupStep,
};
use crate::ip::text::{ipv4_text, ipv6_text};
use crate::ip::{IpAddress, Ipv4Address, Ipv6Address};
use crate::options::Platform;
use crate::round_trip::ipv4::{is_ip_char, lemma_ipv4_read_is_text, lemma_read_ipv4_text};
use crate::round_trip::ipv6::{
    lemma_ipv6_chars,
    lemma_ipv6_first_group,
    lemma_nothing_to_read,
    lemma_read_ipv6_text,
};
use crate::round_trip::numbers::{
    lemma_decimal_text,
    lemma_read_decimal_text,
    lemma_text_at_concat,
    lemma_text_at_split,
};
use crate::round_trip::prefixes::{
    lemma_number_after_prefix,
    lemma_prefixes,
    lemma_starts_like_ip,
    lemma_starts_like_path,
};
use crate::text::{decimal_text, is_radix_digit, Radix};
use vstd::prelude::*;

verus! {

/// The address that the text of an address stands for: the same address,
/// with its path as it is written.
pub open spec fn written_addr(addr: SocketAddrView, platform: Platform) -> SocketAddrView {
    match addr {
        SocketAddrView::Unix { path } => SocketAddrView::Unix {
            path: written_path(path, platform),
        },
        _ => addr,
    }
}

/// Whether the text of an address is taken for an inherited socket: the
/// text of an IPv6 address without a port whose first group is `fd` starts
/// with `fd:`.
pub open spec fn reads_as_inherited(addr: SocketAddrView) -> bool {
    match addr {
        SocketAddrView::Ip { addr: IpAddress::V6(a), port: None } => a.0 == 0xfd,
        _ => false,
    }
}

/// What is written for an address reads back as that address. A path
/// reads back as it is written: with a dot and a separator before it, if
/// it did not start like a path. The one text that does not read back is
/// that of an IPv6 address without a port whose first group is `fd`: it
/// starts with `fd:`, like an inherited socket.
pub proof fn lemma_format_parses_back(addr: SocketAddrView, platform: Platform)
    requires
        !reads_as_inherited(addr),
    ensures
        parse_spec(format_spec(addr, platform)) == Ok::<SocketAddrView, InvalidSocketAddrError>(
            written_addr(addr, platform),
        ),
{
    match addr {
        SocketAddrView::Ip { addr: IpAddress::V4(a), port } => {
            lemma_ipv4_round_trip(a, port, platform);
        },
        SocketAddrView::Ip { addr: IpAddress::V6(a), port: None } => {
            lemma_ipv6_round_trip(a, platform);
        },
        SocketAddrView::Ip { addr: IpAddress::V6(a), port: Some(port) } => {
            lemma_ipv6_port_round_trip(a, port, platform);
        },
        SocketAddrView::Unix { path } => {
            lemma_path_round_trip(path, platform);
        },
        SocketAddrView::Inherit { socket } => {
            lemma_inherit_round_trip(socket, platform);
        },
        SocketAddrView::InheritStdin => {
            lemma_prefixes(stdin_text());
        },
        SocketAddrView::SystemdNumeric { socket } => {
            lemma_systemd_round_trip(socket, platform);
        },
    }
}

/// An IPv4 address has one text: a text spells an IPv4 address if and only
/// if it is the text that is written for that address.
pub proof fn lemma_ipv4_has_one_text(s: Seq<char>, a: Ipv4Address)
    ensures
        parse_ip_spec(s) == Some(IpAddress::V4(a)) <==> s == ipv4_text(a),
{
    if parse_ip_spec(s) == Some(IpAddress::V4(a)) {
        lemma_ipv4_read_is_text(s, 0);
        assert(s.subrange(0, s.len() as int) =~= s);
    }
    if s == ipv4_text(a) {
        assert(s.subrange(0, s.len() as int) =~= s);
        lemma_read_ipv4_text(s, 0, a);
    }
}

/// A path as it is written is written as it is: reading and writing an
/// address a second time changes nothing.
pub proof fn lemma_written_path_is_stable(path: Seq<char>, platform: Platform)
    ensures
        written_path(written_path(path, platform), platform) == written_path(path, platform),
{
    let s = written_path(path, platform);
    if !is_unix_prefix(path) {
        let prefix = relative_prefix(platform);
        assert(s =~= prefix + path);
        assert(s[0] == prefix[0]);
        assert(s[1] == prefix[1]);
    }
}

/// The text of a path reads back as the path as it is written.
#[verifier::rlimit(40)]
proof fn lemma_path_round_trip(path: Seq<char>, platform: Platform)
    ensures
        parse_spec(format_spec(SocketAddrView::Unix { path }, platform)) == Ok::<
            SocketAddrView,
            InvalidSocketAddrError,
        >(SocketAddrView::Unix { path: written_path(path, platform) }),
{
    let s = written_path(path, platform);
    assert(is_unix_prefix(s)) by {
        if !is_unix_prefix(path) {
            let prefix = relative_prefix(platform);
            assert(s =~= prefix + path);
            assert(s[0] == prefix[0]);
            assert(s[1] == prefix[1]);
        }
    }
    lemma_starts_like_path(s);
    assert(format_spec(SocketAddrView::Unix { path }, platform) == s);
}

/// A number after `fd:` reads back as the inherited socket of that number.
#[verifier::rlimit(40)]
proof fn lemma_fd_round_trip(socket: u64)
    ensures
        parse_spec(fd_prefix() + decimal_text(socket as nat)) == Ok::<
            SocketAddrView,
            InvalidSocketAddrError,
        >(SocketAddrView::Inherit { socket }),
{
    let s = fd_prefix() + decimal_text(socket as nat);
    lemma_prefixes(s);
    lemma_number_after_prefix(fd_prefix(), socket);
    assert(s[0] == fd_prefix()[0]);
}

/// A number after `socket:` reads back as the inherited socket of that
/// number.
#[verifier::rlimit(40)]
proof fn lemma_socket_round_trip(socket: u64)
    ensures
        parse_spec(socket_prefix() + decimal_text(socket as nat)) == Ok::<
            SocketAddrView,
            InvalidSocketAddrError,
        >(SocketAddrView::Inherit { socket }),
{
    let s = socket_prefix() + decimal_text(socket as nat);
    lemma_prefixes(s);
    lemma_number_after_prefix(socket_prefix(), socket);
    assert(s[0] == socket_prefix()[0]);
    assert(s[1] == socket_prefix()[1]);
}

/// The text of an inherited socket reads back as that socket.
proof fn lemma_inherit_round_trip(socket: u64, platform: Platform)
    ensures
        parse_spec(format_spec(SocketAddrView::Inherit { socket }, platform)) == Ok::<
            SocketAddrView,
            InvalidSocketAddrError,
        >(SocketAddrView::Inherit { socket }),
{
    if platform.handle_prefix_is_socket {
        lemma_socket_round_trip(socket);
    } else {
        lemma_fd_round_trip(socket);
    }
}

/// The text of a socket from socket activation reads back as that socket.
#[verifier::rlimit(40)]
proof fn lemma_systemd_round_trip(socket: u64, platform: Platform)
    ensures
        parse_spec(format_spec(SocketAddrView::SystemdNumeric { socket }, platform)) == Ok::<
            SocketAddrView,
            InvalidSocketAddrError,
        >(SocketAddrView::SystemdNumeric { socket }),
{
    let s = format_spec(SocketAddrView::SystemdNumeric { socket }, platform);
    lemma_prefixes(s);
    lemma_number_after_prefix(systemd_prefix(), socket);
    assert(s[0] == systemd_prefix()[0]);
    assert(s[1] == systemd_prefix()[1]);
}

/// The text of an IPv4 address, with or without a port, reads back as that
/// address and port.
proof fn lemma_ipv4_round_trip(a: Ipv4Address, port: Option<u16>, platform: Platform)
    ensures
        parse_spec(format_spec(SocketAddrView::Ip { addr: IpAddress::V4(a), port }, platform))
            == Ok::<SocketAddrView, InvalidSocketAddrError>(
            SocketAddrView::Ip { addr: IpAddress::V4(a), port },
        ),
{
    let s = format_spec(SocketAddrView::Ip { addr: IpAddress::V4(a), port }, platform);
    let t = ipv4_text(a);
    lemma_decimal_text(a.0 as nat);
    assert(t[0] == decimal_text(a.0 as nat)[0]);
    assert(is_radix_digit(t[0], Radix::Decimal));
    match port {
        None => {
            assert(s.subrange(0, s.len() as int) =~= s);
            lemma_starts_like_ip(s);
            lemma_read_ipv4_text(s, 0, a);
        },
        Some(port) => {
            let colon = seq![':'];
            let number = decimal_text(port as nat);
            assert(s =~= t + (colon + number));
            assert(s[0] == t[0]);
            lemma_starts_like_ip(s);
            let mid = t.len() as int;
            lemma_text_at_concat(t, colon + number);
            lemma_text_at_split(s, mid, colon, number);
            assert(s[mid] == s.subrange(mid, mid + 1)[0]);
            lemma_read_ipv4_text(s, 0, a);
            lemma_read_decimal_text(s, mid + 1, port as nat, 0xffff);
        },
    }
}

/// The text of an IPv6 address whose first group is not `fd` reads back as
/// that address.
proof fn lemma_ipv6_round_trip(a: Ipv6Address, platform: Platform)
    requires
        a.0 != 0xfd,
    ensures
        parse_spec(format_spec(SocketAddrView::Ip { addr: IpAddress::V6(a), port: None }, platform))
            == Ok::<SocketAddrView, InvalidSocketAddrError>(
            SocketAddrView::Ip { addr: IpAddress::V6(a), port: None },
        ),
{
    let s = ipv6_text(a);
    lemma_ipv6_chars(a);
    lemma_prefixes(s);
    if fd_prefix().is_prefix_of(s) {
        lemma_ipv6_first_group(a);
    }
    assert(!is_unix_prefix(s)) by {
        if s.len() >= 3 {
            assert(is_ip_char(s[2]));
        }
    }
    assert(s.subrange(0, s.len() as int) =~= s);
    lemma_read_ipv6_text(s, 0, a);
}

/// The text of an IPv6 address with a port reads back as that address and
/// port.
proof fn lemma_ipv6_port_round_trip(a: Ipv6Address, port: u16, platform: Platform)
    ensures
        parse_spec(
            format_spec(SocketAddrView::Ip { addr: IpAddress::V6(a), port: Some(port) }, platform),
        ) == Ok::<SocketAddrView, InvalidSocketAddrError>(
            SocketAddrView::Ip { addr: IpAddress::V6(a), port: Some(port) },
        ),
{
    let s = format_spec(SocketAddrView::Ip { addr: IpAddress::V6(a), port: Some(port) }, platform);
    let open = seq!['['];
    let close = seq![']', ':'];
    let t = ipv6_text(a);
    let number = decimal_text(port as nat);
    assert(s =~= open + (t + (close + number)));
    assert(s[0] == '[');
    lemma_starts_like_ip(s);
    lemma_nothing_to_read(s, 0);
    assert(group_step_spec(s, 0, 0, 8) == GroupStep::End);
    assert(read_groups_spec(s, 0, 0, 8) == (Seq::<u16>::empty(), false, 0int));
    assert(read_ipv6_spec(s, 0) is None);
    lemma_text_at_concat(open, t + (close + number));
    lemma_text_at_split(s, 1, t, close + number);
    let p1: int = t.len() as int + 1;
    lemma_text_at_split(s, p1, close, number);
    assert(s[p1] == s.subrange(p1, p1 + 2)[0]);
    assert(s[p1 + 1] == s.subrange(p1, p1 + 2)[1]);
    lemma_read_ipv6_text(s, 1, a);
    lemma_read_decimal_text(s, p1 + 2, port as nat, 0xffff);
    assert(skip_scope_spec(s, p1) == p1);
    assert(read_port_spec(s, p1 + 1) == Some((port, s.len() as int)));
    assert(read_bracketed_spec(s, 0) == Some((a, port, s.len() as int)));
}

} // verus!
