//! The prefixes that tell the kinds of address apart.

use crate::addr::{
    fd_prefix,
    is_unix_prefix,
    socket_number_spec,
    socket_prefix,
    stdin_text,
    systemd_prefix,
};
use crate::round_trip::numbers::lemma_parse_decimal_text;
use crate::text::{decimal_text, is_digit};
use vstd::prelude::*;

verus! {

/// Whether a text starts with one of the prefixes of inherited sockets, and
/// whether it is `stdin`, character by character.
pub(crate) proof fn lemma_prefixes(s: Seq<char>)
    ensures
        s == stdin_text() <==> (s.len() == 5 && s[0] == 's' && s[1] == 't' && s[2] == 'd' && s[3]
            == 'i' && s[4] == 'n'),
        fd_prefix().is_prefix_of(s) <==> (s.len() >= 3 && s[0] == 'f' && s[1] == 'd' && s[2]
            == ':'),
        socket_prefix().is_prefix_of(s) <==> (s.len() >= 7 && s[0] == 's' && s[1] == 'o' && s[2]
            == 'c' && s[3] == 'k' && s[4] == 'e' && s[5] == 't' && s[6] == ':'),
        systemd_prefix().is_prefix_of(s) <==> (s.len() >= 8 && s[0] == 's' && s[1] == 'y' && s[2]
            == 's' && s[3] == 't' && s[4] == 'e' && s[5] == 'm' && s[6] == 'd' && s[7] == ':'),
{
    assert(s == stdin_text() <==> (s.len() == 5 && s[0] == 's' && s[1] == 't' && s[2] == 'd'
        && s[3] == 'i' && s[4] == 'n')) by {
        if s.len() == 5 && s[0] == 's' && s[1] == 't' && s[2] == 'd' && s[3] == 'i' && s[4] == 'n' {
            assert(s =~= stdin_text());
        }
    }
    assert(fd_prefix().is_prefix_of(s) <==> (s.len() >= 3 && s[0] == 'f' && s[1] == 'd' && s[2]
        == ':')) by {
        let p = fd_prefix();
        if p.is_prefix_of(s) {
            let head = s.subrange(0, 3);
            assert(head[0] == p[0] && head[1] == p[1] && head[2] == p[2]);
        }
        if s.len() >= 3 && s[0] == 'f' && s[1] == 'd' && s[2] == ':' {
            assert(p =~= s.subrange(0, 3));
        }
    }
    assert(socket_prefix().is_prefix_of(s) <==> (s.len() >= 7 && s[0] == 's' && s[1] == 'o' && s[2]
        == 'c' && s[3] == 'k' && s[4] == 'e' && s[5] == 't' && s[6] == ':')) by {
        let p = socket_prefix();
        if p.is_prefix_of(s) {
            let head = s.subrange(0, 7);
            assert(head[0] == p[0] && head[1] == p[1] && head[2] == p[2] && head[3] == p[3]
                && head[4] == p[4] && head[5] == p[5] && head[6] == p[6]);
        }
        if s.len() >= 7 && s[0] == 's' && s[1] == 'o' && s[2] == 'c' && s[3] == 'k' && s[4] == 'e'
            && s[5] == 't' && s[6] == ':' {
            assert(p =~= s.subrange(0, 7));
        }
    }
    assert(systemd_prefix().is_prefix_of(s) <==> (s.len() >= 8 && s[0] == 's' && s[1] == 'y'
        && s[2] == 's' && s[3] == 't' && s[4] == 'e' && s[5] == 'm' && s[6] == 'd' && s[7]
        == ':')) by {
        let p = systemd_prefix();
        if p.is_prefix_of(s) {
            let head = s.subrange(0, 8);
            assert(head[0] == p[0] && head[1] == p[1] && head[2] == p[2] && head[3] == p[3]
                && head[4] == p[4] && head[5] == p[5] && head[6] == p[6] && head[7] == p[7]);
        }
        if s.len() >= 8 && s[0] == 's' && s[1] == 'y' && s[2] == 's' && s[3] == 't' && s[4] == 'e'
            && s[5] == 'm' && s[6] == 'd' && s[7] == ':' {
            assert(p =~= s.subrange(0, 8));
        }
    }
}

/// A text that starts with a digit, a colon or a bracket is not `stdin`,
/// starts with none of the prefixes of inherited sockets, and not like a
/// path.
pub(crate) proof fn lemma_starts_like_ip(s: Seq<char>)
    requires
        s.len() > 0,
        is_digit(s[0]) || s[0] == ':' || s[0] == '[',
    ensures
        s != stdin_text(),
        !fd_prefix().is_prefix_of(s),
        !socket_prefix().is_prefix_of(s),
        !systemd_prefix().is_prefix_of(s),
        !is_unix_prefix(s),
{
    lemma_prefixes(s);
}

/// A text that starts like a path is not `stdin`, and starts with none of
/// the prefixes of inherited sockets.
pub(crate) proof fn lemma_starts_like_path(s: Seq<char>)
    requires
        is_unix_prefix(s),
    ensures
        s != stdin_text(),
        !fd_prefix().is_prefix_of(s),
        !socket_prefix().is_prefix_of(s),
        !systemd_prefix().is_prefix_of(s),
{
    lemma_prefixes(s);
}

/// A prefix of an inherited socket with a number after it reads back as
/// that number.
pub(crate) proof fn lemma_number_after_prefix(prefix: Seq<char>, socket: u64)
    ensures
        prefix.is_prefix_of(prefix + decimal_text(socket as nat)),
        socket_number_spec((prefix + decimal_text(socket as nat)).skip(prefix.len() as int))
            == Some(socket),
{
    let s = prefix + decimal_text(socket as nat);
    assert(s.subrange(0, prefix.len() as int) =~= prefix);
    assert(s.skip(prefix.len() as int) =~= decimal_text(socket as nat));
    lemma_parse_decimal_text(socket as nat, u64::MAX as int);
}

} // verus!
