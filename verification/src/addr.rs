//! The address of a socket, or the description of an inherited one.

use crate::errors::{
    AddrParseError,
    CleanupSocketError,
    InvalidSocketAddrError,
    IoError,
    IoErrorKind,
};
use crate::ip::parse::{has_char, parse_ip, parse_ip_port, parse_ip_port_spec, parse_ip_spec};
use crate::ip::text::{ip_port_text, ip_text, push_ip, push_ip_port};
use crate::ip::{IpAddress, Ipv4Address, Ipv6Address};
use crate::options::{Platform, RawSocket};
use crate::text::{decimal_text, parse_unsigned, parse_unsigned_spec, push_decimal};
use vstd::prelude::*;
use vstd::std_specs::convert::FromSpecImpl;
use vstd::string::*;

verus! {

/// The address to bind a socket to, or a description of an inherited socket
/// to use.
#[derive(Clone, Debug, PartialEq, Eq, Hash, PartialOrd, Ord)]
pub enum SocketAddr {
    /// An Internet (IPv4 or IPv6) socket address. Without a port, the
    /// application's default port is used.
    Ip {
        /// The IP address.
        addr: IpAddress,
        /// The port, if any.
        port: Option<u16>,
    },
    /// A Unix-domain socket at the given path.
    Unix {
        /// The path to the socket.
        path: String,
    },
    /// An existing socket inherited from the parent process.
    Inherit {
        /// The socket's file descriptor number or handle.
        socket: RawSocket,
    },
    /// An existing socket inherited from the parent process, as the
    /// standard input.
    InheritStdin,
    /// An existing socket inherited through socket activation.
    SystemdNumeric {
        /// The socket's file descriptor number.
        socket: RawSocket,
    },
}

/// What a `SocketAddr` stands for: the same, with the path as the sequence
/// of its characters.
pub enum SocketAddrView {
    Ip { addr: IpAddress, port: Option<u16> },
    Unix { path: Seq<char> },
    Inherit { socket: RawSocket },
    InheritStdin,
    SystemdNumeric { socket: RawSocket },
}

impl View for SocketAddr {
    type V = SocketAddrView;

    open spec fn view(&self) -> SocketAddrView {
        match self {
            SocketAddr::Ip { addr, port } => SocketAddrView::Ip { addr: *addr, port: *port },
            SocketAddr::Unix { path } => SocketAddrView::Unix { path: path@ },
            SocketAddr::Inherit { socket } => SocketAddrView::Inherit { socket: *socket },
            SocketAddr::InheritStdin => SocketAddrView::InheritStdin,
            SocketAddr::SystemdNumeric { socket } => SocketAddrView::SystemdNumeric {
                socket: *socket,
            },
        }
    }
}

impl SocketAddr {
    /// Whether this is one of the inherited variants.
    pub fn is_inherited(&self) -> (r: bool)
        ensures
            r == (self is Inherit || self is InheritStdin || self is SystemdNumeric),
    {
        match self {
            SocketAddr::Inherit { .. } | SocketAddr::InheritStdin => true,
            SocketAddr::SystemdNumeric { .. } => true,
            _ => false,
        }
    }

    /// Starts the deletion of the indicated path-based Unix-domain socket,
    /// if applicable: an address with a path has the file at the path
    /// checked, and for any other address nothing is to be done.
    pub fn cleanup(&self) -> (r: CleanupAction)
        ensures
            r == (if self is Unix {
                CleanupAction::Check
            } else {
                CleanupAction::Done
            }),
    {
        match self {
            SocketAddr::Unix { .. } => CleanupAction::Check,
            _ => CleanupAction::Done,
        }
    }

    /// Resolves a relative path in this address against the folder
    /// `base_dir`.
    pub fn resolve_base_dir(&mut self, base_dir: &str)
        ensures
            final(self)@ == resolve_base_dir_spec(old(self)@, base_dir@),
    {
        let resolved: Option<String> = match self {
            SocketAddr::Unix { path } => if is_absolute(path.as_str()) {
                None
            } else {
                Some(join(base_dir, path.as_str()))
            },
            _ => None,
        };
        if let Some(path) = resolved {
            *self = SocketAddr::Unix { path };
        }
    }

    /// A new `SocketAddr::Inherit` with the given socket.
    pub fn new_inherit(socket: RawSocket) -> (r: SocketAddr)
        ensures
            r == (SocketAddr::Inherit { socket }),
    {
        SocketAddr::Inherit { socket }
    }

    /// A new `SocketAddr::InheritStdin`.
    pub fn new_inherit_stdin() -> (r: SocketAddr)
        ensures
            r == SocketAddr::InheritStdin,
    {
        SocketAddr::InheritStdin
    }

    /// A new `SocketAddr::SystemdNumeric` with the given descriptor number.
    pub fn new_systemd_numeric(socket: RawSocket) -> (r: SocketAddr)
        ensures
            r == (SocketAddr::SystemdNumeric { socket }),
    {
        SocketAddr::SystemdNumeric { socket }
    }
}

/// What is to be done next about a stale socket.
#[derive(Clone, Copy, Debug, PartialEq, Eq, Structural)]
pub enum CleanupAction {
    /// Find out whether the file at the path is a Unix-domain socket, and
    /// report the answer to `cleanup_checked`.
    Check,
    /// Remove the file at the path, and report to `cleanup_removed`.
    Remove,
    /// Nothing is left to do.
    Done,
    /// The cleanup has failed.
    Fail(CleanupSocketError),
}

/// What follows the check for a stale socket. A socket is removed; any
/// other file is left alone; that there is no file is no error.
pub open spec fn cleanup_checked_spec(is_unix_socket: Result<bool, IoError>) -> CleanupAction {
    match is_unix_socket {
        Ok(true) => CleanupAction::Remove,
        Ok(false) => CleanupAction::Done,
        Err(error) => if error.kind == IoErrorKind::NotFound {
            CleanupAction::Done
        } else {
            CleanupAction::Fail(CleanupSocketError::Stat { error })
        },
    }
}

/// What follows the removal of a stale socket. That the file is gone
/// already is no error.
pub open spec fn cleanup_removed_spec(removed: Result<(), IoError>) -> CleanupAction {
    match removed {
        Ok(()) => CleanupAction::Done,
        Err(error) => if error.kind == IoErrorKind::NotFound {
            CleanupAction::Done
        } else {
            CleanupAction::Fail(CleanupSocketError::Unlink { error })
        },
    }
}

/// Decides what follows the check for a stale socket, whose answer is
/// whether the file at the path is a Unix-domain socket.
///
/// The check and the removal are two steps: a socket that is replaced by
/// another file between them is removed all the same. Nothing checks
/// whether the socket is still in use.
pub fn cleanup_checked(is_unix_socket: Result<bool, IoError>) -> (r: CleanupAction)
    ensures
        r == cleanup_checked_spec(is_unix_socket),
{
    match is_unix_socket {
        Ok(true) => CleanupAction::Remove,
        Ok(false) => CleanupAction::Done,
        Err(error) => if error.is_not_found() {
            CleanupAction::Done
        } else {
            CleanupAction::Fail(CleanupSocketError::Stat { error })
        },
    }
}

/// Decides what follows the removal of a stale socket.
pub fn cleanup_removed(removed: Result<(), IoError>) -> (r: CleanupAction)
    ensures
        r == cleanup_removed_spec(removed),
{
    match removed {
        Ok(()) => CleanupAction::Done,
        Err(error) => if error.is_not_found() {
            CleanupAction::Done
        } else {
            CleanupAction::Fail(CleanupSocketError::Unlink { error })
        },
    }
}

impl Default for SocketAddr {
    /// The IPv4 address 127.0.0.1, with no port specified.
    fn default() -> (r: SocketAddr)
        ensures
            r == (SocketAddr::Ip { addr: IpAddress::V4(Ipv4Address(127, 0, 0, 1)), port: None }),
    {
        SocketAddr::Ip { addr: IpAddress::V4(Ipv4Address(127, 0, 0, 1)), port: None }
    }
}

/// Whether a path is absolute: on Unix-like platforms, whether it starts
/// with the root, `/`.
pub open spec fn path_is_absolute(path: Seq<char>) -> bool {
    has_char(path, 0, '/')
}

/// A path joined to a base folder, as `std::path::Path::join` joins them.
pub uninterp spec fn path_join(base: Seq<char>, path: Seq<char>) -> Seq<char>;

/// `std::path::Path::is_absolute`: whether the path is absolute, that is,
/// independent of the current folder. On Unix-like platforms a path is
/// absolute if it starts with the root.
#[verifier::external_body]
fn is_absolute(path: &str) -> (r: bool)
    ensures
        r == path_is_absolute(path@),
{
    std::path::Path::new(path).is_absolute()
}

/// `std::path::Path::join`: the path `path` adjoined to `base`. The result
/// is a function of the two paths; it is given a name, and nothing more is
/// said of it.
#[verifier::external_body]
fn join(base: &str, path: &str) -> (r: String)
    ensures
        r@ == path_join(base@, path@),
{
    std::path::Path::new(base).join(path).to_string_lossy().into_owned()
}

/// The address with its path resolved against `base_dir`: a relative path
/// is joined to the folder; an absolute path, and any address without a
/// path, stays as it is.
pub open spec fn resolve_base_dir_spec(
    addr: SocketAddrView,
    base_dir: Seq<char>,
) -> SocketAddrView {
    match addr {
        SocketAddrView::Unix { path } => if path_is_absolute(path) {
            addr
        } else {
            SocketAddrView::Unix { path: path_join(base_dir, path) }
        },
        _ => addr,
    }
}

/// The text that stands for the standard input.
pub open spec fn stdin_text() -> Seq<char> {
    seq!['s', 't', 'd', 'i', 'n']
}

/// The prefix of an inherited socket, as written where sockets are file
/// descriptors.
pub open spec fn fd_prefix() -> Seq<char> {
    seq!['f', 'd', ':']
}

/// The prefix of an inherited socket, as written where sockets are
/// handles.
pub open spec fn socket_prefix() -> Seq<char> {
    seq!['s', 'o', 'c', 'k', 'e', 't', ':']
}

/// The prefix of a socket from socket activation.
pub open spec fn systemd_prefix() -> Seq<char> {
    seq!['s', 'y', 's', 't', 'e', 'm', 'd', ':']
}

/// Whether `c` is a letter of the ASCII alphabet.
pub open spec fn is_ascii_letter(c: char) -> bool {
    'a' <= c <= 'z' || 'A' <= c <= 'Z'
}

/// Whether a text is taken for the path of a Unix-domain socket: it starts
/// with `\`, `/`, `.\` or `./`, or with a letter, a colon and a backslash.
pub open spec fn is_unix_prefix(s: Seq<char>) -> bool {
    ||| has_char(s, 0, '\\')
    ||| has_char(s, 0, '/')
    ||| (has_char(s, 0, '.') && (has_char(s, 1, '\\') || has_char(s, 1, '/')))
    ||| (s.len() >= 3 && is_ascii_letter(s[0]) && s[1] == ':' && s[2] == '\\')
}

/// The number of an inherited socket that a text spells.
pub open spec fn socket_number_spec(s: Seq<char>) -> Option<RawSocket> {
    match parse_unsigned_spec(s, u64::MAX as int) {
        Some(n) => Some(n as u64),
        None => None,
    }
}

/// The address that a text stands for. The first of these that fits
/// decides:
///
/// 1. `stdin` is the standard input.
/// 2. After `fd:` or `socket:` comes the number of an inherited socket.
/// 3. After `systemd:` comes the number of a socket from socket
///    activation.
/// 4. A text that starts like a path is the path of a Unix-domain socket.
/// 5. Any other text is an IP address, or an IP address and a port.
pub open spec fn parse_spec(s: Seq<char>) -> Result<SocketAddrView, InvalidSocketAddrError> {
    if s == stdin_text() {
        Ok(SocketAddrView::InheritStdin)
    } else if fd_prefix().is_prefix_of(s) {
        match socket_number_spec(s.skip(3)) {
            Some(socket) => Ok(SocketAddrView::Inherit { socket }),
            None => Err(InvalidSocketAddrError::InvalidSocketNum),
        }
    } else if socket_prefix().is_prefix_of(s) {
        match socket_number_spec(s.skip(7)) {
            Some(socket) => Ok(SocketAddrView::Inherit { socket }),
            None => Err(InvalidSocketAddrError::InvalidSocketNum),
        }
    } else if systemd_prefix().is_prefix_of(s) {
        match socket_number_spec(s.skip(8)) {
            Some(socket) => Ok(SocketAddrView::SystemdNumeric { socket }),
            None => Err(InvalidSocketAddrError::InvalidSocketNum),
        }
    } else if is_unix_prefix(s) {
        Ok(SocketAddrView::Unix { path: s })
    } else {
        match parse_ip_spec(s) {
            Some(addr) => Ok(SocketAddrView::Ip { addr, port: None }),
            None => match parse_ip_port_spec(s) {
                Some((addr, port)) => Ok(SocketAddrView::Ip { addr, port: Some(port) }),
                None => Err(InvalidSocketAddrError::Unrecognized { ip_error: AddrParseError }),
            },
        }
    }
}

/// What is put before a path that does not start like one: a dot and the
/// separator of the platform.
pub open spec fn relative_prefix(platform: Platform) -> Seq<char> {
    if platform.backslash_separator {
        seq!['.', '\\']
    } else {
        seq!['.', '/']
    }
}

/// The path as it is written: a path that does not start like one gets a
/// dot and a separator put before it.
pub open spec fn written_path(path: Seq<char>, platform: Platform) -> Seq<char> {
    if is_unix_prefix(path) {
        path
    } else {
        relative_prefix(platform) + path
    }
}

/// The text that stands for an address.
pub open spec fn format_spec(addr: SocketAddrView, platform: Platform) -> Seq<char> {
    match addr {
        SocketAddrView::Ip { addr, port: None } => ip_text(addr),
        SocketAddrView::Ip { addr, port: Some(port) } => ip_port_text(addr, port),
        SocketAddrView::Unix { path } => written_path(path, platform),
        SocketAddrView::Inherit { socket } => (if platform.handle_prefix_is_socket {
            socket_prefix()
        } else {
            fd_prefix()
        }) + decimal_text(socket as nat),
        SocketAddrView::InheritStdin => stdin_text(),
        SocketAddrView::SystemdNumeric { socket } => systemd_prefix() + decimal_text(
            socket as nat,
        ),
    }
}

/// Whether `s`, of `n` characters, starts with `prefix`, of `m`.
fn starts_with(s: &str, n: usize, prefix: &str, m: usize) -> (r: bool)
    requires
        n == s@.len(),
        m == prefix@.len(),
    ensures
        r == prefix@.is_prefix_of(s@),
{
    if m > n {
        return false;
    }
    let mut i: usize = 0;
    while i < m
        invariant
            i <= m <= n,
            n == s@.len(),
            m == prefix@.len(),
            forall|k: int| 0 <= k < i ==> s@[k] == prefix@[k],
        decreases m - i,
    {
        if s.get_char(i) != prefix.get_char(i) {
            proof {
                assert(s@.subrange(0, m as int)[i as int] != prefix@[i as int]);
            }
            return false;
        }
        i = i + 1;
    }
    proof {
        assert(prefix@ =~= s@.subrange(0, m as int));
    }
    true
}

/// Whether a text is taken for the path of a Unix-domain socket, given the
/// number `n` of its characters.
fn has_unix_prefix(s: &str, n: usize) -> (r: bool)
    requires
        n == s@.len(),
    ensures
        r == is_unix_prefix(s@),
{
    if n == 0 {
        return false;
    }
    let first = s.get_char(0);
    if first == '\\' || first == '/' {
        return true;
    }
    if n < 2 {
        return false;
    }
    let second = s.get_char(1);
    if first == '.' && (second == '\\' || second == '/') {
        return true;
    }
    if n < 3 {
        return false;
    }
    let letter = (first >= 'a' && first <= 'z') || (first >= 'A' && first <= 'Z');
    letter && second == ':' && s.get_char(2) == '\\'
}

/// Whether a text is taken for the path of a Unix-domain socket: it starts
/// with `\`, `/`, `.\` or `./`, or with a letter, a colon and a backslash.
/// All of these are taken on every platform.
pub fn str_is_unix_domain_socket_prefix(s: &str) -> (r: bool)
    ensures
        r == is_unix_prefix(s@),
{
    has_unix_prefix(s, s.unicode_len())
}

/// Reads the number of an inherited socket from the characters of `s` from
/// `from` on.
fn parse_socket_number(s: &str, from: usize, n: usize) -> (r: Result<
    RawSocket,
    InvalidSocketAddrError,
>)
    requires
        from <= n == s@.len(),
    ensures
        r == (match socket_number_spec(s@.skip(from as int)) {
            Some(socket) => Ok::<RawSocket, InvalidSocketAddrError>(socket),
            None => Err(InvalidSocketAddrError::InvalidSocketNum),
        }),
{
    let rest = s.substring_char(from, n);
    match parse_unsigned(rest, u64::MAX) {
        Some(socket) => Ok(socket),
        None => Err(InvalidSocketAddrError::InvalidSocketNum),
    }
}

impl SocketAddr {
    /// Reads an address from its text.
    #[verifier::rlimit(40)]
    pub fn parse(s: &str) -> (r: Result<SocketAddr, InvalidSocketAddrError>)
        ensures
            match r {
                Ok(addr) => parse_spec(s@) == Ok::<SocketAddrView, InvalidSocketAddrError>(addr@),
                Err(error) => parse_spec(s@) == Err::<SocketAddrView, InvalidSocketAddrError>(
                    error,
                ),
            },
    {
        proof {
            reveal_strlit("stdin");
            reveal_strlit("fd:");
            reveal_strlit("socket:");
            reveal_strlit("systemd:");
            assert("stdin"@ =~= stdin_text());
            assert("fd:"@ =~= fd_prefix());
            assert("socket:"@ =~= socket_prefix());
            assert("systemd:"@ =~= systemd_prefix());
        }
        let n = s.unicode_len();
        if n == 5 && starts_with(s, n, "stdin", 5) {
            proof {
                assert(s@ =~= s@.subrange(0, 5));
            }
            return Ok(SocketAddr::InheritStdin);
        }
        if starts_with(s, n, "fd:", 3) {
            return match parse_socket_number(s, 3, n) {
                Ok(socket) => Ok(SocketAddr::Inherit { socket }),
                Err(error) => Err(error),
            };
        }
        if starts_with(s, n, "socket:", 7) {
            return match parse_socket_number(s, 7, n) {
                Ok(socket) => Ok(SocketAddr::Inherit { socket }),
                Err(error) => Err(error),
            };
        }
        if starts_with(s, n, "systemd:", 8) {
            return match parse_socket_number(s, 8, n) {
                Ok(socket) => Ok(SocketAddr::SystemdNumeric { socket }),
                Err(error) => Err(error),
            };
        }
        if has_unix_prefix(s, n) {
            return Ok(SocketAddr::Unix { path: s.to_owned() });
        }
        if let Some(addr) = parse_ip(s) {
            return Ok(SocketAddr::Ip { addr, port: None });
        }
        match parse_ip_port(s) {
            Some((addr, port)) => Ok(SocketAddr::Ip { addr, port: Some(port) }),
            None => Err(InvalidSocketAddrError::Unrecognized { ip_error: AddrParseError }),
        }
    }

    /// Writes the address as text, in the way of the given platform: the
    /// platform decides between `fd:` and `socket:`, and on the separator
    /// that is put before a path that does not start like one.
    pub fn format(&self, platform: &Platform) -> (r: String)
        ensures
            r@ == format_spec(self@, *platform),
    {
        let mut out = String::new();
        match self {
            SocketAddr::Ip { addr, port: None } => {
                push_ip(&mut out, addr);
            },
            SocketAddr::Ip { addr, port: Some(port) } => {
                push_ip_port(&mut out, addr, *port);
            },
            SocketAddr::Unix { path } => {
                let path = path.as_str();
                if !str_is_unix_domain_socket_prefix(path) {
                    out.push('.');
                    if platform.backslash_separator {
                        out.push('\\');
                    } else {
                        out.push('/');
                    }
                }
                out.append(path);
            },
            SocketAddr::Inherit { socket } => {
                if platform.handle_prefix_is_socket {
                    proof {
                        reveal_strlit("socket:");
                        assert("socket:"@ =~= socket_prefix());
                    }
                    out.append("socket:");
                } else {
                    proof {
                        reveal_strlit("fd:");
                        assert("fd:"@ =~= fd_prefix());
                    }
                    out.append("fd:");
                }
                push_decimal(&mut out, *socket);
            },
            SocketAddr::InheritStdin => {
                proof {
                    reveal_strlit("stdin");
                    assert("stdin"@ =~= stdin_text());
                }
                out.append("stdin");
            },
            SocketAddr::SystemdNumeric { socket } => {
                proof {
                    reveal_strlit("systemd:");
                    assert("systemd:"@ =~= systemd_prefix());
                }
                out.append("systemd:");
                push_decimal(&mut out, *socket);
            },
        }
        proof {
            assert(out@ =~= format_spec(self@, *platform));
        }
        out
    }

    /// Writes the address as text, in the way of Unix-like platforms.
    pub fn to_string(&self) -> (r: String)
        ensures
            r@ == format_spec(self@, Platform::linux_spec()),
    {
        self.format(&Platform::linux())
    }
}

impl From<IpAddress> for SocketAddr {
    /// The IP address, with no port specified.
    fn from(addr: IpAddress) -> (r: SocketAddr) {
        SocketAddr::Ip { addr, port: None }
    }
}

impl FromSpecImpl<IpAddress> for SocketAddr {
    open spec fn obeys_from_spec() -> bool {
        true
    }

    open spec fn from_spec(addr: IpAddress) -> SocketAddr {
        SocketAddr::Ip { addr, port: None }
    }
}

impl From<Ipv4Address> for SocketAddr {
    /// The IPv4 address, with no port specified.
    fn from(addr: Ipv4Address) -> (r: SocketAddr) {
        SocketAddr::Ip { addr: IpAddress::V4(addr), port: None }
    }
}

impl FromSpecImpl<Ipv4Address> for SocketAddr {
    open spec fn obeys_from_spec() -> bool {
        true
    }

    open spec fn from_spec(addr: Ipv4Address) -> SocketAddr {
        SocketAddr::Ip { addr: IpAddress::V4(addr), port: None }
    }
}

impl From<Ipv6Address> for SocketAddr {
    /// The IPv6 address, with no port specified.
    fn from(addr: Ipv6Address) -> (r: SocketAddr) {
        SocketAddr::Ip { addr: IpAddress::V6(addr), port: None }
    }
}

impl FromSpecImpl<Ipv6Address> for SocketAddr {
    open spec fn obeys_from_spec() -> bool {
        true
    }

    open spec fn from_spec(addr: Ipv6Address) -> SocketAddr {
        SocketAddr::Ip { addr: IpAddress::V6(addr), port: None }
    }
}

impl From<(IpAddress, u16)> for SocketAddr {
    /// The IP address with the port.
    fn from(addr: (IpAddress, u16)) -> (r: SocketAddr) {
        SocketAddr::Ip { addr: addr.0, port: Some(addr.1) }
    }
}

impl FromSpecImpl<(IpAddress, u16)> for SocketAddr {
    open spec fn obeys_from_spec() -> bool {
        true
    }

    open spec fn from_spec(addr: (IpAddress, u16)) -> SocketAddr {
        SocketAddr::Ip { addr: addr.0, port: Some(addr.1) }
    }
}

impl From<String> for SocketAddr {
    /// The Unix-domain socket at the path.
    fn from(path: String) -> (r: SocketAddr) {
        SocketAddr::Unix { path }
    }
}

impl FromSpecImpl<String> for SocketAddr {
    open spec fn obeys_from_spec() -> bool {
        true
    }

    open spec fn from_spec(path: String) -> SocketAddr {
        SocketAddr::Unix { path }
    }
}

impl core::str::FromStr for SocketAddr {
    type Err = InvalidSocketAddrError;

    /// Reads an address from its text, as `SocketAddr::parse` does.
    fn from_str(s: &str) -> (r: Result<SocketAddr, InvalidSocketAddrError>)
        ensures
            match r {
                Ok(addr) => parse_spec(s@) == Ok::<SocketAddrView, InvalidSocketAddrError>(addr@),
                Err(error) => parse_spec(s@) == Err::<SocketAddrView, InvalidSocketAddrError>(
                    error,
                ),
            },
    {
        SocketAddr::parse(s)
    }
}

} // verus!
