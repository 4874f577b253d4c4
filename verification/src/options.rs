//! The two option sets that steer the opening of a socket, and the
//! capabilities of the platform that it happens on.

use vstd::prelude::*;

verus! {

/// A raw socket: a file descriptor number, or a socket handle on Windows.
/// Nothing is known of its validity until it is claimed.
pub type RawSocket = u64;

/// The kind of communication that a socket offers.
#[derive(Clone, Copy, Debug, PartialEq, Eq, Structural)]
pub enum SocketType {
    /// A reliable byte stream.
    Stream,
    /// Separate messages, without connection.
    Datagram,
    /// A reliable sequence of messages.
    SeqPacket,
    /// Raw access to the network protocol.
    Raw,
    /// Any other type, by the number the platform gives it.
    Other(i32),
}

/// A transport protocol.
#[derive(Clone, Copy, Debug, PartialEq, Eq, Structural)]
pub enum SocketProtocol {
    Tcp,
    Udp,
    Icmpv4,
    Icmpv6,
    /// Any other protocol, by the number the platform gives it.
    Other(i32),
}

/// The address family of a socket.
#[derive(Clone, Copy, Debug, PartialEq, Eq, Structural)]
pub enum SocketDomain {
    Ipv4,
    Ipv6,
    Unix,
    /// Any other family, by the number the platform gives it.
    Other(i32),
}

/// A user or a group: by number, or by a name that is yet to be looked up.
#[derive(Clone, Debug, PartialEq, Eq)]
pub enum UnixPrincipal {
    Id(u32),
    Name(String),
}

/// Options for opening a socket, supplied by the user of the application.
#[derive(Clone, Debug, PartialEq, Eq)]
pub struct SocketUserOptions {
    /// Prevents the deletion of the existing socket, if any. Has an effect
    /// on non-inherited Unix-domain sockets only.
    pub unix_socket_no_unlink: bool,
    /// Permission bits for a created, path-based Unix-domain socket. On any
    /// other kind of socket this option is an error.
    pub unix_socket_permissions: Option<u32>,
    /// Owner for a created, path-based Unix-domain socket. On any other
    /// kind of socket this option is an error.
    pub unix_socket_owner: Option<UnixPrincipal>,
    /// Group for a created, path-based Unix-domain socket. On any other
    /// kind of socket this option is an error.
    pub unix_socket_group: Option<UnixPrincipal>,
    /// Set `SO_REUSEPORT`, which lets several processes receive on the same
    /// port. On an inherited socket this option is an error.
    pub ip_socket_reuse_port: bool,
    /// Only communicate over IPv6, not IPv4. On an inherited socket this
    /// option is an error.
    pub ip_socket_v6_only: bool,
    /// Maximum pending connections, for listening sockets. Applies to
    /// created stream sockets that listen; elsewhere it is an error.
    pub listen_socket_backlog: Option<i32>,
}

impl SocketUserOptions {
    /// The backlog used when `listen_socket_backlog` is `None`.
    pub const DEFAULT_LISTEN_SOCKET_BACKLOG: i32 = 128;
}

impl Default for SocketUserOptions {
    fn default() -> (r: SocketUserOptions)
        ensures
            !r.unix_socket_no_unlink,
            r.unix_socket_permissions is None,
            r.unix_socket_owner is None,
            r.unix_socket_group is None,
            !r.ip_socket_reuse_port,
            !r.ip_socket_v6_only,
            r.listen_socket_backlog is None,
    {
        SocketUserOptions {
            unix_socket_no_unlink: false,
            unix_socket_permissions: None,
            unix_socket_owner: None,
            unix_socket_group: None,
            ip_socket_reuse_port: false,
            ip_socket_v6_only: false,
            listen_socket_backlog: None,
        }
    }
}

/// Options for opening a socket, supplied by the application itself. The
/// address family is not among them: the address decides it.
#[derive(Clone, Copy, Debug, PartialEq, Eq, Structural)]
pub struct SocketAppOptions {
    /// Socket type, such as stream or datagram. An inherited socket of
    /// another type is an error.
    pub socket_type: SocketType,
    /// Transport protocol, where the family and type are not to imply it.
    /// Ignored for inherited sockets.
    pub protocol: Option<SocketProtocol>,
    /// Whether a new stream socket is made to listen, and whether an
    /// inherited one is expected to be listening.
    pub listen: bool,
    /// The port used for an IP address that names none. Port 0 lets the
    /// system pick one.
    pub default_port: Option<u16>,
    /// Whether the application has a hook to run on a new socket just
    /// before it is bound.
    pub before_bind: bool,
}

impl SocketAppOptions {
    /// Options for a socket of the given type, all else at its default: no
    /// explicit protocol, listening, no default port, no hook.
    pub fn new(socket_type: SocketType) -> (r: SocketAppOptions)
        ensures
            r == (SocketAppOptions {
                socket_type,
                protocol: None,
                listen: true,
                default_port: None,
                before_bind: false,
            }),
    {
        SocketAppOptions {
            socket_type,
            protocol: None,
            listen: true,
            default_port: None,
            before_bind: false,
        }
    }
}

/// What the platform can do, as far as opening a socket depends on it.
#[derive(Clone, Copy, Debug, PartialEq, Eq, Structural)]
pub struct Platform {
    /// Sockets in the file system have an owner, a group and permission
    /// bits.
    pub unix_security: bool,
    /// `SO_REUSEPORT` exists.
    pub reuse_port: bool,
    /// `SO_REUSEADDR` is set on TCP listening sockets.
    pub reuse_address: bool,
    /// A parent process can choose the numbers of the descriptors that it
    /// hands over, so socket activation can work.
    pub socket_activation: bool,
    /// A socket can be asked for its protocol.
    pub query_protocol: bool,
    /// A socket can be asked whether it is listening.
    pub query_listening: bool,
    /// Sockets are file descriptors: standard input is descriptor 0, and a
    /// descriptor is inherited unless it is closed on exec. Where sockets
    /// are handles, the handle of the standard input has to be looked up,
    /// which can fail, and a handle is inherited if it is flagged so.
    pub file_descriptors: bool,
    /// Inherited sockets are written `socket:n`, not `fd:n`.
    pub handle_prefix_is_socket: bool,
    /// The separator of path components is `\`, not `/`.
    pub backslash_separator: bool,
    /// The standard library has socket types for the Unix domain.
    pub unix_std_sockets: bool,
}

impl Platform {
    /// Linux, and the platforms that offer the same: Android, Fuchsia and
    /// FreeBSD.
    pub fn linux() -> (p: Platform)
        ensures
            p == Self::linux_spec(),
    {
        Platform {
            unix_security: true,
            reuse_port: true,
            reuse_address: true,
            socket_activation: true,
            query_protocol: true,
            query_listening: true,
            file_descriptors: true,
            handle_prefix_is_socket: false,
            backslash_separator: false,
            unix_std_sockets: true,
        }
    }

    /// A Unix-like platform whose sockets cannot be asked for their protocol
    /// or listening state.
    pub fn unix() -> (p: Platform)
        ensures
            p == (Platform { query_protocol: false, query_listening: false, ..Self::linux_spec() }),
    {
        Platform { query_protocol: false, query_listening: false, ..Self::linux() }
    }

    /// Windows.
    pub fn windows() -> (p: Platform)
        ensures
            p == Self::windows_spec(),
    {
        Platform {
            unix_security: false,
            reuse_port: false,
            reuse_address: false,
            socket_activation: false,
            query_protocol: true,
            query_listening: true,
            file_descriptors: false,
            handle_prefix_is_socket: true,
            backslash_separator: true,
            unix_std_sockets: false,
        }
    }

    pub open spec fn linux_spec() -> Platform {
        Platform {
            unix_security: true,
            reuse_port: true,
            reuse_address: true,
            socket_activation: true,
            query_protocol: true,
            query_listening: true,
            file_descriptors: true,
            handle_prefix_is_socket: false,
            backslash_separator: false,
            unix_std_sockets: true,
        }
    }

    pub open spec fn windows_spec() -> Platform {
        Platform {
            unix_security: false,
            reuse_port: false,
            reuse_address: false,
            socket_activation: false,
            query_protocol: true,
            query_listening: true,
            file_descriptors: false,
            handle_prefix_is_socket: true,
            backslash_separator: true,
            unix_std_sockets: false,
        }
    }
}

} // verus!
