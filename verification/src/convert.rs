//! Which of the standard socket types an open socket fits.

use crate::errors::{IntoTokioError, IoError, IoErrorKind};
use crate::options::{SocketDomain, SocketProtocol, SocketType};
use vstd::prelude::*;

verus! {

/// What is known of an open socket. A platform that cannot tell the
/// protocol or the listening state leaves it `None`: unknown, not false.
#[derive(Clone, Copy, Debug, PartialEq, Eq, Structural)]
pub struct SocketState {
    pub domain: SocketDomain,
    pub socket_type: SocketType,
    pub protocol: Option<SocketProtocol>,
    pub is_listening: Option<bool>,
}

/// The standard library socket type that a socket fits; `Other` where it
/// fits none.
#[derive(Clone, Copy, Debug, PartialEq, Eq, Structural)]
pub enum AnyStdSocket {
    /// A TCP listening socket.
    TcpListener,
    /// A connected TCP socket.
    TcpStream,
    /// A UDP socket.
    UdpSocket,
    /// A Unix-domain datagram socket.
    UnixDatagram,
    /// A Unix-domain stream listening socket.
    UnixListener,
    /// A connected Unix-domain stream socket.
    UnixStream,
    /// An unrecognized kind of socket.
    Other,
}

/// A stream listening socket, either TCP or Unix-domain, for non-blocking
/// use.
#[derive(Clone, Copy, Debug, PartialEq, Eq, Structural)]
pub enum AnyTokioListener {
    /// A TCP listening socket.
    Tcp,
    /// A Unix-domain stream listening socket.
    Unix,
}

/// A connected stream socket, either TCP or Unix-domain, for non-blocking
/// use.
#[derive(Clone, Copy, Debug, PartialEq, Eq, Structural)]
pub enum AnyTokioStream {
    /// A connected TCP socket.
    Tcp,
    /// A connected Unix-domain stream socket.
    Unix,
}

impl SocketState {
    /// Whether the socket's family is IPv4 or IPv6.
    pub open spec fn is_ip(self) -> bool {
        self.domain == SocketDomain::Ipv4 || self.domain == SocketDomain::Ipv6
    }

    /// Whether the socket speaks TCP: it says so, or it cannot say and is a
    /// stream socket of an IP family.
    pub open spec fn is_tcp(self) -> bool {
        match self.protocol {
            Some(p) => p == SocketProtocol::Tcp,
            None => self.is_ip() && self.socket_type == SocketType::Stream,
        }
    }

    /// Whether the socket speaks UDP: it says so, or it cannot say and is a
    /// datagram socket of an IP family.
    pub open spec fn is_udp(self) -> bool {
        match self.protocol {
            Some(p) => p == SocketProtocol::Udp,
            None => self.is_ip() && self.socket_type == SocketType::Datagram,
        }
    }

    /// Whether the socket passes for a listening one: it is not connected,
    /// and is listening as far as that is known.
    pub open spec fn passes_for_listener(self, is_connected: bool) -> bool {
        !is_connected && self.is_listening != Some(false)
    }

    /// Whether the socket is a connected one: connected, and known not to
    /// be listening.
    pub open spec fn is_connected_stream(self, is_connected: bool) -> bool {
        is_connected && self.is_listening == Some(false)
    }

    /// Whether the peer address has to be asked for to learn whether the
    /// socket is connected: only of a stream socket that is not known to be
    /// listening.
    pub open spec fn needs_peer_check_spec(self) -> bool {
        self.socket_type == SocketType::Stream && self.is_listening != Some(true)
    }

    /// The standard socket type that the socket fits. TCP comes first, then
    /// UDP; the Unix-domain types exist only where the standard library has
    /// them (`unix`).
    pub open spec fn classify_spec(self, is_connected: bool, unix: bool) -> AnyStdSocket {
        if self.is_tcp() && self.passes_for_listener(is_connected) {
            AnyStdSocket::TcpListener
        } else if self.is_tcp() && self.is_connected_stream(is_connected) {
            AnyStdSocket::TcpStream
        } else if self.is_udp() {
            AnyStdSocket::UdpSocket
        } else if unix && self.domain == SocketDomain::Unix && self.socket_type
            == SocketType::Stream && self.passes_for_listener(is_connected) {
            AnyStdSocket::UnixListener
        } else if unix && self.domain == SocketDomain::Unix && self.socket_type
            == SocketType::Stream && self.is_connected_stream(is_connected) {
            AnyStdSocket::UnixStream
        } else if unix && self.domain == SocketDomain::Unix && self.socket_type
            == SocketType::Datagram {
            AnyStdSocket::UnixDatagram
        } else {
            AnyStdSocket::Other
        }
    }

    /// Whether the peer address has to be asked for.
    pub fn needs_peer_check(&self) -> (r: bool)
        ensures
            r == self.needs_peer_check_spec(),
    {
        match (self.socket_type, self.is_listening) {
            (SocketType::Stream, Some(true)) => false,
            (SocketType::Stream, _) => true,
            _ => false,
        }
    }

    /// The standard socket type that the socket fits, given whether it is
    /// connected.
    pub fn classify(&self, is_connected: bool, unix: bool) -> (r: AnyStdSocket)
        ensures
            r == self.classify_spec(is_connected, unix),
    {
        match (self.domain, self.socket_type, self.protocol, self.is_listening, is_connected) {
            (SocketDomain::Ipv4, SocketType::Stream, None, None, false)
            | (SocketDomain::Ipv4, SocketType::Stream, None, Some(true), false)
            | (SocketDomain::Ipv6, SocketType::Stream, None, None, false)
            | (SocketDomain::Ipv6, SocketType::Stream, None, Some(true), false)
            | (_, _, Some(SocketProtocol::Tcp), None, false)
            | (_, _, Some(SocketProtocol::Tcp), Some(true), false) => AnyStdSocket::TcpListener,
            (SocketDomain::Ipv4, SocketType::Stream, None, Some(false), true)
            | (SocketDomain::Ipv6, SocketType::Stream, None, Some(false), true)
            | (_, _, Some(SocketProtocol::Tcp), Some(false), true) => AnyStdSocket::TcpStream,
            (SocketDomain::Ipv4, SocketType::Datagram, None, _, _)
            | (SocketDomain::Ipv6, SocketType::Datagram, None, _, _)
            | (_, _, Some(SocketProtocol::Udp), _, _) => AnyStdSocket::UdpSocket,
            (SocketDomain::Unix, SocketType::Stream, _, None, false)
            | (SocketDomain::Unix, SocketType::Stream, _, Some(true), false) => if unix {
                AnyStdSocket::UnixListener
            } else {
                AnyStdSocket::Other
            },
            (SocketDomain::Unix, SocketType::Stream, _, Some(false), true) => if unix {
                AnyStdSocket::UnixStream
            } else {
                AnyStdSocket::Other
            },
            (SocketDomain::Unix, SocketType::Datagram, _, _, _) => if unix {
                AnyStdSocket::UnixDatagram
            } else {
                AnyStdSocket::Other
            },
            _ => AnyStdSocket::Other,
        }
    }
}

/// Whether a socket is connected, from what asking for its peer address
/// gave: an address means connected, the error "not connected" means not,
/// and any other error is passed on.
pub fn connected_from_peer(peer: Result<(), IoError>) -> (r: Result<bool, IoError>)
    ensures
        r == (match peer {
            Ok(()) => Ok::<bool, IoError>(true),
            Err(e) => if e.kind == IoErrorKind::NotConnected {
                Ok(false)
            } else {
                Err(e)
            },
        }),
{
    match peer {
        Ok(()) => Ok(true),
        Err(e) => match e.kind {
            IoErrorKind::NotConnected => Ok(false),
            _ => Err(e),
        },
    }
}

impl AnyTokioListener {
    /// A TCP or Unix-domain listener is taken; any other socket is
    /// inappropriate.
    pub fn try_from(socket: AnyStdSocket) -> (r: Result<AnyTokioListener, IntoTokioError>)
        ensures
            r == (match socket {
                AnyStdSocket::TcpListener => Ok::<AnyTokioListener, IntoTokioError>(
                    AnyTokioListener::Tcp,
                ),
                AnyStdSocket::UnixListener => Ok(AnyTokioListener::Unix),
                _ => Err(IntoTokioError::Inappropriate { socket }),
            }),
    {
        match socket {
            AnyStdSocket::TcpListener => Ok(AnyTokioListener::Tcp),
            AnyStdSocket::UnixListener => Ok(AnyTokioListener::Unix),
            _ => Err(IntoTokioError::Inappropriate { socket }),
        }
    }

    /// The standard socket type that this listener came from.
    pub fn into_std(self) -> (r: AnyStdSocket)
        ensures
            Self::try_from_spec(r) == Some(self),
    {
        match self {
            AnyTokioListener::Tcp => AnyStdSocket::TcpListener,
            AnyTokioListener::Unix => AnyStdSocket::UnixListener,
        }
    }

    /// The listener that a standard socket type makes, if any.
    pub open spec fn try_from_spec(socket: AnyStdSocket) -> Option<AnyTokioListener> {
        match socket {
            AnyStdSocket::TcpListener => Some(AnyTokioListener::Tcp),
            AnyStdSocket::UnixListener => Some(AnyTokioListener::Unix),
            _ => None,
        }
    }
}

impl AnyTokioStream {
    /// A connected TCP or Unix-domain stream is taken; any other socket is
    /// inappropriate.
    pub fn try_from(socket: AnyStdSocket) -> (r: Result<AnyTokioStream, IntoTokioError>)
        ensures
            r == (match socket {
                AnyStdSocket::TcpStream => Ok::<AnyTokioStream, IntoTokioError>(
                    AnyTokioStream::Tcp,
                ),
                AnyStdSocket::UnixStream => Ok(AnyTokioStream::Unix),
                _ => Err(IntoTokioError::Inappropriate { socket }),
            }),
    {
        match socket {
            AnyStdSocket::TcpStream => Ok(AnyTokioStream::Tcp),
            AnyStdSocket::UnixStream => Ok(AnyTokioStream::Unix),
            _ => Err(IntoTokioError::Inappropriate { socket }),
        }
    }

    /// The standard socket type that this stream came from.
    pub fn into_std(self) -> (r: AnyStdSocket)
        ensures
            Self::try_from_spec(r) == Some(self),
    {
        match self {
            AnyTokioStream::Tcp => AnyStdSocket::TcpStream,
            AnyTokioStream::Unix => AnyStdSocket::UnixStream,
        }
    }

    /// The stream that a standard socket type makes, if any.
    pub open spec fn try_from_spec(socket: AnyStdSocket) -> Option<AnyTokioStream> {
        match socket {
            AnyStdSocket::TcpStream => Some(AnyTokioStream::Tcp),
            AnyStdSocket::UnixStream => Some(AnyTokioStream::Unix),
            _ => None,
        }
    }
}

} // verus!
