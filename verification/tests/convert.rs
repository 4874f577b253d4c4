use socket_config::convert::{
    connected_from_peer, AnyStdSocket, AnyTokioListener, AnyTokioStream, SocketState,
};
use socket_config::errors::{IntoTokioError, IoError, IoErrorKind};
use socket_config::{SocketDomain, SocketProtocol, SocketType};

fn state(
    domain: SocketDomain,
    socket_type: SocketType,
    protocol: Option<SocketProtocol>,
    is_listening: Option<bool>,
) -> SocketState {
    SocketState { domain, socket_type, protocol, is_listening }
}

#[test]
fn tcp_sockets_are_told_apart_by_their_state() {
    let tcp = |listening| {
        state(SocketDomain::Ipv4, SocketType::Stream, Some(SocketProtocol::Tcp), listening)
    };
    assert_eq!(tcp(Some(true)).classify(false, true), AnyStdSocket::TcpListener);
    assert_eq!(tcp(None).classify(false, true), AnyStdSocket::TcpListener);
    assert_eq!(tcp(Some(false)).classify(true, true), AnyStdSocket::TcpStream);
    // Neither listening nor connected.
    assert_eq!(tcp(Some(false)).classify(false, true), AnyStdSocket::Other);
    // Connected, on a platform that cannot tell whether it listens.
    assert_eq!(tcp(None).classify(true, true), AnyStdSocket::Other);
}

#[test]
fn protocol_is_guessed_where_it_is_unknown() {
    for domain in [SocketDomain::Ipv4, SocketDomain::Ipv6] {
        assert_eq!(
            state(domain, SocketType::Stream, None, None).classify(false, true),
            AnyStdSocket::TcpListener
        );
        assert_eq!(
            state(domain, SocketType::Stream, None, Some(false)).classify(true, false),
            AnyStdSocket::TcpStream
        );
        assert_eq!(
            state(domain, SocketType::Datagram, None, None).classify(false, true),
            AnyStdSocket::UdpSocket
        );
        assert_eq!(
            state(domain, SocketType::Datagram, None, Some(true)).classify(true, false),
            AnyStdSocket::UdpSocket
        );
        assert_eq!(
            state(domain, SocketType::Raw, None, None).classify(false, true),
            AnyStdSocket::Other
        );
        assert_eq!(
            state(domain, SocketType::Stream, Some(SocketProtocol::Other(132)), Some(true))
                .classify(false, true),
            AnyStdSocket::Other
        );
    }
    assert_eq!(
        state(SocketDomain::Other(16), SocketType::Datagram, Some(SocketProtocol::Udp), None)
            .classify(false, true),
        AnyStdSocket::UdpSocket
    );
}

#[test]
fn unix_sockets_need_a_platform_that_has_them() {
    let unix = |socket_type, listening| state(SocketDomain::Unix, socket_type, None, listening);
    assert_eq!(
        unix(SocketType::Stream, Some(true)).classify(false, true),
        AnyStdSocket::UnixListener,
    );
    assert_eq!(unix(SocketType::Stream, None).classify(false, true), AnyStdSocket::UnixListener);
    assert_eq!(
        unix(SocketType::Stream, Some(false)).classify(true, true),
        AnyStdSocket::UnixStream,
    );
    assert_eq!(unix(SocketType::Datagram, None).classify(false, true), AnyStdSocket::UnixDatagram);
    assert_eq!(
        unix(SocketType::Datagram, Some(true)).classify(true, true),
        AnyStdSocket::UnixDatagram,
    );
    assert_eq!(unix(SocketType::SeqPacket, None).classify(false, true), AnyStdSocket::Other);
    assert_eq!(unix(SocketType::Stream, Some(false)).classify(false, true), AnyStdSocket::Other);
    for socket_type in [SocketType::Stream, SocketType::Datagram] {
        assert_eq!(unix(socket_type, Some(true)).classify(false, false), AnyStdSocket::Other);
        assert_eq!(unix(socket_type, Some(false)).classify(true, false), AnyStdSocket::Other);
    }
}

#[test]
fn peer_is_asked_of_streams_that_may_be_connected() {
    let of = |socket_type, listening| state(SocketDomain::Ipv4, socket_type, None, listening);
    assert!(of(SocketType::Stream, None).needs_peer_check());
    assert!(of(SocketType::Stream, Some(false)).needs_peer_check());
    assert!(!of(SocketType::Stream, Some(true)).needs_peer_check());
    assert!(!of(SocketType::Datagram, None).needs_peer_check());
    assert!(!of(SocketType::Datagram, Some(false)).needs_peer_check());
}

#[test]
fn not_connected_is_an_answer_not_an_error() {
    let not_connected = IoError { kind: IoErrorKind::NotConnected, code: Some(107) };
    let other = IoError { kind: IoErrorKind::Other, code: Some(9) };
    assert_eq!(connected_from_peer(Ok(())), Ok(true));
    assert_eq!(connected_from_peer(Err(not_connected)), Ok(false));
    assert_eq!(connected_from_peer(Err(other)), Err(other));
}

#[test]
fn listeners_and_streams_for_non_blocking_use() {
    assert_eq!(AnyTokioListener::try_from(AnyStdSocket::TcpListener), Ok(AnyTokioListener::Tcp));
    assert_eq!(AnyTokioListener::try_from(AnyStdSocket::UnixListener), Ok(AnyTokioListener::Unix));
    assert_eq!(AnyTokioStream::try_from(AnyStdSocket::TcpStream), Ok(AnyTokioStream::Tcp));
    assert_eq!(AnyTokioStream::try_from(AnyStdSocket::UnixStream), Ok(AnyTokioStream::Unix));
    for socket in [
        AnyStdSocket::TcpStream,
        AnyStdSocket::UdpSocket,
        AnyStdSocket::UnixDatagram,
        AnyStdSocket::UnixStream,
        AnyStdSocket::Other,
    ] {
        assert_eq!(
            AnyTokioListener::try_from(socket),
            Err(IntoTokioError::Inappropriate { socket })
        );
    }
    for socket in [
        AnyStdSocket::TcpListener,
        AnyStdSocket::UdpSocket,
        AnyStdSocket::UnixDatagram,
        AnyStdSocket::UnixListener,
        AnyStdSocket::Other,
    ] {
        assert_eq!(AnyTokioStream::try_from(socket), Err(IntoTokioError::Inappropriate { socket }));
    }
    assert_eq!(AnyTokioListener::Unix.into_std(), AnyStdSocket::UnixListener);
    assert_eq!(AnyTokioStream::Tcp.into_std(), AnyStdSocket::TcpStream);
    assert_eq!(
        IntoTokioError::Inappropriate { socket: AnyStdSocket::Other }.kind(),
        IoErrorKind::InvalidInput
    );
    let failed = IoError { kind: IoErrorKind::WouldBlock, code: Some(11) };
    assert_eq!(IntoTokioError::SetNonBlocking { error: failed }.kind(), IoErrorKind::WouldBlock);
    assert_eq!(
        IoError::from(IntoTokioError::Wrap { error: failed }),
        IoError::new(IoErrorKind::WouldBlock),
    );
}
