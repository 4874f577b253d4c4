use socket_config::errors::{IoError, IoErrorKind, OpenSocketError};
use std::io::{Read, Write};
use socket_config::{
    cleanup_checked, cleanup_removed, is_unix_socket, open, BindAddress, CleanupAction, OpenAction,
    OpenOutcome, OpenPlan, Platform, SocketAddr, SocketAppOptions, SocketDomain, SocketType,
    SocketUserOptions,
};

fn io_error(error: std::io::Error) -> IoError {
    let kind = match error.kind() {
        std::io::ErrorKind::NotFound => IoErrorKind::NotFound,
        std::io::ErrorKind::PermissionDenied => IoErrorKind::PermissionDenied,
        std::io::ErrorKind::AddrInUse => IoErrorKind::AddrInUse,
        std::io::ErrorKind::AlreadyExists => IoErrorKind::AlreadyExists,
        std::io::ErrorKind::InvalidInput => IoErrorKind::InvalidInput,
        _ => IoErrorKind::Other,
    };
    IoError { kind, code: error.raw_os_error() }
}

fn done(result: Result<(), std::io::Error>) -> OpenOutcome {
    match result {
        Ok(()) => OpenOutcome::Done,
        Err(error) => OpenOutcome::Failed(io_error(error)),
    }
}

fn file_mode(path: &str) -> Result<u32, std::io::Error> {
    Ok(nix::sys::stat::lstat(path).map_err(std::io::Error::from)?.st_mode)
}

/// Carries the plan for a Unix-domain socket out on the system.
fn perform(plan: &OpenPlan, path: &str) -> Result<socket2::Socket, OpenSocketError> {
    let (mut stage, mut action) = plan.start();
    let mut socket: Option<socket2::Socket> = None;
    loop {
        let outcome = match action {
            OpenAction::CreateSocket { domain, socket_type, protocol } => {
                assert_eq!(domain, SocketDomain::Unix);
                assert_eq!(protocol, None);
                let socket_type = match socket_type {
                    SocketType::Stream => socket2::Type::STREAM,
                    _ => socket2::Type::DGRAM,
                };
                done(socket2::Socket::new(socket2::Domain::UNIX, socket_type, None).map(|s| {
                    socket = Some(s);
                }))
            }
            OpenAction::CheckStale => match file_mode(path) {
                Ok(mode) => OpenOutcome::Flag(is_unix_socket(mode)),
                Err(error) => OpenOutcome::Failed(io_error(error)),
            },
            OpenAction::RemoveStale => {
                done(nix::unistd::unlink(path).map_err(std::io::Error::from))
            }
            OpenAction::MkdirParents => OpenOutcome::Done,
            OpenAction::QueryProtocol => match socket.as_ref().unwrap().protocol() {
                Ok(protocol) => OpenOutcome::Protocol(protocol.map(|p| {
                    if p == socket2::Protocol::TCP {
                        socket_config::SocketProtocol::Tcp
                    } else {
                        socket_config::SocketProtocol::Other(i32::from(p))
                    }
                })),
                Err(error) => OpenOutcome::Failed(io_error(error)),
            },
            OpenAction::Bind { address } => {
                assert_eq!(address, BindAddress::Unix);
                let address = socket2::SockAddr::unix(path).unwrap();
                done(socket.as_ref().unwrap().bind(&address))
            }
            OpenAction::SetPermissions { mode } => done(
                nix::sys::stat::fchmodat(
                    None,
                    path,
                    nix::sys::stat::Mode::from_bits(mode).unwrap(),
                    nix::sys::stat::FchmodatFlags::FollowSymlink,
                )
                .map_err(std::io::Error::from),
            ),
            OpenAction::SetOwner { owner, group } => done(
                nix::unistd::chown(
                    path,
                    owner.map(nix::unistd::Uid::from_raw),
                    group.map(nix::unistd::Gid::from_raw),
                )
                .map_err(std::io::Error::from),
            ),
            OpenAction::Listen { backlog } => done(socket.as_ref().unwrap().listen(backlog)),
            OpenAction::Done => return Ok(socket.unwrap()),
            OpenAction::Fail(error) => return Err(error),
            other => panic!("a Unix-domain socket needs no {other:?}"),
        };
        (stage, action) = plan.next(stage, outcome);
    }
}

/// Cleans a path up on the system, as `SocketAddr::cleanup` has it.
fn clean(address: &SocketAddr, path: &str) -> CleanupAction {
    let mut action = address.cleanup();
    loop {
        action = match action {
            CleanupAction::Check => {
                cleanup_checked(file_mode(path).map(is_unix_socket).map_err(io_error))
            }
            CleanupAction::Remove => {
                cleanup_removed(nix::unistd::unlink(path).map_err(|e| io_error(e.into())))
            }
            ended => return ended,
        };
    }
}

/// A folder for the sockets of one test, emptied of what an earlier run may
/// have left in it; `None` where the system lets the test have neither a
/// folder nor a socket.
fn scratch(name: &str, files: &[&str]) -> Option<String> {
    let folder = format!("/tmp/socket-config-test-{}-{name}", nix::unistd::Uid::current());
    remove(&folder, files);
    let made = nix::unistd::mkdir(folder.as_str(), nix::sys::stat::Mode::S_IRWXU);
    let socket = socket2::Socket::new(socket2::Domain::UNIX, socket2::Type::STREAM, None);
    if made.is_err() || socket.is_err() {
        println!("skipped: no folder ({made:?}) or no socket ({socket:?})");
        return None;
    }
    assert!(!is_unix_socket(file_mode(&folder).unwrap()));
    Some(folder)
}

fn remove(folder: &str, files: &[&str]) {
    for file in files {
        let path = format!("{folder}/{file}");
        let _ = nix::unistd::unlink(path.as_str());
        let _ = nix::unistd::unlinkat(None, path.as_str(), nix::unistd::UnlinkatFlags::RemoveDir);
    }
    let _ = nix::unistd::unlinkat(None, folder, nix::unistd::UnlinkatFlags::RemoveDir);
}

const TEST_MSG_LEN: usize = 13;
const TEST_MSG: &[u8; TEST_MSG_LEN] = b"Hello, world!";
const TEST_MSG_MODIFIED: &[u8; TEST_MSG_LEN] = b"Ifmmp-!xpsme\"";

/// Connects to the listening socket, and has the message echoed back with
/// every byte raised by one.
fn echo_incr(server: &socket2::Socket, path: &str) {
    let mut client =
        socket2::Socket::new(socket2::Domain::UNIX, socket2::Type::STREAM, None).unwrap();
    client.connect(&socket2::SockAddr::unix(path).unwrap()).unwrap();
    let (mut connection, _) = server.accept().unwrap();

    client.write_all(TEST_MSG).unwrap();
    let mut buf = [0u8; TEST_MSG_LEN];
    connection.read_exact(&mut buf).unwrap();
    for byte in &mut buf {
        *byte = byte.wrapping_add(1);
    }
    connection.write_all(&buf).unwrap();

    let mut actual_input = [0u8; TEST_MSG_LEN];
    client.read_exact(&mut actual_input).unwrap();
    assert_eq!(&actual_input, TEST_MSG_MODIFIED);
}

#[test]
fn unix() {
    let Some(folder) = scratch("stale", &["test.socket"]) else { return };
    let path = format!("{folder}/test.socket");
    let address: SocketAddr = path.parse().unwrap();

    // Do this twice, in order to verify that deleting and replacing the Unix
    // socket works.
    for _ in 0..=1 {
        let app_options = SocketAppOptions::new(SocketType::Stream);
        let mut user_options = SocketUserOptions::default();
        user_options.unix_socket_permissions = Some(0o660);

        let plan = open(&address, &app_options, &user_options, &Platform::linux(), None).unwrap();
        let socket = perform(&plan, &path).unwrap();
        assert_eq!(socket.is_listener().unwrap(), true);

        let mode = file_mode(&path).unwrap();
        assert!(is_unix_socket(mode));
        let perms = mode & 0o7777;
        assert_eq!(perms, 0o660);

        echo_incr(&socket, &path);
    }

    let app_options = SocketAppOptions::new(SocketType::Stream);
    let mut user_options = SocketUserOptions::default();

    // With the removal switched off, the address is in use.
    user_options.unix_socket_no_unlink = true;
    let plan = open(&address, &app_options, &user_options, &Platform::linux(), None).unwrap();
    match perform(&plan, &path) {
        Err(OpenSocketError::Bind { error }) => assert_eq!(error.kind, IoErrorKind::AddrInUse),
        other => panic!("expected the address to be in use, got {other:?}"),
    }
    remove(&folder, &["test.socket"]);
}

#[test]
fn permissions_are_exactly_those_asked_for() {
    let Some(folder) = scratch("mode", &["a", "b", "c", "d", "e"]) else { return };
    for (name, mode) in [("a", 0o600), ("b", 0o666), ("c", 0o640), ("d", 0o777), ("e", 0o000)] {
        let path = format!("{folder}/{name}");
        let address = SocketAddr::Unix { path: path.clone() };
        let mut app_options = SocketAppOptions::new(SocketType::Datagram);
        app_options.listen = false;
        let mut user_options = SocketUserOptions::default();
        user_options.unix_socket_permissions = Some(mode);
        user_options.unix_socket_owner =
            Some(socket_config::UnixPrincipal::Id(nix::unistd::Uid::current().as_raw()));
        let plan = open(&address, &app_options, &user_options, &Platform::linux(), None).unwrap();
        let socket = perform(&plan, &path).unwrap();
        assert_eq!(file_mode(&path).unwrap() & 0o7777, mode);
        drop(socket);
    }
    remove(&folder, &["a", "b", "c", "d", "e"]);
}

#[test]
fn test_is_unix_socket() {
    let Some(folder) = scratch("is-socket", &["test1.socket"]) else { return };
    let socket_path = format!("{folder}/test1.socket");
    let is_socket = |path: &str| file_mode(path).map(is_unix_socket);

    // First try creating a folder at that path: that is no socket.
    let _ = nix::unistd::unlink(socket_path.as_str());
    nix::unistd::mkdir(socket_path.as_str(), nix::sys::stat::Mode::S_IRWXU).unwrap();
    assert!(matches!(is_socket(&socket_path), Ok(false)));

    // Try removing the folder: now nothing is found.
    nix::unistd::unlinkat(None, socket_path.as_str(), nix::unistd::UnlinkatFlags::RemoveDir)
        .unwrap();
    assert!(matches!(
        is_socket(&socket_path),
        Err(error) if error.kind() == std::io::ErrorKind::NotFound
    ));

    // Try creating an actual socket.
    let socket = socket2::Socket::new(socket2::Domain::UNIX, socket2::Type::STREAM, None).unwrap();
    socket.bind(&socket2::SockAddr::unix(&socket_path).unwrap()).unwrap();
    assert!(matches!(is_socket(&socket_path), Ok(true)));

    drop(socket);
    remove(&folder, &["test1.socket"]);
}

#[test]
fn cleanup_on_the_system() {
    let Some(folder) = scratch("cleanup", &["x"]) else { return };
    let path = format!("{folder}/x");
    let address = SocketAddr::Unix { path: path.clone() };

    // Nothing is there.
    assert_eq!(clean(&address, &path), CleanupAction::Done);

    // A folder is there, and stays.
    nix::unistd::mkdir(path.as_str(), nix::sys::stat::Mode::S_IRWXU).unwrap();
    assert_eq!(clean(&address, &path), CleanupAction::Done);
    assert!(!is_unix_socket(file_mode(&path).unwrap()));
    nix::unistd::unlinkat(None, path.as_str(), nix::unistd::UnlinkatFlags::RemoveDir).unwrap();

    // A socket is there, and goes.
    let socket = socket2::Socket::new(socket2::Domain::UNIX, socket2::Type::STREAM, None).unwrap();
    socket.bind(&socket2::SockAddr::unix(&path).unwrap()).unwrap();
    assert!(is_unix_socket(file_mode(&path).unwrap()));
    assert_eq!(clean(&address, &path), CleanupAction::Done);
    assert_eq!(file_mode(&path).unwrap_err().kind(), std::io::ErrorKind::NotFound);
    assert_eq!(clean(&address, &path), CleanupAction::Done);
    drop(socket);
    remove(&folder, &[]);
}
