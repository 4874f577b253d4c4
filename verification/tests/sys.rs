use socket_config::errors::OpenSocketError;
use socket_config::sys::{is_unix_socket_reparse_point, Inheritance};
use socket_config::{
    check_inapplicable, check_inapplicable_bool, inapplicable, get_stdin_as_socket,
    make_socket_inheritable, in_activation_window, is_socket_probably_tcp, is_unix_socket,
    listen_fds_end, startup_socket_api, Platform, SocketAppOptions, SocketDomain, SocketProtocol,
    SocketType,
};

#[test]
fn socket_is_told_by_its_file_mode() {
    // A folder is no socket.
    assert!(!is_unix_socket(0o040755));
    // Neither is a regular file, a symbolic link, or a pipe.
    assert!(!is_unix_socket(0o100644));
    assert!(!is_unix_socket(0o120777));
    assert!(!is_unix_socket(0o010600));
    assert!(!is_unix_socket(0));
    // A socket is, whatever its permissions.
    assert!(is_unix_socket(0o140755));
    assert!(is_unix_socket(0o140000));
    assert!(is_unix_socket(0o147777));
}

#[test]
fn reparse_points_with_the_socket_tag_are_sockets() {
    assert!(is_unix_socket_reparse_point(0x400, 0x80000023));
    assert!(is_unix_socket_reparse_point(0x420, 0x80000023));
    assert!(!is_unix_socket_reparse_point(0x20, 0x80000023));
    assert!(!is_unix_socket_reparse_point(0x400, 0xA000000C));
    assert!(!is_unix_socket_reparse_point(0, 0));
}

#[test]
fn stdin_is_descriptor_zero_where_sockets_are_descriptors() {
    startup_socket_api();
    assert_eq!(get_stdin_as_socket(&Platform::linux()), Some(0));
    assert_eq!(get_stdin_as_socket(&Platform::unix()), Some(0));
    assert_eq!(get_stdin_as_socket(&Platform::windows()), None);
}

#[test]
fn inheritable_descriptors_are_not_closed_on_exec() {
    assert_eq!(make_socket_inheritable(true, &Platform::linux()), Inheritance::CloseOnExec(false));
    assert_eq!(make_socket_inheritable(false, &Platform::linux()), Inheritance::CloseOnExec(true));
    assert_eq!(
        make_socket_inheritable(true, &Platform::windows()),
        Inheritance::InheritHandle(true),
    );
    assert_eq!(
        make_socket_inheritable(false, &Platform::windows()),
        Inheritance::InheritHandle(false)
    );
}

#[test]
fn activation_window_comes_from_the_environment() {
    assert_eq!(listen_fds_end(Some("100"), Some("1"), 100), Some(4));
    assert_eq!(listen_fds_end(Some("100"), Some("3"), 100), Some(6));
    assert_eq!(listen_fds_end(Some("+100"), Some("03"), 100), Some(6));
    assert_eq!(listen_fds_end(Some("100"), Some("18446744073709551615"), 100), Some(u64::MAX));
    assert_eq!(listen_fds_end(Some("100"), Some("18446744073709551612"), 100), Some(u64::MAX));
    assert_eq!(listen_fds_end(Some("100"), Some("18446744073709551611"), 100), Some(u64::MAX - 1));
    // Another process was meant.
    assert_eq!(listen_fds_end(Some("101"), Some("1"), 100), None);
    // Nothing was handed over.
    assert_eq!(listen_fds_end(Some("100"), Some("0"), 100), None);
    // A variable is missing or does not hold a number.
    assert_eq!(listen_fds_end(None, Some("1"), 100), None);
    assert_eq!(listen_fds_end(Some("100"), None, 100), None);
    assert_eq!(listen_fds_end(None, None, 100), None);
    assert_eq!(listen_fds_end(Some(""), Some("1"), 0), None);
    assert_eq!(listen_fds_end(Some("100"), Some("-1"), 100), None);
    assert_eq!(listen_fds_end(Some("100"), Some("one"), 100), None);
    assert_eq!(listen_fds_end(Some("4294967296"), Some("1"), 0), None);
    assert_eq!(listen_fds_end(Some("100 "), Some("1"), 100), None);
    assert_eq!(listen_fds_end(Some("4294967295"), Some("1"), u32::MAX), Some(4));
}

#[test]
fn activation_window_starts_at_three() {
    assert!(in_activation_window(3, Some(4)));
    assert!(!in_activation_window(4, Some(4)));
    assert!(!in_activation_window(2, Some(4)));
    assert!(in_activation_window(9, Some(10)));
    assert!(!in_activation_window(3, None));
    assert!(!in_activation_window(3, Some(3)));
    assert!(!in_activation_window(3, Some(0)));
    assert!(in_activation_window(u64::MAX - 1, Some(u64::MAX)));
}

#[test]
fn tcp_is_what_the_application_or_the_socket_says() {
    let mut app = SocketAppOptions::new(SocketType::Stream);
    let tcp = Some(SocketProtocol::Tcp);
    let udp = Some(SocketProtocol::Udp);
    assert!(is_socket_probably_tcp(None, SocketDomain::Ipv4, &app));
    assert!(is_socket_probably_tcp(None, SocketDomain::Ipv6, &app));
    assert!(!is_socket_probably_tcp(None, SocketDomain::Unix, &app));
    assert!(is_socket_probably_tcp(tcp, SocketDomain::Unix, &app));
    assert!(!is_socket_probably_tcp(udp, SocketDomain::Ipv4, &app));
    app.protocol = udp;
    assert!(!is_socket_probably_tcp(tcp, SocketDomain::Ipv4, &app));
    app.protocol = tcp;
    assert!(is_socket_probably_tcp(udp, SocketDomain::Unix, &app));
    let datagram = SocketAppOptions::new(SocketType::Datagram);
    assert!(!is_socket_probably_tcp(None, SocketDomain::Ipv4, &datagram));
}

#[test]
fn inapplicable_options_are_named() {
    let error = OpenSocketError::InapplicableUserOption { name: "ip_socket_v6_only" };
    assert_eq!(inapplicable::<u8>("ip_socket_v6_only"), Err(error));
    assert_eq!(check_inapplicable(Some(1), "ip_socket_v6_only"), Err(error));
    assert_eq!(check_inapplicable::<u8>(None, "ip_socket_v6_only"), Ok(()));
    assert_eq!(check_inapplicable_bool(true, "ip_socket_v6_only"), Err(error));
    assert_eq!(check_inapplicable_bool(false, "ip_socket_v6_only"), Ok(()));
}
