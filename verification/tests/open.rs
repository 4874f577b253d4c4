use socket_config::errors::{
    CleanupSocketError, IoError, IoErrorKind, OpenErrorClass, OpenSocketError,
};
use socket_config::{
    open, BindAddress, IpAddress, Ipv4Address, Ipv6Address, OpenAction, OpenOutcome, OpenPlan,
    OpenStage, Platform, SocketAddr, SocketAppOptions, SocketDomain, SocketProtocol, SocketType,
    SocketUserOptions, UnixPrincipal,
};

fn localhost() -> IpAddress {
    IpAddress::V4(Ipv4Address::localhost())
}

fn stream() -> SocketAppOptions {
    SocketAppOptions::new(SocketType::Stream)
}

fn user() -> SocketUserOptions {
    SocketUserOptions::default()
}

fn os_error(kind: IoErrorKind, code: i32) -> IoError {
    IoError { kind, code: Some(code) }
}

/// Carries a plan out against a script of outcomes, one for each action, and
/// returns the actions in the order in which they were asked for.
fn run(plan: &OpenPlan, script: &[OpenOutcome]) -> Vec<OpenAction> {
    let mut actions = Vec::new();
    let (mut stage, mut action) = plan.start();
    let mut answers = script.iter();
    loop {
        actions.push(action);
        if matches!(action, OpenAction::Done | OpenAction::Fail(_)) {
            assert_eq!(stage, OpenStage::Finished);
            assert!(answers.next().is_none(), "the run ended before the script did");
            return actions;
        }
        let outcome = *answers.next().expect("the script ended before the run did");
        (stage, action) = plan.next(stage, outcome);
    }
}

fn open_on_linux(
    address: &SocketAddr,
    app: &SocketAppOptions,
    user: &SocketUserOptions,
) -> Result<OpenPlan, OpenSocketError> {
    open(address, app, user, &Platform::linux(), None)
}

fn inapplicable(name: &'static str) -> OpenSocketError {
    OpenSocketError::InapplicableUserOption { name }
}

#[test]
fn udp() {
    let mut app_options = SocketAppOptions::new(SocketType::Datagram);
    app_options.protocol = Some(SocketProtocol::Udp);
    app_options.default_port = Some(0);

    let user_options = SocketUserOptions::default();

    let address: SocketAddr = "127.0.0.1".parse().unwrap();
    let plan = open_on_linux(&address, &app_options, &user_options).unwrap();
    let actions = run(&plan, &[OpenOutcome::Done, OpenOutcome::Done]);
    assert_eq!(
        actions,
        vec![
            OpenAction::CreateSocket {
                domain: SocketDomain::Ipv4,
                socket_type: SocketType::Datagram,
                protocol: Some(SocketProtocol::Udp),
            },
            OpenAction::Bind { address: BindAddress::Ip { addr: localhost(), port: 0 } },
            OpenAction::Done,
        ]
    );
}

#[test]
fn unix_socket_steps() {
    // Do this twice: the second time there is a stale socket to replace.
    for stale in [false, true] {
        let app_options = SocketAppOptions::new(SocketType::Stream);
        let mut user_options = SocketUserOptions::default();
        user_options.unix_socket_permissions = Some(0o660);

        let address: SocketAddr = "./target/test.socket".parse().unwrap();
        let plan = open_on_linux(&address, &app_options, &user_options).unwrap();

        let mut script = vec![OpenOutcome::Done];
        let mut expected = vec![OpenAction::CreateSocket {
            domain: SocketDomain::Unix,
            socket_type: SocketType::Stream,
            protocol: None,
        }];
        expected.push(OpenAction::CheckStale);
        if stale {
            script.push(OpenOutcome::Flag(true));
            expected.push(OpenAction::RemoveStale);
            script.push(OpenOutcome::Done);
        } else {
            script.push(OpenOutcome::Failed(os_error(IoErrorKind::NotFound, 2)));
        }
        expected.push(OpenAction::MkdirParents);
        script.push(OpenOutcome::Done);
        expected.push(OpenAction::QueryProtocol);
        script.push(OpenOutcome::Protocol(Some(SocketProtocol::Other(0))));
        expected.push(OpenAction::Bind { address: BindAddress::Unix });
        script.push(OpenOutcome::Done);
        expected.push(OpenAction::SetPermissions { mode: 0o660 });
        script.push(OpenOutcome::Done);
        expected.push(OpenAction::Listen { backlog: 128 });
        script.push(OpenOutcome::Done);
        expected.push(OpenAction::Done);

        assert_eq!(run(&plan, &script), expected);
    }
}

#[test]
fn inherit() {
    let address: SocketAddr = "fd:5".parse().unwrap();
    let plan = open_on_linux(&address, &stream(), &user()).unwrap();
    let actions = run(
        &plan,
        &[OpenOutcome::Done, OpenOutcome::Type(SocketType::Stream), OpenOutcome::Flag(true)],
    );
    assert_eq!(
        actions,
        vec![
            OpenAction::Duplicate { socket: 5 },
            OpenAction::QueryType,
            OpenAction::QueryListening,
            OpenAction::Done,
        ]
    );
}

#[test]
fn default_port_is_substituted() {
    let address = SocketAddr::Ip { addr: localhost(), port: None };
    let mut app = stream();
    app.default_port = Some(27910);
    let plan = open_on_linux(&address, &app, &user()).unwrap();
    match plan {
        OpenPlan::New(new) => {
            assert_eq!(new.bind, BindAddress::Ip { addr: localhost(), port: 27910 });
            assert_eq!(new.domain, SocketDomain::Ipv4);
            assert_eq!(new.listen_backlog, Some(128));
        }
        OpenPlan::Inherit(_) => panic!("an IP address is not inherited"),
    }
    let actions = run(
        &plan,
        &[
            OpenOutcome::Done,
            OpenOutcome::Protocol(Some(SocketProtocol::Tcp)),
            OpenOutcome::Done,
            OpenOutcome::Done,
            OpenOutcome::Done,
        ],
    );
    assert_eq!(
        actions,
        vec![
            OpenAction::CreateSocket {
                domain: SocketDomain::Ipv4,
                socket_type: SocketType::Stream,
                protocol: None,
            },
            OpenAction::QueryProtocol,
            OpenAction::SetReuseAddress,
            OpenAction::Bind { address: BindAddress::Ip { addr: localhost(), port: 27910 } },
            OpenAction::Listen { backlog: 128 },
            OpenAction::Done,
        ]
    );

    app.default_port = None;
    assert_eq!(open_on_linux(&address, &app, &user()), Err(OpenSocketError::PortRequired));
}

#[test]
fn explicit_port_wins_over_the_default() {
    let address = SocketAddr::Ip { addr: localhost(), port: Some(80) };
    let mut app = stream();
    app.default_port = Some(27910);
    match open_on_linux(&address, &app, &user()).unwrap() {
        OpenPlan::New(new) => {
            assert_eq!(new.bind, BindAddress::Ip { addr: localhost(), port: 80 })
        }
        OpenPlan::Inherit(_) => panic!("an IP address is not inherited"),
    }
    app.default_port = None;
    assert!(open_on_linux(&address, &app, &user()).is_ok());
}

fn with_each_inapplicable_option() -> Vec<(SocketUserOptions, &'static str)> {
    let mut all = Vec::new();
    let mut options = user();
    options.unix_socket_permissions = Some(0o600);
    all.push((options, "unix_socket_permissions"));
    let mut options = user();
    options.unix_socket_owner = Some(UnixPrincipal::Id(0));
    all.push((options, "unix_socket_owner"));
    let mut options = user();
    options.unix_socket_owner = Some(UnixPrincipal::Name("root".into()));
    all.push((options, "unix_socket_owner"));
    let mut options = user();
    options.unix_socket_group = Some(UnixPrincipal::Id(0));
    all.push((options, "unix_socket_group"));
    let mut options = user();
    options.ip_socket_reuse_port = true;
    all.push((options, "ip_socket_reuse_port"));
    let mut options = user();
    options.ip_socket_v6_only = true;
    all.push((options, "ip_socket_v6_only"));
    let mut options = user();
    options.listen_socket_backlog = Some(5);
    all.push((options, "listen_socket_backlog"));
    all
}

#[test]
fn inherited_sockets_take_none_of_the_options() {
    for platform in [Platform::linux(), Platform::unix(), Platform::windows()] {
        for (options, name) in with_each_inapplicable_option() {
            for address in [SocketAddr::new_inherit(3), SocketAddr::new_inherit(0)] {
                assert_eq!(
                    open(&address, &stream(), &options, &platform, None),
                    Err(inapplicable(name))
                );
            }
        }
    }
    for (options, name) in with_each_inapplicable_option() {
        assert_eq!(
            open(&SocketAddr::InheritStdin, &stream(), &options, &Platform::linux(), None),
            Err(inapplicable(name))
        );
        assert_eq!(
            open(
                &SocketAddr::new_systemd_numeric(3),
                &stream(),
                &options,
                &Platform::linux(),
                Some(4)
            ),
            Err(inapplicable(name))
        );
    }
}

#[test]
fn stdin_handle_is_looked_up_before_options_are_rejected() {
    for (options, name) in with_each_inapplicable_option() {
        let plan = open(&SocketAddr::InheritStdin, &stream(), &options, &Platform::windows(), None)
            .unwrap();
        assert_eq!(
            run(&plan, &[OpenOutcome::Handle(456)]),
            vec![OpenAction::GetStdin, OpenAction::Fail(inapplicable(name))]
        );
    }
    let plan =
        open(&SocketAddr::InheritStdin, &stream(), &user(), &Platform::windows(), None).unwrap();
    let failed = os_error(IoErrorKind::Other, 6);
    assert_eq!(
        run(&plan, &[OpenOutcome::Failed(failed)]),
        vec![
            OpenAction::GetStdin,
            OpenAction::Fail(OpenSocketError::WindowsGetStdin { error: failed })
        ]
    );
    assert_eq!(
        run(
            &plan,
            &[
                OpenOutcome::Handle(456),
                OpenOutcome::Done,
                OpenOutcome::Type(SocketType::Stream),
                OpenOutcome::Flag(true)
            ]
        ),
        vec![
            OpenAction::GetStdin,
            OpenAction::Duplicate { socket: 456 },
            OpenAction::QueryType,
            OpenAction::QueryListening,
            OpenAction::Done
        ]
    );
}

#[test]
fn first_inapplicable_option_is_named() {
    let mut options = user();
    options.listen_socket_backlog = Some(1);
    options.ip_socket_v6_only = true;
    options.unix_socket_group = Some(UnixPrincipal::Id(1));
    assert_eq!(
        open_on_linux(&SocketAddr::new_inherit(3), &stream(), &options),
        Err(inapplicable("unix_socket_group"))
    );
    options.unix_socket_group = None;
    assert_eq!(
        open_on_linux(&SocketAddr::new_inherit(3), &stream(), &options),
        Err(inapplicable("ip_socket_v6_only"))
    );
}

#[test]
fn security_options_need_a_path() {
    let address = SocketAddr::Ip { addr: localhost(), port: Some(1) };
    for (options, name) in with_each_inapplicable_option() {
        let result = open_on_linux(&address, &stream(), &options);
        if name.starts_with("unix_socket_") {
            assert_eq!(result, Err(inapplicable(name)));
        } else {
            assert!(result.is_ok(), "{name}");
        }
    }
    let path = SocketAddr::Unix { path: "/run/x".into() };
    for (options, name) in with_each_inapplicable_option() {
        assert!(open_on_linux(&path, &stream(), &options).is_ok(), "{name}");
        let result = open(&path, &stream(), &options, &Platform::windows(), None);
        if name.starts_with("unix_socket_") || name == "ip_socket_reuse_port" {
            assert_eq!(result, Err(inapplicable(name)));
        } else {
            assert!(result.is_ok(), "{name}");
        }
    }
}

#[test]
fn backlog_needs_a_listening_stream_socket() {
    let address = SocketAddr::Ip { addr: localhost(), port: Some(1) };
    let mut options = user();
    options.listen_socket_backlog = Some(7);

    match open_on_linux(&address, &stream(), &options).unwrap() {
        OpenPlan::New(new) => assert_eq!(new.listen_backlog, Some(7)),
        OpenPlan::Inherit(_) => panic!("an IP address is not inherited"),
    }
    let mut quiet = stream();
    quiet.listen = false;
    assert_eq!(
        open_on_linux(&address, &quiet, &options),
        Err(inapplicable("listen_socket_backlog"))
    );
    assert_eq!(
        open_on_linux(&address, &SocketAppOptions::new(SocketType::Datagram), &options),
        Err(inapplicable("listen_socket_backlog"))
    );
    match open_on_linux(&address, &quiet, &user()).unwrap() {
        OpenPlan::New(new) => assert_eq!(new.listen_backlog, None),
        OpenPlan::Inherit(_) => panic!("an IP address is not inherited"),
    }
}

#[test]
fn inherited_socket_can_be_opened_again() {
    let address = SocketAddr::new_inherit(9);
    let script =
        [OpenOutcome::Done, OpenOutcome::Type(SocketType::Stream), OpenOutcome::Flag(true)];
    let first = run(&open_on_linux(&address, &stream(), &user()).unwrap(), &script);
    let second = run(&open_on_linux(&address, &stream(), &user()).unwrap(), &script);
    assert_eq!(first, second);
    assert_eq!(first[0], OpenAction::Duplicate { socket: 9 });
    assert_eq!(first.last(), Some(&OpenAction::Done));
    assert_eq!(address, SocketAddr::new_inherit(9));
}

#[test]
fn inherited_socket_of_wrong_type_is_refused() {
    let plan = open_on_linux(&SocketAddr::new_inherit(4), &stream(), &user()).unwrap();
    assert_eq!(
        run(&plan, &[OpenOutcome::Done, OpenOutcome::Type(SocketType::Datagram)]),
        vec![
            OpenAction::Duplicate { socket: 4 },
            OpenAction::QueryType,
            OpenAction::Fail(OpenSocketError::InheritWrongType {
                expected: SocketType::Stream,
                actual: SocketType::Datagram,
            }),
        ]
    );
}

#[test]
fn inherited_socket_failures() {
    let plan = open_on_linux(&SocketAddr::new_inherit(4), &stream(), &user()).unwrap();
    let bad = os_error(IoErrorKind::Other, 9);
    assert_eq!(
        run(&plan, &[OpenOutcome::Failed(bad)]),
        vec![
            OpenAction::Duplicate { socket: 4 },
            OpenAction::Fail(OpenSocketError::DupInherited { error: bad })
        ]
    );
    let not_socket = os_error(IoErrorKind::Other, 88);
    assert_eq!(
        run(&plan, &[OpenOutcome::Done, OpenOutcome::Failed(not_socket)]),
        vec![
            OpenAction::Duplicate { socket: 4 },
            OpenAction::QueryType,
            OpenAction::Fail(OpenSocketError::CheckInheritedSocket { error: not_socket })
        ]
    );
}

#[test]
fn listening_state_of_inherited_socket_is_checked() {
    let address = SocketAddr::new_inherit(4);
    let answers = |listening| {
        [OpenOutcome::Done, OpenOutcome::Type(SocketType::Stream), OpenOutcome::Flag(listening)]
    };
    let plan = open_on_linux(&address, &stream(), &user()).unwrap();
    assert_eq!(
        run(&plan, &answers(false)).last(),
        Some(&OpenAction::Fail(OpenSocketError::InheritedIsNotListening))
    );
    assert_eq!(run(&plan, &answers(true)).last(), Some(&OpenAction::Done));

    let mut quiet = stream();
    quiet.listen = false;
    let plan = open_on_linux(&address, &quiet, &user()).unwrap();
    assert_eq!(
        run(&plan, &answers(true)).last(),
        Some(&OpenAction::Fail(OpenSocketError::InheritedIsListening))
    );
    assert_eq!(run(&plan, &answers(false)).last(), Some(&OpenAction::Done));

    // A failed query is no error: the check is skipped.
    let plan = open_on_linux(&address, &stream(), &user()).unwrap();
    assert_eq!(
        run(
            &plan,
            &[
                OpenOutcome::Done,
                OpenOutcome::Type(SocketType::Stream),
                OpenOutcome::Failed(os_error(IoErrorKind::Unsupported, 92))
            ]
        )
        .last(),
        Some(&OpenAction::Done)
    );

    // Where the platform cannot tell, nothing is asked.
    let plan = open(&address, &stream(), &user(), &Platform::unix(), None).unwrap();
    assert_eq!(
        run(&plan, &[OpenOutcome::Done, OpenOutcome::Type(SocketType::Stream)]),
        vec![OpenAction::Duplicate { socket: 4 }, OpenAction::QueryType, OpenAction::Done]
    );

    // A datagram socket is never asked.
    let datagram = SocketAppOptions::new(SocketType::Datagram);
    let plan = open_on_linux(&address, &datagram, &user()).unwrap();
    assert_eq!(
        run(&plan, &[OpenOutcome::Done, OpenOutcome::Type(SocketType::Datagram)]),
        vec![OpenAction::Duplicate { socket: 4 }, OpenAction::QueryType, OpenAction::Done]
    );
}

#[test]
fn activation_socket_must_lie_in_the_window() {
    let open_slot = |socket, end| {
        open(&SocketAddr::new_systemd_numeric(socket), &stream(), &user(), &Platform::linux(), end)
    };
    assert!(open_slot(3, Some(4)).is_ok());
    assert!(open_slot(3, Some(6)).is_ok());
    assert!(open_slot(5, Some(6)).is_ok());
    assert_eq!(open_slot(6, Some(6)), Err(OpenSocketError::InvalidSystemdFd));
    assert_eq!(open_slot(2, Some(6)), Err(OpenSocketError::InvalidSystemdFd));
    assert_eq!(open_slot(0, Some(6)), Err(OpenSocketError::InvalidSystemdFd));
    assert_eq!(open_slot(3, None), Err(OpenSocketError::InvalidSystemdFd));
    assert_eq!(
        open(
            &SocketAddr::new_systemd_numeric(3),
            &stream(),
            &user(),
            &Platform::windows(),
            Some(4)
        ),
        Err(OpenSocketError::ActivationNotSupported)
    );
    match open_slot(4, Some(6)).unwrap() {
        OpenPlan::Inherit(plan) => assert_eq!(plan.socket, Some(4)),
        OpenPlan::New(_) => panic!("a socket from activation is inherited"),
    }
}

#[test]
fn stale_socket_is_replaced_unless_told_otherwise() {
    let address = SocketAddr::Unix { path: "/run/app.sock".into() };
    let mut quiet = stream();
    quiet.listen = false;

    let plan = open_on_linux(&address, &quiet, &user()).unwrap();
    let create = OpenAction::CreateSocket {
        domain: SocketDomain::Unix,
        socket_type: SocketType::Stream,
        protocol: None,
    };
    let bind = OpenAction::Bind { address: BindAddress::Unix };
    assert_eq!(
        run(
            &plan,
            &[
                OpenOutcome::Done,
                OpenOutcome::Flag(true),
                OpenOutcome::Done,
                OpenOutcome::Done,
                OpenOutcome::Done
            ]
        ),
        vec![
            create,
            OpenAction::CheckStale,
            OpenAction::RemoveStale,
            OpenAction::MkdirParents,
            bind,
            OpenAction::Done
        ]
    );
    // A file that is no socket is left alone.
    assert_eq!(
        run(
            &plan,
            &[OpenOutcome::Done, OpenOutcome::Flag(false), OpenOutcome::Done, OpenOutcome::Done]
        ),
        vec![create, OpenAction::CheckStale, OpenAction::MkdirParents, bind, OpenAction::Done]
    );
    // The socket may vanish between the check and the removal.
    assert_eq!(
        run(
            &plan,
            &[
                OpenOutcome::Done,
                OpenOutcome::Flag(true),
                OpenOutcome::Failed(os_error(IoErrorKind::NotFound, 2)),
                OpenOutcome::Done,
                OpenOutcome::Done
            ]
        )
        .last(),
        Some(&OpenAction::Done)
    );
    let denied = os_error(IoErrorKind::PermissionDenied, 13);
    assert_eq!(
        run(&plan, &[OpenOutcome::Done, OpenOutcome::Failed(denied)]).last(),
        Some(&OpenAction::Fail(OpenSocketError::Cleanup(CleanupSocketError::Stat {
            error: denied
        })))
    );
    assert_eq!(
        run(&plan, &[OpenOutcome::Done, OpenOutcome::Flag(true), OpenOutcome::Failed(denied)])
            .last(),
        Some(&OpenAction::Fail(OpenSocketError::Cleanup(CleanupSocketError::Unlink {
            error: denied
        })))
    );

    let mut keep = user();
    keep.unix_socket_no_unlink = true;
    let plan = open_on_linux(&address, &quiet, &keep).unwrap();
    let in_use = os_error(IoErrorKind::AddrInUse, 98);
    assert_eq!(
        run(&plan, &[OpenOutcome::Done, OpenOutcome::Done, OpenOutcome::Failed(in_use)]),
        vec![
            create,
            OpenAction::MkdirParents,
            bind,
            OpenAction::Fail(OpenSocketError::Bind { error: in_use })
        ]
    );
}

#[test]
fn owner_is_set_before_permissions_and_both_between_bind_and_listen() {
    let address = SocketAddr::Unix { path: "/run/app.sock".into() };
    let mut options = user();
    options.unix_socket_permissions = Some(0o640);
    options.unix_socket_owner = Some(UnixPrincipal::Name("daemon".into()));
    options.unix_socket_group = Some(UnixPrincipal::Name("staff".into()));
    options.unix_socket_no_unlink = true;
    let mut app = stream();
    app.protocol = Some(SocketProtocol::Other(0));
    let plan = open_on_linux(&address, &app, &options).unwrap();
    let actions = run(
        &plan,
        &[
            OpenOutcome::Done,
            OpenOutcome::Done,
            OpenOutcome::Done,
            OpenOutcome::Id(Some(2)),
            OpenOutcome::Id(Some(50)),
            OpenOutcome::Done,
            OpenOutcome::Done,
            OpenOutcome::Done,
        ],
    );
    assert_eq!(
        actions,
        vec![
            OpenAction::CreateSocket {
                domain: SocketDomain::Unix,
                socket_type: SocketType::Stream,
                protocol: Some(SocketProtocol::Other(0)),
            },
            OpenAction::MkdirParents,
            OpenAction::Bind { address: BindAddress::Unix },
            OpenAction::LookupOwner,
            OpenAction::LookupGroup,
            OpenAction::SetOwner { owner: Some(2), group: Some(50) },
            OpenAction::SetPermissions { mode: 0o640 },
            OpenAction::Listen { backlog: 128 },
            OpenAction::Done,
        ]
    );

    let lookup = [OpenOutcome::Done, OpenOutcome::Done, OpenOutcome::Done];
    let ends_with = |more: &[OpenOutcome]| {
        let mut script = lookup.to_vec();
        script.extend_from_slice(more);
        *run(&plan, &script).last().unwrap()
    };
    let failed = os_error(IoErrorKind::Other, 5);
    assert_eq!(
        ends_with(&[OpenOutcome::Id(None)]),
        OpenAction::Fail(OpenSocketError::OwnerNotFound),
    );
    assert_eq!(
        ends_with(&[OpenOutcome::Failed(failed)]),
        OpenAction::Fail(OpenSocketError::LookupOwner { error: failed })
    );
    assert_eq!(
        ends_with(&[OpenOutcome::Id(Some(2)), OpenOutcome::Id(None)]),
        OpenAction::Fail(OpenSocketError::GroupNotFound)
    );
    assert_eq!(
        ends_with(&[OpenOutcome::Id(Some(2)), OpenOutcome::Failed(failed)]),
        OpenAction::Fail(OpenSocketError::LookupGroup { error: failed })
    );
    assert_eq!(
        ends_with(&[
            OpenOutcome::Id(Some(2)),
            OpenOutcome::Id(Some(50)),
            OpenOutcome::Failed(failed)
        ]),
        OpenAction::Fail(OpenSocketError::SetOwner { error: failed })
    );
    assert_eq!(
        ends_with(&[
            OpenOutcome::Id(Some(2)),
            OpenOutcome::Id(Some(50)),
            OpenOutcome::Done,
            OpenOutcome::Failed(failed)
        ]),
        OpenAction::Fail(OpenSocketError::SetPermissions { error: failed })
    );
}

#[test]
fn owner_by_number_needs_no_lookup() {
    let address = SocketAddr::Unix { path: "/run/app.sock".into() };
    let mut options = user();
    options.unix_socket_group = Some(UnixPrincipal::Id(33));
    options.unix_socket_no_unlink = true;
    let mut app = SocketAppOptions::new(SocketType::Datagram);
    app.before_bind = true;
    let plan = open_on_linux(&address, &app, &options).unwrap();
    assert_eq!(
        run(
            &plan,
            &[OpenOutcome::Done; 5]
        ),
        vec![
            OpenAction::CreateSocket {
                domain: SocketDomain::Unix,
                socket_type: SocketType::Datagram,
                protocol: None,
            },
            OpenAction::MkdirParents,
            OpenAction::BeforeBind,
            OpenAction::Bind { address: BindAddress::Unix },
            OpenAction::SetOwner { owner: None, group: Some(33) },
            OpenAction::Done,
        ]
    );
}

#[test]
fn socket_options_are_set_in_order_before_the_hook() {
    let address = SocketAddr::Ip {
        addr: IpAddress::V6(Ipv6Address::new(0, 0, 0, 0, 0, 0, 0, 1)),
        port: Some(443),
    };
    let mut options = user();
    options.ip_socket_reuse_port = true;
    options.ip_socket_v6_only = true;
    options.listen_socket_backlog = Some(16);
    let mut app = stream();
    app.protocol = Some(SocketProtocol::Tcp);
    app.before_bind = true;
    let plan = open_on_linux(&address, &app, &options).unwrap();
    let create = OpenAction::CreateSocket {
        domain: SocketDomain::Ipv6,
        socket_type: SocketType::Stream,
        protocol: Some(SocketProtocol::Tcp),
    };
    assert_eq!(
        run(&plan, &[OpenOutcome::Done; 7]),
        vec![
            create,
            OpenAction::SetReuseAddress,
            OpenAction::SetReusePort,
            OpenAction::SetOnlyV6,
            OpenAction::BeforeBind,
            OpenAction::Bind { address: BindAddress::Ip { addr: address_ip(&address), port: 443 } },
            OpenAction::Listen { backlog: 16 },
            OpenAction::Done,
        ]
    );

    let failed = os_error(IoErrorKind::InvalidInput, 22);
    let fails_at = |step: usize| {
        let mut script = vec![OpenOutcome::Done; step];
        script.push(OpenOutcome::Failed(failed));
        *run(&plan, &script).last().unwrap()
    };
    assert_eq!(fails_at(0), OpenAction::Fail(OpenSocketError::CreateSocket { error: failed }));
    assert_eq!(
        fails_at(1),
        OpenAction::Fail(OpenSocketError::SetSockOpt { option: "SO_REUSEADDR", error: failed })
    );
    assert_eq!(
        fails_at(2),
        OpenAction::Fail(OpenSocketError::SetSockOpt { option: "SO_REUSEPORT", error: failed })
    );
    assert_eq!(
        fails_at(3),
        OpenAction::Fail(OpenSocketError::SetSockOpt { option: "IPV6_V6ONLY", error: failed })
    );
    assert_eq!(fails_at(4), OpenAction::Fail(OpenSocketError::BeforeBind(failed)));
    assert_eq!(fails_at(5), OpenAction::Fail(OpenSocketError::Bind { error: failed }));
    assert_eq!(fails_at(6), OpenAction::Fail(OpenSocketError::Listen { error: failed }));
}

fn address_ip(address: &SocketAddr) -> IpAddress {
    match address {
        SocketAddr::Ip { addr, .. } => *addr,
        _ => panic!("not an IP address"),
    }
}

#[test]
fn reuse_address_is_for_listening_tcp_sockets() {
    let address = SocketAddr::Ip { addr: localhost(), port: Some(1) };
    let second = |app: &SocketAppOptions, platform: &Platform, answer: Option<OpenOutcome>| {
        let plan = open(&address, app, &user(), platform, None).unwrap();
        let (stage, _) = plan.start();
        let (mut stage, mut action) = plan.next(stage, OpenOutcome::Done);
        if let Some(answer) = answer {
            assert_eq!(action, OpenAction::QueryProtocol);
            (stage, action) = plan.next(stage, answer);
        }
        let _ = stage;
        action
    };
    let bind = OpenAction::Bind { address: BindAddress::Ip { addr: localhost(), port: 1 } };

    // The socket says what it speaks.
    let tcp = Some(OpenOutcome::Protocol(Some(SocketProtocol::Tcp)));
    let other = Some(OpenOutcome::Protocol(Some(SocketProtocol::Other(132))));
    let silent = Some(OpenOutcome::Protocol(None));
    let failed = Some(OpenOutcome::Failed(os_error(IoErrorKind::Other, 92)));
    assert_eq!(second(&stream(), &Platform::linux(), tcp), OpenAction::SetReuseAddress);
    assert_eq!(second(&stream(), &Platform::linux(), other), bind);
    // It does not say: a stream socket of an IP family is taken for TCP.
    assert_eq!(second(&stream(), &Platform::linux(), silent), OpenAction::SetReuseAddress);
    assert_eq!(second(&stream(), &Platform::linux(), failed), OpenAction::SetReuseAddress);
    // It cannot be asked.
    assert_eq!(second(&stream(), &Platform::unix(), None), OpenAction::SetReuseAddress);
    // The application says what it speaks.
    let mut app = stream();
    app.protocol = Some(SocketProtocol::Tcp);
    assert_eq!(second(&app, &Platform::linux(), None), OpenAction::SetReuseAddress);
    app.protocol = Some(SocketProtocol::Other(132));
    assert_eq!(second(&app, &Platform::linux(), None), bind);
    // The socket does not listen.
    let mut app = stream();
    app.listen = false;
    assert_eq!(second(&app, &Platform::linux(), None), bind);
    assert_eq!(
        second(&SocketAppOptions::new(SocketType::Datagram), &Platform::linux(), None),
        bind,
    );
    // The platform does without.
    assert_eq!(second(&stream(), &Platform::windows(), None), bind);
}

#[test]
fn path_must_fit_a_socket_address() {
    let fits = format!("/{}", "x".repeat(106));
    let too_long = format!("/{}", "x".repeat(107));
    assert!(open_on_linux(&SocketAddr::Unix { path: fits }, &stream(), &user()).is_ok());
    assert_eq!(
        open_on_linux(&SocketAddr::Unix { path: too_long }, &stream(), &user()),
        Err(OpenSocketError::InvalidUnixPath { error: IoError::new(IoErrorKind::InvalidInput) })
    );
    // Bytes count, not characters.
    let wide = format!("/{}", "\u{e9}".repeat(54));
    assert_eq!(
        open_on_linux(&SocketAddr::Unix { path: wide }, &stream(), &user()),
        Err(OpenSocketError::InvalidUnixPath { error: IoError::new(IoErrorKind::InvalidInput) })
    );
}

#[test]
fn outcome_that_answers_nothing_changes_nothing() {
    let address = SocketAddr::Ip { addr: localhost(), port: Some(1) };
    let plan = open_on_linux(&address, &stream(), &user()).unwrap();
    let (stage, _) = plan.start();
    assert_eq!(stage, OpenStage::CreateSocket);
    assert_eq!(plan.next(stage, OpenOutcome::Flag(true)), (stage, OpenAction::Unexpected));
    assert_eq!(plan.next(stage, OpenOutcome::Id(None)), (stage, OpenAction::Unexpected));
    assert_eq!(
        plan.next(OpenStage::Finished, OpenOutcome::Done),
        (OpenStage::Finished, OpenAction::Unexpected)
    );
    assert_eq!(
        plan.next(OpenStage::Duplicate, OpenOutcome::Done),
        (OpenStage::Duplicate, OpenAction::Unexpected)
    );
    let inherited = open_on_linux(&SocketAddr::new_inherit(3), &stream(), &user()).unwrap();
    assert_eq!(
        inherited.next(OpenStage::Bind, OpenOutcome::Done),
        (OpenStage::Bind, OpenAction::Unexpected)
    );
}

#[test]
fn errors_are_reported_under_their_category() {
    let in_use = os_error(IoErrorKind::AddrInUse, 98);
    assert_eq!(OpenSocketError::Bind { error: in_use }.kind(), IoErrorKind::AddrInUse);
    assert_eq!(OpenSocketError::BeforeBind(in_use).kind(), IoErrorKind::AddrInUse);
    assert_eq!(
        OpenSocketError::Cleanup(CleanupSocketError::Unlink { error: in_use }).kind(),
        IoErrorKind::AddrInUse
    );
    assert_eq!(
        OpenSocketError::SetSockOpt { option: "SO_REUSEPORT", error: in_use }.kind(),
        IoErrorKind::AddrInUse
    );
    assert_eq!(OpenSocketError::PortRequired.kind(), IoErrorKind::InvalidData);
    assert_eq!(OpenSocketError::InheritedIsListening.kind(), IoErrorKind::InvalidData);
    assert_eq!(OpenSocketError::InheritedIsNotListening.kind(), IoErrorKind::InvalidData);
    assert_eq!(
        OpenSocketError::InheritWrongType {
            expected: SocketType::Stream,
            actual: SocketType::Datagram
        }
        .kind(),
        IoErrorKind::InvalidData
    );
    assert_eq!(inapplicable("ip_socket_v6_only").kind(), IoErrorKind::InvalidInput);
    assert_eq!(OpenSocketError::InvalidSystemdFd.kind(), IoErrorKind::NotFound);
    assert_eq!(OpenSocketError::OwnerNotFound.kind(), IoErrorKind::NotFound);
    assert_eq!(OpenSocketError::ActivationNotSupported.kind(), IoErrorKind::Unsupported);
    assert_eq!(OpenSocketError::PortRequired.source(), None);
    assert_eq!(OpenSocketError::Listen { error: in_use }.source(), Some(in_use));
    assert_eq!(
        IoError::from(OpenSocketError::Bind { error: in_use }),
        IoError::new(IoErrorKind::AddrInUse),
    );
    assert_eq!(
        IoError::from(CleanupSocketError::Stat { error: in_use }),
        IoError::new(IoErrorKind::AddrInUse)
    );
}

#[test]
fn parent_folders_come_after_the_cleanup() {
    let address = SocketAddr::Unix { path: "/run/deep/down/app.sock".into() };
    let datagram = SocketAppOptions::new(SocketType::Datagram);
    let plan = open_on_linux(&address, &datagram, &user()).unwrap();
    let failed = os_error(IoErrorKind::PermissionDenied, 13);
    assert_eq!(
        run(
            &plan,
            &[OpenOutcome::Done, OpenOutcome::Flag(false), OpenOutcome::Failed(failed)]
        ),
        vec![
            OpenAction::CreateSocket {
                domain: SocketDomain::Unix,
                socket_type: SocketType::Datagram,
                protocol: None,
            },
            OpenAction::CheckStale,
            OpenAction::MkdirParents,
            OpenAction::Fail(OpenSocketError::MkdirParents { error: failed }),
        ]
    );
}

#[test]
fn errors_fall_into_four_classes() {
    let error = os_error(IoErrorKind::Other, 5);
    for user_input in [
        OpenSocketError::PortRequired,
        inapplicable("unix_socket_owner"),
        OpenSocketError::InvalidUnixPath { error },
        OpenSocketError::InvalidSystemdFd,
        OpenSocketError::ActivationNotSupported,
    ] {
        assert_eq!(user_input.class(), OpenErrorClass::UserInput, "{user_input:?}");
    }
    for identity in [
        OpenSocketError::OwnerNotFound,
        OpenSocketError::GroupNotFound,
        OpenSocketError::LookupOwner { error },
        OpenSocketError::LookupGroup { error },
    ] {
        assert_eq!(identity.class(), OpenErrorClass::Identity, "{identity:?}");
    }
    for os_call in [
        OpenSocketError::CreateSocket { error },
        OpenSocketError::MkdirParents { error },
        OpenSocketError::Cleanup(CleanupSocketError::Stat { error }),
        OpenSocketError::Cleanup(CleanupSocketError::Unlink { error }),
        OpenSocketError::SetSockOpt { option: "IPV6_V6ONLY", error },
        OpenSocketError::BeforeBind(error),
        OpenSocketError::Bind { error },
        OpenSocketError::SetOwner { error },
        OpenSocketError::SetPermissions { error },
        OpenSocketError::Listen { error },
        OpenSocketError::DupInherited { error },
        OpenSocketError::CheckInheritedSocket { error },
        OpenSocketError::WindowsGetStdin { error },
    ] {
        assert_eq!(os_call.class(), OpenErrorClass::OsCall, "{os_call:?}");
        assert_eq!(os_call.source(), Some(error));
    }
    for mismatch in [
        OpenSocketError::InheritWrongType {
            expected: SocketType::Stream,
            actual: SocketType::Raw,
        },
        OpenSocketError::InheritedIsListening,
        OpenSocketError::InheritedIsNotListening,
    ] {
        assert_eq!(mismatch.class(), OpenErrorClass::InheritedMismatch, "{mismatch:?}");
    }
}
