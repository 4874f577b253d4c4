use socket_config::unix_security::{
    principal_from_lookup, ModeRepr, ModeValue, SerdeModeError, SerdeUnixPrincipal,
};
use socket_config::{
    parse_gid, parse_mode, parse_uid, prepare, Platform, SerdeGid, SerdeMode, SerdeUid,
    SocketUserOptions, UnixPrincipal, UnixPrincipalKind, UnixPrincipalLookupError,
    UnixSocketPermissionsParseError,
};

#[test]
fn test_parse_mode() {
    let _ = parse_mode("77777").unwrap_err();

    for (string, bits) in [
        ("", 0),
        ("-", 0),
        ("0", 0),
        ("420", 0o420),
        ("u", 0o600),
        ("g", 0o060),
        ("ug", 0o660),
        ("o", 0o006),
        ("uo", 0o606),
        ("go", 0o066),
        ("ugo", 0o666),
        ("-u-g-o-", 0o666),
    ] {
        assert_eq!(parse_mode(string).unwrap(), bits);
    }
}

#[test]
fn parse_mode_edges() {
    for (string, bits) in [
        ("7777", 0o7777),
        ("+644", 0o644),
        ("0000000644", 0o644),
        ("uuu", 0o600),
        ("ogu", 0o666),
        ("--", 0),
        ("1", 0o001),
        ("4755", 0o4755),
    ] {
        assert_eq!(parse_mode(string), Ok(bits), "{string}");
    }
    for string in [
        "10000",
        "8",
        "rwx",
        "u+g",
        "U",
        "0x1ff",
        "644 ",
        " 644",
        "u,g",
        "+",
        "-1",
        "37777777777",
        "777777777777777",
        "\u{fc}",
    ] {
        assert_eq!(parse_mode(string), Err(UnixSocketPermissionsParseError), "{string}");
    }
}

#[test]
fn test_principal_parse_lookup() {
    // The user and group that run the test have a name only where the
    // system has a user database.
    let my_uid = nix::unistd::Uid::current();
    let my_user = nix::unistd::User::from_uid(my_uid).unwrap().map(|user| user.name);
    let my_gid = nix::unistd::Gid::current();
    let my_group = nix::unistd::Group::from_gid(my_gid).unwrap().map(|group| group.name);

    assert_eq!(parse_uid(&format!("{my_uid}")).unwrap(), my_uid.as_raw());
    assert_eq!(parse_gid(&format!("{my_gid}")).unwrap(), my_gid.as_raw());
    if let Some(my_user) = &my_user {
        assert_eq!(parse_uid(my_user).unwrap(), my_uid.as_raw());
        assert_eq!(
            SerdeUid::deserialize_as(SerdeUnixPrincipal::Name(my_user)),
            Ok(my_uid.as_raw()),
        );
    }
    if let Some(my_group) = &my_group {
        assert_eq!(parse_gid(my_group).unwrap(), my_gid.as_raw());
        assert_eq!(
            SerdeGid::deserialize_as(SerdeUnixPrincipal::Name(my_group)),
            Ok(my_gid.as_raw()),
        );
    }

    assert!(matches!(
        parse_uid("<imaginary user, looking up for testing, please ignore>"),
        Err(UnixPrincipalLookupError::NotFound { principal_kind: UnixPrincipalKind::User })
    ));
    assert!(matches!(
        parse_gid("<imaginary group, looking up for testing, please ignore>"),
        Err(UnixPrincipalLookupError::NotFound { principal_kind: UnixPrincipalKind::Group })
    ));

    assert_eq!(
        SerdeUid::deserialize_as(SerdeUnixPrincipal::Id(my_uid.as_raw())),
        Ok(my_uid.as_raw()),
    );
    assert_eq!(
        SerdeGid::deserialize_as(SerdeUnixPrincipal::Id(my_gid.as_raw())),
        Ok(my_gid.as_raw()),
    );
    assert_eq!(SerdeUid::serialize_as(my_uid.as_raw()), my_uid.as_raw());
    assert_eq!(SerdeGid::serialize_as(my_gid.as_raw()), my_gid.as_raw());
}

#[test]
fn numbers_are_taken_without_lookup() {
    assert_eq!(parse_uid("0"), Ok(0));
    assert_eq!(parse_uid("4294967295"), Ok(4294967295));
    assert_eq!(parse_gid("+12"), Ok(12));
    assert_eq!(parse_gid("0012"), Ok(12));
    assert_eq!(SerdeUnixPrincipal::parse("1000"), SerdeUnixPrincipal::Id(1000));
    assert_eq!(SerdeUnixPrincipal::parse("4294967296"), SerdeUnixPrincipal::Name("4294967296"));
    assert_eq!(SerdeUnixPrincipal::parse("-1"), SerdeUnixPrincipal::Name("-1"));
    assert_eq!(SerdeUnixPrincipal::parse(""), SerdeUnixPrincipal::Name(""));
    assert_eq!(SerdeUnixPrincipal::parse("root"), SerdeUnixPrincipal::Name("root"));
    assert_eq!(SerdeUnixPrincipal::Id(7).to_uid(), Ok(7));
    assert_eq!(SerdeUnixPrincipal::Id(7).to_gid(), Ok(7));
}

#[test]
fn lookup_results_become_errors() {
    assert_eq!(principal_from_lookup(Ok(Some(5)), UnixPrincipalKind::User), Ok(5));
    assert_eq!(
        principal_from_lookup(Ok(None), UnixPrincipalKind::Group),
        Err(UnixPrincipalLookupError::NotFound { principal_kind: UnixPrincipalKind::Group })
    );
    assert_eq!(
        principal_from_lookup(Err(5), UnixPrincipalKind::User),
        Err(UnixPrincipalLookupError::Error { principal_kind: UnixPrincipalKind::User, error: 5 })
    );
    assert_eq!(UnixPrincipalKind::User.name(), "user");
    assert_eq!(UnixPrincipalKind::Group.name(), "group");
}

#[test]
fn test_mode() {
    for (serialization, expected_deserialization, expected_serialization) in [
        (ModeValue::Unsigned(0), 0, Some(ModeRepr::Letters("-"))),
        (ModeValue::Text("-"), 0, None),
        (ModeValue::Text("0"), 0, Some(ModeRepr::Letters("-"))),
        (ModeValue::Text(""), 0, Some(ModeRepr::Letters("-"))),
        (ModeValue::Unsigned(0o600), 0o600, Some(ModeRepr::Letters("u"))),
        (ModeValue::Text("-u-g-"), 0o660, Some(ModeRepr::Letters("ug"))),
        (ModeValue::Unsigned(0o420), 0o420, None),
        (ModeValue::Text("420"), 0o420, Some(ModeRepr::Number(0o420))),
        (ModeValue::Text("u"), 0o600, None),
        (ModeValue::Text("g"), 0o060, None),
        (ModeValue::Text("ug"), 0o660, None),
        (ModeValue::Text("o"), 0o006, None),
        (ModeValue::Text("uo"), 0o606, None),
        (ModeValue::Text("go"), 0o066, None),
        (ModeValue::Text("ugo"), 0o666, None),
    ] {
        let written = match serialization {
            ModeValue::Text(text) => ModeRepr::Letters(match text {
                "-" => "-",
                "u" => "u",
                "g" => "g",
                "ug" => "ug",
                "o" => "o",
                "uo" => "uo",
                "go" => "go",
                _ => "ugo",
            }),
            ModeValue::Unsigned(number) => ModeRepr::Number(number as u32),
            ModeValue::Signed(number) => ModeRepr::Number(number as u32),
        };
        let expected_serialization: ModeRepr = expected_serialization.unwrap_or(written);

        let deserialized = SerdeMode::deserialize_as(serialization).unwrap();
        assert_eq!(deserialized, expected_deserialization);

        let reserialized = SerdeMode::serialize_as(deserialized);
        assert_eq!(reserialized, expected_serialization);
    }
}

#[test]
fn mode_numbers_must_hold_permission_bits_only() {
    assert_eq!(SerdeMode::deserialize_as(ModeValue::Signed(0o7777)), Ok(0o7777));
    assert_eq!(SerdeMode::deserialize_as(ModeValue::Unsigned(0o7777)), Ok(0o7777));
    assert_eq!(
        SerdeMode::deserialize_as(ModeValue::Signed(0o10000)),
        Err(SerdeModeError::OutOfRange),
    );
    assert_eq!(
        SerdeMode::deserialize_as(ModeValue::Unsigned(0o10000)),
        Err(SerdeModeError::OutOfRange),
    );
    assert_eq!(SerdeMode::deserialize_as(ModeValue::Signed(-1)), Err(SerdeModeError::OutOfRange));
    assert_eq!(
        SerdeMode::deserialize_as(ModeValue::Signed(0x1_0000_0000)),
        Err(SerdeModeError::OutOfRange)
    );
    assert_eq!(
        SerdeMode::deserialize_as(ModeValue::Unsigned(0x1_0000_01ff)),
        Err(SerdeModeError::OutOfRange)
    );
    assert_eq!(
        SerdeMode::deserialize_as(ModeValue::Signed(i128::MIN)),
        Err(SerdeModeError::OutOfRange),
    );
    assert_eq!(
        SerdeMode::deserialize_as(ModeValue::Unsigned(u128::MAX)),
        Err(SerdeModeError::OutOfRange),
    );
    assert_eq!(SerdeMode::deserialize_as(ModeValue::Text("rw")), Err(SerdeModeError::InvalidText));
    assert_eq!(
        SerdeMode::deserialize_as(ModeValue::Text("77777")),
        Err(SerdeModeError::InvalidText),
    );
}

#[test]
fn every_mode_reads_back_as_written() {
    for mode in 0..=0o7777u32 {
        let value = match SerdeMode::serialize_as(mode) {
            ModeRepr::Letters(text) => ModeValue::Text(text),
            ModeRepr::Number(number) => ModeValue::Unsigned(number as u128),
        };
        assert_eq!(SerdeMode::deserialize_as(value), Ok(mode));
    }
}

#[test]
fn prepare_rejects_security_options_without_a_path() {
    let linux = Platform::linux();
    let mut options = SocketUserOptions::default();
    assert_eq!(prepare(&options, None, &linux), Ok(()));
    options.unix_socket_group = Some(UnixPrincipal::Id(1));
    assert_eq!(prepare(&options, Some("/run/x"), &linux), Ok(()));
    assert_eq!(
        prepare(&options, None, &linux),
        Err(socket_config::errors::OpenSocketError::InapplicableUserOption {
            name: "unix_socket_group"
        })
    );
    options.unix_socket_permissions = Some(0o600);
    assert_eq!(
        prepare(&options, None, &linux),
        Err(socket_config::errors::OpenSocketError::InapplicableUserOption {
            name: "unix_socket_permissions"
        })
    );
    assert_eq!(
        prepare(&options, Some("/run/x"), &Platform::windows()),
        Err(socket_config::errors::OpenSocketError::InapplicableUserOption {
            name: "unix_socket_permissions"
        })
    );
}
