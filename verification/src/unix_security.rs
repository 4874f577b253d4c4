//! Owner, group and permission bits of a Unix-domain socket in the file
//! system: how they are written by the user, and when they apply.

use crate::errors::OpenSocketError;
use crate::open::steps::{OpenAction, OpenStage};
use crate::open::NewSocketPlan;
use crate::options::{Platform, SocketUserOptions};
use crate::text::{
    ascii_at,
    ascii_len,
    parse_radix,
    parse_radix_spec,
    parse_unsigned,
    parse_unsigned_spec,
    Radix,
};
use crate::util::check_inapplicable;
use vstd::prelude::*;
use vstd::string::*;

verus! {

/// The text is neither an octal mode number nor a combination of the
/// letters `u`, `g` and `o`.
#[derive(Clone, Copy, Debug, PartialEq, Eq, Structural)]
pub struct UnixSocketPermissionsParseError;

/// All the bits of a file mode that are permission bits.
pub const MODE_MASK: u32 = 0o7777;

/// The mode with the given bits, if they are all permission bits.
pub open spec fn mode_from_bits_spec(bits: u32) -> Option<u32> {
    if bits <= MODE_MASK {
        Some(bits)
    } else {
        None
    }
}

/// `nix::sys::stat::Mode::from_bits`, and `bits` of the mode it gives. The
/// flags of `Mode` are the read, write and execute bits for owner, group
/// and others, and the set-user-id, set-group-id and sticky bits: the
/// twelve lowest bits. `from_bits` takes a number with any of those bits
/// and refuses one with any other bit.
#[verifier::external_body]
fn mode_from_bits(bits: u32) -> (r: Option<u32>)
    ensures
        r == mode_from_bits_spec(bits),
{
    match nix::sys::stat::Mode::from_bits(bits) {
        Some(mode) => Some(mode.bits()),
        None => None,
    }
}

/// Whether `c` is one of the letters that a mode is written with, or the
/// dash that stands for nothing.
pub open spec fn is_mode_letter(c: char) -> bool {
    c == '-' || c == 'u' || c == 'g' || c == 'o'
}

/// The mode that a combination of letters stands for: reading and writing
/// for the owner where there is a `u`, for the group where there is a `g`,
/// for all others where there is an `o`. A dash adds nothing, and no other
/// character is taken.
pub open spec fn letters_mode_spec(s: Seq<char>) -> Option<u32> {
    if forall|i: int| 0 <= i < s.len() ==> is_mode_letter(#[trigger] s[i]) {
        let user: u32 = if s.contains('u') {
            0o600
        } else {
            0
        };
        let group: u32 = if s.contains('g') {
            0o060
        } else {
            0
        };
        let other: u32 = if s.contains('o') {
            0o006
        } else {
            0
        };
        Some((user + group + other) as u32)
    } else {
        None
    }
}

/// The mode that a text stands for. A text that reads as an octal number
/// is that number, which must hold permission bits only; any other text is
/// read as a combination of letters.
pub open spec fn parse_mode_spec(s: Seq<char>) -> Option<u32> {
    match parse_radix_spec(s, Radix::Octal, u32::MAX as int) {
        Some(bits) => mode_from_bits_spec(bits as u32),
        None => letters_mode_spec(s),
    }
}

/// Reads a combination of the letters `u`, `g` and `o`.
fn parse_mode_letters(mode_str: &str) -> (r: Option<u32>)
    ensures
        r == letters_mode_spec(mode_str@),
{
    if !mode_str.is_ascii() {
        proof {
            let s = mode_str@;
            let bad = choose|i: int| 0 <= i < s.len() && !('\0' <= #[trigger] s[i] <= '\u{7f}');
            assert(!is_mode_letter(s[bad]));
        }
        return None;
    }
    let n = ascii_len(mode_str);
    let mut user = false;
    let mut group = false;
    let mut other = false;
    let mut i: usize = 0;
    while i < n
        invariant
            mode_str.is_ascii(),
            n == mode_str@.len(),
            i <= n,
            forall|k: int| 0 <= k < i ==> is_mode_letter(#[trigger] mode_str@[k]),
            user == mode_str@.subrange(0, i as int).contains('u'),
            group == mode_str@.subrange(0, i as int).contains('g'),
            other == mode_str@.subrange(0, i as int).contains('o'),
        decreases n - i,
    {
        let c = ascii_at(mode_str, i);
        proof {
            lemma_contains_next(mode_str@, i as int, 'u');
            lemma_contains_next(mode_str@, i as int, 'g');
            lemma_contains_next(mode_str@, i as int, 'o');
        }
        if c == 'u' {
            user = true;
        } else if c == 'g' {
            group = true;
        } else if c == 'o' {
            other = true;
        } else if c != '-' {
            return None;
        }
        i = i + 1;
    }
    proof {
        assert(mode_str@.subrange(0, n as int) =~= mode_str@);
    }
    let mut mode: u32 = 0;
    if user {
        mode = mode + 0o600;
    }
    if group {
        mode = mode + 0o060;
    }
    if other {
        mode = mode + 0o006;
    }
    Some(mode)
}

/// The first `i + 1` items of `s` hold `c` where the first `i` do, or where
/// the item at `i` is `c`.
proof fn lemma_contains_next(s: Seq<char>, i: int, c: char)
    requires
        0 <= i < s.len(),
    ensures
        s.subrange(0, i + 1).contains(c) == (s.subrange(0, i).contains(c) || s[i] == c),
{
    let short = s.subrange(0, i);
    let long = s.subrange(0, i + 1);
    if short.contains(c) {
        let k = choose|k: int| 0 <= k < short.len() && short[k] == c;
        assert(long[k] == c);
    }
    if s[i] == c {
        assert(long[i] == c);
    }
    if long.contains(c) {
        let k = choose|k: int| 0 <= k < long.len() && long[k] == c;
        if k < i {
            assert(short[k] == c);
        }
    }
}

/// Reads the permission bits of a socket: a numeric Unix mode in octal (as
/// for the `chmod` command), or any combination of the letters `u`, `g`
/// and `o`, for the owning user, the owning group and all other users.
pub fn parse_mode(mode_str: &str) -> (r: Result<u32, UnixSocketPermissionsParseError>)
    ensures
        r == (match parse_mode_spec(mode_str@) {
            Some(mode) => Ok::<u32, UnixSocketPermissionsParseError>(mode),
            None => Err(UnixSocketPermissionsParseError),
        }),
{
    let mode = match parse_radix(mode_str, Radix::Octal, 0xffff_ffff) {
        Some(bits) => mode_from_bits(bits as u32),
        None => parse_mode_letters(mode_str),
    };
    match mode {
        Some(mode) => Ok(mode),
        None => Err(UnixSocketPermissionsParseError),
    }
}

/// What a name stands for: a user or a group.
#[derive(Clone, Copy, Debug, PartialEq, Eq, Structural)]
pub enum UnixPrincipalKind {
    User,
    Group,
}

impl UnixPrincipalKind {
    /// The kind in words: `user` or `group`.
    pub fn name(&self) -> (r: &'static str)
        ensures
            r@ == (match self {
                UnixPrincipalKind::User => "user"@,
                UnixPrincipalKind::Group => "group"@,
            }),
    {
        match self {
            UnixPrincipalKind::User => "user",
            UnixPrincipalKind::Group => "group",
        }
    }
}

/// Why a user or a group was not found.
#[derive(Clone, Copy, Debug, PartialEq, Eq, Structural)]
pub enum UnixPrincipalLookupError {
    /// There is none of that name.
    NotFound { principal_kind: UnixPrincipalKind },
    /// Looking it up failed, with the given error number of the system.
    Error { principal_kind: UnixPrincipalKind, error: i32 },
}

/// A user or a group as the user of the application writes it: a number,
/// or a name.
#[derive(Clone, Copy, Debug, PartialEq, Eq)]
pub enum SerdeUnixPrincipal<'a> {
    Id(u32),
    Name(&'a str),
}

/// Looks a user up by name with `nix::unistd::User::from_name`, and gives
/// the user's number, `None` if there is no such user, or the error number
/// with which the lookup failed. The answer depends on the system's user
/// database, so nothing is said of it.
#[verifier::external_body]
fn lookup_user(name: &str) -> (r: Result<Option<u32>, i32>) {
    match nix::unistd::User::from_name(name) {
        Ok(Some(user)) => Ok(Some(user.uid.as_raw())),
        Ok(None) => Ok(None),
        Err(errno) => Err(errno as i32),
    }
}

/// Looks a group up by name with `nix::unistd::Group::from_name`, and
/// gives the group's number, `None` if there is no such group, or the
/// error number with which the lookup failed. The answer depends on the
/// system's group database, so nothing is said of it.
#[verifier::external_body]
fn lookup_group(name: &str) -> (r: Result<Option<u32>, i32>) {
    match nix::unistd::Group::from_name(name) {
        Ok(Some(group)) => Ok(Some(group.gid.as_raw())),
        Ok(None) => Ok(None),
        Err(errno) => Err(errno as i32),
    }
}

/// What a lookup by name comes to: the number that was found, or the error
/// that says why none was.
pub open spec fn principal_from_lookup_spec(
    found: Result<Option<u32>, i32>,
    principal_kind: UnixPrincipalKind,
) -> Result<u32, UnixPrincipalLookupError> {
    match found {
        Ok(Some(id)) => Ok(id),
        Ok(None) => Err(UnixPrincipalLookupError::NotFound { principal_kind }),
        Err(error) => Err(UnixPrincipalLookupError::Error { principal_kind, error }),
    }
}

/// What a lookup by name comes to.
pub fn principal_from_lookup(
    found: Result<Option<u32>, i32>,
    principal_kind: UnixPrincipalKind,
) -> (r: Result<u32, UnixPrincipalLookupError>)
    ensures
        r == principal_from_lookup_spec(found, principal_kind),
{
    match found {
        Ok(Some(id)) => Ok(id),
        Ok(None) => Err(UnixPrincipalLookupError::NotFound { principal_kind }),
        Err(error) => Err(UnixPrincipalLookupError::Error { principal_kind, error }),
    }
}

/// Whether `r` is a way in which the lookup of a name can end.
pub open spec fn is_lookup_result(
    r: Result<u32, UnixPrincipalLookupError>,
    principal_kind: UnixPrincipalKind,
) -> bool {
    exists|found: Result<Option<u32>, i32>| r == principal_from_lookup_spec(found, principal_kind)
}

impl<'a> SerdeUnixPrincipal<'a> {
    /// The principal that a text stands for: a number where the text is
    /// one, else a name.
    pub open spec fn parse_spec(text: &'a str) -> SerdeUnixPrincipal<'a> {
        match parse_unsigned_spec(text@, u32::MAX as int) {
            Some(id) => SerdeUnixPrincipal::Id(id as u32),
            None => SerdeUnixPrincipal::Name(text),
        }
    }

    /// Reads a principal: a number where the text is one, else a name.
    pub fn parse(text: &'a str) -> (r: SerdeUnixPrincipal<'a>)
        ensures
            r == Self::parse_spec(text),
    {
        match parse_unsigned(text, 0xffff_ffff) {
            Some(id) => SerdeUnixPrincipal::Id(id as u32),
            None => SerdeUnixPrincipal::Name(text),
        }
    }

    /// The number of the user: the number itself, or the one that the
    /// system has for the name.
    pub fn to_uid(self) -> (r: Result<u32, UnixPrincipalLookupError>)
        ensures
            self matches SerdeUnixPrincipal::Id(id) ==> r == Ok::<u32, UnixPrincipalLookupError>(
                id,
            ),
            self is Name ==> is_lookup_result(r, UnixPrincipalKind::User),
    {
        match self {
            SerdeUnixPrincipal::Id(id) => Ok(id),
            SerdeUnixPrincipal::Name(name) => {
                let found = lookup_user(name);
                principal_from_lookup(found, UnixPrincipalKind::User)
            },
        }
    }

    /// The number of the group: the number itself, or the one that the
    /// system has for the name.
    pub fn to_gid(self) -> (r: Result<u32, UnixPrincipalLookupError>)
        ensures
            self matches SerdeUnixPrincipal::Id(id) ==> r == Ok::<u32, UnixPrincipalLookupError>(
                id,
            ),
            self is Name ==> is_lookup_result(r, UnixPrincipalKind::Group),
    {
        match self {
            SerdeUnixPrincipal::Id(id) => Ok(id),
            SerdeUnixPrincipal::Name(name) => {
                let found = lookup_group(name);
                principal_from_lookup(found, UnixPrincipalKind::Group)
            },
        }
    }
}

/// Reads a user: a numeric user ID, or the name of a user, which is looked
/// up.
pub fn parse_uid(user: &str) -> (r: Result<u32, UnixPrincipalLookupError>)
    ensures
        parse_unsigned_spec(user@, u32::MAX as int) matches Some(id) ==> r == Ok::<
            u32,
            UnixPrincipalLookupError,
        >(id as u32),
        parse_unsigned_spec(user@, u32::MAX as int) is None ==> is_lookup_result(
            r,
            UnixPrincipalKind::User,
        ),
{
    SerdeUnixPrincipal::parse(user).to_uid()
}

/// Reads a group: a numeric group ID, or the name of a group, which is
/// looked up.
pub fn parse_gid(group: &str) -> (r: Result<u32, UnixPrincipalLookupError>)
    ensures
        parse_unsigned_spec(group@, u32::MAX as int) matches Some(id) ==> r == Ok::<
            u32,
            UnixPrincipalLookupError,
        >(id as u32),
        parse_unsigned_spec(group@, u32::MAX as int) is None ==> is_lookup_result(
            r,
            UnixPrincipalKind::Group,
        ),
{
    SerdeUnixPrincipal::parse(group).to_gid()
}

/// A mode as a configuration file holds it: a text or a number.
#[derive(Clone, Copy, Debug, PartialEq, Eq)]
pub enum ModeValue<'a> {
    Text(&'a str),
    Signed(i128),
    Unsigned(u128),
}

/// A mode as it is written to a configuration file: the letters that stand
/// for it, or its number.
#[derive(Clone, Copy, Debug, PartialEq, Eq)]
pub enum ModeRepr {
    Letters(&'static str),
    Number(u32),
}

/// Why a value of a configuration file is no mode.
#[derive(Clone, Copy, Debug, PartialEq, Eq, Structural)]
pub enum SerdeModeError {
    /// The text is neither an octal number nor a combination of letters.
    InvalidText,
    /// The number holds bits that are no permission bits.
    OutOfRange,
}

/// Reads and writes the permission bits of a socket in a configuration
/// file.
#[derive(Clone, Copy, Debug)]
pub struct SerdeMode;

/// Reads and writes the owner of a socket in a configuration file.
#[derive(Clone, Copy, Debug)]
pub struct SerdeUid;

/// Reads and writes the group of a socket in a configuration file.
#[derive(Clone, Copy, Debug)]
pub struct SerdeGid;

impl SerdeMode {
    /// The mode that a value stands for. A text is read as `parse_mode`
    /// reads it; a number is the mode itself and must hold permission bits
    /// only.
    pub open spec fn deserialize_as_spec(value: ModeValue<'_>) -> Result<u32, SerdeModeError> {
        match value {
            ModeValue::Text(text) => match parse_mode_spec(text@) {
                Some(mode) => Ok(mode),
                None => Err(SerdeModeError::InvalidText),
            },
            ModeValue::Signed(number) => if 0 <= number <= MODE_MASK {
                Ok(number as u32)
            } else {
                Err(SerdeModeError::OutOfRange)
            },
            ModeValue::Unsigned(number) => if number <= MODE_MASK {
                Ok(number as u32)
            } else {
                Err(SerdeModeError::OutOfRange)
            },
        }
    }

    /// The mode that a value of a configuration file stands for.
    pub fn deserialize_as(value: ModeValue<'_>) -> (r: Result<u32, SerdeModeError>)
        ensures
            r == Self::deserialize_as_spec(value),
    {
        let bits: u32 = match value {
            ModeValue::Text(text) => {
                return match parse_mode(text) {
                    Ok(mode) => Ok(mode),
                    Err(_) => Err(SerdeModeError::InvalidText),
                };
            },
            ModeValue::Signed(number) => {
                if number < 0 || number > 0xffff_ffff {
                    return Err(SerdeModeError::OutOfRange);
                }
                number as u32
            },
            ModeValue::Unsigned(number) => {
                if number > 0xffff_ffff {
                    return Err(SerdeModeError::OutOfRange);
                }
                number as u32
            },
        };
        match mode_from_bits(bits) {
            Some(mode) => Ok(mode),
            None => Err(SerdeModeError::OutOfRange),
        }
    }

    /// How a mode is written: with letters where letters can say it, else
    /// as a number.
    pub open spec fn serialize_as_spec(mode: u32) -> ModeRepr {
        if mode == 0 {
            ModeRepr::Letters("-")
        } else if mode == 0o006 {
            ModeRepr::Letters("o")
        } else if mode == 0o060 {
            ModeRepr::Letters("g")
        } else if mode == 0o066 {
            ModeRepr::Letters("go")
        } else if mode == 0o600 {
            ModeRepr::Letters("u")
        } else if mode == 0o606 {
            ModeRepr::Letters("uo")
        } else if mode == 0o660 {
            ModeRepr::Letters("ug")
        } else if mode == 0o666 {
            ModeRepr::Letters("ugo")
        } else {
            ModeRepr::Number(mode)
        }
    }

    /// How a mode is written to a configuration file.
    pub fn serialize_as(mode: u32) -> (r: ModeRepr)
        ensures
            r == Self::serialize_as_spec(mode),
    {
        match mode {
            0 => ModeRepr::Letters("-"),
            0o006 => ModeRepr::Letters("o"),
            0o060 => ModeRepr::Letters("g"),
            0o066 => ModeRepr::Letters("go"),
            0o600 => ModeRepr::Letters("u"),
            0o606 => ModeRepr::Letters("uo"),
            0o660 => ModeRepr::Letters("ug"),
            0o666 => ModeRepr::Letters("ugo"),
            _ => ModeRepr::Number(mode),
        }
    }
}

impl ModeRepr {
    /// The value that is read back from what was written.
    pub open spec fn written(self) -> ModeValue<'static> {
        match self {
            ModeRepr::Letters(text) => ModeValue::Text(text),
            ModeRepr::Number(number) => ModeValue::Unsigned(number as u128),
        }
    }
}

/// Letters are no octal number.
proof fn lemma_letters_are_no_number(s: Seq<char>)
    requires
        s.len() > 0,
        is_mode_letter(s[0]),
    ensures
        parse_radix_spec(s, Radix::Octal, u32::MAX as int) is None,
{
}

/// The mode that a text of up to three letters stands for.
proof fn lemma_letters_mode(s: Seq<char>, user: bool, group: bool, other: bool)
    requires
        s.len() <= 3,
        forall|i: int| 0 <= i < s.len() ==> is_mode_letter(#[trigger] s[i]),
        user <==> (exists|i: int| 0 <= i < s.len() && s[i] == 'u'),
        group <==> (exists|i: int| 0 <= i < s.len() && s[i] == 'g'),
        other <==> (exists|i: int| 0 <= i < s.len() && s[i] == 'o'),
    ensures
        letters_mode_spec(s) == Some(
            ((if user {
                0o600int
            } else {
                0
            }) + (if group {
                0o060int
            } else {
                0
            }) + (if other {
                0o006int
            } else {
                0
            })) as u32,
        ),
{
}

/// A mode that is written to a configuration file and read back is the
/// same mode.
pub proof fn lemma_mode_reads_back(mode: u32)
    requires
        mode <= MODE_MASK,
    ensures
        SerdeMode::deserialize_as_spec(SerdeMode::serialize_as_spec(mode).written()) == Ok::<
            u32,
            SerdeModeError,
        >(mode),
{
    match SerdeMode::serialize_as_spec(mode) {
        ModeRepr::Number(_) => {},
        ModeRepr::Letters(text) => {
            let s = text@;
            reveal_strlit("-");
            reveal_strlit("o");
            reveal_strlit("g");
            reveal_strlit("go");
            reveal_strlit("u");
            reveal_strlit("uo");
            reveal_strlit("ug");
            reveal_strlit("ugo");
            if mode == 0 {
                assert(s =~= seq!['-']);
                lemma_letters_mode(s, false, false, false);
            } else if mode == 0o006 {
                assert(s =~= seq!['o']);
                assert(s[0] == 'o');
                lemma_letters_mode(s, false, false, true);
            } else if mode == 0o060 {
                assert(s =~= seq!['g']);
                assert(s[0] == 'g');
                lemma_letters_mode(s, false, true, false);
            } else if mode == 0o066 {
                assert(s =~= seq!['g', 'o']);
                assert(s[0] == 'g' && s[1] == 'o');
                lemma_letters_mode(s, false, true, true);
            } else if mode == 0o600 {
                assert(s =~= seq!['u']);
                assert(s[0] == 'u');
                lemma_letters_mode(s, true, false, false);
            } else if mode == 0o606 {
                assert(s =~= seq!['u', 'o']);
                assert(s[0] == 'u' && s[1] == 'o');
                lemma_letters_mode(s, true, false, true);
            } else if mode == 0o660 {
                assert(s =~= seq!['u', 'g']);
                assert(s[0] == 'u' && s[1] == 'g');
                lemma_letters_mode(s, true, true, false);
            } else {
                assert(s =~= seq!['u', 'g', 'o']);
                assert(s[0] == 'u' && s[1] == 'g' && s[2] == 'o');
                lemma_letters_mode(s, true, true, true);
            }
            lemma_letters_are_no_number(s);
        },
    }
}

impl SerdeUid {
    /// The number of the user that a value of a configuration file stands
    /// for.
    pub fn deserialize_as(principal: SerdeUnixPrincipal<'_>) -> (r: Result<
        u32,
        UnixPrincipalLookupError,
    >)
        ensures
            principal matches SerdeUnixPrincipal::Id(id) ==> r == Ok::<
                u32,
                UnixPrincipalLookupError,
            >(id),
            principal is Name ==> is_lookup_result(r, UnixPrincipalKind::User),
    {
        principal.to_uid()
    }

    /// How a user is written to a configuration file: by number.
    pub fn serialize_as(uid: u32) -> (r: u32)
        ensures
            r == uid,
    {
        uid
    }
}

impl SerdeGid {
    /// The number of the group that a value of a configuration file stands
    /// for.
    pub fn deserialize_as(principal: SerdeUnixPrincipal<'_>) -> (r: Result<
        u32,
        UnixPrincipalLookupError,
    >)
        ensures
            principal matches SerdeUnixPrincipal::Id(id) ==> r == Ok::<
                u32,
                UnixPrincipalLookupError,
            >(id),
            principal is Name ==> is_lookup_result(r, UnixPrincipalKind::Group),
    {
        principal.to_gid()
    }

    /// How a group is written to a configuration file: by number.
    pub fn serialize_as(gid: u32) -> (r: u32)
        ensures
            r == gid,
    {
        gid
    }
}

/// What `prepare` returns: permissions, owner and group are taken for a
/// socket with a path, on a platform that knows them, and rejected
/// elsewhere, the first that is set by name.
pub open spec fn prepare_spec(
    options: SocketUserOptions,
    has_path: bool,
    platform: Platform,
) -> Result<(), OpenSocketError> {
    if has_path && platform.unix_security {
        Ok(())
    } else if options.unix_socket_permissions is Some {
        Err(OpenSocketError::InapplicableUserOption { name: "unix_socket_permissions" })
    } else if options.unix_socket_owner is Some {
        Err(OpenSocketError::InapplicableUserOption { name: "unix_socket_owner" })
    } else if options.unix_socket_group is Some {
        Err(OpenSocketError::InapplicableUserOption { name: "unix_socket_group" })
    } else {
        Ok(())
    }
}

/// Checks, before a socket is made, that the security options apply to
/// it. `socket_path` is the path of the socket, if it has one.
pub fn prepare(options: &SocketUserOptions, socket_path: Option<&str>, platform: &Platform) -> (r:
    Result<(), OpenSocketError>)
    ensures
        r == prepare_spec(*options, socket_path is Some, *platform),
{
    if socket_path.is_none() || !platform.unix_security {
        check_inapplicable(options.unix_socket_permissions, "unix_socket_permissions")?;
        check_inapplicable(options.unix_socket_owner.as_ref(), "unix_socket_owner")?;
        check_inapplicable(options.unix_socket_group.as_ref(), "unix_socket_group")?;
    }
    Ok(())
}

/// What `apply` returns: the owner and group are set first, if either is
/// given; else the permissions, if given; else the run goes on to
/// listening.
pub open spec fn apply_spec(plan: NewSocketPlan, owner: Option<u32>, group: Option<u32>) -> (
    OpenStage,
    OpenAction,
) {
    if owner is Some || group is Some {
        (OpenStage::SetOwner, OpenAction::SetOwner { owner, group })
    } else {
        apply_permissions_spec(plan)
    }
}

/// The step after the owner and group are settled: the permissions are
/// set, if given; else the run goes on to listening.
pub open spec fn apply_permissions_spec(plan: NewSocketPlan) -> (OpenStage, OpenAction) {
    match plan.permissions {
        Some(mode) => (OpenStage::SetPermissions, OpenAction::SetPermissions { mode }),
        None => listen_spec(plan),
    }
}

/// The last step of a new socket: it is made to listen, if it is to.
pub open spec fn listen_spec(plan: NewSocketPlan) -> (OpenStage, OpenAction) {
    match plan.listen_backlog {
        Some(backlog) => (OpenStage::Listen, OpenAction::Listen { backlog }),
        None => (OpenStage::Finished, OpenAction::Done),
    }
}

/// Sets the security attributes of a bound socket, as far as they are
/// configured: names the next step once the numbers of `owner` and `group`
/// are known. Ownership comes before permissions, since a change of owner
/// can decide whether the permissions can still be changed.
pub fn apply(plan: &NewSocketPlan, owner: Option<u32>, group: Option<u32>) -> (r: (
    OpenStage,
    OpenAction,
))
    ensures
        r == apply_spec(*plan, owner, group),
{
    if owner.is_some() || group.is_some() {
        (OpenStage::SetOwner, OpenAction::SetOwner { owner, group })
    } else {
        apply_permissions(plan)
    }
}

/// Names the step after the owner and group are settled.
pub fn apply_permissions(plan: &NewSocketPlan) -> (r: (OpenStage, OpenAction))
    ensures
        r == apply_permissions_spec(*plan),
{
    match plan.permissions {
        Some(mode) => (OpenStage::SetPermissions, OpenAction::SetPermissions { mode }),
        None => listen(plan),
    }
}

/// Names the last step of a new socket.
pub fn listen(plan: &NewSocketPlan) -> (r: (OpenStage, OpenAction))
    ensures
        r == listen_spec(*plan),
{
    match plan.listen_backlog {
        Some(backlog) => (OpenStage::Listen, OpenAction::Listen { backlog }),
        None => (OpenStage::Finished, OpenAction::Done),
    }
}

} // verus!
