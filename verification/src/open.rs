//! Opening a socket, or claiming an inherited one.
//!
//! The library decides; its caller acts. [`open`] turns an address and the
//! two option sets into a plan, or rejects them. The plan is then carried
//! out step by step: [`OpenPlan::start`] names the first action, the caller
//! performs it and reports what came of it to [`OpenPlan::next`], which
//! names the next one, until the action is `Done` or `Fail`. Every failure
//! ends the run: nothing is tried twice and nothing is undone.

pub mod steps;

use crate::addr::SocketAddr;
use crate::errors::{IoError, IoErrorKind, OpenSocketError};
use crate::ip::IpAddress;
use crate::open::steps::{fail_spec, OpenAction, OpenOutcome, OpenStage};
use crate::options::{
    Platform,
    RawSocket,
    SocketAppOptions,
    SocketDomain,
    SocketProtocol,
    SocketType,
    SocketUserOptions,
    UnixPrincipal,
};
use crate::sys::{get_stdin_as_socket, in_activation_window, in_activation_window_spec};
use crate::unix_security::prepare;
use crate::util::{
    check_inapplicable,
    check_inapplicable_bool,
    is_socket_probably_tcp_spec,
};
use vstd::prelude::*;
use vstd::string::*;

verus! {

/// The room for a path in the address of a Unix-domain socket, in bytes.
pub const UNIX_PATH_CAPACITY: usize = 108;

/// Whether a path, as bytes, fits the address of a Unix-domain socket with
/// its closing zero byte. A path that starts with a zero byte names a
/// socket outside the file system and needs no closing byte.
pub open spec fn unix_path_fits(bytes: Seq<u8>) -> bool {
    if bytes.len() == 0 {
        true
    } else if bytes[0] == 0 {
        bytes.len() <= UNIX_PATH_CAPACITY
    } else {
        bytes.len() < UNIX_PATH_CAPACITY
    }
}

/// Whether `socket2::SockAddr::unix` makes an address of the path. It does
/// unless the path is too long: the path's bytes are compared with the
/// size of `sun_path`, which is `UNIX_PATH_CAPACITY` on Linux.
#[verifier::external_body]
fn unix_path_accepted(path: &str) -> (ok: bool)
    ensures
        ok == unix_path_fits(path.spec_bytes()),
{
    socket2::SockAddr::unix(path).is_ok()
}

/// The address that a new socket is bound to.
#[derive(Clone, Copy, Debug, PartialEq, Eq, Structural)]
pub enum BindAddress {
    /// An IP address and a port; port 0 lets the system pick one.
    Ip { addr: IpAddress, port: u16 },
    /// The path of the `SocketAddr::Unix` that was opened.
    Unix,
}

/// Whether `SO_REUSEADDR` is set on a new socket.
#[derive(Clone, Copy, Debug, PartialEq, Eq, Structural)]
pub enum ReuseAddress {
    No,
    Yes,
    /// The socket is asked for its protocol, and the option is set if that
    /// is TCP. Where the socket does not say, `otherwise` decides.
    Ask { otherwise: bool },
}

/// What is done about the owner or the group of a new socket.
#[derive(Clone, Copy, Debug, PartialEq, Eq, Structural)]
pub enum PrincipalPlan {
    /// It is left as it is.
    Unchanged,
    /// It is set to the given number.
    Id(u32),
    /// It is set to what the name in the user options stands for.
    Lookup,
}

/// How a new socket is made.
#[derive(Clone, Copy, Debug, PartialEq, Eq, Structural)]
pub struct NewSocketPlan {
    pub domain: SocketDomain,
    pub socket_type: SocketType,
    pub protocol: Option<SocketProtocol>,
    /// Whether a stale socket at the path is looked for and removed.
    pub cleanup: bool,
    /// Whether the folders above the path are created.
    pub mkdir_parents: bool,
    pub reuse_address: ReuseAddress,
    pub reuse_port: bool,
    pub v6_only: bool,
    pub before_bind: bool,
    pub bind: BindAddress,
    pub owner: PrincipalPlan,
    pub group: PrincipalPlan,
    pub permissions: Option<u32>,
    /// The backlog to listen with; `None` for a socket that does not
    /// listen.
    pub listen_backlog: Option<i32>,
}

/// How an inherited socket is claimed.
#[derive(Clone, Copy, Debug, PartialEq, Eq)]
pub struct InheritPlan {
    /// The socket to duplicate; `None` where the handle of the standard
    /// input has to be looked up first.
    pub socket: Option<RawSocket>,
    /// A user option that does not apply to an inherited socket, to be
    /// rejected once the handle is known.
    pub rejected: Option<&'static str>,
    /// The type that the socket must have.
    pub socket_type: SocketType,
    /// Whether a stream socket is asked if it is listening.
    pub check_listening: bool,
    /// Whether the socket is expected to be listening.
    pub listen: bool,
}

/// How a socket is obtained.
#[derive(Clone, Copy, Debug, PartialEq, Eq)]
pub enum OpenPlan {
    New(NewSocketPlan),
    Inherit(InheritPlan),
}

/// The first user option, in the order of the fields, that is set although
/// inherited sockets take none of them.
pub open spec fn inapplicable_to_inherited(user: SocketUserOptions) -> Option<&'static str> {
    if user.unix_socket_permissions is Some {
        Some("unix_socket_permissions")
    } else if user.unix_socket_owner is Some {
        Some("unix_socket_owner")
    } else if user.unix_socket_group is Some {
        Some("unix_socket_group")
    } else if user.ip_socket_reuse_port {
        Some("ip_socket_reuse_port")
    } else if user.ip_socket_v6_only {
        Some("ip_socket_v6_only")
    } else if user.listen_socket_backlog is Some {
        Some("listen_socket_backlog")
    } else {
        None
    }
}

/// Whether a new socket is made to listen: a stream socket of an
/// application that wants it to.
pub open spec fn listens(app: SocketAppOptions) -> bool {
    app.listen && app.socket_type == SocketType::Stream
}

/// The first user option, in the order of the fields, that is set although
/// it does not apply to the new socket: permissions, owner and group apply
/// to sockets with a path, where the platform knows them; `SO_REUSEPORT`
/// where the platform has it; the backlog to sockets that listen.
pub open spec fn inapplicable_to_new(
    has_path: bool,
    app: SocketAppOptions,
    user: SocketUserOptions,
    platform: Platform,
) -> Option<&'static str> {
    let secured = has_path && platform.unix_security;
    if !secured && user.unix_socket_permissions is Some {
        Some("unix_socket_permissions")
    } else if !secured && user.unix_socket_owner is Some {
        Some("unix_socket_owner")
    } else if !secured && user.unix_socket_group is Some {
        Some("unix_socket_group")
    } else if !platform.reuse_port && user.ip_socket_reuse_port {
        Some("ip_socket_reuse_port")
    } else if !listens(app) && user.listen_socket_backlog is Some {
        Some("listen_socket_backlog")
    } else {
        None
    }
}

/// What is done about an owner or a group that the user asked for.
pub open spec fn principal_plan(principal: Option<UnixPrincipal>) -> PrincipalPlan {
    match principal {
        None => PrincipalPlan::Unchanged,
        Some(UnixPrincipal::Id(id)) => PrincipalPlan::Id(id),
        Some(UnixPrincipal::Name(_)) => PrincipalPlan::Lookup,
    }
}

/// Whether `SO_REUSEADDR` is set on a new socket: only on a listening TCP
/// socket, and only where the platform calls for it. Whether the socket is
/// a TCP socket is what the application's protocol says; without one, the
/// socket is asked where it can be; else a socket of an IP family is taken
/// for one.
pub open spec fn reuse_address_plan(
    domain: SocketDomain,
    app: SocketAppOptions,
    platform: Platform,
) -> ReuseAddress {
    let guess = domain == SocketDomain::Ipv4 || domain == SocketDomain::Ipv6;
    if !platform.reuse_address || !listens(app) {
        ReuseAddress::No
    } else if app.protocol is Some {
        if app.protocol == Some(SocketProtocol::Tcp) {
            ReuseAddress::Yes
        } else {
            ReuseAddress::No
        }
    } else if platform.query_protocol {
        ReuseAddress::Ask { otherwise: guess }
    } else if guess {
        ReuseAddress::Yes
    } else {
        ReuseAddress::No
    }
}

/// The plan for a new socket of the given family, bound to `bind`, when no
/// option stands in its way.
pub open spec fn new_socket_plan(
    domain: SocketDomain,
    bind: BindAddress,
    app: SocketAppOptions,
    user: SocketUserOptions,
    platform: Platform,
) -> NewSocketPlan {
    let has_path = bind == BindAddress::Unix;
    NewSocketPlan {
        domain,
        socket_type: app.socket_type,
        protocol: app.protocol,
        cleanup: has_path && !user.unix_socket_no_unlink,
        mkdir_parents: has_path,
        reuse_address: reuse_address_plan(domain, app, platform),
        reuse_port: user.ip_socket_reuse_port,
        v6_only: user.ip_socket_v6_only,
        before_bind: app.before_bind,
        bind,
        owner: principal_plan(user.unix_socket_owner),
        group: principal_plan(user.unix_socket_group),
        permissions: user.unix_socket_permissions,
        listen_backlog: if listens(app) {
            Some(
                match user.listen_socket_backlog {
                    Some(backlog) => backlog,
                    None => SocketUserOptions::DEFAULT_LISTEN_SOCKET_BACKLOG,
                },
            )
        } else {
            None
        },
    }
}

/// The plan for a new socket, or the option that stands in its way.
pub open spec fn open_new_spec(
    domain: SocketDomain,
    bind: BindAddress,
    app: SocketAppOptions,
    user: SocketUserOptions,
    platform: Platform,
) -> Result<OpenPlan, OpenSocketError> {
    match inapplicable_to_new(bind == BindAddress::Unix, app, user, platform) {
        Some(name) => Err(OpenSocketError::InapplicableUserOption { name }),
        None => Ok(OpenPlan::New(new_socket_plan(domain, bind, app, user, platform))),
    }
}

/// The plan for the inherited socket `socket`, or the user option that
/// stands in its way. Where the socket is not known yet, the option is
/// rejected once it is.
pub open spec fn open_inherited_spec(
    socket: Option<RawSocket>,
    app: SocketAppOptions,
    user: SocketUserOptions,
    platform: Platform,
) -> Result<OpenPlan, OpenSocketError> {
    match inapplicable_to_inherited(user) {
        Some(name) if socket is Some => Err(OpenSocketError::InapplicableUserOption { name }),
        rejected => Ok(
            OpenPlan::Inherit(
                InheritPlan {
                    socket,
                    rejected,
                    socket_type: app.socket_type,
                    check_listening: platform.query_listening,
                    listen: app.listen,
                },
            ),
        ),
    }
}

/// The family of an IP address.
pub open spec fn ip_domain(addr: IpAddress) -> SocketDomain {
    match addr {
        IpAddress::V4(_) => SocketDomain::Ipv4,
        IpAddress::V6(_) => SocketDomain::Ipv6,
    }
}

/// What `open` returns.
///
/// An IP address takes the application's default port where it names none,
/// and with neither a port is required. A path must fit a socket address.
/// A socket from socket activation must lie in the window that
/// `activation_end` closes, on a platform that takes part in it. Then the
/// user options are held against the kind of socket.
pub open spec fn open_spec(
    address: SocketAddr,
    app: SocketAppOptions,
    user: SocketUserOptions,
    platform: Platform,
    activation_end: Option<RawSocket>,
) -> Result<OpenPlan, OpenSocketError> {
    match address {
        SocketAddr::Ip { addr, port } => {
            let port = if port is Some {
                port
            } else {
                app.default_port
            };
            match port {
                None => Err(OpenSocketError::PortRequired),
                Some(port) => open_new_spec(
                    ip_domain(addr),
                    BindAddress::Ip { addr, port },
                    app,
                    user,
                    platform,
                ),
            }
        },
        SocketAddr::Unix { path } => if !unix_path_fits(vstd::utf8::encode_utf8(path@)) {
            Err(
                OpenSocketError::InvalidUnixPath {
                    error: IoError { kind: IoErrorKind::InvalidInput, code: None },
                },
            )
        } else {
            open_new_spec(SocketDomain::Unix, BindAddress::Unix, app, user, platform)
        },
        SocketAddr::Inherit { socket } => open_inherited_spec(Some(socket), app, user, platform),
        SocketAddr::InheritStdin => open_inherited_spec(
            if platform.file_descriptors {
                Some(0u64)
            } else {
                None
            },
            app,
            user,
            platform,
        ),
        SocketAddr::SystemdNumeric { socket } => if !platform.socket_activation {
            Err(OpenSocketError::ActivationNotSupported)
        } else if !in_activation_window_spec(socket, activation_end) {
            Err(OpenSocketError::InvalidSystemdFd)
        } else {
            open_inherited_spec(Some(socket), app, user, platform)
        },
    }
}

/// The first user option that inherited sockets do not take, if one is
/// set.
fn check_inherited(user: &SocketUserOptions) -> (r: Result<(), OpenSocketError>)
    ensures
        r == (match inapplicable_to_inherited(*user) {
            Some(name) => Err::<(), OpenSocketError>(
                OpenSocketError::InapplicableUserOption { name },
            ),
            None => Ok(()),
        }),
{
    check_inapplicable(user.unix_socket_permissions, "unix_socket_permissions")?;
    check_inapplicable(user.unix_socket_owner.as_ref(), "unix_socket_owner")?;
    check_inapplicable(user.unix_socket_group.as_ref(), "unix_socket_group")?;
    check_inapplicable_bool(user.ip_socket_reuse_port, "ip_socket_reuse_port")?;
    check_inapplicable_bool(user.ip_socket_v6_only, "ip_socket_v6_only")?;
    check_inapplicable(user.listen_socket_backlog, "listen_socket_backlog")?;
    Ok(())
}

fn plan_principal(principal: &Option<UnixPrincipal>) -> (r: PrincipalPlan)
    ensures
        r == principal_plan(*principal),
{
    match principal {
        None => PrincipalPlan::Unchanged,
        Some(UnixPrincipal::Id(id)) => PrincipalPlan::Id(*id),
        Some(UnixPrincipal::Name(_)) => PrincipalPlan::Lookup,
    }
}

fn plan_reuse_address(
    domain: SocketDomain,
    listen: bool,
    app: &SocketAppOptions,
    platform: &Platform,
) -> (r: ReuseAddress)
    requires
        listen == listens(*app),
    ensures
        r == reuse_address_plan(domain, *app, *platform),
{
    let guess = domain == SocketDomain::Ipv4 || domain == SocketDomain::Ipv6;
    if !platform.reuse_address || !listen {
        return ReuseAddress::No;
    }
    match app.protocol {
        Some(SocketProtocol::Tcp) => ReuseAddress::Yes,
        Some(_) => ReuseAddress::No,
        None => if platform.query_protocol {
            ReuseAddress::Ask { otherwise: guess }
        } else if guess {
            ReuseAddress::Yes
        } else {
            ReuseAddress::No
        },
    }
}

fn open_new(
    domain: SocketDomain,
    bind: BindAddress,
    socket_path: Option<&str>,
    app: &SocketAppOptions,
    user: &SocketUserOptions,
    platform: &Platform,
) -> (r: Result<OpenPlan, OpenSocketError>)
    requires
        socket_path is Some <==> bind == BindAddress::Unix,
    ensures
        r == open_new_spec(domain, bind, *app, *user, *platform),
{
    let has_path = socket_path.is_some();
    prepare(user, socket_path, platform)?;
    if !platform.reuse_port {
        check_inapplicable_bool(user.ip_socket_reuse_port, "ip_socket_reuse_port")?;
    }
    let listen = app.listen && app.socket_type == SocketType::Stream;
    let listen_backlog: Option<i32> = if listen {
        Some(
            match user.listen_socket_backlog {
                Some(backlog) => backlog,
                None => SocketUserOptions::DEFAULT_LISTEN_SOCKET_BACKLOG,
            },
        )
    } else {
        check_inapplicable(user.listen_socket_backlog, "listen_socket_backlog")?;
        None
    };
    Ok(
        OpenPlan::New(
            NewSocketPlan {
                domain,
                socket_type: app.socket_type,
                protocol: app.protocol,
                cleanup: has_path && !user.unix_socket_no_unlink,
                mkdir_parents: has_path,
                reuse_address: plan_reuse_address(domain, listen, app, platform),
                reuse_port: user.ip_socket_reuse_port,
                v6_only: user.ip_socket_v6_only,
                before_bind: app.before_bind,
                bind,
                owner: plan_principal(&user.unix_socket_owner),
                group: plan_principal(&user.unix_socket_group),
                permissions: user.unix_socket_permissions,
                listen_backlog,
            },
        ),
    )
}

fn open_inherited(
    socket: Option<RawSocket>,
    app: &SocketAppOptions,
    user: &SocketUserOptions,
    platform: &Platform,
) -> (r: Result<OpenPlan, OpenSocketError>)
    ensures
        r == open_inherited_spec(socket, *app, *user, *platform),
{
    let rejected: Option<&'static str> = match check_inherited(user) {
        Ok(()) => None,
        Err(OpenSocketError::InapplicableUserOption { name }) => Some(name),
        Err(_) => None,
    };
    if socket.is_some() {
        if let Some(name) = rejected {
            return Err(OpenSocketError::InapplicableUserOption { name });
        }
    }
    Ok(
        OpenPlan::Inherit(
            InheritPlan {
                socket,
                rejected,
                socket_type: app.socket_type,
                check_listening: platform.query_listening,
                listen: app.listen,
            },
        ),
    )
}

/// Decides how to open a socket, or which inherited socket to claim,
/// according to the given address and options.
///
/// `platform` says what the system can do, and `activation_end` where the
/// window of sockets from socket activation ends, if there is one. Nothing
/// is done to the system here: the plan that comes back is carried out by
/// `OpenPlan::start` and `OpenPlan::next`.
pub fn open(
    address: &SocketAddr,
    app_options: &SocketAppOptions,
    user_options: &SocketUserOptions,
    platform: &Platform,
    activation_end: Option<RawSocket>,
) -> (r: Result<OpenPlan, OpenSocketError>)
    ensures
        r == open_spec(*address, *app_options, *user_options, *platform, activation_end),
        r matches Ok(plan) ==> plan.well_formed(),
{
    proof {
        lemma_open_plans_are_well_formed(
            *address,
            *app_options,
            *user_options,
            *platform,
            activation_end,
        );
    }
    match address {
        SocketAddr::Ip { addr, port } => {
            let port: u16 = match port {
                Some(port) => *port,
                None => match app_options.default_port {
                    Some(port) => port,
                    None => {
                        return Err(OpenSocketError::PortRequired);
                    },
                },
            };
            let domain = match addr {
                IpAddress::V4(_) => SocketDomain::Ipv4,
                IpAddress::V6(_) => SocketDomain::Ipv6,
            };
            open_new(
                domain,
                BindAddress::Ip { addr: *addr, port },
                None,
                app_options,
                user_options,
                platform,
            )
        },
        SocketAddr::Unix { path } => {
            let path = path.as_str();
            if !unix_path_accepted(path) {
                return Err(
                    OpenSocketError::InvalidUnixPath {
                        error: IoError::new(IoErrorKind::InvalidInput),
                    },
                );
            }
            open_new(
                SocketDomain::Unix,
                BindAddress::Unix,
                Some(path),
                app_options,
                user_options,
                platform,
            )
        },
        SocketAddr::Inherit { socket } => open_inherited(
            Some(*socket),
            app_options,
            user_options,
            platform,
        ),
        SocketAddr::InheritStdin => open_inherited(
            get_stdin_as_socket(platform),
            app_options,
            user_options,
            platform,
        ),
        SocketAddr::SystemdNumeric { socket } => {
            if !platform.socket_activation {
                return Err(OpenSocketError::ActivationNotSupported);
            }
            if !in_activation_window(*socket, activation_end) {
                return Err(OpenSocketError::InvalidSystemdFd);
            }
            open_inherited(Some(*socket), app_options, user_options, platform)
        },
    }
}

impl OpenPlan {
    /// What holds of every plan that `open` makes.
    ///
    /// A new socket is of the family of its address. Only a socket with a
    /// path has a stale socket removed, parent folders made, and its
    /// owner, group or permissions set. Only a stream socket listens, and
    /// only a socket that listens has `SO_REUSEADDR` set. An inherited
    /// socket that is known is not held up by any option.
    pub open spec fn well_formed(self) -> bool {
        match self {
            OpenPlan::New(plan) => {
                let has_path = plan.bind == BindAddress::Unix;
                &&& match plan.bind {
                    BindAddress::Ip { addr, port } => plan.domain == ip_domain(addr),
                    BindAddress::Unix => plan.domain == SocketDomain::Unix,
                }
                &&& plan.mkdir_parents == has_path
                &&& plan.cleanup ==> has_path
                &&& plan.owner != PrincipalPlan::Unchanged ==> has_path
                &&& plan.group != PrincipalPlan::Unchanged ==> has_path
                &&& plan.permissions is Some ==> has_path
                &&& plan.listen_backlog is Some ==> plan.socket_type == SocketType::Stream
                &&& plan.reuse_address != ReuseAddress::No ==> plan.listen_backlog is Some
            },
            OpenPlan::Inherit(plan) => plan.rejected is Some ==> plan.socket is None,
        }
    }
}

/// Every plan that `open` makes is well formed.
pub proof fn lemma_open_plans_are_well_formed(
    address: SocketAddr,
    app: SocketAppOptions,
    user: SocketUserOptions,
    platform: Platform,
    activation_end: Option<RawSocket>,
)
    ensures
        open_spec(address, app, user, platform, activation_end) matches Ok(plan)
            ==> plan.well_formed(),
{
}

/// `SO_REUSEADDR` is set on the sockets that listen and are taken for TCP
/// sockets, where the platform calls for it, and on no others. Where the
/// socket is asked for its protocol, what it reports decides.
pub proof fn lemma_reuse_address_is_for_tcp(
    domain: SocketDomain,
    bind: BindAddress,
    app: SocketAppOptions,
    user: SocketUserOptions,
    platform: Platform,
    reported: Option<SocketProtocol>,
)
    ensures
        ({
            let plan = new_socket_plan(domain, bind, app, user, platform);
            let wanted = platform.reuse_address && listens(app);
            match plan.reuse_address {
                ReuseAddress::Yes => wanted && is_socket_probably_tcp_spec(None, domain, app),
                ReuseAddress::No => !wanted || !is_socket_probably_tcp_spec(None, domain, app),
                ReuseAddress::Ask { otherwise } => {
                    &&& wanted
                    &&& platform.query_protocol
                    &&& plan.after_protocol_spec(reported).1 is SetReuseAddress
                        <==> is_socket_probably_tcp_spec(reported, domain, app)
                },
            }
        }),
{
}

/// An IP address without a port is bound to the application's default
/// port. Where there is none, a port is required, and the run does not
/// start.
pub proof fn lemma_default_port(
    addr: IpAddress,
    app: SocketAppOptions,
    user: SocketUserOptions,
    platform: Platform,
    activation_end: Option<RawSocket>,
)
    ensures
        ({
            let opened = open_spec(
                SocketAddr::Ip { addr, port: None },
                app,
                user,
                platform,
                activation_end,
            );
            match app.default_port {
                None => opened == Err::<OpenPlan, OpenSocketError>(OpenSocketError::PortRequired),
                Some(port) => match opened {
                    Ok(OpenPlan::New(plan)) => plan.bind == (BindAddress::Ip { addr, port }),
                    Ok(_) => false,
                    Err(error) => error is InapplicableUserOption,
                },
            }
        }),
{
}

/// Whether an address names an inherited socket.
pub open spec fn is_inherited_spec(address: SocketAddr) -> bool {
    address is Inherit || address is InheritStdin || address is SystemdNumeric
}

/// A user option that inherited sockets do not take is always rejected,
/// by name, before the socket is touched. Opening an inherited socket with
/// such an option set gives the error at once, once its descriptor is
/// known: a socket from socket activation must first be one that was
/// handed over, and where the handle of the standard input has to be
/// looked up, the lookup is the only step before the error.
pub proof fn lemma_inherited_rejects(
    address: SocketAddr,
    app: SocketAppOptions,
    user: SocketUserOptions,
    platform: Platform,
    activation_end: Option<RawSocket>,
)
    requires
        is_inherited_spec(address),
        inapplicable_to_inherited(user) is Some,
    ensures
        ({
            let name = inapplicable_to_inherited(user)->0;
            let rejected = OpenSocketError::InapplicableUserOption { name };
            match open_spec(address, app, user, platform, activation_end) {
                Err(error) => error == rejected || (address is SystemdNumeric && (error
                    == OpenSocketError::ActivationNotSupported || error
                    == OpenSocketError::InvalidSystemdFd)),
                Ok(plan) => {
                    &&& address is InheritStdin
                    &&& !platform.file_descriptors
                    &&& plan.start_spec() == (OpenStage::GetStdin, OpenAction::GetStdin)
                    &&& forall|socket: RawSocket|
                        plan.next_spec(OpenStage::GetStdin, OpenOutcome::Handle(socket))
                            == fail_spec(rejected)
                },
            }
        }),
        address is SystemdNumeric && platform.socket_activation && in_activation_window_spec(
            address->SystemdNumeric_socket,
            activation_end,
        ) ==> open_spec(address, app, user, platform, activation_end) == Err::<
            OpenPlan,
            OpenSocketError,
        >(OpenSocketError::InapplicableUserOption { name: inapplicable_to_inherited(user)->0 }),
{
}

/// Every user option that inherited sockets do not take is rejected: that
/// any of them is set is enough.
pub proof fn lemma_inapplicable_is_total(user: SocketUserOptions)
    ensures
        inapplicable_to_inherited(user) is Some <==> (user.unix_socket_permissions is Some
            || user.unix_socket_owner is Some || user.unix_socket_group is Some
            || user.ip_socket_reuse_port || user.ip_socket_v6_only
            || user.listen_socket_backlog is Some),
{
}

} // verus!
