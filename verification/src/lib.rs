//! This library sets up sockets in a way that can be controlled by the user
//! of an application, such as through a command-line option or a
//! configuration file.
//!
//! A socket address is a text like `127.0.0.1:12345` (IPv4), `[::1]:12345`
//! (IPv6), `./my.socket` (Unix-domain), or `fd:3` (a socket inherited from
//! the parent process); see [`SocketAddr`] for the complete syntax.
//!
//! The library itself touches no socket. [`open`] decides what is to be
//! done for an address and two sets of options, and the plan that it
//! returns names the actions one by one; the caller performs them and
//! reports what came of each.

pub mod addr;
pub mod convert;
pub mod errors;
pub mod ip;
pub mod open;
pub mod options;
pub mod round_trip;
pub mod sys;
pub mod text;
pub mod unix_security;
pub mod util;

pub use crate::addr::{
    cleanup_checked,
    cleanup_removed,
    str_is_unix_domain_socket_prefix,
    CleanupAction,
    SocketAddr,
};
pub use crate::ip::{IpAddress, Ipv4Address, Ipv6Address};
pub use crate::open::steps::{OpenAction, OpenOutcome, OpenStage};
pub use crate::open::{
    open,
    BindAddress,
    InheritPlan,
    NewSocketPlan,
    OpenPlan,
    PrincipalPlan,
    ReuseAddress,
};
pub use crate::options::{
    Platform,
    RawSocket,
    SocketAppOptions,
    SocketDomain,
    SocketProtocol,
    SocketType,
    SocketUserOptions,
    UnixPrincipal,
};
pub use crate::sys::{
    get_stdin_as_socket,
    in_activation_window,
    is_unix_socket,
    listen_fds_end,
    make_socket_inheritable,
    startup_socket_api,
};
pub use crate::unix_security::{
    apply,
    parse_gid,
    parse_mode,
    parse_uid,
    prepare,
    SerdeGid,
    SerdeMode,
    SerdeUid,
    UnixPrincipalKind,
    UnixPrincipalLookupError,
    UnixSocketPermissionsParseError,
};
pub use crate::util::{
    check_inapplicable,
    check_inapplicable_bool,
    inapplicable,
    is_socket_probably_tcp,
};
