//! Various errors that can be raised by this library.

use crate::options::SocketType;
use vstd::prelude::*;
use vstd::std_specs::convert::FromSpecImpl;

verus! {

/// The general category of an operating system error.
#[derive(Clone, Copy, Debug, PartialEq, Eq, Structural)]
pub enum IoErrorKind {
    NotFound,
    PermissionDenied,
    ConnectionRefused,
    ConnectionReset,
    ConnectionAborted,
    NotConnected,
    AddrInUse,
    AddrNotAvailable,
    BrokenPipe,
    AlreadyExists,
    WouldBlock,
    InvalidInput,
    InvalidData,
    TimedOut,
    WriteZero,
    Interrupted,
    Unsupported,
    UnexpectedEof,
    OutOfMemory,
    /// Any category that this library does not tell apart.
    Other,
}

/// An error that an operating system call, or the `before_bind` hook,
/// reported: its category and, where the system gave one, its code.
#[derive(Clone, Copy, Debug, PartialEq, Eq, Structural)]
pub struct IoError {
    pub kind: IoErrorKind,
    pub code: Option<i32>,
}

impl IoError {
    /// An error of the given category that carries no system code.
    pub fn new(kind: IoErrorKind) -> (e: IoError)
        ensures
            e == (IoError { kind, code: None }),
    {
        IoError { kind, code: None }
    }

    /// Whether this error says that a file does not exist.
    pub fn is_not_found(&self) -> (r: bool)
        ensures
            r == (self.kind == IoErrorKind::NotFound),
    {
        match self.kind {
            IoErrorKind::NotFound => true,
            _ => false,
        }
    }
}

/// Why a text was not taken for an IP address with an optional port.
#[derive(Clone, Copy, Debug, PartialEq, Eq, Structural)]
pub struct AddrParseError;

impl AddrParseError {
    /// What went wrong, in words.
    pub fn description(&self) -> (r: &'static str)
        ensures
            r@ == "invalid socket address syntax"@,
    {
        "invalid socket address syntax"
    }
}

/// An error parsing a `SocketAddr` from a string.
#[derive(Clone, Copy, Debug, PartialEq, Eq, Structural)]
pub enum InvalidSocketAddrError {
    /// The socket address did not fit one of the acceptable patterns.
    Unrecognized {
        /// The error that occurred when attempting to parse the socket
        /// address as an IP address and port.
        ip_error: AddrParseError,
    },
    /// The socket address is in the form `fd:n`, `socket:n`, or `systemd:n`,
    /// but `n` could not be parsed as a socket file descriptor or handle.
    InvalidSocketNum,
}

/// Error raised by `SocketAddr::cleanup`.
#[derive(Clone, Copy, Debug, PartialEq, Eq, Structural)]
pub enum CleanupSocketError {
    /// The socket is a path-based Unix-domain socket, but checking for a
    /// stale socket at its path failed.
    Stat { error: IoError },
    /// There is a stale socket at the designated path, but removing it failed.
    Unlink { error: IoError },
}

/// An error that occurred in opening a socket.
#[derive(Clone, Copy, Debug, PartialEq, Eq)]
pub enum OpenSocketError {
    /// The address is a Unix-domain socket path, but that path is invalid:
    /// most likely it is too long.
    InvalidUnixPath { error: IoError },
    /// The address names a socket handed over by socket activation, but no
    /// such socket was handed over.
    InvalidSystemdFd,
    /// The address names a socket handed over by socket activation, which
    /// this platform cannot take part in.
    ActivationNotSupported,
    /// There was an error getting the standard input handle.
    WindowsGetStdin { error: IoError },
    /// The address names an inherited socket, but duplicating it failed.
    DupInherited { error: IoError },
    /// The address names an inherited socket, which has the wrong type.
    InheritWrongType {
        /// The type that the socket was expected to have.
        expected: SocketType,
        /// The type that the socket actually has.
        actual: SocketType,
    },
    /// A user option was used that is not applicable to this kind of socket.
    InapplicableUserOption {
        /// The name of the option that is not applicable.
        name: &'static str,
    },
    /// Creating the socket failed.
    CreateSocket { error: IoError },
    /// Creating the parent folders of a path-based socket failed.
    MkdirParents { error: IoError },
    /// Removing the stale socket failed.
    Cleanup(CleanupSocketError),
    /// Setting a socket option failed.
    SetSockOpt {
        /// The name of the socket option, like `SO_REUSEPORT`.
        option: &'static str,
        error: IoError,
    },
    /// The `before_bind` hook returned an error.
    BeforeBind(IoError),
    /// Binding the socket to its address failed.
    Bind { error: IoError },
    /// No user has the name given as the socket's owner.
    OwnerNotFound,
    /// No group has the name given as the socket's group.
    GroupNotFound,
    /// Looking up the user named as the socket's owner failed.
    LookupOwner { error: IoError },
    /// Looking up the group named as the socket's group failed.
    LookupGroup { error: IoError },
    /// There was an error setting the owner of the socket.
    SetOwner { error: IoError },
    /// There was an error setting permissions on the socket.
    SetPermissions { error: IoError },
    /// Making the socket listen failed.
    Listen { error: IoError },
    /// Asking the inherited socket for its type failed: the handle exists
    /// but is probably not a socket.
    CheckInheritedSocket { error: IoError },
    /// The inherited stream socket is not listening, but was expected to.
    InheritedIsNotListening,
    /// The inherited stream socket is listening, but was expected not to.
    InheritedIsListening,
    /// The address has no port number, and there is no default port.
    PortRequired,
}

/// What an error in opening a socket calls for.
#[derive(Clone, Copy, Debug, PartialEq, Eq, Structural)]
pub enum OpenErrorClass {
    /// The address or the options are at fault: the error is to be
    /// reported to the user, and trying again does not help.
    UserInput,
    /// A user or a group could not be told.
    Identity,
    /// A call to the operating system failed.
    OsCall,
    /// The inherited socket is not what the application expects.
    InheritedMismatch,
}

/// The errors that can occur in setting up a socket for non-blocking use.
#[derive(Clone, Copy, Debug, PartialEq, Eq, Structural)]
pub enum IntoTokioError {
    /// The socket is the wrong type or protocol.
    Inappropriate { socket: crate::convert::AnyStdSocket },
    /// There was an error checking details about the socket.
    Check { error: IoError },
    /// There was an error setting non-blocking mode on the socket.
    SetNonBlocking { error: IoError },
    /// The runtime refused the socket.
    Wrap { error: IoError },
}

impl CleanupSocketError {
    /// The category under which this error is reported as a system error:
    /// that of the error it arose from.
    pub open spec fn kind_spec(self) -> IoErrorKind {
        match self {
            CleanupSocketError::Stat { error } => error.kind,
            CleanupSocketError::Unlink { error } => error.kind,
        }
    }

    /// The category under which this error is reported as a system error.
    pub fn kind(&self) -> (k: IoErrorKind)
        ensures
            k == self.kind_spec(),
    {
        match self {
            CleanupSocketError::Stat { error } => error.kind,
            CleanupSocketError::Unlink { error } => error.kind,
        }
    }
}

impl OpenSocketError {
    /// The error that this one arose from, if it wraps one.
    pub open spec fn source_spec(self) -> Option<IoError> {
        match self {
            OpenSocketError::InvalidUnixPath { error } => Some(error),
            OpenSocketError::WindowsGetStdin { error } => Some(error),
            OpenSocketError::DupInherited { error } => Some(error),
            OpenSocketError::CreateSocket { error } => Some(error),
            OpenSocketError::MkdirParents { error } => Some(error),
            OpenSocketError::Cleanup(CleanupSocketError::Stat { error }) => Some(error),
            OpenSocketError::Cleanup(CleanupSocketError::Unlink { error }) => Some(error),
            OpenSocketError::SetSockOpt { option, error } => Some(error),
            OpenSocketError::BeforeBind(error) => Some(error),
            OpenSocketError::Bind { error } => Some(error),
            OpenSocketError::LookupOwner { error } => Some(error),
            OpenSocketError::LookupGroup { error } => Some(error),
            OpenSocketError::SetOwner { error } => Some(error),
            OpenSocketError::SetPermissions { error } => Some(error),
            OpenSocketError::Listen { error } => Some(error),
            OpenSocketError::CheckInheritedSocket { error } => Some(error),
            _ => None,
        }
    }

    /// The category under which this error is reported as a system error.
    /// An error that wraps a system error keeps its category. Of the others,
    /// an inapplicable option is invalid input, a missing activation socket,
    /// user or group is not found, an unsupported address is unsupported,
    /// and the rest are invalid data.
    pub open spec fn kind_spec(self) -> IoErrorKind {
        match self.source_spec() {
            Some(error) => error.kind,
            None => match self {
                OpenSocketError::InapplicableUserOption { name } => IoErrorKind::InvalidInput,
                OpenSocketError::InvalidSystemdFd => IoErrorKind::NotFound,
                OpenSocketError::OwnerNotFound => IoErrorKind::NotFound,
                OpenSocketError::GroupNotFound => IoErrorKind::NotFound,
                OpenSocketError::ActivationNotSupported => IoErrorKind::Unsupported,
                _ => IoErrorKind::InvalidData,
            },
        }
    }

    /// What the error calls for. At fault are the address or the options
    /// where a port is missing, an option does not apply, a path is
    /// invalid, or socket activation has no such socket or is not
    /// supported.
    pub open spec fn class_spec(self) -> OpenErrorClass {
        match self {
            OpenSocketError::PortRequired => OpenErrorClass::UserInput,
            OpenSocketError::InapplicableUserOption { name } => OpenErrorClass::UserInput,
            OpenSocketError::InvalidUnixPath { error } => OpenErrorClass::UserInput,
            OpenSocketError::InvalidSystemdFd => OpenErrorClass::UserInput,
            OpenSocketError::ActivationNotSupported => OpenErrorClass::UserInput,
            OpenSocketError::OwnerNotFound => OpenErrorClass::Identity,
            OpenSocketError::GroupNotFound => OpenErrorClass::Identity,
            OpenSocketError::LookupOwner { error } => OpenErrorClass::Identity,
            OpenSocketError::LookupGroup { error } => OpenErrorClass::Identity,
            OpenSocketError::InheritWrongType { expected, actual } => {
                OpenErrorClass::InheritedMismatch
            },
            OpenSocketError::InheritedIsListening => OpenErrorClass::InheritedMismatch,
            OpenSocketError::InheritedIsNotListening => OpenErrorClass::InheritedMismatch,
            _ => OpenErrorClass::OsCall,
        }
    }

    /// What the error calls for.
    pub fn class(&self) -> (r: OpenErrorClass)
        ensures
            r == self.class_spec(),
    {
        match self {
            OpenSocketError::PortRequired => OpenErrorClass::UserInput,
            OpenSocketError::InapplicableUserOption { name: _ } => OpenErrorClass::UserInput,
            OpenSocketError::InvalidUnixPath { error: _ } => OpenErrorClass::UserInput,
            OpenSocketError::InvalidSystemdFd => OpenErrorClass::UserInput,
            OpenSocketError::ActivationNotSupported => OpenErrorClass::UserInput,
            OpenSocketError::OwnerNotFound => OpenErrorClass::Identity,
            OpenSocketError::GroupNotFound => OpenErrorClass::Identity,
            OpenSocketError::LookupOwner { error: _ } => OpenErrorClass::Identity,
            OpenSocketError::LookupGroup { error: _ } => OpenErrorClass::Identity,
            OpenSocketError::InheritWrongType { expected: _, actual: _ } => {
                OpenErrorClass::InheritedMismatch
            },
            OpenSocketError::InheritedIsListening => OpenErrorClass::InheritedMismatch,
            OpenSocketError::InheritedIsNotListening => OpenErrorClass::InheritedMismatch,
            _ => OpenErrorClass::OsCall,
        }
    }

    /// The error that this one arose from, if it wraps one.
    pub fn source(&self) -> (r: Option<IoError>)
        ensures
            r == self.source_spec(),
    {
        match self {
            OpenSocketError::InvalidUnixPath { error } => Some(*error),
            OpenSocketError::WindowsGetStdin { error } => Some(*error),
            OpenSocketError::DupInherited { error } => Some(*error),
            OpenSocketError::CreateSocket { error } => Some(*error),
            OpenSocketError::MkdirParents { error } => Some(*error),
            OpenSocketError::Cleanup(CleanupSocketError::Stat { error }) => Some(*error),
            OpenSocketError::Cleanup(CleanupSocketError::Unlink { error }) => Some(*error),
            OpenSocketError::SetSockOpt { option: _, error } => Some(*error),
            OpenSocketError::BeforeBind(error) => Some(*error),
            OpenSocketError::Bind { error } => Some(*error),
            OpenSocketError::LookupOwner { error } => Some(*error),
            OpenSocketError::LookupGroup { error } => Some(*error),
            OpenSocketError::SetOwner { error } => Some(*error),
            OpenSocketError::SetPermissions { error } => Some(*error),
            OpenSocketError::Listen { error } => Some(*error),
            OpenSocketError::CheckInheritedSocket { error } => Some(*error),
            _ => None,
        }
    }

    /// The category under which this error is reported as a system error.
    pub fn kind(&self) -> (k: IoErrorKind)
        ensures
            k == self.kind_spec(),
    {
        match self.source() {
            Some(error) => error.kind,
            None => match self {
                OpenSocketError::InapplicableUserOption { name: _ } => IoErrorKind::InvalidInput,
                OpenSocketError::InvalidSystemdFd => IoErrorKind::NotFound,
                OpenSocketError::OwnerNotFound => IoErrorKind::NotFound,
                OpenSocketError::GroupNotFound => IoErrorKind::NotFound,
                OpenSocketError::ActivationNotSupported => IoErrorKind::Unsupported,
                _ => IoErrorKind::InvalidData,
            },
        }
    }
}

impl IntoTokioError {
    /// The category under which this error is reported as a system error:
    /// invalid input for an inappropriate socket, else that of the error it
    /// arose from.
    pub open spec fn kind_spec(self) -> IoErrorKind {
        match self {
            IntoTokioError::Inappropriate { socket } => IoErrorKind::InvalidInput,
            IntoTokioError::Check { error } => error.kind,
            IntoTokioError::SetNonBlocking { error } => error.kind,
            IntoTokioError::Wrap { error } => error.kind,
        }
    }

    /// The category under which this error is reported as a system error.
    pub fn kind(&self) -> (k: IoErrorKind)
        ensures
            k == self.kind_spec(),
    {
        match self {
            IntoTokioError::Inappropriate { socket: _ } => IoErrorKind::InvalidInput,
            IntoTokioError::Check { error } => error.kind,
            IntoTokioError::SetNonBlocking { error } => error.kind,
            IntoTokioError::Wrap { error } => error.kind,
        }
    }
}

impl From<OpenSocketError> for IoError {
    fn from(error: OpenSocketError) -> (e: IoError) {
        IoError::new(error.kind())
    }
}

impl FromSpecImpl<OpenSocketError> for IoError {
    open spec fn obeys_from_spec() -> bool {
        true
    }

    open spec fn from_spec(error: OpenSocketError) -> IoError {
        IoError { kind: error.kind_spec(), code: None }
    }
}

impl From<CleanupSocketError> for IoError {
    fn from(error: CleanupSocketError) -> (e: IoError) {
        IoError::new(error.kind())
    }
}

impl FromSpecImpl<CleanupSocketError> for IoError {
    open spec fn obeys_from_spec() -> bool {
        true
    }

    open spec fn from_spec(error: CleanupSocketError) -> IoError {
        IoError { kind: error.kind_spec(), code: None }
    }
}

impl From<IntoTokioError> for IoError {
    fn from(error: IntoTokioError) -> (e: IoError) {
        IoError::new(error.kind())
    }
}

impl FromSpecImpl<IntoTokioError> for IoError {
    open spec fn obeys_from_spec() -> bool {
        true
    }

    open spec fn from_spec(error: IntoTokioError) -> IoError {
        IoError { kind: error.kind_spec(), code: None }
    }
}

} // verus!
