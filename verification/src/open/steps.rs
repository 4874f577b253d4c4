//! The steps of a plan: what the caller is asked to do, and what follows
//! from what came of it.

use crate::addr::{
    cleanup_checked,
    cleanup_checked_spec,
    cleanup_removed,
    cleanup_removed_spec,
    CleanupAction,
};
use crate::errors::{IoError, OpenSocketError};
use crate::open::{
    BindAddress,
    InheritPlan,
    NewSocketPlan,
    OpenPlan,
    PrincipalPlan,
    ReuseAddress,
};
use crate::options::{RawSocket, SocketDomain, SocketProtocol, SocketType};
use crate::unix_security::{
    apply,
    apply_permissions,
    apply_permissions_spec,
    apply_spec,
    listen,
    listen_spec,
};
use vstd::prelude::*;

verus! {

/// A step of a plan that has been asked for and not yet answered.
#[derive(Clone, Copy, Debug, PartialEq, Eq, Structural)]
pub enum OpenStage {
    CreateSocket,
    CheckStale,
    RemoveStale,
    MkdirParents,
    QueryProtocol,
    SetReuseAddress,
    SetReusePort,
    SetOnlyV6,
    BeforeBind,
    Bind,
    LookupOwner,
    /// The group is looked up; the owner is already known.
    LookupGroup { owner: Option<u32> },
    SetOwner,
    SetPermissions,
    Listen,
    GetStdin,
    Duplicate,
    QueryType,
    QueryListening,
    /// The run is over.
    Finished,
}

/// What the caller is to do next.
#[derive(Clone, Copy, Debug, PartialEq, Eq)]
pub enum OpenAction {
    /// Create the socket. Answer: `Done`.
    CreateSocket {
        domain: SocketDomain,
        socket_type: SocketType,
        protocol: Option<SocketProtocol>,
    },
    /// Find out whether the file at the path is a Unix-domain socket.
    /// Answer: `Flag`.
    CheckStale,
    /// Remove the file at the path. Answer: `Done`.
    RemoveStale,
    /// Create the folders above the path. Answer: `Done`.
    MkdirParents,
    /// Ask the socket for its protocol. Answer: `Protocol`.
    QueryProtocol,
    /// Set `SO_REUSEADDR`. Answer: `Done`.
    SetReuseAddress,
    /// Set `SO_REUSEPORT`. Answer: `Done`.
    SetReusePort,
    /// Set `IPV6_V6ONLY`. Answer: `Done`.
    SetOnlyV6,
    /// Run the application's hook on the socket. Answer: `Done`.
    BeforeBind,
    /// Bind the socket. Answer: `Done`.
    Bind { address: BindAddress },
    /// Look up the user named in `unix_socket_owner`. Answer: `Id`.
    LookupOwner,
    /// Look up the group named in `unix_socket_group`. Answer: `Id`.
    LookupGroup,
    /// Set the owner and the group of the file at the path; `None` leaves
    /// one as it is. Answer: `Done`.
    SetOwner { owner: Option<u32>, group: Option<u32> },
    /// Set the permission bits of the file at the path. Answer: `Done`.
    SetPermissions { mode: u32 },
    /// Make the socket listen. Answer: `Done`.
    Listen { backlog: i32 },
    /// Look up the handle of the standard input. Answer: `Handle`.
    GetStdin,
    /// Duplicate the socket, leaving the inherited one open, and go on with the
    /// duplicate. Answer: `Done`.
    Duplicate { socket: RawSocket },
    /// Ask the socket for its type. Answer: `Type`.
    QueryType,
    /// Ask the socket whether it is listening. Answer: `Flag`.
    QueryListening,
    /// The socket is ready: hand it out.
    Done,
    /// The run has failed: drop the socket, if there is one, and report the
    /// error.
    Fail(OpenSocketError),
    /// The outcome does not answer the step that was asked for. Nothing has
    /// changed: the step is still to be answered.
    Unexpected,
}

/// What came of an action.
#[derive(Clone, Copy, Debug, PartialEq, Eq, Structural)]
pub enum OpenOutcome {
    /// The action succeeded.
    Done,
    /// The action failed.
    Failed(IoError),
    /// The answer to a yes-or-no question.
    Flag(bool),
    /// The socket's protocol, if it has told one.
    Protocol(Option<SocketProtocol>),
    /// The socket's type.
    Type(SocketType),
    /// The handle of the standard input.
    Handle(RawSocket),
    /// The number of the user or group; `None` if there is none of that
    /// name.
    Id(Option<u32>),
}

/// The end of a run that has failed.
pub open spec fn fail_spec(error: OpenSocketError) -> (OpenStage, OpenAction) {
    (OpenStage::Finished, OpenAction::Fail(error))
}

/// The end of a run that has failed.
fn fail(error: OpenSocketError) -> (r: (OpenStage, OpenAction))
    ensures
        r == fail_spec(error),
{
    (OpenStage::Finished, OpenAction::Fail(error))
}

impl NewSocketPlan {
    /// The first step: the socket is created.
    pub open spec fn start_spec(self) -> (OpenStage, OpenAction) {
        (
            OpenStage::CreateSocket,
            OpenAction::CreateSocket {
                domain: self.domain,
                socket_type: self.socket_type,
                protocol: self.protocol,
            },
        )
    }

    /// The step after the socket is created: a stale socket is looked for,
    /// if the plan has it so.
    pub open spec fn at_cleanup_spec(self) -> (OpenStage, OpenAction) {
        if self.cleanup {
            (OpenStage::CheckStale, OpenAction::CheckStale)
        } else {
            self.at_mkdir_spec()
        }
    }

    /// The step after the cleanup: the parent folders are created.
    pub open spec fn at_mkdir_spec(self) -> (OpenStage, OpenAction) {
        if self.mkdir_parents {
            (OpenStage::MkdirParents, OpenAction::MkdirParents)
        } else {
            self.at_reuse_address_spec()
        }
    }

    /// The first of the socket options.
    pub open spec fn at_reuse_address_spec(self) -> (OpenStage, OpenAction) {
        match self.reuse_address {
            ReuseAddress::No => self.at_reuse_port_spec(),
            ReuseAddress::Yes => (OpenStage::SetReuseAddress, OpenAction::SetReuseAddress),
            ReuseAddress::Ask { otherwise } => (
                OpenStage::QueryProtocol,
                OpenAction::QueryProtocol,
            ),
        }
    }

    /// The step once the socket has been asked for its protocol.
    pub open spec fn after_protocol_spec(self, reported: Option<SocketProtocol>) -> (
        OpenStage,
        OpenAction,
    ) {
        let tcp = match self.reuse_address {
            ReuseAddress::Ask { otherwise } => match reported {
                Some(protocol) => protocol == SocketProtocol::Tcp,
                None => otherwise,
            },
            _ => false,
        };
        if tcp {
            (OpenStage::SetReuseAddress, OpenAction::SetReuseAddress)
        } else {
            self.at_reuse_port_spec()
        }
    }

    /// The second of the socket options.
    pub open spec fn at_reuse_port_spec(self) -> (OpenStage, OpenAction) {
        if self.reuse_port {
            (OpenStage::SetReusePort, OpenAction::SetReusePort)
        } else {
            self.at_v6_only_spec()
        }
    }

    /// The third of the socket options.
    pub open spec fn at_v6_only_spec(self) -> (OpenStage, OpenAction) {
        if self.v6_only {
            (OpenStage::SetOnlyV6, OpenAction::SetOnlyV6)
        } else {
            self.at_before_bind_spec()
        }
    }

    /// The step after the socket options: the application's hook.
    pub open spec fn at_before_bind_spec(self) -> (OpenStage, OpenAction) {
        if self.before_bind {
            (OpenStage::BeforeBind, OpenAction::BeforeBind)
        } else {
            self.at_bind_spec()
        }
    }

    /// The socket is bound.
    pub open spec fn at_bind_spec(self) -> (OpenStage, OpenAction) {
        (OpenStage::Bind, OpenAction::Bind { address: self.bind })
    }

    /// The step after the socket is bound: the owner is settled.
    pub open spec fn at_owner_spec(self) -> (OpenStage, OpenAction) {
        match self.owner {
            PrincipalPlan::Lookup => (OpenStage::LookupOwner, OpenAction::LookupOwner),
            PrincipalPlan::Id(id) => self.at_group_spec(Some(id)),
            PrincipalPlan::Unchanged => self.at_group_spec(None),
        }
    }

    /// The step after the owner is settled: the group is.
    pub open spec fn at_group_spec(self, owner: Option<u32>) -> (OpenStage, OpenAction) {
        match self.group {
            PrincipalPlan::Lookup => (OpenStage::LookupGroup { owner }, OpenAction::LookupGroup),
            PrincipalPlan::Id(id) => apply_spec(self, owner, Some(id)),
            PrincipalPlan::Unchanged => apply_spec(self, owner, None),
        }
    }

    /// What follows the step `stage`, given what came of it.
    ///
    /// A step that has succeeded is followed by the next step that the
    /// plan holds. A step that has failed ends the run with the error of
    /// that step, with three exceptions: that no file is found where a
    /// stale socket is looked for or removed is no failure, and a socket
    /// that cannot tell its protocol is judged by its family.
    pub open spec fn next_spec(self, stage: OpenStage, outcome: OpenOutcome) -> (
        OpenStage,
        OpenAction,
    ) {
        match (stage, outcome) {
            (OpenStage::CreateSocket, OpenOutcome::Done) => self.at_cleanup_spec(),
            (OpenStage::CreateSocket, OpenOutcome::Failed(error)) => fail_spec(
                OpenSocketError::CreateSocket { error },
            ),
            (OpenStage::CheckStale, OpenOutcome::Flag(is_socket)) => self.after_check_spec(
                Ok(is_socket),
            ),
            (OpenStage::CheckStale, OpenOutcome::Failed(error)) => self.after_check_spec(
                Err(error),
            ),
            (OpenStage::RemoveStale, OpenOutcome::Done) => self.after_remove_spec(Ok(())),
            (OpenStage::RemoveStale, OpenOutcome::Failed(error)) => self.after_remove_spec(
                Err(error),
            ),
            (OpenStage::MkdirParents, OpenOutcome::Done) => self.at_reuse_address_spec(),
            (OpenStage::MkdirParents, OpenOutcome::Failed(error)) => fail_spec(
                OpenSocketError::MkdirParents { error },
            ),
            (OpenStage::QueryProtocol, OpenOutcome::Protocol(reported)) => self.after_protocol_spec(
                reported,
            ),
            (OpenStage::QueryProtocol, OpenOutcome::Failed(_)) => self.after_protocol_spec(None),
            (OpenStage::SetReuseAddress, OpenOutcome::Done) => self.at_reuse_port_spec(),
            (OpenStage::SetReuseAddress, OpenOutcome::Failed(error)) => fail_spec(
                OpenSocketError::SetSockOpt { option: "SO_REUSEADDR", error },
            ),
            (OpenStage::SetReusePort, OpenOutcome::Done) => self.at_v6_only_spec(),
            (OpenStage::SetReusePort, OpenOutcome::Failed(error)) => fail_spec(
                OpenSocketError::SetSockOpt { option: "SO_REUSEPORT", error },
            ),
            (OpenStage::SetOnlyV6, OpenOutcome::Done) => self.at_before_bind_spec(),
            (OpenStage::SetOnlyV6, OpenOutcome::Failed(error)) => fail_spec(
                OpenSocketError::SetSockOpt { option: "IPV6_V6ONLY", error },
            ),
            (OpenStage::BeforeBind, OpenOutcome::Done) => self.at_bind_spec(),
            (OpenStage::BeforeBind, OpenOutcome::Failed(error)) => fail_spec(
                OpenSocketError::BeforeBind(error),
            ),
            (OpenStage::Bind, OpenOutcome::Done) => self.at_owner_spec(),
            (OpenStage::Bind, OpenOutcome::Failed(error)) => fail_spec(
                OpenSocketError::Bind { error },
            ),
            (OpenStage::LookupOwner, OpenOutcome::Id(Some(id))) => self.at_group_spec(Some(id)),
            (OpenStage::LookupOwner, OpenOutcome::Id(None)) => fail_spec(
                OpenSocketError::OwnerNotFound,
            ),
            (OpenStage::LookupOwner, OpenOutcome::Failed(error)) => fail_spec(
                OpenSocketError::LookupOwner { error },
            ),
            (OpenStage::LookupGroup { owner }, OpenOutcome::Id(Some(id))) => apply_spec(
                self,
                owner,
                Some(id),
            ),
            (OpenStage::LookupGroup { owner }, OpenOutcome::Id(None)) => fail_spec(
                OpenSocketError::GroupNotFound,
            ),
            (OpenStage::LookupGroup { owner }, OpenOutcome::Failed(error)) => fail_spec(
                OpenSocketError::LookupGroup { error },
            ),
            (OpenStage::SetOwner, OpenOutcome::Done) => apply_permissions_spec(self),
            (OpenStage::SetOwner, OpenOutcome::Failed(error)) => fail_spec(
                OpenSocketError::SetOwner { error },
            ),
            (OpenStage::SetPermissions, OpenOutcome::Done) => listen_spec(self),
            (OpenStage::SetPermissions, OpenOutcome::Failed(error)) => fail_spec(
                OpenSocketError::SetPermissions { error },
            ),
            (OpenStage::Listen, OpenOutcome::Done) => (OpenStage::Finished, OpenAction::Done),
            (OpenStage::Listen, OpenOutcome::Failed(error)) => fail_spec(
                OpenSocketError::Listen { error },
            ),
            _ => (stage, OpenAction::Unexpected),
        }
    }

    /// What follows the check for a stale socket: as `cleanup_checked` has
    /// it, with the parent folders next once the cleanup is done.
    pub open spec fn after_check_spec(self, is_unix_socket: Result<bool, IoError>) -> (
        OpenStage,
        OpenAction,
    ) {
        match cleanup_checked_spec(is_unix_socket) {
            CleanupAction::Remove => (OpenStage::RemoveStale, OpenAction::RemoveStale),
            CleanupAction::Fail(error) => fail_spec(OpenSocketError::Cleanup(error)),
            _ => self.at_mkdir_spec(),
        }
    }

    /// What follows the removal of a stale socket: as `cleanup_removed`
    /// has it, with the parent folders next.
    pub open spec fn after_remove_spec(self, removed: Result<(), IoError>) -> (
        OpenStage,
        OpenAction,
    ) {
        match cleanup_removed_spec(removed) {
            CleanupAction::Fail(error) => fail_spec(OpenSocketError::Cleanup(error)),
            _ => self.at_mkdir_spec(),
        }
    }

    /// Names the first step.
    pub fn start(&self) -> (r: (OpenStage, OpenAction))
        ensures
            r == self.start_spec(),
    {
        (
            OpenStage::CreateSocket,
            OpenAction::CreateSocket {
                domain: self.domain,
                socket_type: self.socket_type,
                protocol: self.protocol,
            },
        )
    }

    fn at_cleanup(&self) -> (r: (OpenStage, OpenAction))
        ensures
            r == self.at_cleanup_spec(),
    {
        if self.cleanup {
            (OpenStage::CheckStale, OpenAction::CheckStale)
        } else {
            self.at_mkdir()
        }
    }

    fn at_mkdir(&self) -> (r: (OpenStage, OpenAction))
        ensures
            r == self.at_mkdir_spec(),
    {
        if self.mkdir_parents {
            (OpenStage::MkdirParents, OpenAction::MkdirParents)
        } else {
            self.at_reuse_address()
        }
    }

    fn at_reuse_address(&self) -> (r: (OpenStage, OpenAction))
        ensures
            r == self.at_reuse_address_spec(),
    {
        match self.reuse_address {
            ReuseAddress::No => self.at_reuse_port(),
            ReuseAddress::Yes => (OpenStage::SetReuseAddress, OpenAction::SetReuseAddress),
            ReuseAddress::Ask { otherwise: _ } => (
                OpenStage::QueryProtocol,
                OpenAction::QueryProtocol,
            ),
        }
    }

    fn after_protocol(&self, reported: Option<SocketProtocol>) -> (r: (OpenStage, OpenAction))
        ensures
            r == self.after_protocol_spec(reported),
    {
        let tcp = match self.reuse_address {
            ReuseAddress::Ask { otherwise } => match reported {
                Some(protocol) => protocol == SocketProtocol::Tcp,
                None => otherwise,
            },
            _ => false,
        };
        if tcp {
            (OpenStage::SetReuseAddress, OpenAction::SetReuseAddress)
        } else {
            self.at_reuse_port()
        }
    }

    fn at_reuse_port(&self) -> (r: (OpenStage, OpenAction))
        ensures
            r == self.at_reuse_port_spec(),
    {
        if self.reuse_port {
            (OpenStage::SetReusePort, OpenAction::SetReusePort)
        } else {
            self.at_v6_only()
        }
    }

    fn at_v6_only(&self) -> (r: (OpenStage, OpenAction))
        ensures
            r == self.at_v6_only_spec(),
    {
        if self.v6_only {
            (OpenStage::SetOnlyV6, OpenAction::SetOnlyV6)
        } else {
            self.at_before_bind()
        }
    }

    fn at_before_bind(&self) -> (r: (OpenStage, OpenAction))
        ensures
            r == self.at_before_bind_spec(),
    {
        if self.before_bind {
            (OpenStage::BeforeBind, OpenAction::BeforeBind)
        } else {
            self.at_bind()
        }
    }

    fn at_bind(&self) -> (r: (OpenStage, OpenAction))
        ensures
            r == self.at_bind_spec(),
    {
        (OpenStage::Bind, OpenAction::Bind { address: self.bind })
    }

    fn at_owner(&self) -> (r: (OpenStage, OpenAction))
        ensures
            r == self.at_owner_spec(),
    {
        match self.owner {
            PrincipalPlan::Lookup => (OpenStage::LookupOwner, OpenAction::LookupOwner),
            PrincipalPlan::Id(id) => self.at_group(Some(id)),
            PrincipalPlan::Unchanged => self.at_group(None),
        }
    }

    fn at_group(&self, owner: Option<u32>) -> (r: (OpenStage, OpenAction))
        ensures
            r == self.at_group_spec(owner),
    {
        match self.group {
            PrincipalPlan::Lookup => (OpenStage::LookupGroup { owner }, OpenAction::LookupGroup),
            PrincipalPlan::Id(id) => apply(self, owner, Some(id)),
            PrincipalPlan::Unchanged => apply(self, owner, None),
        }
    }

    fn after_check(&self, is_unix_socket: Result<bool, IoError>) -> (r: (OpenStage, OpenAction))
        ensures
            r == self.after_check_spec(is_unix_socket),
    {
        match cleanup_checked(is_unix_socket) {
            CleanupAction::Remove => (OpenStage::RemoveStale, OpenAction::RemoveStale),
            CleanupAction::Fail(error) => fail(OpenSocketError::Cleanup(error)),
            _ => self.at_mkdir(),
        }
    }

    fn after_remove(&self, removed: Result<(), IoError>) -> (r: (OpenStage, OpenAction))
        ensures
            r == self.after_remove_spec(removed),
    {
        match cleanup_removed(removed) {
            CleanupAction::Fail(error) => fail(OpenSocketError::Cleanup(error)),
            _ => self.at_mkdir(),
        }
    }

    /// Names the step that follows `stage`, given what came of it.
    pub fn next(&self, stage: OpenStage, outcome: OpenOutcome) -> (r: (OpenStage, OpenAction))
        ensures
            r == self.next_spec(stage, outcome),
    {
        match (stage, outcome) {
            (OpenStage::CreateSocket, OpenOutcome::Done) => self.at_cleanup(),
            (OpenStage::CreateSocket, OpenOutcome::Failed(error)) => fail(
                OpenSocketError::CreateSocket { error },
            ),
            (OpenStage::CheckStale, OpenOutcome::Flag(is_socket)) => self.after_check(
                Ok(is_socket),
            ),
            (OpenStage::CheckStale, OpenOutcome::Failed(error)) => self.after_check(Err(error)),
            (OpenStage::RemoveStale, OpenOutcome::Done) => self.after_remove(Ok(())),
            (OpenStage::RemoveStale, OpenOutcome::Failed(error)) => self.after_remove(Err(error)),
            (OpenStage::MkdirParents, OpenOutcome::Done) => self.at_reuse_address(),
            (OpenStage::MkdirParents, OpenOutcome::Failed(error)) => fail(
                OpenSocketError::MkdirParents { error },
            ),
            (OpenStage::QueryProtocol, OpenOutcome::Protocol(reported)) => self.after_protocol(
                reported,
            ),
            (OpenStage::QueryProtocol, OpenOutcome::Failed(_)) => self.after_protocol(None),
            (OpenStage::SetReuseAddress, OpenOutcome::Done) => self.at_reuse_port(),
            (OpenStage::SetReuseAddress, OpenOutcome::Failed(error)) => fail(
                OpenSocketError::SetSockOpt { option: "SO_REUSEADDR", error },
            ),
            (OpenStage::SetReusePort, OpenOutcome::Done) => self.at_v6_only(),
            (OpenStage::SetReusePort, OpenOutcome::Failed(error)) => fail(
                OpenSocketError::SetSockOpt { option: "SO_REUSEPORT", error },
            ),
            (OpenStage::SetOnlyV6, OpenOutcome::Done) => self.at_before_bind(),
            (OpenStage::SetOnlyV6, OpenOutcome::Failed(error)) => fail(
                OpenSocketError::SetSockOpt { option: "IPV6_V6ONLY", error },
            ),
            (OpenStage::BeforeBind, OpenOutcome::Done) => self.at_bind(),
            (OpenStage::BeforeBind, OpenOutcome::Failed(error)) => fail(
                OpenSocketError::BeforeBind(error),
            ),
            (OpenStage::Bind, OpenOutcome::Done) => self.at_owner(),
            (OpenStage::Bind, OpenOutcome::Failed(error)) => fail(OpenSocketError::Bind { error }),
            (OpenStage::LookupOwner, OpenOutcome::Id(Some(id))) => self.at_group(Some(id)),
            (OpenStage::LookupOwner, OpenOutcome::Id(None)) => fail(OpenSocketError::OwnerNotFound),
            (OpenStage::LookupOwner, OpenOutcome::Failed(error)) => fail(
                OpenSocketError::LookupOwner { error },
            ),
            (OpenStage::LookupGroup { owner }, OpenOutcome::Id(Some(id))) => apply(
                self,
                owner,
                Some(id),
            ),
            (OpenStage::LookupGroup { owner: _ }, OpenOutcome::Id(None)) => fail(
                OpenSocketError::GroupNotFound,
            ),
            (OpenStage::LookupGroup { owner: _ }, OpenOutcome::Failed(error)) => fail(
                OpenSocketError::LookupGroup { error },
            ),
            (OpenStage::SetOwner, OpenOutcome::Done) => apply_permissions(self),
            (OpenStage::SetOwner, OpenOutcome::Failed(error)) => fail(
                OpenSocketError::SetOwner { error },
            ),
            (OpenStage::SetPermissions, OpenOutcome::Done) => listen(self),
            (OpenStage::SetPermissions, OpenOutcome::Failed(error)) => fail(
                OpenSocketError::SetPermissions { error },
            ),
            (OpenStage::Listen, OpenOutcome::Done) => (OpenStage::Finished, OpenAction::Done),
            (OpenStage::Listen, OpenOutcome::Failed(error)) => fail(
                OpenSocketError::Listen { error },
            ),
            _ => (stage, OpenAction::Unexpected),
        }
    }
}

impl InheritPlan {
    /// The first step: the handle of the standard input is looked up where
    /// the socket is not known yet; else the socket is claimed.
    pub open spec fn start_spec(self) -> (OpenStage, OpenAction) {
        match self.socket {
            Some(socket) => self.at_duplicate_spec(socket),
            None => (OpenStage::GetStdin, OpenAction::GetStdin),
        }
    }

    /// The socket is claimed by duplicating it, unless a user option
    /// stands in the way.
    pub open spec fn at_duplicate_spec(self, socket: RawSocket) -> (OpenStage, OpenAction) {
        match self.rejected {
            Some(name) => fail_spec(OpenSocketError::InapplicableUserOption { name }),
            None => (OpenStage::Duplicate, OpenAction::Duplicate { socket }),
        }
    }

    /// What follows once the socket has told its type: a socket of another
    /// type than expected is refused; a stream socket is asked whether it
    /// is listening, where it can be; any other socket is ready.
    pub open spec fn after_type_spec(self, actual: SocketType) -> (OpenStage, OpenAction) {
        if actual != self.socket_type {
            fail_spec(OpenSocketError::InheritWrongType { expected: self.socket_type, actual })
        } else if self.check_listening && actual == SocketType::Stream {
            (OpenStage::QueryListening, OpenAction::QueryListening)
        } else {
            (OpenStage::Finished, OpenAction::Done)
        }
    }

    /// What follows once the socket has told whether it is listening.
    pub open spec fn after_listening_spec(self, listening: bool) -> (OpenStage, OpenAction) {
        if listening == self.listen {
            (OpenStage::Finished, OpenAction::Done)
        } else if self.listen {
            fail_spec(OpenSocketError::InheritedIsNotListening)
        } else {
            fail_spec(OpenSocketError::InheritedIsListening)
        }
    }

    /// What follows the step `stage`, given what came of it.
    ///
    /// A socket that cannot tell whether it is listening is taken as it
    /// is; every other failure ends the run with the error of its step.
    pub open spec fn next_spec(self, stage: OpenStage, outcome: OpenOutcome) -> (
        OpenStage,
        OpenAction,
    ) {
        match (stage, outcome) {
            (OpenStage::GetStdin, OpenOutcome::Handle(socket)) => self.at_duplicate_spec(socket),
            (OpenStage::GetStdin, OpenOutcome::Failed(error)) => fail_spec(
                OpenSocketError::WindowsGetStdin { error },
            ),
            (OpenStage::Duplicate, OpenOutcome::Done) => (
                OpenStage::QueryType,
                OpenAction::QueryType,
            ),
            (OpenStage::Duplicate, OpenOutcome::Failed(error)) => fail_spec(
                OpenSocketError::DupInherited { error },
            ),
            (OpenStage::QueryType, OpenOutcome::Type(actual)) => self.after_type_spec(actual),
            (OpenStage::QueryType, OpenOutcome::Failed(error)) => fail_spec(
                OpenSocketError::CheckInheritedSocket { error },
            ),
            (OpenStage::QueryListening, OpenOutcome::Flag(listening)) => self.after_listening_spec(
                listening,
            ),
            (OpenStage::QueryListening, OpenOutcome::Failed(_)) => (
                OpenStage::Finished,
                OpenAction::Done,
            ),
            _ => (stage, OpenAction::Unexpected),
        }
    }

    /// Names the first step.
    pub fn start(&self) -> (r: (OpenStage, OpenAction))
        ensures
            r == self.start_spec(),
    {
        match self.socket {
            Some(socket) => self.at_duplicate(socket),
            None => (OpenStage::GetStdin, OpenAction::GetStdin),
        }
    }

    fn at_duplicate(&self, socket: RawSocket) -> (r: (OpenStage, OpenAction))
        ensures
            r == self.at_duplicate_spec(socket),
    {
        match self.rejected {
            Some(name) => fail(OpenSocketError::InapplicableUserOption { name }),
            None => (OpenStage::Duplicate, OpenAction::Duplicate { socket }),
        }
    }

    fn after_type(&self, actual: SocketType) -> (r: (OpenStage, OpenAction))
        ensures
            r == self.after_type_spec(actual),
    {
        if actual != self.socket_type {
            fail(OpenSocketError::InheritWrongType { expected: self.socket_type, actual })
        } else if self.check_listening && actual == SocketType::Stream {
            (OpenStage::QueryListening, OpenAction::QueryListening)
        } else {
            (OpenStage::Finished, OpenAction::Done)
        }
    }

    fn after_listening(&self, listening: bool) -> (r: (OpenStage, OpenAction))
        ensures
            r == self.after_listening_spec(listening),
    {
        if listening == self.listen {
            (OpenStage::Finished, OpenAction::Done)
        } else if self.listen {
            fail(OpenSocketError::InheritedIsNotListening)
        } else {
            fail(OpenSocketError::InheritedIsListening)
        }
    }

    /// Names the step that follows `stage`, given what came of it.
    pub fn next(&self, stage: OpenStage, outcome: OpenOutcome) -> (r: (OpenStage, OpenAction))
        ensures
            r == self.next_spec(stage, outcome),
    {
        match (stage, outcome) {
            (OpenStage::GetStdin, OpenOutcome::Handle(socket)) => self.at_duplicate(socket),
            (OpenStage::GetStdin, OpenOutcome::Failed(error)) => fail(
                OpenSocketError::WindowsGetStdin { error },
            ),
            (OpenStage::Duplicate, OpenOutcome::Done) => (
                OpenStage::QueryType,
                OpenAction::QueryType,
            ),
            (OpenStage::Duplicate, OpenOutcome::Failed(error)) => fail(
                OpenSocketError::DupInherited { error },
            ),
            (OpenStage::QueryType, OpenOutcome::Type(actual)) => self.after_type(actual),
            (OpenStage::QueryType, OpenOutcome::Failed(error)) => fail(
                OpenSocketError::CheckInheritedSocket { error },
            ),
            (OpenStage::QueryListening, OpenOutcome::Flag(listening)) => self.after_listening(
                listening,
            ),
            (OpenStage::QueryListening, OpenOutcome::Failed(_)) => (
                OpenStage::Finished,
                OpenAction::Done,
            ),
            _ => (stage, OpenAction::Unexpected),
        }
    }
}

impl OpenPlan {
    /// The first step of the plan.
    pub open spec fn start_spec(self) -> (OpenStage, OpenAction) {
        match self {
            OpenPlan::New(plan) => plan.start_spec(),
            OpenPlan::Inherit(plan) => plan.start_spec(),
        }
    }

    /// What follows the step `stage` of the plan, given what came of it.
    pub open spec fn next_spec(self, stage: OpenStage, outcome: OpenOutcome) -> (
        OpenStage,
        OpenAction,
    ) {
        match self {
            OpenPlan::New(plan) => plan.next_spec(stage, outcome),
            OpenPlan::Inherit(plan) => plan.next_spec(stage, outcome),
        }
    }

    /// Names the first step of the plan: the stage that the run is in, and
    /// the action that the caller is to perform.
    pub fn start(&self) -> (r: (OpenStage, OpenAction))
        ensures
            r == self.start_spec(),
    {
        match self {
            OpenPlan::New(plan) => plan.start(),
            OpenPlan::Inherit(plan) => plan.start(),
        }
    }

    /// Names the step that follows `stage`, given what came of the action
    /// that was asked for: the new stage, and the next action. An outcome
    /// that does not answer the action leaves the stage as it is.
    pub fn next(&self, stage: OpenStage, outcome: OpenOutcome) -> (r: (OpenStage, OpenAction))
        ensures
            r == self.next_spec(stage, outcome),
    {
        match self {
            OpenPlan::New(plan) => plan.next(stage, outcome),
            OpenPlan::Inherit(plan) => plan.next(stage, outcome),
        }
    }
}

impl OpenStage {
    /// The place of a step in a run: a step is only ever followed by steps
    /// of a higher place.
    pub open spec fn rank(self) -> nat {
        match self {
            OpenStage::GetStdin => 0,
            OpenStage::CreateSocket => 1,
            OpenStage::Duplicate => 1,
            OpenStage::CheckStale => 2,
            OpenStage::QueryType => 2,
            OpenStage::RemoveStale => 3,
            OpenStage::QueryListening => 3,
            OpenStage::MkdirParents => 4,
            OpenStage::QueryProtocol => 5,
            OpenStage::SetReuseAddress => 6,
            OpenStage::SetReusePort => 7,
            OpenStage::SetOnlyV6 => 8,
            OpenStage::BeforeBind => 9,
            OpenStage::Bind => 10,
            OpenStage::LookupOwner => 11,
            OpenStage::LookupGroup { owner } => 12,
            OpenStage::SetOwner => 13,
            OpenStage::SetPermissions => 14,
            OpenStage::Listen => 15,
            OpenStage::Finished => 16,
        }
    }
}

impl OpenAction {
    /// The stage that a run is in while the action is performed; a run
    /// that is over is `Finished`.
    pub open spec fn stage(self, owner: Option<u32>) -> OpenStage {
        match self {
            OpenAction::CreateSocket { .. } => OpenStage::CreateSocket,
            OpenAction::CheckStale => OpenStage::CheckStale,
            OpenAction::RemoveStale => OpenStage::RemoveStale,
            OpenAction::MkdirParents => OpenStage::MkdirParents,
            OpenAction::QueryProtocol => OpenStage::QueryProtocol,
            OpenAction::SetReuseAddress => OpenStage::SetReuseAddress,
            OpenAction::SetReusePort => OpenStage::SetReusePort,
            OpenAction::SetOnlyV6 => OpenStage::SetOnlyV6,
            OpenAction::BeforeBind => OpenStage::BeforeBind,
            OpenAction::Bind { .. } => OpenStage::Bind,
            OpenAction::LookupOwner => OpenStage::LookupOwner,
            OpenAction::LookupGroup => OpenStage::LookupGroup { owner },
            OpenAction::SetOwner { .. } => OpenStage::SetOwner,
            OpenAction::SetPermissions { .. } => OpenStage::SetPermissions,
            OpenAction::Listen { .. } => OpenStage::Listen,
            OpenAction::GetStdin => OpenStage::GetStdin,
            OpenAction::Duplicate { .. } => OpenStage::Duplicate,
            OpenAction::QueryType => OpenStage::QueryType,
            OpenAction::QueryListening => OpenStage::QueryListening,
            _ => OpenStage::Finished,
        }
    }
}

/// Whether `step` is a step of rank `rank` or higher, and its action the
/// one that belongs to its stage.
pub open spec fn is_step_from(step: (OpenStage, OpenAction), rank: nat) -> bool {
    &&& step.0.rank() >= rank
    &&& !(step.1 is Unexpected)
    &&& exists|owner: Option<u32>| step.1.stage(owner) == step.0
}

/// The action of a stage belongs to that stage.
proof fn lemma_is_step(step: (OpenStage, OpenAction))
    requires
        !(step.1 is Unexpected),
        step.1.stage(None) == step.0 || (step.0 matches OpenStage::LookupGroup { owner }
            && step.1.stage(owner) == step.0),
    ensures
        is_step_from(step, step.0.rank()),
{
    match step.0 {
        OpenStage::LookupGroup { owner } => {
            assert(step.1.stage(owner) == step.0);
        },
        _ => {
            assert(step.1.stage(None) == step.0);
        },
    }
}

/// The steps after the socket is bound come in order.
proof fn lemma_steps_after_bind(plan: NewSocketPlan, owner: Option<u32>, group: Option<u32>)
    ensures
        is_step_from(listen_spec(plan), 15),
        is_step_from(apply_permissions_spec(plan), 14),
        is_step_from(apply_spec(plan, owner, group), 13),
        is_step_from(plan.at_group_spec(owner), 12),
        is_step_from(plan.at_owner_spec(), 11),
{
    lemma_is_step(listen_spec(plan));
    lemma_is_step(apply_permissions_spec(plan));
    lemma_is_step(apply_spec(plan, owner, group));
    lemma_is_step(plan.at_group_spec(owner));
    assert(is_step_from(plan.at_owner_spec(), 11)) by {
        match plan.owner {
            PrincipalPlan::Lookup => {},
            PrincipalPlan::Id(id) => {
                lemma_is_step(plan.at_group_spec(Some(id)));
            },
            PrincipalPlan::Unchanged => {
                lemma_is_step(plan.at_group_spec(None));
            },
        }
        lemma_is_step(plan.at_owner_spec());
    }
}

/// The steps up to the binding of the socket come in order.
proof fn lemma_steps_before_bind(plan: NewSocketPlan)
    ensures
        is_step_from(plan.at_bind_spec(), 10),
        is_step_from(plan.at_before_bind_spec(), 9),
        is_step_from(plan.at_v6_only_spec(), 8),
        is_step_from(plan.at_reuse_port_spec(), 7),
        is_step_from(plan.at_reuse_address_spec(), 5),
        is_step_from(plan.at_mkdir_spec(), 4),
        is_step_from(plan.at_cleanup_spec(), 2),
{
    lemma_is_step(plan.at_bind_spec());
    lemma_is_step(plan.at_before_bind_spec());
    lemma_is_step(plan.at_v6_only_spec());
    lemma_is_step(plan.at_reuse_port_spec());
    lemma_is_step(plan.at_reuse_address_spec());
    lemma_is_step(plan.at_mkdir_spec());
    lemma_is_step(plan.at_cleanup_spec());
}

/// Every answered step of a new socket leads to a step of a higher rank.
#[verifier::rlimit(40)]
proof fn lemma_new_steps_in_order(plan: NewSocketPlan, stage: OpenStage, outcome: OpenOutcome)
    ensures
        ({
            let next = plan.next_spec(stage, outcome);
            if next.1 is Unexpected {
                next.0 == stage
            } else {
                is_step_from(next, stage.rank() + 1)
            }
        }),
{
    let next = plan.next_spec(stage, outcome);
    lemma_steps_before_bind(plan);
    if !(next.1 is Unexpected) {
        match stage {
            OpenStage::LookupOwner => {
                if let OpenOutcome::Id(Some(id)) = outcome {
                    lemma_steps_after_bind(plan, Some(id), None);
                }
            },
            OpenStage::LookupGroup { owner } => {
                if let OpenOutcome::Id(Some(id)) = outcome {
                    lemma_steps_after_bind(plan, owner, Some(id));
                }
            },
            _ => {
                lemma_steps_after_bind(plan, None, None);
            },
        }
        lemma_is_step(next);
    }
}

/// Every answered step of an inherited socket leads to a step of a higher
/// rank.
proof fn lemma_inherited_steps_in_order(plan: InheritPlan, stage: OpenStage, outcome: OpenOutcome)
    ensures
        ({
            let next = plan.next_spec(stage, outcome);
            if next.1 is Unexpected {
                next.0 == stage
            } else {
                is_step_from(next, stage.rank() + 1)
            }
        }),
{
    let next = plan.next_spec(stage, outcome);
    if !(next.1 is Unexpected) {
        lemma_is_step(next);
    }
}

/// The steps of a run come in a fixed order, and each at most once: the
/// socket is created; a stale socket is looked for and removed; the parent
/// folders are made; the socket options are set; the application's hook
/// runs; the socket is bound; owner and group are looked up and set; the
/// permissions are set; the socket is made to listen. An inherited socket
/// is duplicated before it is asked anything. Every answered step leads to
/// a step of a higher rank.
pub proof fn lemma_steps_in_order(plan: OpenPlan, stage: OpenStage, outcome: OpenOutcome)
    ensures
        ({
            let (next, action) = plan.next_spec(stage, outcome);
            if action is Unexpected {
                next == stage
            } else {
                &&& next.rank() > stage.rank()
                &&& exists|owner: Option<u32>| action.stage(owner) == next
            }
        }),
{
    match plan {
        OpenPlan::New(plan) => {
            lemma_new_steps_in_order(plan, stage, outcome);
        },
        OpenPlan::Inherit(plan) => {
            lemma_inherited_steps_in_order(plan, stage, outcome);
        },
    }
}

impl OpenPlan {
    /// Where a run stands after the outcomes `outcomes` have been reported
    /// to it, one after the other: the stage, and the action that is asked
    /// for.
    pub open spec fn after_spec(self, outcomes: Seq<OpenOutcome>) -> (OpenStage, OpenAction)
        decreases outcomes.len(),
    {
        if outcomes.len() == 0 {
            self.start_spec()
        } else {
            let before = self.after_spec(outcomes.drop_last());
            self.next_spec(before.0, outcomes.last())
        }
    }

    /// Whether every outcome of `outcomes` answered the action that was
    /// asked for when it was reported.
    pub open spec fn answered_in_kind(self, outcomes: Seq<OpenOutcome>) -> bool {
        forall|n: int|
            0 < n <= outcomes.len() ==> !(#[trigger] self.after_spec(outcomes.take(n)).1
                is Unexpected)
    }
}

/// The first step of a run is a step.
proof fn lemma_start_is_step(plan: OpenPlan)
    ensures
        is_step_from(plan.start_spec(), plan.start_spec().0.rank()),
{
    lemma_is_step(plan.start_spec());
}

/// As a run goes on, the rank of its steps goes up: what is asked for
/// after more outcomes is of a higher rank than what was asked for after
/// fewer. So the socket is bound before its owner is set, its owner
/// before its permissions, and its permissions before it is made to
/// listen.
pub proof fn lemma_run_in_order(plan: OpenPlan, outcomes: Seq<OpenOutcome>, earlier: int)
    requires
        0 <= earlier < outcomes.len(),
        plan.answered_in_kind(outcomes),
    ensures
        plan.after_spec(outcomes.take(earlier)).0.rank() < plan.after_spec(outcomes).0.rank(),
        is_step_from(
            plan.after_spec(outcomes),
            plan.start_spec().0.rank() + (earlier + 1) as nat,
        ),
    decreases outcomes.len(),
{
    let init = outcomes.drop_last();
    let before = plan.after_spec(init);
    assert(outcomes.take(outcomes.len() as int) =~= outcomes);
    assert(!(plan.after_spec(outcomes).1 is Unexpected));
    lemma_steps_in_order(plan, before.0, outcomes.last());
    if earlier == outcomes.len() - 1 {
        assert(outcomes.take(earlier) =~= init);
        if earlier > 0 {
            assert(plan.answered_in_kind(init)) by {
                assert forall|n: int| 0 < n <= init.len() implies !(#[trigger] plan.after_spec(
                    init.take(n),
                ).1 is Unexpected) by {
                    assert(init.take(n) =~= outcomes.take(n));
                }
            }
            lemma_run_in_order(plan, init, earlier - 1);
        } else {
            lemma_start_is_step(plan);
        }
    } else {
        assert(plan.answered_in_kind(init)) by {
            assert forall|n: int| 0 < n <= init.len() implies !(#[trigger] plan.after_spec(
                init.take(n),
            ).1 is Unexpected) by {
                assert(init.take(n) =~= outcomes.take(n));
            }
        }
        assert(init.take(earlier) =~= outcomes.take(earlier));
        lemma_run_in_order(plan, init, earlier);
    }
}

/// Where a run stands is a step, whatever was reported to it.
proof fn lemma_run_is_step(plan: OpenPlan, outcomes: Seq<OpenOutcome>)
    requires
        plan.answered_in_kind(outcomes),
    ensures
        is_step_from(plan.after_spec(outcomes), 0),
{
    if outcomes.len() == 0 {
        lemma_start_is_step(plan);
    } else {
        lemma_run_in_order(plan, outcomes, 0);
    }
}

/// Owner, permissions and listening come in this order, and all after the
/// socket is bound: once the permissions are set the owner is not set any
/// more, and once the socket listens nothing else is done to it.
pub proof fn lemma_security_follows_bind(plan: OpenPlan, outcomes: Seq<OpenOutcome>, earlier: int)
    requires
        0 <= earlier < outcomes.len(),
        plan.answered_in_kind(outcomes),
    ensures
        ({
            let first = plan.after_spec(outcomes.take(earlier)).1;
            let then = plan.after_spec(outcomes).1;
            &&& first is SetOwner ==> !(then is Bind)
            &&& first is SetPermissions ==> !(then is Bind) && !(then is SetOwner)
            &&& first is Listen ==> then is Done || then is Fail
        }),
{
    let head = outcomes.take(earlier);
    assert(plan.answered_in_kind(head)) by {
        assert forall|n: int| 0 < n <= head.len() implies !(#[trigger] plan.after_spec(
            head.take(n),
        ).1 is Unexpected) by {
            assert(head.take(n) =~= outcomes.take(n));
        }
    }
    lemma_run_is_step(plan, head);
    lemma_run_in_order(plan, outcomes, earlier);
}

/// A run is over after fifteen outcomes at the latest.
pub proof fn lemma_run_ends(plan: OpenPlan, outcomes: Seq<OpenOutcome>)
    requires
        outcomes.len() >= 15,
        plan.answered_in_kind(outcomes),
    ensures
        plan.after_spec(outcomes).0 == OpenStage::Finished,
{
    lemma_run_in_order(plan, outcomes, outcomes.len() - 1);
    if let OpenPlan::Inherit(inherited) = plan {
        let before = plan.after_spec(outcomes.drop_last());
        lemma_inherited_only_duplicates(inherited, before.0, outcomes.last());
    }
}

/// A run does what the plan holds, and nothing else: the socket is bound
/// to the address of the plan, given exactly the permissions of the plan,
/// and made to listen with the backlog of the plan.
pub proof fn lemma_actions_follow_plan(plan: NewSocketPlan, stage: OpenStage, outcome: OpenOutcome)
    ensures
        ({
            let action = plan.next_spec(stage, outcome).1;
            &&& action matches OpenAction::Bind { address } ==> address == plan.bind
            &&& action matches OpenAction::SetPermissions { mode } ==> plan.permissions == Some(
                mode,
            )
            &&& action matches OpenAction::Listen { backlog } ==> plan.listen_backlog == Some(
                backlog,
            )
            &&& action is CheckStale ==> plan.cleanup
            &&& action is MkdirParents ==> plan.mkdir_parents
            &&& action is SetReusePort ==> plan.reuse_port
            &&& action is SetOnlyV6 ==> plan.v6_only
            &&& action is BeforeBind ==> plan.before_bind
            &&& action is SetReuseAddress ==> plan.reuse_address != ReuseAddress::No
            &&& action is LookupOwner ==> plan.owner == PrincipalPlan::Lookup
            &&& action is LookupGroup ==> plan.group == PrincipalPlan::Lookup
        }),
{
}

/// An inherited socket is only ever claimed by duplicating it: of the
/// actions of an inherited plan none creates, binds or changes a socket.
pub proof fn lemma_inherited_only_duplicates(
    plan: InheritPlan,
    stage: OpenStage,
    outcome: OpenOutcome,
)
    ensures
        ({
            let action = plan.next_spec(stage, outcome).1;
            action is Duplicate || action is QueryType || action is QueryListening
                || action is Done || action is Fail || action is Unexpected
        }),
        ({
            let action = plan.start_spec().1;
            action is GetStdin || action is Duplicate || action is Fail
        }),
{
}

} // verus!
