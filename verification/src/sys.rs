//! What depends on the platform: how a socket in the file system is told
//! from other files, where standard input is found, and which descriptors
//! socket activation hands over.

use crate::options::{Platform, RawSocket};
use crate::text::{parse_unsigned, parse_unsigned_spec};
use vstd::prelude::*;

verus! {

/// The number of the first descriptor that socket activation hands over.
pub const SD_LISTEN_FDS_START: RawSocket = 3;

/// The bits of a file mode that hold the file's type.
pub const S_IFMT: u32 = 0o170000;

/// The file type of a socket, among the bits of a file mode.
pub const S_IFSOCK: u32 = 0o140000;

/// The file attribute of a reparse point.
pub const FILE_ATTRIBUTE_REPARSE_POINT: u32 = 0x400;

/// The reparse tag of a Unix-domain socket.
pub const IO_REPARSE_TAG_AF_UNIX: u32 = 0x80000023;

/// Whether a file with the given mode, as its status reports it, is a
/// Unix-domain socket.
pub fn is_unix_socket(file_mode: u32) -> (r: bool)
    ensures
        r == (file_mode & S_IFMT == S_IFSOCK),
{
    file_mode & S_IFMT == S_IFSOCK
}

/// Whether a file with the given attributes and reparse tag is a
/// Unix-domain socket, on a platform that shows such sockets as reparse
/// points.
pub fn is_unix_socket_reparse_point(file_attributes: u32, reparse_tag: u32) -> (r: bool)
    ensures
        r == (file_attributes & FILE_ATTRIBUTE_REPARSE_POINT != 0 && reparse_tag
            == IO_REPARSE_TAG_AF_UNIX),
{
    file_attributes & FILE_ATTRIBUTE_REPARSE_POINT != 0 && reparse_tag == IO_REPARSE_TAG_AF_UNIX
}

/// What is set on a socket to let child processes inherit it, or to keep
/// them from it.
#[derive(Clone, Copy, Debug, PartialEq, Eq, Structural)]
pub enum Inheritance {
    /// The close-on-exec flag of the descriptor is set to this.
    CloseOnExec(bool),
    /// The inheritance flag of the handle is set to this.
    InheritHandle(bool),
}

/// What marks a socket as inheritable (or not), so that a child process
/// will (or will not) inherit it. A descriptor is inherited unless it is
/// closed on exec; a handle is inherited if it is flagged so.
///
/// The mark holds for every child process that is spawned while it is
/// set, not for one child alone: where several threads spawn children, a
/// socket meant for one child can reach another.
pub fn make_socket_inheritable(inheritable: bool, platform: &Platform) -> (r: Inheritance)
    ensures
        r == (if platform.file_descriptors {
            Inheritance::CloseOnExec(!inheritable)
        } else {
            Inheritance::InheritHandle(inheritable)
        }),
{
    if platform.file_descriptors {
        Inheritance::CloseOnExec(!inheritable)
    } else {
        Inheritance::InheritHandle(inheritable)
    }
}

/// Prepares the platform's socket interface for use. Where sockets are
/// file descriptors there is nothing to prepare.
pub fn startup_socket_api() {
}

/// The standard input as a socket, where it is always descriptor 0; `None`
/// where its handle has to be looked up.
pub fn get_stdin_as_socket(platform: &Platform) -> (r: Option<RawSocket>)
    ensures
        r == (if platform.file_descriptors {
            Some(0u64)
        } else {
            None
        }),
{
    if platform.file_descriptors {
        Some(0)
    } else {
        None
    }
}

/// The number that a variable of the environment spells, if it is set and
/// spells one that is at most `max`.
pub open spec fn env_number_spec(value: Option<&str>, max: int) -> Option<int> {
    match value {
        Some(text) => parse_unsigned_spec(text@, max),
        None => None,
    }
}

/// Where the window of handed-over descriptors ends: the first number past
/// it. There is a window only if `listen_pid` spells the number of this
/// process and `listen_fds` a count of at least one; the window then starts
/// at `SD_LISTEN_FDS_START` and holds that many descriptors, as far as the
/// numbers reach.
pub open spec fn listen_fds_end_spec(
    listen_pid: Option<&str>,
    listen_fds: Option<&str>,
    process_id: u32,
) -> Option<RawSocket> {
    match (
        env_number_spec(listen_pid, u32::MAX as int),
        env_number_spec(listen_fds, u64::MAX as int),
    ) {
        (Some(pid), Some(count)) => if pid == process_id && count >= 1 {
            if SD_LISTEN_FDS_START + count > u64::MAX {
                Some(u64::MAX)
            } else {
                Some((SD_LISTEN_FDS_START + count) as u64)
            }
        } else {
            None
        },
        _ => None,
    }
}

/// Where the window of handed-over descriptors ends, from the values of
/// the two variables of the environment that announce socket activation
/// and the number of this process.
pub fn listen_fds_end(listen_pid: Option<&str>, listen_fds: Option<&str>, process_id: u32) -> (r:
    Option<RawSocket>)
    ensures
        r == listen_fds_end_spec(listen_pid, listen_fds, process_id),
{
    let expected_pid: u64 = match listen_pid {
        Some(text) => match parse_unsigned(text, 0xffff_ffff) {
            Some(pid) => pid,
            None => {
                return None;
            },
        },
        None => {
            return None;
        },
    };
    if expected_pid != process_id as u64 {
        return None;
    }
    let count: u64 = match listen_fds {
        Some(text) => match parse_unsigned(text, u64::MAX) {
            Some(count) => count,
            None => {
                return None;
            },
        },
        None => {
            return None;
        },
    };
    if count < 1 {
        return None;
    }
    Some(SD_LISTEN_FDS_START.saturating_add(count))
}

/// Whether `socket` lies in the window of handed-over descriptors that
/// ends before `end`.
pub open spec fn in_activation_window_spec(socket: RawSocket, end: Option<RawSocket>) -> bool {
    end is Some && SD_LISTEN_FDS_START <= socket < end->0
}

/// Whether `socket` lies in the window of handed-over descriptors.
pub fn in_activation_window(socket: RawSocket, end: Option<RawSocket>) -> (r: bool)
    ensures
        r == in_activation_window_spec(socket, end),
{
    match end {
        Some(e) => SD_LISTEN_FDS_START <= socket && socket < e,
        None => false,
    }
}

} // verus!
