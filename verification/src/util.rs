//! Small decisions shared by the rest of the library.

use crate::errors::OpenSocketError;
use crate::options::{SocketAppOptions, SocketDomain, SocketProtocol, SocketType};
use vstd::prelude::*;

verus! {

/// The error for a user option that does not apply to the socket at hand.
pub fn inapplicable<T>(name: &'static str) -> (r: Result<T, OpenSocketError>)
    ensures
        r == Err::<T, OpenSocketError>(OpenSocketError::InapplicableUserOption { name }),
{
    Err(OpenSocketError::InapplicableUserOption { name })
}

/// Rejects an option that is set where it does not apply.
pub fn check_inapplicable<T>(option: Option<T>, name: &'static str) -> (r: Result<
    (),
    OpenSocketError,
>)
    ensures
        r == (if option is Some {
            Err::<(), OpenSocketError>(OpenSocketError::InapplicableUserOption { name })
        } else {
            Ok(())
        }),
{
    if option.is_some() {
        inapplicable(name)
    } else {
        Ok(())
    }
}

/// Rejects a flag that is set where it does not apply.
pub fn check_inapplicable_bool(option: bool, name: &'static str) -> (r: Result<
    (),
    OpenSocketError,
>)
    ensures
        r == (if option {
            Err::<(), OpenSocketError>(OpenSocketError::InapplicableUserOption { name })
        } else {
            Ok(())
        }),
{
    if option {
        inapplicable(name)
    } else {
        Ok(())
    }
}

/// Whether a new socket is taken for a TCP socket. The protocol that the
/// application asked for decides; without one, the protocol that the
/// socket reported (`reported`); without that, a stream socket of an IP
/// family is taken for TCP, which is usually but not always right.
pub open spec fn is_socket_probably_tcp_spec(
    reported: Option<SocketProtocol>,
    domain: SocketDomain,
    app_options: SocketAppOptions,
) -> bool {
    match app_options.protocol {
        Some(protocol) => protocol == SocketProtocol::Tcp,
        None => match reported {
            Some(protocol) => protocol == SocketProtocol::Tcp,
            None => app_options.socket_type == SocketType::Stream && (domain == SocketDomain::Ipv4
                || domain == SocketDomain::Ipv6),
        },
    }
}

/// Whether a new socket is taken for a TCP socket. `reported` is the
/// protocol that the socket itself reported, where the platform lets it.
pub fn is_socket_probably_tcp(
    reported: Option<SocketProtocol>,
    domain: SocketDomain,
    app_options: &SocketAppOptions,
) -> (r: bool)
    ensures
        r == is_socket_probably_tcp_spec(reported, domain, *app_options),
{
    if let Some(protocol) = app_options.protocol {
        return protocol == SocketProtocol::Tcp;
    }
    if let Some(protocol) = reported {
        return protocol == SocketProtocol::Tcp;
    }
    app_options.socket_type == SocketType::Stream && (domain == SocketDomain::Ipv4 || domain
        == SocketDomain::Ipv6)
}

} // verus!
