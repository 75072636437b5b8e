//! Who may do what: the address allowlist for writes and the shared secret
//! of the health endpoint. The two policies are independent of each other
//! and of the payload signature.

use crate::config::is_loopback_address;
use crate::config::FirewallConfig;
use crate::config::IpAddress;
use crate::text::same_text;
use vstd::prelude::*;

verus! {

/// The `X-Real-IP` header of a request.
#[derive(Debug, Clone, Copy, PartialEq, Eq, Structural)]
pub enum Forwarded {
    /// The request carries no such header.
    Absent,
    /// The header is there but is no address.
    Malformed,
    /// The header names this address.
    Address(IpAddress),
}

/// The address that a request is taken to come from. The header is believed
/// only when the socket peer is a loopback address, that is, a reverse proxy
/// on this host; a believed header that is no address resolves to nothing.
pub open spec fn resolved_source(peer: IpAddress, forwarded: Forwarded) -> Option<IpAddress> {
    match forwarded {
        Forwarded::Absent => Some(peer),
        Forwarded::Malformed => if is_loopback_address(peer) {
            None
        } else {
            Some(peer)
        },
        Forwarded::Address(address) => if is_loopback_address(peer) {
            Some(address)
        } else {
            Some(peer)
        },
    }
}

/// The verdict of the write firewall.
#[derive(Debug, Clone, Copy, PartialEq, Eq, Structural)]
pub enum Admission {
    /// The request may proceed.
    Admitted,
    /// A believed header is no address.
    Unresolved,
    /// The resolved address is not a trusted source.
    Unknown(IpAddress),
}

/// The verdict of a firewall on a request: a disabled firewall admits every
/// request; an enabled one admits the trusted sources.
pub open spec fn admission(firewall: &FirewallConfig, peer: IpAddress, forwarded: Forwarded) -> Admission {
    if !firewall.is_enabled() {
        Admission::Admitted
    } else {
        match resolved_source(peer, forwarded) {
            None => Admission::Unresolved,
            Some(address) => if firewall.trusted_sources@.contains(address) {
                Admission::Admitted
            } else {
                Admission::Unknown(address)
            },
        }
    }
}

/// Resolves the address that a request is taken to come from.
pub fn resolve_source(peer: IpAddress, forwarded: Forwarded) -> (source: Option<IpAddress>)
    ensures
        source == resolved_source(peer, forwarded),
{
    match forwarded {
        Forwarded::Absent => Some(peer),
        Forwarded::Malformed => {
            if peer.is_loopback() {
                None
            } else {
                Some(peer)
            }
        },
        Forwarded::Address(address) => {
            if peer.is_loopback() {
                Some(address)
            } else {
                Some(peer)
            }
        },
    }
}

/// Applies the write firewall to a request.
pub fn screen(firewall: &FirewallConfig, peer: IpAddress, forwarded: Forwarded) -> (verdict: Admission)
    ensures
        verdict == admission(firewall, peer, forwarded),
{
    if !firewall.enabled() {
        return Admission::Admitted;
    }
    match resolve_source(peer, forwarded) {
        None => Admission::Unresolved,
        Some(address) => {
            if firewall.trusts(&address) {
                Admission::Admitted
            } else {
                Admission::Unknown(address)
            }
        },
    }
}

/// Whether an `Authorization` header opens the health endpoint: it must be
/// there, not be empty, and equal the secret character for character.
pub open spec fn authorized(header: Option<Seq<char>>, secret: Seq<char>) -> bool {
    match header {
        Some(value) => value.len() > 0 && value == secret,
        None => false,
    }
}

/// Checks the `Authorization` header of a request against the secret.
pub fn is_authorized(header: Option<&str>, secret: &str) -> (allowed: bool)
    ensures
        allowed == authorized(
            match header {
                Some(value) => Some(value@),
                None => None,
            },
            secret@,
        ),
{
    match header {
        Some(value) => value.unicode_len() > 0 && same_text(value, secret),
        None => false,
    }
}

} // verus!
