//! The configuration record of the service.

use vstd::prelude::*;
use vstd::string::*;

verus! {

/// An internet address, by family.
#[derive(Debug, Clone, Copy, PartialEq, Eq, Structural)]
pub enum IpAddress {
    /// The four octets of an IPv4 address, first to last.
    V4(u8, u8, u8, u8),
    /// The 128 bits of an IPv6 address, as one number in network order.
    V6(u128),
}

/// Whether an address is a loopback address: `127.0.0.0/8`, or `::1`.
pub open spec fn is_loopback_address(address: IpAddress) -> bool {
    match address {
        IpAddress::V4(first, _, _, _) => first == 127,
        IpAddress::V6(bits) => bits == 1,
    }
}

impl IpAddress {
    /// Whether the address is a loopback address.
    pub fn is_loopback(&self) -> (loopback: bool)
        ensures
            loopback == is_loopback_address(*self),
    {
        match self {
            IpAddress::V4(first, _, _, _) => *first == 127,
            IpAddress::V6(bits) => *bits == 1,
        }
    }
}

/// The write firewall: the addresses that may upload.
#[derive(Debug, PartialEq, Eq)]
pub struct FirewallConfig {
    pub trusted_sources: Vec<IpAddress>,
}

impl FirewallConfig {
    /// The firewall is enabled exactly when it lists a trusted source.
    pub open spec fn is_enabled(&self) -> bool {
        self.trusted_sources@.len() > 0
    }

    /// Whether the firewall is enabled.
    pub fn enabled(&self) -> (enabled: bool)
        ensures
            enabled == self.is_enabled(),
    {
        self.trusted_sources.len() > 0
    }

    /// Whether an address is among the trusted sources.
    pub fn trusts(&self, address: &IpAddress) -> (trusted: bool)
        ensures
            trusted == self.trusted_sources@.contains(*address),
    {
        let mut i: usize = 0;
        while i < self.trusted_sources.len()
            invariant
                i <= self.trusted_sources.len(),
                forall|k: int| 0 <= k < i ==> self.trusted_sources[k] != *address,
            decreases self.trusted_sources.len() - i,
        {
            if self.trusted_sources[i] == *address {
                return true;
            }
            i = i + 1;
        }
        false
    }
}

impl Default for FirewallConfig {
    fn default() -> (config: Self)
        ensures
            !config.is_enabled(),
    {
        FirewallConfig { trusted_sources: Vec::new() }
    }
}

/// The configuration of the service. It does not change after startup.
#[derive(Debug, PartialEq, Eq)]
pub struct CdnConfig {
    pub storage_path: Option<String>,
    pub firewall: FirewallConfig,
}

/// The root of the store when the configuration names none.
pub open spec fn default_storage_path() -> Seq<char> {
    "./uploads"@
}

impl CdnConfig {
    /// The root of the store: the configured path, or the default.
    pub open spec fn storage_root_of(&self) -> Seq<char> {
        match self.storage_path {
            Some(path) => path@,
            None => default_storage_path(),
        }
    }

    /// The root of the store: the configured path, or the default.
    pub fn storage_root(&self) -> (root: String)
        ensures
            root@ == self.storage_root_of(),
    {
        match &self.storage_path {
            Some(path) => path.clone(),
            None => String::from_str("./uploads"),
        }
    }
}

impl Default for CdnConfig {
    fn default() -> (config: Self)
        ensures
            config.storage_path is None,
            !config.firewall.is_enabled(),
    {
        CdnConfig { storage_path: None, firewall: FirewallConfig::default() }
    }
}

} // verus!
