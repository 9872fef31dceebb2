use vstd::prelude::*;
use crate::net::{IpAddr, SockAddr};
use crate::rbac::WorkloadInfo;

verus! {

/// Whether this proxy serves one workload or many on a shared host. Under
/// shared mode a redirected destination can be the proxy's own address, so
/// the self-call test applies.
#[derive(Clone, Copy, PartialEq, Eq, Structural, Debug)]
pub enum ProxyMode {
    Shared,
    Dedicated,
}

/// The local configuration the passthrough listener reads.
#[derive(Clone, Copy, PartialEq, Eq, Structural, Debug)]
pub struct Config {
    pub proxy_mode: ProxyMode,
    /// The process's own address, when known; the self-call test compares
    /// redirected destinations against it.
    pub local_ip: Option<IpAddr>,
    /// The overlay network this proxy is on; passthrough traffic never
    /// crosses a gateway, so both ends of a connection are on it.
    pub network: u64,
    /// Where the plaintext listener binds.
    pub inbound_plaintext_addr: SockAddr,
    /// Whether upstream connections preserve the original source address;
    /// resolved once at listener start from the transparent-mode capability.
    pub enable_original_source: Option<bool>,
    /// Descriptor of the fronted workload, carried into each context.
    pub proxy_workload_info: Option<WorkloadInfo>,
}

} // verus!
