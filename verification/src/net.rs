use vstd::prelude::*;

verus! {

/// An IP address in either family, held as its integer value.
#[derive(Clone, Copy, PartialEq, Eq, Structural, Debug)]
pub enum IpAddr {
    V4(u32),
    V6(u128),
}

/// A socket address: an IP address together with a port.
#[derive(Clone, Copy, PartialEq, Eq, Structural, Debug)]
pub struct SockAddr {
    pub ip: IpAddr,
    pub port: u16,
}

/// The lookup key into the workload directory: a network identifier plus an
/// IP address. Endpoints are ambiguous across overlay networks, so equality
/// is exact on both fields.
#[derive(Clone, Copy, PartialEq, Eq, Structural, Debug)]
pub struct NetworkAddress {
    pub network: u64,
    pub address: IpAddr,
}

} // verus!
