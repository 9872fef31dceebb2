use vstd::prelude::*;
use crate::net::SockAddr;

verus! {

/// A cryptographic source identity. Plaintext passthrough carries none, so
/// connections on this path hold it only as an always-empty attribution slot.
#[derive(Clone, Copy, PartialEq, Eq, Structural, Debug)]
pub struct Identity {
    pub id: u64,
}

/// A workload known to the directory.
#[derive(Clone, Copy, PartialEq, Eq, Structural, Debug)]
pub struct Workload {
    pub id: u64,
}

/// A service known to the directory.
#[derive(Clone, Copy, PartialEq, Eq, Structural, Debug)]
pub struct Service {
    pub id: u64,
}

/// An opaque descriptor of the workload this proxy fronts.
#[derive(Clone, Copy, PartialEq, Eq, Structural, Debug)]
pub struct WorkloadInfo {
    pub id: u64,
}

/// A directory answer for a destination: the workload that owns the address
/// and the service it is reached through.
#[derive(Clone, Copy, PartialEq, Eq, Structural, Debug)]
pub struct Upstream {
    pub workload: Workload,
    pub service: Service,
}

/// One authorization decision's input: built once per accepted socket and
/// never mutated afterward. Two attempts stand for the same tracked
/// connection exactly when their `Connection` values are equal on every
/// field.
#[derive(Clone, Copy, PartialEq, Eq, Structural, Debug)]
pub struct Connection {
    pub src_identity: Option<Identity>,
    pub src: SockAddr,
    pub dst_network: u64,
    pub dst: SockAddr,
}

/// The unit of registration, authorization and tracking: a connection plus
/// the descriptor of the destination workload.
#[derive(Clone, Copy, PartialEq, Eq, Structural, Debug)]
pub struct ProxyRbacContext {
    pub conn: Connection,
    pub dest_workload_info: Option<WorkloadInfo>,
}

} // verus!
