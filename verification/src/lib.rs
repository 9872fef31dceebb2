//! Data-plane core of a transparent service-mesh sidecar: the authorized
//! passthrough connection lifecycle.
//!
//! An accepted inbound connection is resolved against the workload
//! directory, registered with the connection registry, authorized, connected
//! upstream, and relayed, with per-connection revocation and a process-wide
//! drain signal as two independent cancellation domains. The modules here
//! hold the data model, the registry, and the per-connection and listener
//! state machines; socket I/O and the async runtime drive them from outside
//! the library.

pub mod config;
pub mod gate;
pub mod listener;
pub mod net;
pub mod rbac;
pub mod relay;
pub mod registry;
pub mod test_helpers;
