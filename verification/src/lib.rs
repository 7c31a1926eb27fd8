//! The network-device provisioning layer of a VM-based container runtime:
//! for each sandbox it describes host-side network devices, multiplexes
//! them into per-queue descriptors, and attaches them to the virtual
//! machine monitor.
//!
//! The core is the macvtap endpoint with its all-or-nothing attach: tap and
//! vhost descriptors are acquired one per queue, the device is registered
//! with the hypervisor gateway exactly once, and any failure on the way —
//! an open that was refused, a rejected registration, a cancellation —
//! releases every descriptor acquired so far before it is surfaced.
//! Syscalls and gateway calls are performed by a thin driver; every
//! decision about them is made, and proved, here.

use vstd::prelude::*;

pub mod config;
pub mod endpoint;
pub mod flow;
pub mod mac;
pub mod mgmt;
pub mod model;
pub mod numstr;
pub mod pair;
pub mod persist;
pub mod provision;
pub mod sandbox;
pub mod volume;
verus! {

/// The error kinds this layer surfaces to its caller, each carrying
/// contextual detail (a device path, an interface name).
#[derive(Debug)]
pub enum NetError {
    /// A malformed hardware address or a missing queue count.
    ConfigurationError(String),
    /// A descriptor-open failure: permission denied, descriptor-table
    /// exhaustion, or a missing device node.
    ResourceExhaustion(String),
    /// The hypervisor gateway refused an add-device or remove-device call.
    HypervisorRejection(String),
    /// Interface resolution over netlink failed.
    NetlinkError(String),
}

impl NetError {
    /// The contextual detail carried by the error, whatever its kind.
    pub fn detail(&self) -> (r: &String)
        ensures
            *r == self.detail_spec(),
    {
        match self {
            NetError::ConfigurationError(d) => d,
            NetError::ResourceExhaustion(d) => d,
            NetError::HypervisorRejection(d) => d,
            NetError::NetlinkError(d) => d,
        }
    }

    pub open spec fn detail_spec(&self) -> String {
        match *self {
            NetError::ConfigurationError(d) => d,
            NetError::ResourceExhaustion(d) => d,
            NetError::HypervisorRejection(d) => d,
            NetError::NetlinkError(d) => d,
        }
    }
}

} // verus!
