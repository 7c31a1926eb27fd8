//! The sandbox as its callers see it: lifecycle and agent operations,
//! implemented outside this crate by the runtime that owns the sandbox.

use vstd::prelude::*;

use crate::NetError;

verus! {

/// One sandbox: the micro-VM instance hosting containers, managed as a
/// lifecycle unit. The management handlers call into it for agent and
/// volume operations.
pub trait Sandbox {
    fn start(&self, netns: Option<String>) -> Result<(), NetError>;

    fn stop(&self) -> Result<(), NetError>;

    fn cleanup(&self, container_id: &str) -> Result<(), NetError>;

    fn shutdown(&self) -> Result<(), NetError>;

    /// The address of the sandbox's agent socket.
    fn agent_sock(&self) -> Result<String, NetError>;

    /// The statistics of a guest volume, serialized for the response body.
    fn guest_volume_stats(&self, volume_path: &String) -> Result<String, NetError>;

    /// Grows a guest volume to `size` bytes.
    fn resize_guest_volume(&self, volume_path: &String, size: u64) -> Result<(), NetError>;
}

} // verus!
