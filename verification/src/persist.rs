//! Snapshot records for sandbox checkpoint and restore.
//!
//! Descriptors are never persisted: a restored endpoint re-provisions them
//! on its next attach.

use vstd::prelude::*;

use crate::config::NetworkConfigV;
use crate::mac::mac_bytes;

verus! {

/// Everything needed to rebuild a macvtap endpoint and its network pair,
/// given unchanged host topology.
#[derive(Debug)]
pub struct MacVTapEndpointState {
    /// The guest-visible interface name.
    pub iface_name: String,
    /// The host tap device name.
    pub tap_name: String,
    /// The hardware address of the host tap interface.
    pub hard_addr: String,
    pub mtu: u32,
    pub link_index: u64,
    pub queues: usize,
    /// Whether vhost-net descriptors were held when the snapshot was taken.
    pub vhost_enabled: bool,
}

/// The persisted endpoint snapshot: a tagged union with one variant per
/// endpoint kind.
#[derive(Debug)]
pub enum EndpointState {
    MacVTap(MacVTapEndpointState),
}

/// The device configuration a state record reconstructs to.
pub open spec fn state_config_spec(s: MacVTapEndpointState) -> NetworkConfigV {
    NetworkConfigV {
        id: s.iface_name@,
        host_dev_name: s.tap_name@,
        guest_mac: Some(mac_bytes(s.hard_addr@)),
    }
}

} // verus!
