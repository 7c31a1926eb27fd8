//! The macvtap endpoint: it owns one network pair and the descriptor lists
//! that attach provisions, and exposes name, hardware address, device
//! configuration, and snapshot.

use vstd::prelude::*;
use vstd::string::StringExecFns;

use crate::config::NetworkConfig;
use crate::config::NetworkConfigV;
use crate::mac::mac_bytes;
use crate::mac::mac_str_wf;
use crate::mac::parse_mac;
use crate::model::NetworkModelType;
use crate::pair::GuestInterface;
use crate::pair::HostInterface;
use crate::pair::NetworkPair;
use crate::persist::state_config_spec;
use crate::persist::EndpointState;
use crate::persist::MacVTapEndpointState;
use crate::NetError;

verus! {

/// A macvtap-backed endpoint. Its lifecycle is a two-state machine:
/// detached, then attached, then detached again. While detached it holds no
/// descriptors; while attached it holds one vm descriptor per queue, and
/// either one vhost descriptor per queue or none at all.
#[derive(Debug)]
pub struct MacVTapEndpoint {
    pub net_pair: NetworkPair,
    pub vm_fds: Vec<i32>,
    pub vhost_fds: Vec<i32>,
    pub attached: bool,
}

impl MacVTapEndpoint {
    /// The descriptor-list invariant of the two lifecycle states.
    pub open spec fn wf(&self) -> bool {
        &&& self.net_pair.model == NetworkModelType::MacVTap
        &&& if self.attached {
            &&& self.vm_fds@.len() >= 1
            &&& (self.vhost_fds@.len() == self.vm_fds@.len() || self.vhost_fds@.len() == 0)
            &&& mac_str_wf(self.net_pair.tap_iface.hard_addr@)
        } else {
            self.vm_fds@.len() == 0 && self.vhost_fds@.len() == 0
        }
    }

    /// The device configuration this endpoint derives, as a mathematical
    /// value: the guest-visible name as id, the host tap device name, and
    /// the tap interface's hardware address in binary form.
    pub open spec fn config_spec(&self) -> NetworkConfigV {
        NetworkConfigV {
            id: self.net_pair.virt_iface.name@,
            host_dev_name: self.net_pair.tap_iface.name@,
            guest_mac: Some(mac_bytes(self.net_pair.tap_iface.hard_addr@)),
        }
    }

    /// Builds a detached endpoint around a host tap interface already
    /// resolved via netlink to plain values, tagged with the macvtap wiring
    /// strategy. The guest-visible interface carries the requested `name`
    /// and inherits the tap's hardware address.
    pub fn new(tap: HostInterface, name: &str, idx: u32, queues: usize) -> (r: MacVTapEndpoint)
        ensures
            r.wf(),
            !r.attached,
            r.net_pair.tap_iface == tap,
            r.net_pair.virt_iface.name@ == name@,
            r.net_pair.virt_iface.hard_addr@ == tap.hard_addr@,
            r.net_pair.link_index == idx as u64,
            r.net_pair.queues == queues,
            r.net_pair.model == NetworkModelType::MacVTap,
    {
        let virt_hard_addr = tap.hard_addr.clone();
        MacVTapEndpoint {
            net_pair: NetworkPair {
                tap_iface: tap,
                virt_iface: GuestInterface {
                    name: String::from_str(name),
                    hard_addr: virt_hard_addr,
                },
                model: NetworkModelType::MacVTap,
                link_index: idx as u64,
                queues,
            },
            vm_fds: Vec::new(),
            vhost_fds: Vec::new(),
            attached: false,
        }
    }

    /// The guest-visible interface name.
    pub fn name(&self) -> (r: String)
        ensures
            r@ == self.net_pair.virt_iface.name@,
    {
        self.net_pair.virt_iface.name.clone()
    }

    /// The guest-visible hardware address, in its textual form.
    pub fn hardware_addr(&self) -> (r: String)
        ensures
            r@ == self.net_pair.virt_iface.hard_addr@,
    {
        self.net_pair.virt_iface.hard_addr.clone()
    }

    /// Derives the device configuration for the hypervisor gateway. Fails
    /// with a configuration error exactly when the tap interface's hardware
    /// address is not a well-formed textual hardware address.
    pub fn get_network_config(&self) -> (r: Result<NetworkConfig, NetError>)
        ensures
            r is Ok <==> mac_str_wf(self.net_pair.tap_iface.hard_addr@),
            r matches Ok(c) ==> c@ == self.config_spec(),
            r matches Err(e) ==> e is ConfigurationError,
    {
        let iface = &self.net_pair.tap_iface;
        match parse_mac(iface.hard_addr.as_str()) {
            Some(guest_mac) => Ok(
                NetworkConfig {
                    id: self.net_pair.virt_iface.name.clone(),
                    host_dev_name: iface.name.clone(),
                    guest_mac: Some(guest_mac),
                },
            ),
            None => Err(
                NetError::ConfigurationError(
                    String::from_str("hard_addr ").concat(iface.hard_addr.as_str()),
                ),
            ),
        }
    }

    /// The snapshot this endpoint saves, as a mathematical value.
    pub open spec fn save_spec(&self) -> MacVTapEndpointState {
        MacVTapEndpointState {
            iface_name: self.net_pair.virt_iface.name,
            tap_name: self.net_pair.tap_iface.name,
            hard_addr: self.net_pair.tap_iface.hard_addr,
            mtu: self.net_pair.tap_iface.mtu,
            link_index: self.net_pair.link_index,
            queues: self.net_pair.queues,
            vhost_enabled: self.vhost_fds@.len() > 0,
        }
    }

    /// Snapshots this endpoint. The record is always present and always
    /// tagged as a macvtap endpoint, whether or not the endpoint is
    /// attached; descriptors are not part of it.
    pub fn save(&self) -> (r: Option<EndpointState>)
        ensures
            r == Some(EndpointState::MacVTap(self.save_spec())),
    {
        Some(
            EndpointState::MacVTap(
                MacVTapEndpointState {
                    iface_name: self.net_pair.virt_iface.name.clone(),
                    tap_name: self.net_pair.tap_iface.name.clone(),
                    hard_addr: self.net_pair.tap_iface.hard_addr.clone(),
                    mtu: self.net_pair.tap_iface.mtu,
                    link_index: self.net_pair.link_index,
                    queues: self.net_pair.queues,
                    vhost_enabled: self.vhost_fds.len() > 0,
                },
            ),
        )
    }

    /// Rebuilds a detached endpoint from a snapshot. Descriptors are not
    /// restored; they are re-provisioned by the next attach.
    pub fn restore(state: &MacVTapEndpointState) -> (r: MacVTapEndpoint)
        ensures
            r.wf(),
            !r.attached,
            r.net_pair.virt_iface.name@ == state.iface_name@,
            r.net_pair.tap_iface.name@ == state.tap_name@,
            r.net_pair.tap_iface.hard_addr@ == state.hard_addr@,
            r.net_pair.virt_iface.hard_addr@ == state.hard_addr@,
            r.net_pair.tap_iface.mtu == state.mtu,
            r.net_pair.link_index == state.link_index,
            r.net_pair.queues == state.queues,
            r.config_spec() == state_config_spec(*state),
    {
        MacVTapEndpoint {
            net_pair: NetworkPair {
                tap_iface: HostInterface {
                    name: state.tap_name.clone(),
                    hard_addr: state.hard_addr.clone(),
                    mtu: state.mtu,
                },
                virt_iface: GuestInterface {
                    name: state.iface_name.clone(),
                    hard_addr: state.hard_addr.clone(),
                },
                model: NetworkModelType::MacVTap,
                link_index: state.link_index,
                queues: state.queues,
            },
            vm_fds: Vec::new(),
            vhost_fds: Vec::new(),
            attached: false,
        }
    }
}

/// Law: rebuilding an endpoint from its own snapshot preserves the derived
/// device configuration — id, host device name and guest hardware address
/// are identical, given unchanged host topology.
pub proof fn lemma_restore_preserves_config(ep: MacVTapEndpoint)
    ensures
        state_config_spec(ep.save_spec()) == ep.config_spec(),
{
}

} // verus!
