//! The paired host/guest interface descriptors backing one endpoint.
//!
//! The fields are resolved via netlink upstream of this layer and handed in
//! as plain values; they are not mutated afterwards.

use vstd::prelude::*;

use crate::model::MacVTapModel;
use crate::model::NetworkModelType;
use crate::NetError;

verus! {

/// The host-side tap device descriptor.
#[derive(Debug)]
pub struct HostInterface {
    pub name: String,
    pub hard_addr: String,
    pub mtu: u32,
}

/// The guest-visible interface descriptor.
#[derive(Debug)]
pub struct GuestInterface {
    pub name: String,
    pub hard_addr: String,
}

/// One host/guest interface pair, together with the tag of the wiring
/// strategy that governs it, the link index its tap device node carries,
/// and the requested queue count.
#[derive(Debug)]
pub struct NetworkPair {
    pub tap_iface: HostInterface,
    pub virt_iface: GuestInterface,
    pub model: NetworkModelType,
    pub link_index: u64,
    pub queues: usize,
}

impl NetworkPair {
    /// Undoes the host-side wiring of this pair, dispatching exhaustively on
    /// the wiring strategy. Every strategy in the closed set succeeds here.
    pub fn del_network_model(&self) -> (r: Result<(), NetError>)
        ensures
            r is Ok,
    {
        match self.model {
            NetworkModelType::MacVTap => {
                let model = match MacVTapModel::new() {
                    Ok(m) => m,
                    Err(e) => { return Err(e) },
                };
                model.del(self)
            },
        }
    }

    /// Applies the host-side wiring of this pair, dispatching exhaustively on
    /// the wiring strategy. Every strategy in the closed set succeeds here.
    pub fn add_network_model(&self) -> (r: Result<(), NetError>)
        ensures
            r is Ok,
    {
        match self.model {
            NetworkModelType::MacVTap => {
                let model = match MacVTapModel::new() {
                    Ok(m) => m,
                    Err(e) => { return Err(e) },
                };
                model.add(self)
            },
        }
    }
}

} // verus!
