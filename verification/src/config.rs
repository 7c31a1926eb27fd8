//! The value object handed to the hypervisor gateway when a device is added
//! or removed.

use vstd::prelude::*;

use crate::mac::MacAddr;

verus! {

/// The device configuration the hypervisor gateway accepts: derived
/// deterministically from a network pair.
#[derive(Debug)]
pub struct NetworkConfig {
    pub id: String,
    pub host_dev_name: String,
    pub guest_mac: Option<MacAddr>,
}

/// The mathematical content of a `NetworkConfig`.
pub struct NetworkConfigV {
    pub id: Seq<char>,
    pub host_dev_name: Seq<char>,
    pub guest_mac: Option<Seq<u8>>,
}

impl View for NetworkConfig {
    type V = NetworkConfigV;

    open spec fn view(&self) -> NetworkConfigV {
        NetworkConfigV {
            id: self.id@,
            host_dev_name: self.host_dev_name@,
            guest_mac: match self.guest_mac {
                Some(m) => Some(m.bytes@),
                None => None,
            },
        }
    }
}

} // verus!
