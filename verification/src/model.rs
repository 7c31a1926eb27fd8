//! The host-side wiring strategies for a network pair, as a closed tagged
//! set of variants with exhaustive matching.

use vstd::prelude::*;

use crate::pair::NetworkPair;
use crate::NetError;

verus! {

/// The tag of the wiring strategy that governs a network pair.
#[derive(Debug, Clone, Copy, PartialEq, Eq, Structural)]
pub enum NetworkModelType {
    MacVTap,
}

/// The macvtap wiring strategy: in-kernel queue multiplexing needs no
/// additional host bridging, so `add` and `del` succeed without work.
#[derive(Debug)]
pub struct MacVTapModel {}

impl MacVTapModel {
    pub fn new() -> (r: Result<MacVTapModel, NetError>)
        ensures
            r is Ok,
    {
        Ok(MacVTapModel {  })
    }

    pub fn model_type(&self) -> (t: NetworkModelType)
        ensures
            t == NetworkModelType::MacVTap,
    {
        NetworkModelType::MacVTap
    }

    /// Host-side wiring for macvtap is a no-op: the pair is left unchanged
    /// and the call always succeeds.
    pub fn add(&self, _pair: &NetworkPair) -> (r: Result<(), NetError>)
        ensures
            r is Ok,
    {
        Ok(())
    }

    /// Undoing host-side wiring for macvtap is a no-op: the pair is left
    /// unchanged and the call always succeeds.
    pub fn del(&self, _pair: &NetworkPair) -> (r: Result<(), NetError>)
        ensures
            r is Ok,
    {
        Ok(())
    }
}

} // verus!
