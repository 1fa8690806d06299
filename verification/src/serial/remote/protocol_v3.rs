//! Remote protocol v3, which adds ADIv5 acceleration and otherwise speaks as v2 does.
use vstd::prelude::*;

use crate::serial::remote::protocol_v2::RemoteV2;

verus! {

/// A probe speaking protocol v3: a v2 probe that also offers ADIv5 access.
pub struct RemoteV3(pub RemoteV2);

impl RemoteV3 {
    pub fn new() -> (r: Self) {
        RemoteV3(RemoteV2::new())
    }

    /// The v2 protocol that v3 builds on.
    pub fn inner(&self) -> (r: &RemoteV2) {
        &self.0
    }

    /// Whether ADIv5 access is offered through the probe: v3 offers it.
    pub fn adiv5_init(&self) -> (r: bool)
        ensures
            r,
    {
        true
    }
}

} // verus!
