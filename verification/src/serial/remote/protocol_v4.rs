//! Remote protocol v4, which asks the probe which high-level accelerations, target architectures
//! and target families it supports, and otherwise speaks as v3 does.
use vstd::prelude::*;

use crate::serial::remote::protocol_v3::RemoteV3;
use crate::serial::remote::{
    accelerations_from_response, architectures_from_response, decodable, families_from_response, first_is_ascii,
    spec_accelerations_response, spec_capability_response, Acceleration, TargetArchitecture, TargetFamily,
};

verus! {

/// The request for the high-level accelerations the probe supports.
pub const REMOTE_HL_ACCEL: &'static str = "!HA#";

/// The request for the target architectures the probe's firmware supports.
pub const REMOTE_HL_ARCHS: &'static str = "!Ha#";

/// The request for the target families the probe's firmware supports.
pub const REMOTE_HL_FAMILIES: &'static str = "!HF#";

/// A probe speaking protocol v4, with the accelerations it reported.
pub struct RemoteV4 {
    inner_protocol: RemoteV3,
    accelerations: Acceleration,
}

impl RemoteV4 {
    /// Sets up the protocol from the reply to [`REMOTE_HL_ACCEL`]: an `OK` reply carries the
    /// accelerations; any other reply fails.
    pub fn new(reply: &str) -> (r: Result<RemoteV4, String>)
        requires
            reply@.len() > 0 && reply@[0] == 'K' ==> decodable(reply@.drop_first(), 8),
        ensures
            match r {
                Ok(p) => spec_accelerations_response(reply@) == Ok::<u64, Seq<char>>(p.accelerations()@),
                Err(m) => spec_accelerations_response(reply@) == Err::<u64, Seq<char>>(m@),
            },
    {
        match accelerations_from_response(reply) {
            Ok(accelerations) => Ok(RemoteV4 { inner_protocol: RemoteV3::new(), accelerations }),
            Err(m) => Err(m),
        }
    }

    /// The accelerations the probe reported.
    pub closed spec fn accelerations(&self) -> Acceleration {
        self.accelerations
    }

    /// The v3 protocol that v4 builds on.
    pub fn inner(&self) -> (r: &RemoteV3) {
        &self.inner_protocol
    }

    /// Whether accelerated ADIv5 access is offered: where the probe reported it.
    pub fn adiv5_init(&self) -> (r: bool)
        ensures
            r == (self.accelerations()@ & 1 == 1),
    {
        self.accelerations.contains(Acceleration::adiv5())
    }

    /// Whether accelerated ADIv6 access is offered: where the probe reported it.
    pub fn adiv6_init(&self) -> (r: bool)
        ensures
            r == (self.accelerations()@ & 8 == 8),
    {
        self.accelerations.contains(Acceleration::adiv6())
    }

    /// Whether accelerated RISC-V JTAG access is offered: where the probe reported it.
    pub fn riscv_jtag_init(&self) -> (r: bool)
        ensures
            r == (self.accelerations()@ & 4 == 4),
    {
        self.accelerations.contains(Acceleration::riscv())
    }

    /// Reads the reply to [`REMOTE_HL_ARCHS`]: the architectures, or `None` where the firmware
    /// does not know the request.
    pub fn supported_architectures(&self, reply: &str) -> (r: Result<Option<TargetArchitecture>, String>)
        requires
            first_is_ascii(reply@),
            reply@.len() > 0 && reply@[0] == 'K' ==> decodable(reply@.drop_first(), 8),
        ensures
            match r {
                Ok(Some(a)) => spec_capability_response(reply@) == Ok::<Option<u64>, Seq<char>>(Some(a@)),
                Ok(None) => spec_capability_response(reply@) == Ok::<Option<u64>, Seq<char>>(None),
                Err(m) => spec_capability_response(reply@) == Err::<Option<u64>, Seq<char>>(m@),
            },
    {
        architectures_from_response(reply)
    }

    /// Reads the reply to [`REMOTE_HL_FAMILIES`]: the target families, or `None` where the
    /// firmware does not know the request.
    pub fn supported_families(&self, reply: &str) -> (r: Result<Option<TargetFamily>, String>)
        requires
            first_is_ascii(reply@),
            reply@.len() > 0 && reply@[0] == 'K' ==> decodable(reply@.drop_first(), 8),
        ensures
            match r {
                Ok(Some(f)) => spec_capability_response(reply@) == Ok::<Option<u64>, Seq<char>>(Some(f@)),
                Ok(None) => spec_capability_response(reply@) == Ok::<Option<u64>, Seq<char>>(None),
                Err(m) => spec_capability_response(reply@) == Err::<Option<u64>, Seq<char>>(m@),
            },
    {
        families_from_response(reply)
    }
}

} // verus!
