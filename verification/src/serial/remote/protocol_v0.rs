//! The first remote protocol, v0, and its enhanced form v0+, which adds ADIv5 access: the
//! requests each sends and how each reads the probe's replies. Sending a request and receiving
//! the reply over the probe's serial link is the caller's.
use vstd::prelude::*;

use crate::serial::remote::{check_init_response, first_is_ascii, spec_init_response};

verus! {

/// The request that has the probe set up SWD communications with its targets.
pub const REMOTE_SWD_INIT: &'static str = "!SS#";

/// The request that has the probe set up JTAG communications with its targets.
pub const REMOTE_JTAG_INIT: &'static str = "!JS#";

/// A probe speaking protocol v0.
pub struct RemoteV0;

/// A probe speaking protocol v0+.
pub struct RemoteV0Plus(pub RemoteV0);

impl RemoteV0 {
    pub fn new() -> (r: Self) {
        RemoteV0
    }

    /// Reads the reply to [`REMOTE_JTAG_INIT`]: JTAG is set up unless the reply is empty or an
    /// error.
    pub fn jtag_init(&self, reply: &str) -> (r: Result<(), String>)
        requires
            first_is_ascii(reply@),
        ensures
            match r {
                Ok(()) => spec_init_response(reply@, "JTAG"@) == Ok::<(), Seq<char>>(()),
                Err(m) => spec_init_response(reply@, "JTAG"@) == Err::<(), Seq<char>>(m@),
            },
    {
        check_init_response(reply, "JTAG")
    }

    /// Reads the reply to [`REMOTE_SWD_INIT`]: SWD is set up unless the reply is empty or an
    /// error.
    pub fn swd_init(&self, reply: &str) -> (r: Result<(), String>)
        requires
            first_is_ascii(reply@),
        ensures
            match r {
                Ok(()) => spec_init_response(reply@, "SWD"@) == Ok::<(), Seq<char>>(()),
                Err(m) => spec_init_response(reply@, "SWD"@) == Err::<(), Seq<char>>(m@),
            },
    {
        check_init_response(reply, "SWD")
    }

    /// Whether ADIv5 access is offered through the probe: not by v0.
    pub fn adiv5_init(&self) -> (r: bool)
        ensures
            !r,
    {
        false
    }

    /// Whether accelerated ADIv6 access is offered: not by v0.
    pub fn adiv6_init(&self) -> (r: bool)
        ensures
            !r,
    {
        false
    }

    /// Whether accelerated RISC-V JTAG access is offered: not by v0.
    pub fn riscv_jtag_init(&self) -> (r: bool)
        ensures
            !r,
    {
        false
    }

    /// The communications frequency: v0 cannot tell, and reports the largest value.
    pub fn get_comms_frequency(&self) -> (r: u32)
        ensures
            r == u32::MAX,
    {
        u32::MAX
    }

    /// Setting the communications frequency: v0 cannot.
    pub fn set_comms_frequency(&self, _freq: u32) -> (r: bool)
        ensures
            !r,
    {
        false
    }

    /// The probe's supported architectures: v0 cannot be asked, so they are unknown.
    pub fn supported_architectures(&self) -> (r: Option<crate::serial::remote::TargetArchitecture>)
        ensures
            r is None,
    {
        None
    }

    /// The probe's supported target families: v0 cannot be asked, so they are unknown.
    pub fn supported_families(&self) -> (r: Option<crate::serial::remote::TargetFamily>)
        ensures
            r is None,
    {
        None
    }

    /// The target's power state: v0 cannot be asked.
    pub fn get_target_power_state(&self) -> (r: Result<bool, String>)
        ensures
            r matches Err(m) && m@ == "Not supported"@,
    {
        Err("Not supported".to_owned())
    }
}

impl RemoteV0Plus {
    pub fn new() -> (r: Self) {
        RemoteV0Plus(RemoteV0)
    }

    /// Whether ADIv5 access is offered through the probe: v0+ offers it (without acceleration).
    pub fn adiv5_init(&self) -> (r: bool)
        ensures
            r,
    {
        true
    }
}

} // verus!
