//! Remote protocol v2, which adds reading the target's power state: the requests it sends and
//! how it reads the probe's replies. What v2 keeps from v1 is not covered here.
use vstd::prelude::*;

use crate::serial::remote::{
    check_init_response, first_is_ascii, power_from_response, spec_init_response, spec_power_response,
};

verus! {

/// The request that has the probe set up JTAG communications with its targets.
pub const REMOTE_JTAG_INIT: &'static str = "!JS#";

/// The request that asks the probe whether the target is powered.
pub const REMOTE_TARGET_VOLTAGE: &'static str = "!Gp#";

/// A probe speaking protocol v2.
pub struct RemoteV2;

impl RemoteV2 {
    pub fn new() -> (r: Self) {
        RemoteV2
    }

    /// Reads the reply to [`REMOTE_JTAG_INIT`]: JTAG is set up unless the reply is empty or an
    /// error.
    pub fn jtag_init(&self, reply: &str) -> (r: Result<(), String>)
        requires
            first_is_ascii(reply@),
        ensures
            match r {
                Ok(()) => spec_init_response(reply@, "JTAG"@) == Ok::<(), Seq<char>>(()),
                Err(m) => spec_init_response(reply@, "JTAG"@) == Err::<(), Seq<char>>(m@),
            },
    {
        check_init_response(reply, "JTAG")
    }

    /// The communications frequency: v2 cannot tell, and reports the largest value.
    pub fn get_comms_frequency(&self) -> (r: u32)
        ensures
            r == u32::MAX,
    {
        u32::MAX
    }

    /// Setting the communications frequency: v2 cannot.
    pub fn set_comms_frequency(&self, _freq: u32) -> (r: bool)
        ensures
            !r,
    {
        false
    }

    /// Reads the reply to [`REMOTE_TARGET_VOLTAGE`]: whether the target is powered.
    pub fn get_target_power_state(&self, reply: &str) -> (r: Result<bool, String>)
        ensures
            match r {
                Ok(v) => spec_power_response(reply@) == Ok::<bool, Seq<char>>(v),
                Err(m) => spec_power_response(reply@) == Err::<bool, Seq<char>>(m@),
            },
    {
        power_from_response(reply)
    }
}

} // verus!
