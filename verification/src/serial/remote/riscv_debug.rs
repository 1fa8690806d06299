//! RISC-V debug modules as seen through the remote protocol.
use vstd::prelude::*;

verus! {

/// A version-agnostic Debug Module Interface on a RISC-V device
pub struct RiscvDmi {
    /// DMI designer code
    pub designer_code: u16,
    /// Version of the spec this DMI implements
    pub version: RiscvDebugVersion,
    /// The index of this DMI on the JTAG chain if JTAG
    pub dev_index: u8,
    /// The number of bus idle cycles this DMI needs to complete transactions
    pub idle_cycles: u8,
    /// The address width of the DMI bus this DMI connects us to
    pub address_width: u8,
    /// Whether a fault has occured on the bus, and which one
    pub fault: u8,
}

/// RISC-V Debug spec versions that we know about
#[derive(Debug, Clone, Copy, PartialEq, Eq, Structural)]
pub enum RiscvDebugVersion {
    Unknown,
    Unimplemented,
    V0_11,
    V0_13,
    V1_0,
}

} // verus!
