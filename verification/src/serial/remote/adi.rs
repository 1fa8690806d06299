//! ARM ADIv5 debug and access ports as seen through the remote protocol.
use vstd::prelude::*;

verus! {

/// The ADIv5 debug port associated with a JTAG TAP or a SWD interface drop of an ARM debug based
/// device
pub struct AdiV5DebugPort {
    /// The index of the device on the JTAG chain or DP index on SWD
    pub dev_index: u8,
    /// Whether a fault has occured, and which one
    pub fault: u8,
    /// Bitfield of the DP's quirks such as if it's a minimal DP or has the duped AP bug
    pub quirks: u8,
    /// DP version
    pub version: u8,
    /// DPv2+ specific target selection value
    pub targetsel: u32,
    /// DP designer (not implementer!)
    pub designer_code: u16,
    /// DP partno
    pub partno: u16,
    /// TARGETID designer, present on DPv2+
    pub target_designer_code: u16,
    /// TARGETID partno, present on DPv2+
    pub target_partno: u16,
    /// DPv3+ bus address width
    pub address_width: u8,
}

/// An ADIv5 access port associated with an ADIv5 debug port on a device
pub struct AdiV5AccessPort {
    /// The AP's index on the DP
    pub index: u8,
    /// Flags associated with this AP such as whether the AP has system memory attached,
    /// or is 64-bit instead of (the default of) 32-bit
    pub flags: u8,
    /// The value read out from the ID register for this AP
    pub idr: u32,
    /// The base address of the ROM tables associated with this AP
    pub base: u64,
    /// The Control and Status Word value associated with accessing this AP
    pub csw: u32,
    /// A copy of any attached Cortex-M core's DEMCR value when we first see the core
    pub cortexm_demcr: u32,
    /// AP designer code
    pub designer_code: u16,
    /// AP partno
    pub partno: u16,
}

} // verus!
