//! The serial interfaces of a probe: finding the GDB serial port that belongs to a probe, and
//! the framing and replies of the BMD remote protocol spoken over it.
pub mod bmd_rsp;
pub mod interface;
pub mod remote;
