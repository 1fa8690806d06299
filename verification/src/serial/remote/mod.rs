//! The BMD remote protocol: its framing constants, the capability bitmasks a probe reports, and
//! the reading of the probe's replies to the requests that set up a session.
pub mod adi;
pub mod protocol_v0;
pub mod protocol_v2;
pub mod protocol_v3;
pub mod protocol_v4;
pub mod riscv_debug;

use vstd::prelude::*;

use crate::serial::remote::adi::{AdiV5AccessPort, AdiV5DebugPort};
use crate::serial::remote::riscv_debug::RiscvDmi;
use crate::text::{chars_of, flags_to_string, push_decimal, string_extend_str};

verus! {

/// This is the max possible size of a remote protocol packet which a hard limitation of the
/// firmware on the probe - 1KiB is all the buffer that could be spared.
pub const REMOTE_MAX_MSG_SIZE: usize = 1024;

/// Start of message marker for the protocol (`!`)
pub const REMOTE_SOM: u8 = 0x21;

/// End of message marker for the protocol (`#`)
pub const REMOTE_EOM: u8 = 0x23;

/// Response marker for the protocol (`&`)
pub const REMOTE_RESP: u8 = 0x26;

/// Probe response was okay and the data returned is valid (`K`)
pub const REMOTE_RESP_OK: u8 = 0x4b;

/// Probe found an error with a request parameter (`P`)
pub const REMOTE_RESP_PARERR: u8 = 0x50;

/// Probe encountered an error executing the request (`E`)
pub const REMOTE_RESP_ERR: u8 = 0x45;

/// Probe does not support the request made (`N`)
pub const REMOTE_RESP_NOTSUP: u8 = 0x4e;

/// Alignments available for use by memory accesses
#[derive(Debug, Clone, Copy, PartialEq, Eq, Structural)]
pub enum Align {
    As8Bit,
    As16Bit,
    As32Bit,
    As64Bit,
}

/// The target architectures a probe's firmware supports, one bit each.
#[derive(Debug, Clone, Copy, PartialEq, Eq, Structural)]
pub struct TargetArchitecture {
    bits: u64,
}

/// The target families a probe's firmware supports, one bit each.
#[derive(Debug, Clone, Copy, PartialEq, Eq, Structural)]
pub struct TargetFamily {
    bits: u64,
}

/// The high-level protocol accelerations a probe supports, one bit each.
#[derive(Debug, Clone, Copy, PartialEq, Eq, Structural)]
pub struct Acceleration {
    bits: u64,
}

/// The architectures' bits and names, in the order they are listed.
pub open spec fn architecture_table() -> Seq<(u64, Seq<char>)> {
    seq![(1u64, "ARM Cortex-M"@), (2u64, "ARM Cortex-A/R"@), (4u64, "RISC-V 32-bit"@), (8u64, "RISC-V 64-bit"@)]
}

/// The families' bits and names, in the order they are listed.
pub open spec fn family_table() -> Seq<(u64, Seq<char>)> {
    seq![
        (0x1u64, "AteryTek AT32"@),
        (0x2u64, "Ambiq Apollo3"@),
        (0x4u64, "WinChipHead CH32"@),
        (0x8u64, "WinChipHead CH579"@),
        (0x10u64, "Energy Micro EFM32/EFR32/EZR32"@),
        (0x20u64, "GigaDevice GD32"@),
        (0x40u64, "HDSC HC32"@),
        (0x80u64, "NXP LPC"@),
        (0x100u64, "MindMotion MM32"@),
        (0x200u64, "Nordi Semi nRF"@),
        (0x400u64, "NXP/Freescale Kinetis"@),
        (0x8_0000u64, "NXP i.MXRT"@),
        (0x800u64, "Puya PY32"@),
        (0x2000u64, "Renesas RA"@),
        (0x1000u64, "Renesas RZ"@),
        (0x4000u64, "RPi Foundation RP2040/RP2350"@),
        (0x8000u64, "Atmel/Microchip ATSAM"@),
        (0x1_0000u64, "ST Micro STM32"@),
        (0x2_0000u64, "TI MSP432 and LM3S/TM4C"@),
        (0x4_0000u64, "Xilinx Zynq"@),
    ]
}

/// The accelerations' bits and names, in the order they are listed.
pub open spec fn acceleration_table() -> Seq<(u64, Seq<char>)> {
    seq![(1u64, "ADIv5"@), (8u64, "ADIv6"@), (4u64, "RISC-V"@), (2u64, "Cortex-A/R"@)]
}

impl View for TargetArchitecture {
    type V = u64;

    closed spec fn view(&self) -> u64 {
        self.bits
    }
}

impl View for TargetFamily {
    type V = u64;

    closed spec fn view(&self) -> u64 {
        self.bits
    }
}

impl View for Acceleration {
    type V = u64;

    closed spec fn view(&self) -> u64 {
        self.bits
    }
}

impl TargetArchitecture {
    /// The architectures whose bits `bits` holds.
    pub fn from(bits: u64) -> (r: Self)
        ensures
            r@ == bits,
    {
        TargetArchitecture { bits }
    }

    /// The underlying bits.
    pub fn bits(&self) -> (r: u64)
        ensures
            r == self@,
    {
        self.bits
    }

    pub fn cortex_m() -> (r: Self)
        ensures
            r@ == 1,
    {
        TargetArchitecture { bits: 1 }
    }

    pub fn cortex_ar() -> (r: Self)
        ensures
            r@ == 2,
    {
        TargetArchitecture { bits: 2 }
    }

    pub fn riscv32() -> (r: Self)
        ensures
            r@ == 4,
    {
        TargetArchitecture { bits: 4 }
    }

    pub fn riscv64() -> (r: Self)
        ensures
            r@ == 8,
    {
        TargetArchitecture { bits: 8 }
    }

    /// Whether every architecture of `other` is among these.
    pub fn contains(&self, other: Self) -> (r: bool)
        ensures
            r == (self@ & other@ == other@),
    {
        self.bits & other.bits == other.bits
    }

    /// The names of these architectures, joined with `", "`.
    pub fn to_string(&self) -> (r: String)
        ensures
            r@ == crate::text::join_names(crate::text::flag_names(self@, architecture_table())),
    {
        let table: Vec<(u64, &str)> = vec![
            (1u64, "ARM Cortex-M"),
            (2u64, "ARM Cortex-A/R"),
            (4u64, "RISC-V 32-bit"),
            (8u64, "RISC-V 64-bit"),
        ];
        assert(crate::text::flag_table_view(table@) =~= architecture_table());
        flags_to_string(self.bits, table.as_slice())
    }
}

impl TargetFamily {
    /// The AteryTek AT32 family.
    pub fn at32() -> (r: Self)
        ensures
            r@ == 0x1,
    {
        TargetFamily { bits: 0x1 }
    }

    /// The Ambiq Apollo3 family.
    pub fn apollo3() -> (r: Self)
        ensures
            r@ == 0x2,
    {
        TargetFamily { bits: 0x2 }
    }

    /// The WinChipHead CH32 family.
    pub fn ch32() -> (r: Self)
        ensures
            r@ == 0x4,
    {
        TargetFamily { bits: 0x4 }
    }

    /// The WinChipHead CH579 family.
    pub fn ch579() -> (r: Self)
        ensures
            r@ == 0x8,
    {
        TargetFamily { bits: 0x8 }
    }

    /// The Energy Micro EFM32/EFR32/EZR32 family.
    pub fn efm() -> (r: Self)
        ensures
            r@ == 0x10,
    {
        TargetFamily { bits: 0x10 }
    }

    /// The GigaDevice GD32 family.
    pub fn gd32() -> (r: Self)
        ensures
            r@ == 0x20,
    {
        TargetFamily { bits: 0x20 }
    }

    /// The HDSC HC32 family.
    pub fn hc32() -> (r: Self)
        ensures
            r@ == 0x40,
    {
        TargetFamily { bits: 0x40 }
    }

    /// The NXP LPC family.
    pub fn lpc() -> (r: Self)
        ensures
            r@ == 0x80,
    {
        TargetFamily { bits: 0x80 }
    }

    /// The MindMotion MM32 family.
    pub fn mm32() -> (r: Self)
        ensures
            r@ == 0x100,
    {
        TargetFamily { bits: 0x100 }
    }

    /// The Nordic Semi nRF family.
    pub fn nrf() -> (r: Self)
        ensures
            r@ == 0x200,
    {
        TargetFamily { bits: 0x200 }
    }

    /// The NXP/Freescale Kinetis family.
    pub fn nxp_kinetis() -> (r: Self)
        ensures
            r@ == 0x400,
    {
        TargetFamily { bits: 0x400 }
    }

    /// The Puya PY32 family.
    pub fn puya() -> (r: Self)
        ensures
            r@ == 0x800,
    {
        TargetFamily { bits: 0x800 }
    }

    /// The Renesas RZ family.
    pub fn renesas_rz() -> (r: Self)
        ensures
            r@ == 0x1000,
    {
        TargetFamily { bits: 0x1000 }
    }

    /// The Renesas RA family.
    pub fn renesas_ra() -> (r: Self)
        ensures
            r@ == 0x2000,
    {
        TargetFamily { bits: 0x2000 }
    }

    /// The RPi Foundation RP2040/RP2350 family.
    pub fn rp() -> (r: Self)
        ensures
            r@ == 0x4000,
    {
        TargetFamily { bits: 0x4000 }
    }

    /// The Atmel/Microchip ATSAM family.
    pub fn sam() -> (r: Self)
        ensures
            r@ == 0x8000,
    {
        TargetFamily { bits: 0x8000 }
    }

    /// The ST Micro STM32 family.
    pub fn stm() -> (r: Self)
        ensures
            r@ == 0x10000,
    {
        TargetFamily { bits: 0x10000 }
    }

    /// The TI MSP432 and LM3S/TM4C family.
    pub fn ti() -> (r: Self)
        ensures
            r@ == 0x20000,
    {
        TargetFamily { bits: 0x20000 }
    }

    /// The Xilinx Zynq family.
    pub fn xilinx() -> (r: Self)
        ensures
            r@ == 0x40000,
    {
        TargetFamily { bits: 0x40000 }
    }

    /// The NXP i.MXRT family.
    pub fn nxp_imxrt() -> (r: Self)
        ensures
            r@ == 0x80000,
    {
        TargetFamily { bits: 0x80000 }
    }

    /// The families whose bits `bits` holds.
    pub fn from(bits: u64) -> (r: Self)
        ensures
            r@ == bits,
    {
        TargetFamily { bits }
    }

    /// The underlying bits.
    pub fn bits(&self) -> (r: u64)
        ensures
            r == self@,
    {
        self.bits
    }

    /// Whether every family of `other` is among these.
    pub fn contains(&self, other: Self) -> (r: bool)
        ensures
            r == (self@ & other@ == other@),
    {
        self.bits & other.bits == other.bits
    }

    /// The names of these families, joined with `", "`.
    pub fn to_string(&self) -> (r: String)
        ensures
            r@ == crate::text::join_names(crate::text::flag_names(self@, family_table())),
    {
        let table: Vec<(u64, &str)> = vec![
            (0x1u64, "AteryTek AT32"),
            (0x2u64, "Ambiq Apollo3"),
            (0x4u64, "WinChipHead CH32"),
            (0x8u64, "WinChipHead CH579"),
            (0x10u64, "Energy Micro EFM32/EFR32/EZR32"),
            (0x20u64, "GigaDevice GD32"),
            (0x40u64, "HDSC HC32"),
            (0x80u64, "NXP LPC"),
            (0x100u64, "MindMotion MM32"),
            (0x200u64, "Nordi Semi nRF"),
            (0x400u64, "NXP/Freescale Kinetis"),
            (0x8_0000u64, "NXP i.MXRT"),
            (0x800u64, "Puya PY32"),
            (0x2000u64, "Renesas RA"),
            (0x1000u64, "Renesas RZ"),
            (0x4000u64, "RPi Foundation RP2040/RP2350"),
            (0x8000u64, "Atmel/Microchip ATSAM"),
            (0x1_0000u64, "ST Micro STM32"),
            (0x2_0000u64, "TI MSP432 and LM3S/TM4C"),
            (0x4_0000u64, "Xilinx Zynq"),
        ];
        assert(crate::text::flag_table_view(table@) =~= family_table());
        flags_to_string(self.bits, table.as_slice())
    }
}

impl Acceleration {
    /// The accelerations whose bits `bits` holds.
    pub fn from(bits: u64) -> (r: Self)
        ensures
            r@ == bits,
    {
        Acceleration { bits }
    }

    /// The underlying bits.
    pub fn bits(&self) -> (r: u64)
        ensures
            r == self@,
    {
        self.bits
    }

    pub fn adiv5() -> (r: Self)
        ensures
            r@ == 1,
    {
        Acceleration { bits: 1 }
    }

    pub fn cortex_ar() -> (r: Self)
        ensures
            r@ == 2,
    {
        Acceleration { bits: 2 }
    }

    pub fn riscv() -> (r: Self)
        ensures
            r@ == 4,
    {
        Acceleration { bits: 4 }
    }

    pub fn adiv6() -> (r: Self)
        ensures
            r@ == 8,
    {
        Acceleration { bits: 8 }
    }

    /// Whether every acceleration of `other` is among these.
    pub fn contains(&self, other: Self) -> (r: bool)
        ensures
            r == (self@ & other@ == other@),
    {
        self.bits & other.bits == other.bits
    }

    /// The names of these accelerations, joined with `", "`.
    pub fn to_string(&self) -> (r: String)
        ensures
            r@ == crate::text::join_names(crate::text::flag_names(self@, acceleration_table())),
    {
        let table: Vec<(u64, &str)> = vec![
            (1u64, "ADIv5"),
            (8u64, "ADIv6"),
            (4u64, "RISC-V"),
            (2u64, "Cortex-A/R"),
        ];
        assert(crate::text::flag_table_view(table@) =~= acceleration_table());
        flags_to_string(self.bits, table.as_slice())
    }
}

/// Types implementing this trait provide raw SWD access to targets over the BMD remote protocol
pub trait BmdSwdProtocol {
    /// Executes a read of the SWD bus for `clock_cycles` clock cycles, for up to 32 cycles,
    /// and returns the result as a 32-bit integer
    fn seq_in(&self, clock_cycles: usize) -> u32;

    /// The same as seq_in but then does one additional cycle to read a parity bit, checks
    /// the parity bit's value, and then only returns the result if the parity check passes -
    /// returns None otherwise
    fn seq_in_parity(&self, clock_cycles: usize) -> Option<u32>;

    /// Executes a write to the SWD bus for `clock_cycles` clock cycles, for up to 32 cycles,
    /// putting out the value provided to the bus
    fn seq_out(&self, value: u32, clock_cycles: usize);

    /// The same as seq_out but then computes the parity bit for the provided value, and
    /// does one additional cycle to write that parity bit out to the bus
    fn seq_out_parity(&self, value: u32, clock_cycles: usize);
}

/// Types implementing this trait provide raw JTAG access to targets over the BMD remote protocol
pub trait BmdJtagProtocol {
    /// Executes a state machine reset to ensure a clean, known TAP state
    fn tap_reset(&self);

    /// Executes one state transition in the JTAG TAP state machine, capturing TDO
    fn tap_next(&self, tms: bool, tdi: bool) -> bool;

    /// Performs a sequence of cycles with the provided bitstring of TMS states
    fn tap_tms_seq(&self, tms_states: u32, clock_cycles: usize);

    /// Shift out a sequence on TDI, capture data from TDO into `data_out`. Holds TMS low till the
    /// final cycle, then uses the value of final_tms to determine what state to put TMS into.
    fn tap_tdi_tdo_seq(&self, data_out: &mut [u8], final_tms: bool, data_in: &[u8], clock_cycles: usize);

    /// Shift out a sequence on TDI. Holds TMS low till the final cycle, then uses the value
    /// of final_tms to determine what state to put TMS into.
    fn tap_tdi_seq(&self, final_tms: bool, data_in: &[u8], clock_cycles: usize);

    /// Perform a series of cycles on the state machine with TMS and TDI held in a set state
    fn tap_cycle(&self, tms: bool, tdi: bool, clock_cycles: usize);
}

/// Types implementing this trait provide accelerated ADIv5 access to targets over the BMD remote
/// protocol
pub trait BmdAdiV5Protocol {
    /// Perform a raw AP or DP register access against the target, reporting the read result back
    fn raw_access(&self, dp: AdiV5DebugPort, rnw: u8, addr: u16, value: u32) -> u32;

    /// Read a DP (or AP*) register from the target
    fn dp_read(&self, dp: AdiV5DebugPort, addr: u16) -> u32;

    /// Read an AP register from the target
    fn ap_read(&self, ap: AdiV5AccessPort, addr: u16) -> u32;

    /// Write an AP register on the target
    fn ap_write(&self, ap: AdiV5AccessPort, addr: u16, value: u32);

    /// Read memory associated with an AP from the target into the buffer passed to dest
    fn mem_read(&self, ap: AdiV5AccessPort, dest: &mut [u8], src: u64);

    /// Write memory associated with an AP to the target from the buffer passed in src and with
    /// the access alignment given by align
    fn mem_write(&self, ap: AdiV5AccessPort, dest: u64, src: &[u8], align: Align);
}

/// Types implementing this trait provide RISC-V debug module access over the BMD remote protocol
pub trait BmdRiscvProtocol {
    fn dmi_read(&self, dmi: RiscvDmi, address: u32) -> Option<u32>;

    fn dmi_write(&self, dmi: RiscvDmi, address: u32, value: u32) -> bool;
}

/// Structure representing a device on the JTAG scan chain
pub struct JtagDev {
    pub idcode: u32,
    pub current_ir: u32,
    pub dr_prescan: u8,
    pub dr_postscan: u8,
    pub ir_len: u8,
    pub ir_prescan: u8,
    pub ir_postscan: u8,
}

/// The versions of the remote protocol.
#[derive(Debug, Clone, Copy, PartialEq, Eq, Structural)]
pub enum ProtocolVersion {
    Unknown,
    V0,
    V0Plus,
    V1,
    V2,
    V3,
    V4,
}

/// The name of a protocol version.
pub open spec fn protocol_version_text(v: ProtocolVersion) -> Seq<char> {
    match v {
        ProtocolVersion::Unknown => "<unknown>"@,
        ProtocolVersion::V0 => "v0"@,
        ProtocolVersion::V0Plus => "v0+"@,
        ProtocolVersion::V1 => "v1"@,
        ProtocolVersion::V2 => "v2"@,
        ProtocolVersion::V3 => "v3"@,
        ProtocolVersion::V4 => "v4"@,
    }
}

impl ProtocolVersion {
    /// The name of this protocol version.
    pub fn to_string(&self) -> (r: String)
        ensures
            r@ == protocol_version_text(*self),
    {
        match self {
            ProtocolVersion::Unknown => "<unknown>".to_owned(),
            ProtocolVersion::V0 => "v0".to_owned(),
            ProtocolVersion::V0Plus => "v0+".to_owned(),
            ProtocolVersion::V1 => "v1".to_owned(),
            ProtocolVersion::V2 => "v2".to_owned(),
            ProtocolVersion::V3 => "v3".to_owned(),
            ProtocolVersion::V4 => "v4".to_owned(),
        }
    }
}

/// How many leading digits of `response` are decoded: `digits`, or fewer where the response is
/// shorter.
pub open spec fn decoded_prefix(response: Seq<char>, digits: nat) -> Seq<char> {
    if digits > response.len() {
        response
    } else {
        response.subrange(0, digits as int)
    }
}

/// Whether the digits that [`decode_response`] reads are all hexadecimal.
pub open spec fn decodable(response: Seq<char>, digits: nat) -> bool {
    crate::text::all_hex_chars(decoded_prefix(response, digits))
}

/// The value of up to `digits` leading hexadecimal digits of a response, kept to 64 bits.
pub open spec fn spec_decode_response(response: Seq<char>, digits: nat) -> u64 {
    (crate::text::hex_chars_value(decoded_prefix(response, digits)) % 0x1_0000_0000_0000_0000) as u64
}

/// Shifting a 64-bit value four bits up and putting a digit below sixteen in the low bits
/// appends a hexadecimal digit, modulo two to the 64.
proof fn lemma_shift_in_digit(v: u64, d: u64)
    requires
        d < 16,
    ensures
        ((v << 4u64) | d) == ((v as int * 16 + d) % 0x1_0000_0000_0000_0000) as u64,
{
    assert(((v << 4u64) | d) == ((v << 4u64) + d)) by (bit_vector)
        requires
            d < 16,
    ;
    assert((v << 4u64) == (v as int * 16) % 0x1_0000_0000_0000_0000) by (bit_vector);
    assert((v << 4u64) as int + d < 0x1_0000_0000_0000_0000) by (bit_vector)
        requires
            d < 16,
    ;
    vstd::arithmetic::div_mod::lemma_add_mod_noop(v as int * 16, d as int, 0x1_0000_0000_0000_0000);
    vstd::arithmetic::div_mod::lemma_small_mod(d as nat, 0x1_0000_0000_0000_0000);
    vstd::arithmetic::div_mod::lemma_small_mod(((v << 4u64) as int + d) as nat, 0x1_0000_0000_0000_0000);
}

/// Decodes up to `digits` leading hexadecimal digits of a probe response (see
/// [`spec_decode_response`]).
pub fn decode_response(response: &str, digits: usize) -> (r: u64)
    requires
        decodable(response@, digits as nat),
    ensures
        r == spec_decode_response(response@, digits as nat),
{
    let chars = chars_of(response);
    let n: usize = if digits > chars.len() {
        chars.len()
    } else {
        digits
    };
    let ghost prefix = decoded_prefix(response@, digits as nat);
    assert(prefix =~= chars@.subrange(0, n as int));
    let mut value: u64 = 0;
    let mut i: usize = 0;
    while i < n
        invariant
            i <= n,
            n <= chars@.len(),
            chars@ == response@,
            prefix == chars@.subrange(0, n as int),
            crate::text::all_hex_chars(prefix),
            value == (crate::text::hex_chars_value(chars@.subrange(0, i as int)) % 0x1_0000_0000_0000_0000) as u64,
        decreases n - i,
    {
        let ghost before = chars@.subrange(0, i as int);
        let ghost after = chars@.subrange(0, i + 1);
        assert(after.drop_last() =~= before);
        assert(prefix[i as int] == chars@[i as int]);
        let d = match crate::text::hex_char_digit(chars[i]) {
            Some(d) => d,
            None => {
                assert(false);
                0
            },
        };
        proof {
            lemma_shift_in_digit(value, d as u64);
            let h = crate::text::hex_chars_value(before) as int;
            let m: int = 0x1_0000_0000_0000_0000;
            vstd::arithmetic::div_mod::lemma_add_mod_noop(h * 16, d as int, m);
            vstd::arithmetic::div_mod::lemma_add_mod_noop((h % m) * 16, d as int, m);
            vstd::arithmetic::div_mod::lemma_mul_mod_noop_left(h, 16, m);
        }
        value = (value << 4u64) | d as u64;
        i = i + 1;
    }
    value
}

/// The protocol version that a version number names.
pub open spec fn spec_protocol_version(version: u64) -> Option<ProtocolVersion> {
    if version == 0 {
        Some(ProtocolVersion::V0Plus)
    } else if version == 1 {
        Some(ProtocolVersion::V1)
    } else if version == 2 {
        Some(ProtocolVersion::V2)
    } else if version == 3 {
        Some(ProtocolVersion::V3)
    } else if version == 4 {
        Some(ProtocolVersion::V4)
    } else {
        None
    }
}

/// The protocol version a probe reports is the one whose number it reports: for the numbers 1 to
/// 4 the version is named `v` and that number, 0 stands for v0+ (the v0 probes that answer the
/// request), no other number names a version, and no two numbers name the same version.
pub proof fn law_protocol_version_names_its_number(n: u64, m: u64)
    ensures
        1 <= n <= 4 ==> (spec_protocol_version(n) matches Some(v) && protocol_version_text(v) == seq!['v']
            + crate::text::decimal_digits(n as nat)),
        n == 0 ==> spec_protocol_version(n) == Some(ProtocolVersion::V0Plus),
        n > 4 ==> spec_protocol_version(n) is None,
        spec_protocol_version(n) is Some && spec_protocol_version(n) == spec_protocol_version(m) ==> n == m,
{
    reveal_strlit("v1");
    reveal_strlit("v2");
    reveal_strlit("v3");
    reveal_strlit("v4");
    if 1 <= n <= 4 {
        let v = spec_protocol_version(n)->0;
        assert(crate::text::decimal_digits(n as nat) == seq![crate::text::digit_char(n as nat)]);
        assert(protocol_version_text(v) =~= seq!['v'] + crate::text::decimal_digits(n as nat));
    }
}

/// Whether a reply's first character is ASCII, as the reply-checking code needs to cut it off.
pub open spec fn first_is_ascii(buffer: Seq<char>) -> bool {
    buffer.len() > 0 ==> (buffer[0] as u32) < 0x80
}

/// The text after the response code, or `unknown` where there is none.
pub open spec fn response_message(buffer: Seq<char>) -> Seq<char> {
    if buffer.len() > 1 {
        buffer.drop_first()
    } else {
        "unknown"@
    }
}

/// The text after the response code, or `unknown` where there is none.
fn message_of(buffer: &[char]) -> (r: String)
    ensures
        r@ == response_message(buffer@),
{
    if buffer.len() > 1 {
        let mut r = String::new();
        crate::text::string_extend(&mut r, &buffer[1..buffer.len()]);
        assert(buffer@.subrange(1, buffer@.len() as int) =~= buffer@.drop_first());
        r
    } else {
        "unknown".to_owned()
    }
}

/// What the reply to the session start request says: an `OK` reply starts the session.
pub open spec fn spec_startup_response(buffer: Seq<char>) -> Result<(), Seq<char>> {
    if buffer.len() == 0 || buffer[0] != 'K' {
        Err("Remote protocol startup failed, error "@ + response_message(buffer))
    } else {
        Ok(())
    }
}

/// Checks the reply to the session start request (see [`spec_startup_response`]).
pub fn check_startup_response(buffer: &str) -> (r: Result<(), String>)
    requires
        first_is_ascii(buffer@),
    ensures
        match r {
            Ok(()) => spec_startup_response(buffer@) == Ok::<(), Seq<char>>(()),
            Err(m) => spec_startup_response(buffer@) == Err::<(), Seq<char>>(m@),
        },
{
    let b = chars_of(buffer);
    if b.len() == 0 || b[0] != 'K' {
        let mut m = "Remote protocol startup failed, error ".to_owned();
        let msg = message_of(b.as_slice());
        string_extend_str(&mut m, msg.as_str());
        Err(m)
    } else {
        Ok(())
    }
}

/// What the reply to the protocol version request says: a not-supported reply means the
/// first protocol version (v0), an `OK` reply carries the version number.
pub open spec fn spec_protocol_version_response(buffer: Seq<char>) -> Result<ProtocolVersion, Seq<char>> {
    if buffer.len() == 0 {
        Err("Probe failed to respond at all to protocol version request"@)
    } else if buffer[0] != 'K' && buffer[0] != 'N' {
        Err("Probe responded improperly to protocol version request with "@ + buffer)
    } else if buffer[0] == 'N' {
        Ok(ProtocolVersion::V0)
    } else {
        let version = spec_decode_response(buffer.drop_first(), 8);
        match spec_protocol_version(version) {
            Some(v) => Ok(v),
            None => Err("Unknown remote protocol version "@ + crate::text::decimal_digits(version as nat)),
        }
    }
}

/// Reads the reply to the protocol version request (see [`spec_protocol_version_response`]).
pub fn protocol_version_from_response(buffer: &str) -> (r: Result<ProtocolVersion, String>)
    requires
        buffer@.len() > 0 && buffer@[0] == 'K' ==> decodable(buffer@.drop_first(), 8),
    ensures
        match r {
            Ok(v) => spec_protocol_version_response(buffer@) == Ok::<ProtocolVersion, Seq<char>>(v),
            Err(m) => spec_protocol_version_response(buffer@) == Err::<ProtocolVersion, Seq<char>>(m@),
        },
{
    let b = chars_of(buffer);
    if b.len() == 0 {
        return Err("Probe failed to respond at all to protocol version request".to_owned());
    }
    if b[0] != 'K' && b[0] != 'N' {
        let mut m = "Probe responded improperly to protocol version request with ".to_owned();
        string_extend_str(&mut m, buffer);
        return Err(m);
    }
    if b[0] == 'N' {
        return Ok(ProtocolVersion::V0);
    }
    let rest = crate::text::string_from_chars(&b.as_slice()[1..b.len()]);
    assert(rest@ =~= buffer@.drop_first());
    let version = decode_response(rest.as_str(), 8);
    if version == 0 {
        Ok(ProtocolVersion::V0Plus)
    } else if version == 1 {
        Ok(ProtocolVersion::V1)
    } else if version == 2 {
        Ok(ProtocolVersion::V2)
    } else if version == 3 {
        Ok(ProtocolVersion::V3)
    } else if version == 4 {
        Ok(ProtocolVersion::V4)
    } else {
        let mut m = "Unknown remote protocol version ".to_owned();
        if version <= usize::MAX as u64 {
            push_decimal(&mut m, version as usize);
        } else {
            push_decimal_u64(&mut m, version);
        }
        Err(m)
    }
}

/// Appends the decimal rendering of a 64-bit value.
fn push_decimal_u64(out: &mut String, n: u64)
    ensures
        final(out)@ == old(out)@ + crate::text::decimal_digits(n as nat),
    decreases n,
{
    if n >= 10 {
        push_decimal_u64(out, n / 10);
    }
    let d = (n % 10) as u8;
    let c = (48u8 + d) as char;
    crate::text::string_push(out, c);
    assert(c == crate::text::digit_char((n % 10) as nat));
    if n >= 10 {
        assert(crate::text::decimal_digits(n as nat) == crate::text::decimal_digits((n / 10) as nat).push(
            crate::text::digit_char((n % 10) as nat),
        ));
    } else {
        assert(n % 10 == n);
    }
}

/// What the reply to a link initialisation request (`what` is `JTAG` or `SWD`) says: it failed
/// where the reply is empty or an error.
pub open spec fn spec_init_response(buffer: Seq<char>, what: Seq<char>) -> Result<(), Seq<char>> {
    if buffer.len() == 0 || buffer[0] == 'E' {
        Err("Remote "@ + what + " init failed, error "@ + response_message(buffer))
    } else {
        Ok(())
    }
}

/// Checks the reply to a link initialisation request (see [`spec_init_response`]).
pub fn check_init_response(buffer: &str, what: &str) -> (r: Result<(), String>)
    requires
        first_is_ascii(buffer@),
    ensures
        match r {
            Ok(()) => spec_init_response(buffer@, what@) == Ok::<(), Seq<char>>(()),
            Err(m) => spec_init_response(buffer@, what@) == Err::<(), Seq<char>>(m@),
        },
{
    let b = chars_of(buffer);
    if b.len() == 0 || b[0] == 'E' {
        let mut m = "Remote ".to_owned();
        string_extend_str(&mut m, what);
        string_extend_str(&mut m, " init failed, error ");
        let msg = message_of(b.as_slice());
        string_extend_str(&mut m, msg.as_str());
        Err(m)
    } else {
        Ok(())
    }
}

/// What the reply to a capability request (architectures or families) says: not supported
/// means the firmware predates the request, an `OK` reply carries the bitmask.
pub open spec fn spec_capability_response(buffer: Seq<char>) -> Result<Option<u64>, Seq<char>> {
    if buffer.len() == 0 || (buffer[0] != 'K' && buffer[0] != 'N') {
        Err("Supported architectures request failed, error "@ + response_message(buffer))
    } else if buffer[0] == 'N' {
        Ok(None)
    } else {
        Ok(Some(spec_decode_response(buffer.drop_first(), 8)))
    }
}

/// Reads the reply to a capability request (see [`spec_capability_response`]).
pub fn capability_from_response(buffer: &str) -> (r: Result<Option<u64>, String>)
    requires
        first_is_ascii(buffer@),
        buffer@.len() > 0 && buffer@[0] == 'K' ==> decodable(buffer@.drop_first(), 8),
    ensures
        match r {
            Ok(v) => spec_capability_response(buffer@) == Ok::<Option<u64>, Seq<char>>(v),
            Err(m) => spec_capability_response(buffer@) == Err::<Option<u64>, Seq<char>>(m@),
        },
{
    let b = chars_of(buffer);
    if b.len() == 0 || (b[0] != 'K' && b[0] != 'N') {
        let mut m = "Supported architectures request failed, error ".to_owned();
        let msg = message_of(b.as_slice());
        string_extend_str(&mut m, msg.as_str());
        return Err(m);
    }
    if b[0] == 'N' {
        return Ok(None);
    }
    let rest = crate::text::string_from_chars(&b.as_slice()[1..b.len()]);
    assert(rest@ =~= buffer@.drop_first());
    Ok(Some(decode_response(rest.as_str(), 8)))
}

/// The supported architectures that a capability reply reports.
pub fn architectures_from_response(buffer: &str) -> (r: Result<Option<TargetArchitecture>, String>)
    requires
        first_is_ascii(buffer@),
        buffer@.len() > 0 && buffer@[0] == 'K' ==> decodable(buffer@.drop_first(), 8),
    ensures
        match r {
            Ok(Some(a)) => spec_capability_response(buffer@) == Ok::<Option<u64>, Seq<char>>(Some(a@)),
            Ok(None) => spec_capability_response(buffer@) == Ok::<Option<u64>, Seq<char>>(None),
            Err(m) => spec_capability_response(buffer@) == Err::<Option<u64>, Seq<char>>(m@),
        },
{
    match capability_from_response(buffer) {
        Err(m) => Err(m),
        Ok(None) => Ok(None),
        Ok(Some(bits)) => Ok(Some(TargetArchitecture::from(bits))),
    }
}

/// The supported target families that a capability reply reports.
pub fn families_from_response(buffer: &str) -> (r: Result<Option<TargetFamily>, String>)
    requires
        first_is_ascii(buffer@),
        buffer@.len() > 0 && buffer@[0] == 'K' ==> decodable(buffer@.drop_first(), 8),
    ensures
        match r {
            Ok(Some(f)) => spec_capability_response(buffer@) == Ok::<Option<u64>, Seq<char>>(Some(f@)),
            Ok(None) => spec_capability_response(buffer@) == Ok::<Option<u64>, Seq<char>>(None),
            Err(m) => spec_capability_response(buffer@) == Err::<Option<u64>, Seq<char>>(m@),
        },
{
    match capability_from_response(buffer) {
        Err(m) => Err(m),
        Ok(None) => Ok(None),
        Ok(Some(bits)) => Ok(Some(TargetFamily::from(bits))),
    }
}

/// How `{:?}` renders a string: quoted, with characters escaped as `str::escape_debug` does.
pub uninterp spec fn spec_debug_str(s: Seq<char>) -> Seq<char>;

/// `<str as Debug>::fmt`, through `format!("{:?}", ..)`; its rendering is named by
/// [`spec_debug_str`] and depends on the string alone.
#[verifier::external_body]
fn debug_str(s: &str) -> (r: String)
    ensures
        r@ == spec_debug_str(s@),
{
    format!("{:?}", s)
}

/// What the reply to the accelerations request says: an `OK` reply carries the bitmask.
pub open spec fn spec_accelerations_response(buffer: Seq<char>) -> Result<u64, Seq<char>> {
    if buffer.len() == 0 || buffer[0] != 'K' {
        Err("Error talking with probe, expected OK response to supported accelerations query, got "@ + spec_debug_str(buffer))
    } else {
        Ok(spec_decode_response(buffer.drop_first(), 8))
    }
}

/// Reads the reply to the accelerations request (see [`spec_accelerations_response`]).
pub fn accelerations_from_response(buffer: &str) -> (r: Result<Acceleration, String>)
    requires
        buffer@.len() > 0 && buffer@[0] == 'K' ==> decodable(buffer@.drop_first(), 8),
    ensures
        match r {
            Ok(a) => spec_accelerations_response(buffer@) == Ok::<u64, Seq<char>>(a@),
            Err(m) => spec_accelerations_response(buffer@) == Err::<u64, Seq<char>>(m@),
        },
{
    let b = chars_of(buffer);
    if b.len() == 0 || b[0] != 'K' {
        let mut m = "Error talking with probe, expected OK response to supported accelerations query, got ".to_owned();
        let d = debug_str(buffer);
        string_extend_str(&mut m, d.as_str());
        return Err(m);
    }
    let rest = crate::text::string_from_chars(&b.as_slice()[1..b.len()]);
    assert(rest@ =~= buffer@.drop_first());
    Ok(Acceleration::from(decode_response(rest.as_str(), 8)))
}

/// What the reply to the target voltage request says: whether the target is powered.
pub open spec fn spec_power_response(buffer: Seq<char>) -> Result<bool, Seq<char>> {
    if buffer.len() == 0 || buffer[0] != 'K' {
        Err("Supported current powered request failed"@)
    } else if buffer.len() < 2 {
        Err("Current powered response is too short"@)
    } else {
        Ok(buffer[1] == '1')
    }
}

/// Reads the reply to the target voltage request (see [`spec_power_response`]).
pub fn power_from_response(buffer: &str) -> (r: Result<bool, String>)
    ensures
        match r {
            Ok(v) => spec_power_response(buffer@) == Ok::<bool, Seq<char>>(v),
            Err(m) => spec_power_response(buffer@) == Err::<bool, Seq<char>>(m@),
        },
{
    let b = chars_of(buffer);
    if b.len() == 0 || b[0] != 'K' {
        return Err("Supported current powered request failed".to_owned());
    }
    if b.len() < 2 {
        return Err("Current powered response is too short".to_owned());
    }
    Ok(b[1] == '1')
}

/// The lower-case rendering of a number in `n` hexadecimal digits reads back as the number.
proof fn lemma_hex_rendering_value(v: nat, n: nat)
    requires
        v < crate::firmware_file::ihex::pow16(n),
    ensures
        crate::text::hex_digits_fixed(v, n).len() == n,
        crate::text::all_hex_chars(crate::text::hex_digits_fixed(v, n)),
        crate::text::hex_chars_value(crate::text::hex_digits_fixed(v, n)) == v,
    decreases n,
{
    if n > 0 {
        let p = crate::firmware_file::ihex::pow16((n - 1) as nat);
        assert(v / 16 < p) by (nonlinear_arith)
            requires
                v < 16 * p,
        ;
        lemma_hex_rendering_value(v / 16, (n - 1) as nat);
        let s = crate::text::hex_digits_fixed(v, n);
        let t = crate::text::hex_digits_fixed(v / 16, (n - 1) as nat);
        assert(s.drop_last() == t);
        let d = v % 16;
        assert(crate::text::hex_char_value(crate::text::hex_digit_char(d)) == Some(d));
        assert forall|i: int| 0 <= i < s.len() implies (#[trigger] crate::text::hex_char_value(s[i])) is Some by {
            if i < t.len() {
                assert(s[i] == t[i]);
            }
        }
        assert((v / 16) * 16 + v % 16 == v) by (nonlinear_arith);
    }
}

/// Decoding reads back what the probe writes: a number below sixteen to the power `n` (for up to
/// sixteen digits), rendered in `n` lower-case hexadecimal digits, decodes to itself.
pub proof fn law_decode_hex_rendering(v: nat, n: nat)
    requires
        n <= 16,
        v < crate::firmware_file::ihex::pow16(n),
    ensures
        decodable(crate::text::hex_digits_fixed(v, n), n),
        spec_decode_response(crate::text::hex_digits_fixed(v, n), n) == v,
{
    lemma_hex_rendering_value(v, n);
    let s = crate::text::hex_digits_fixed(v, n);
    assert(decoded_prefix(s, n) =~= s);
    lemma_pow16_monotonic(n, 16);
    assert(crate::firmware_file::ihex::pow16(16) == 0x1_0000_0000_0000_0000) by {
        reveal_with_fuel(crate::firmware_file::ihex::pow16, 17);
    }
}

/// Sixteen to a larger power is larger.
proof fn lemma_pow16_monotonic(a: nat, b: nat)
    requires
        a <= b,
    ensures
        crate::firmware_file::ihex::pow16(a) <= crate::firmware_file::ihex::pow16(b),
    decreases b,
{
    if a < b {
        lemma_pow16_monotonic(a, (b - 1) as nat);
        assert(crate::firmware_file::ihex::pow16(b) == 16 * crate::firmware_file::ihex::pow16((b - 1) as nat));
    }
}

} // verus!
