//! The Black Magic Probe platforms: the USB identities they enumerate with in each operating
//! mode, and where firmware loads on each.
use vstd::prelude::*;

use crate::usb::{
    DescriptorConvertError, DfuFunctionalDescriptor, DfuOperatingMode, DfuRequest, GenericDescriptorRef, Pid, PortId, Vid,
};


pub use crate::bmp_matcher::{BmpMatchResults, BmpMatcher};
pub use crate::firmware_file::FirmwareFormat;
pub use crate::firmware_type::{Armv7mVectorTable, FirmwareType};

verus! {

/// Represents the firmware in use on a device that's supported.
#[derive(Debug, Copy, Clone, PartialEq, Eq, Hash, Structural)]
pub enum BmpPlatform {
    /// Probes using the in-repo bootloader
    BlackMagicDebug,
    /// Probes using dragonBoot as an alternative bootloader
    DragonBoot,
    /// Probes using the STM32 built-in DFU bootloader
    STM32DeviceDFU,
}

/// The identity of a Black Magic Debug probe running its firmware.
pub open spec fn bmd_runtime_ids() -> (Vid, Pid) {
    (Vid(0x1d50), Pid(0x6018))
}

/// The identity of a Black Magic Debug probe in its own bootloader.
pub open spec fn bmd_dfu_ids() -> (Vid, Pid) {
    (Vid(0x1d50), Pid(0x6017))
}

/// The identity of a probe in the dragonBoot bootloader.
pub open spec fn dragon_boot_ids() -> (Vid, Pid) {
    (Vid(0x1209), Pid(0xbadb))
}

/// The identity of an STM32 in its built-in DFU bootloader.
pub open spec fn stm32_dfu_ids() -> (Vid, Pid) {
    (Vid(0x0483), Pid(0xdf11))
}

/// The platform and operating mode a USB identity stands for.
pub open spec fn spec_from_vid_pid(vid: Vid, pid: Pid) -> Option<(BmpPlatform, DfuOperatingMode)> {
    if (vid, pid) == bmd_runtime_ids() {
        Some((BmpPlatform::BlackMagicDebug, DfuOperatingMode::Runtime))
    } else if (vid, pid) == bmd_dfu_ids() {
        Some((BmpPlatform::BlackMagicDebug, DfuOperatingMode::FirmwareUpgrade))
    } else if (vid, pid) == dragon_boot_ids() {
        Some((BmpPlatform::DragonBoot, DfuOperatingMode::FirmwareUpgrade))
    } else if (vid, pid) == stm32_dfu_ids() {
        Some((BmpPlatform::STM32DeviceDFU, DfuOperatingMode::FirmwareUpgrade))
    } else {
        None
    }
}

/// The identity a platform's probes have in DFU mode.
pub open spec fn spec_dfu_ids(p: BmpPlatform) -> (Vid, Pid) {
    match p {
        BmpPlatform::BlackMagicDebug => bmd_dfu_ids(),
        BmpPlatform::DragonBoot => dragon_boot_ids(),
        BmpPlatform::STM32DeviceDFU => stm32_dfu_ids(),
    }
}

/// The identity a platform's probes have in the given mode.
pub open spec fn spec_ids_for_mode(p: BmpPlatform, mode: DfuOperatingMode) -> (Vid, Pid) {
    match mode {
        DfuOperatingMode::Runtime => bmd_runtime_ids(),
        DfuOperatingMode::FirmwareUpgrade => spec_dfu_ids(p),
    }
}

/// Where firmware of a type loads on a platform.
pub open spec fn spec_platform_load_address(p: BmpPlatform, t: FirmwareType) -> u32 {
    match p {
        BmpPlatform::BlackMagicDebug => match t {
            FirmwareType::Bootloader => 0x0800_0000,
            FirmwareType::Application => 0x0800_2000,
        },
        BmpPlatform::DragonBoot => 0x0800_2000,
        BmpPlatform::STM32DeviceDFU => 0x0800_0000,
    }
}

impl BmpPlatform {
    /// The identity of a Black Magic Debug probe running its firmware.
    pub fn bmd_runtime_vid_pid() -> (r: (Vid, Pid))
        ensures
            r == bmd_runtime_ids(),
    {
        (Vid(0x1d50), Pid(0x6018))
    }

    /// The identity of a Black Magic Debug probe in its own bootloader.
    pub fn bmd_dfu_vid_pid() -> (r: (Vid, Pid))
        ensures
            r == bmd_dfu_ids(),
    {
        (Vid(0x1d50), Pid(0x6017))
    }

    /// The identity of a probe in the dragonBoot bootloader.
    pub fn dragon_boot_vid_pid() -> (r: (Vid, Pid))
        ensures
            r == dragon_boot_ids(),
    {
        (Vid(0x1209), Pid(0xbadb))
    }

    /// The identity of an STM32 in its built-in DFU bootloader.
    pub fn stm32_dfu_vid_pid() -> (r: (Vid, Pid))
        ensures
            r == stm32_dfu_ids(),
    {
        (Vid(0x0483), Pid(0xdf11))
    }

    /// The platform and operating mode a USB identity stands for, if any.
    pub fn from_vid_pid(vid: Vid, pid: Pid) -> (r: Option<(Self, DfuOperatingMode)>)
        ensures
            r == spec_from_vid_pid(vid, pid),
    {
        if vid.0 == 0x1d50 && pid.0 == 0x6018 {
            Some((BmpPlatform::BlackMagicDebug, DfuOperatingMode::Runtime))
        } else if vid.0 == 0x1d50 && pid.0 == 0x6017 {
            Some((BmpPlatform::BlackMagicDebug, DfuOperatingMode::FirmwareUpgrade))
        } else if vid.0 == 0x1209 && pid.0 == 0xbadb {
            Some((BmpPlatform::DragonBoot, DfuOperatingMode::FirmwareUpgrade))
        } else if vid.0 == 0x0483 && pid.0 == 0xdf11 {
            Some((BmpPlatform::STM32DeviceDFU, DfuOperatingMode::FirmwareUpgrade))
        } else {
            None
        }
    }

    /// The identity this platform's probes have when running their firmware.
    pub fn runtime_ids(self) -> (r: (Vid, Pid))
        ensures
            r == bmd_runtime_ids(),
    {
        Self::bmd_runtime_vid_pid()
    }

    /// The identity this platform's probes have in DFU mode.
    pub fn dfu_ids(self) -> (r: (Vid, Pid))
        ensures
            r == spec_dfu_ids(self),
    {
        match self {
            BmpPlatform::BlackMagicDebug => Self::bmd_dfu_vid_pid(),
            BmpPlatform::DragonBoot => Self::dragon_boot_vid_pid(),
            BmpPlatform::STM32DeviceDFU => Self::stm32_dfu_vid_pid(),
        }
    }

    /// The identity this platform's probes have in the given mode.
    pub fn ids_for_mode(self, mode: DfuOperatingMode) -> (r: (Vid, Pid))
        ensures
            r == spec_ids_for_mode(self, mode),
    {
        match mode {
            DfuOperatingMode::Runtime => self.runtime_ids(),
            DfuOperatingMode::FirmwareUpgrade => self.dfu_ids(),
        }
    }

    /// Get the load address for firmware of `firm_type` on this platform.
    pub fn load_address(self, firm_type: FirmwareType) -> (r: u32)
        ensures
            r == spec_platform_load_address(self, firm_type),
    {
        match self {
            BmpPlatform::BlackMagicDebug => match firm_type {
                FirmwareType::Bootloader => 0x0800_0000,
                FirmwareType::Application => 0x0800_2000,
            },
            BmpPlatform::DragonBoot => 0x0800_2000,
            BmpPlatform::STM32DeviceDFU => 0x0800_0000,
        }
    }
}

/// Defaults to [`BmpPlatform::BlackMagicDebug`].
impl Default for BmpPlatform {
    fn default() -> (r: Self)
        ensures
            r == BmpPlatform::BlackMagicDebug,
    {
        BmpPlatform::BlackMagicDebug
    }
}

/// A probe's DFU identity names its platform: reading the identity a platform has in a mode gives
/// back that platform and mode, except that all platforms share one runtime identity, which reads
/// as a Black Magic Debug probe.
pub proof fn law_ids_identify_platform(p: BmpPlatform, mode: DfuOperatingMode)
    ensures
        spec_from_vid_pid(spec_ids_for_mode(p, mode).0, spec_ids_for_mode(p, mode).1) == Some(
            (
                if mode == DfuOperatingMode::Runtime {
                    BmpPlatform::BlackMagicDebug
                } else {
                    p
                },
                mode,
            ),
        ),
{
}


/// Whether an interface alt setting is a DFU interface: application-specific class, DFU
/// subclass.
pub open spec fn spec_is_dfu_alt_setting(class: u8, subclass: u8) -> bool {
    class == 0xFE && subclass == 0x01
}

/// Whether an interface alt setting is a DFU interface.
pub fn is_dfu_alt_setting(class: u8, subclass: u8) -> (r: bool)
    ensures
        r == spec_is_dfu_alt_setting(class, subclass),
{
    crate::usb::InterfaceClass(class) == crate::usb::InterfaceClass::application_specific() && crate::usb::InterfaceSubClass(
        subclass,
    ) == crate::usb::InterfaceSubClass::dfu()
}

/// Whether an interface, given by the class and subclass of each of its alt settings, is a
/// DFU interface: one of its alt settings is.
pub open spec fn spec_is_dfu_interface(alt_settings: Seq<(u8, u8)>) -> bool {
    exists|k: int| 0 <= k < alt_settings.len() && spec_is_dfu_alt_setting(alt_settings[k].0, alt_settings[k].1)
}

/// The first DFU interface of a configuration, whose interfaces are given by the class and
/// subclass of each of their alt settings.
pub fn find_dfu_interface(interfaces: &[Vec<(u8, u8)>]) -> (r: Option<usize>)
    ensures
        match r {
            Some(i) => i < interfaces@.len() && spec_is_dfu_interface(interfaces@[i as int]@) && forall|j: int|
                0 <= j < i ==> !spec_is_dfu_interface(#[trigger] interfaces@[j]@),
            None => forall|j: int| 0 <= j < interfaces@.len() ==> !spec_is_dfu_interface(#[trigger] interfaces@[j]@),
        },
{
    let mut i: usize = 0;
    while i < interfaces.len()
        invariant
            i <= interfaces@.len(),
            forall|j: int| 0 <= j < i ==> !spec_is_dfu_interface(#[trigger] interfaces@[j]@),
        decreases interfaces@.len() - i,
    {
        let alts = &interfaces[i];
        assert(alts@ == interfaces@[i as int]@);
        let mut k: usize = 0;
        while k < alts.len()
            invariant
                k <= alts@.len(),
                i < interfaces@.len(),
                alts@ == interfaces@[i as int]@,
                forall|j: int| 0 <= j < i ==> !spec_is_dfu_interface(#[trigger] interfaces@[j]@),
                forall|m: int| 0 <= m < k ==> !spec_is_dfu_alt_setting(#[trigger] alts@[m].0, alts@[m].1),
            decreases alts@.len() - k,
        {
            let (class, subclass) = alts[k];
            if is_dfu_alt_setting(class, subclass) {
                assert(spec_is_dfu_alt_setting(alts@[k as int].0, alts@[k as int].1));
                return Some(i);
            }
            k = k + 1;
        }
        i = i + 1;
    }
    None
}

/// Whether the first descriptor of type DFU functional in a chain comes at `f`, after
/// descriptors long enough to have a type.
pub open spec fn is_first_functional(chain: Seq<Seq<u8>>, f: int) -> bool {
    &&& 0 <= f < chain.len()
    &&& chain[f].len() > 1 && chain[f][1] == DfuFunctionalDescriptor::TYPE
    &&& forall|j: int| 0 <= j < f ==> (#[trigger] chain[j]).len() > 1 && chain[j][1] != DfuFunctionalDescriptor::TYPE
}

/// Whether the extra descriptors of a DFU interface hold a DFU functional descriptor that the
/// search can read: a well-formed chain whose first descriptor of that type comes after
/// descriptors long enough to have a type, and is long enough itself.
pub open spec fn functional_descriptor_present(extra: Seq<u8>) -> bool {
    &&& crate::usb::descriptor_chain_ok(extra)
    &&& exists|f: int| is_first_functional(crate::usb::descriptor_chain(extra), f) && crate::usb::descriptor_chain(extra)[f].len() >= 9
}

/// The position of the first descriptor of type DFU functional in a chain.
pub open spec fn first_functional(chain: Seq<Seq<u8>>) -> int {
    choose|f: int| is_first_functional(chain, f)
}

/// The DFU functional descriptor among the extra descriptors of a DFU interface: the first
/// descriptor of its type, decoded.
pub open spec fn spec_functional_descriptor(extra: Seq<u8>) -> Result<DfuFunctionalDescriptor, DescriptorConvertError> {
    let chain = crate::usb::descriptor_chain(extra);
    crate::usb::spec_dfu_functional_descriptor(chain[first_functional(chain)].subrange(0, 9))
}

/// Finds and decodes the DFU functional descriptor among the extra descriptors of a DFU
/// interface (see [`spec_functional_descriptor`]).
pub fn dfu_functional_descriptor(extra: &[u8]) -> (r: Result<DfuFunctionalDescriptor, DescriptorConvertError>)
    requires
        functional_descriptor_present(extra@),
    ensures
        r == spec_functional_descriptor(extra@),
{
    let descriptors = GenericDescriptorRef::multiple_from_bytes(extra);
    let ghost chain = crate::usb::descriptor_chain(extra@);
    let ghost f = choose|f: int| is_first_functional(chain, f) && chain[f].len() >= 9;
    proof {
        assert(is_first_functional(chain, f));
        let g = first_functional(chain);
        if g < f {
            assert(chain[g][1] != DfuFunctionalDescriptor::TYPE);
        }
        if f < g {
            assert(chain[f][1] != DfuFunctionalDescriptor::TYPE);
        }
        assert(g == f);
    }
    let mut i: usize = 0;
    while i < descriptors.len()
        invariant
            i <= f,
            descriptors@.len() == chain.len(),
            forall|k: int| 0 <= k < descriptors@.len() ==> (#[trigger] descriptors@[k]).raw@ == chain[k],
            is_first_functional(chain, f),
            chain[f].len() >= 9,
            chain == crate::usb::descriptor_chain(extra@),
            first_functional(chain) == f,
        decreases f - i,
    {
        let d = &descriptors[i];
        assert(d.raw@ == chain[i as int]);
        if d.descriptor_type() == DfuFunctionalDescriptor::TYPE {
            assert(i as int == f);
            let raw = d.raw;
            let bytes: [u8; 9] = [raw[0], raw[1], raw[2], raw[3], raw[4], raw[5], raw[6], raw[7], raw[8]];
            assert(bytes@ =~= chain[f].subrange(0, 9));
            assert(spec_functional_descriptor(extra@) == crate::usb::spec_dfu_functional_descriptor(bytes@));
            return DfuFunctionalDescriptor::copy_from_bytes(&bytes);
        }
        i = i + 1;
    }
    assert(false);
    Err(DescriptorConvertError::LengthFieldMismatch { provided_length: 0, correct_length: 0 })
}

/// Whether the extra descriptors of a DFU interface hold a DFU functional descriptor that
/// [`dfu_functional_descriptor`] can read (see [`functional_descriptor_present`]).
pub fn has_functional_descriptor(extra: &[u8]) -> (r: bool)
    ensures
        r == functional_descriptor_present(extra@),
{
    if !crate::usb::is_descriptor_chain(extra) {
        return false;
    }
    let descriptors = GenericDescriptorRef::multiple_from_bytes(extra);
    let ghost chain = crate::usb::descriptor_chain(extra@);
    let mut i: usize = 0;
    while i < descriptors.len()
        invariant
            i <= descriptors@.len(),
            descriptors@.len() == chain.len(),
            forall|k: int| 0 <= k < descriptors@.len() ==> (#[trigger] descriptors@[k]).raw@ == chain[k],
            chain == crate::usb::descriptor_chain(extra@),
            crate::usb::descriptor_chain_ok(extra@),
            forall|j: int| 0 <= j < i ==> (#[trigger] chain[j]).len() > 1 && chain[j][1] != DfuFunctionalDescriptor::TYPE,
        decreases descriptors@.len() - i,
    {
        let d = &descriptors[i];
        assert(d.raw@ == chain[i as int]);
        if d.raw.len() < 2 {
            proof {
                assert forall|f: int| !(is_first_functional(chain, f) && chain[f].len() >= 9) by {
                    if is_first_functional(chain, f) && f > i {
                        assert(chain[i as int].len() > 1);
                    }
                }
            }
            return false;
        }
        if d.descriptor_type() == DfuFunctionalDescriptor::TYPE {
            proof {
                assert(is_first_functional(chain, i as int));
                assert forall|f: int| is_first_functional(chain, f) implies f == i by {
                    if f > i {
                        assert(chain[i as int][1] != DfuFunctionalDescriptor::TYPE);
                    }
                    if f < i {
                        assert(chain[f][1] != DfuFunctionalDescriptor::TYPE);
                    }
                }
            }
            return d.raw.len() >= 9;
        }
        i = i + 1;
    }
    proof {
        assert forall|f: int| !(is_first_functional(chain, f) && chain[f].len() >= 9) by {
            if is_first_functional(chain, f) {
                assert(chain[f][1] != DfuFunctionalDescriptor::TYPE);
            }
        }
    }
    false
}

/// Finds and decodes the DFU functional descriptor among the extra descriptors of a DFU
/// interface where they hold one that can be read; `None` where they do not.
pub fn find_functional_descriptor(extra: &[u8]) -> (r: Option<Result<DfuFunctionalDescriptor, DescriptorConvertError>>)
    ensures
        match r {
            Some(d) => functional_descriptor_present(extra@) && d == spec_functional_descriptor(extra@),
            None => !functional_descriptor_present(extra@),
        },
{
    if has_functional_descriptor(extra) {
        Some(dfu_functional_descriptor(extra))
    } else {
        None
    }
}

/// A DFU class control request to an interface.
#[derive(Debug, Clone, Copy, PartialEq, Eq, Structural)]
pub struct DfuControlRequest {
    pub request: DfuRequest,
    pub value: u16,
    pub index: u16,
}

/// The control requests that make a probe detach: in runtime mode a `DFU_DETACH` carrying the
/// detach timeout, to the DFU interface; in DFU mode a zero-length `DFU_DNLOAD` and then a
/// `DFU_GETSTATUS` to the DFU interface, to leave DFU mode.
pub open spec fn spec_detach_requests(mode: DfuOperatingMode, iface_number: u8, detach_timeout: u16) -> Seq<
    DfuControlRequest,
> {
    match mode {
        DfuOperatingMode::Runtime => seq![
            DfuControlRequest { request: DfuRequest::Detach, value: detach_timeout, index: iface_number as u16 },
        ],
        DfuOperatingMode::FirmwareUpgrade => seq![
            DfuControlRequest { request: DfuRequest::Dnload, value: 0, index: 0 },
            DfuControlRequest { request: DfuRequest::GetStatus, value: 0, index: iface_number as u16 },
        ],
    }
}

/// The control requests that make a probe in `mode` detach (see [`spec_detach_requests`]).
pub fn detach_requests(mode: DfuOperatingMode, iface_number: u8, func_desc: &DfuFunctionalDescriptor) -> (r: Vec<
    DfuControlRequest,
>)
    ensures
        r@ == spec_detach_requests(mode, iface_number, func_desc.wDetachTimeOut),
{
    match mode {
        DfuOperatingMode::Runtime => vec![
            DfuControlRequest { request: DfuRequest::Detach, value: func_desc.wDetachTimeOut, index: iface_number as u16 },
        ],
        DfuOperatingMode::FirmwareUpgrade => vec![
            DfuControlRequest { request: DfuRequest::Dnload, value: 0, index: 0 },
            DfuControlRequest { request: DfuRequest::GetStatus, value: 0, index: iface_number as u16 },
        ],
    }
}

/// A probe shown to the user: its identity, then its serial number and port on lines of their
/// own.
pub fn display_text(identity: &str, serial: &str, port: &PortId) -> (r: String)
    ensures
        r@ == identity@ + "\n  Serial: "@ + serial@ + "\n  Port:  "@ + crate::usb::port_text(*port),
{
    let mut r = identity.to_owned();
    crate::text::string_extend_str(&mut r, "\n  Serial: ");
    crate::text::string_extend_str(&mut r, serial);
    crate::text::string_extend_str(&mut r, "\n  Port:  ");
    let p = port.to_string();
    crate::text::string_extend_str(&mut r, p.as_str());
    r
}

} // verus!
