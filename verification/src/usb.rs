//! USB identifiers and the DFU class descriptors a Black Magic Probe exposes.
use vstd::prelude::*;

use crate::text::{push_decimal, string_extend_str};

verus! {

/// Simple newtype struct for some clarity in function arguments and whatnot.
#[derive(Debug, Copy, Clone, PartialEq, Eq, PartialOrd, Ord, Structural)]
pub struct Vid(pub u16);

/// Simple newtype struct for some clarity in function arguments and whatnot.
#[derive(Debug, Copy, Clone, PartialEq, Eq, PartialOrd, Ord, Structural)]
pub struct Pid(pub u16);

/// Simple newtype struct for some clarity in function arguments and whatnot.
#[derive(Debug, Copy, Clone, PartialEq, Eq, PartialOrd, Ord, Structural)]
pub struct InterfaceClass(pub u8);

impl InterfaceClass {
    /// bInterfaceClass field in DFU-class interface descriptors.
    pub fn application_specific() -> (r: Self)
        ensures
            r.0 == 0xFE,
    {
        InterfaceClass(0xFE)
    }
}

/// Simple newtype struct for some clarity in function arguments and whatnot.
#[derive(Debug, Copy, Clone, PartialEq, Eq, PartialOrd, Ord, Structural)]
pub struct InterfaceSubClass(pub u8);

impl InterfaceSubClass {
    /// bInterfaceSubClass field in DFU-class interface descriptors.
    pub fn dfu() -> (r: Self)
        ensures
            r.0 == 0x01,
    {
        InterfaceSubClass(0x01)
    }
}

/// Simple newtype struct for some clarity in function arguments and whatnot.
#[derive(Debug, Copy, Clone, PartialEq, Eq, PartialOrd, Ord, Structural)]
pub struct InterfaceProtocol(pub u8);

impl InterfaceProtocol {
    /// bInterfaceProtocol field in DFU-class interface descriptors while in runtime mode.
    pub fn dfu_runtime_mode() -> (r: Self)
        ensures
            r.0 == 0x01,
    {
        InterfaceProtocol(0x01)
    }

    /// bInterfaceProtocol field in DFU-class interface descriptors while in DFU mode.
    pub fn dfu_dfu_mode() -> (r: Self)
        ensures
            r.0 == 0x02,
    {
        InterfaceProtocol(0x02)
    }
}

/// Enum of request numbers for DFU class requests.
#[derive(Debug, Copy, Clone, PartialEq, Eq, PartialOrd, Ord, Structural)]
pub enum DfuRequest {
    Detach,
    Dnload,
    Upload,
    GetStatus,
    ClrStatus,
    GetState,
    Abort,
}

/// The bRequest number of a DFU class request.
pub open spec fn dfu_request_code(r: DfuRequest) -> u8 {
    match r {
        DfuRequest::Detach => 0,
        DfuRequest::Dnload => 1,
        DfuRequest::Upload => 2,
        DfuRequest::GetStatus => 3,
        DfuRequest::ClrStatus => 4,
        DfuRequest::GetState => 5,
        DfuRequest::Abort => 6,
    }
}

impl DfuRequest {
    /// The bRequest number of this request.
    pub fn code(&self) -> (r: u8)
        ensures
            r == dfu_request_code(*self),
    {
        match self {
            DfuRequest::Detach => 0,
            DfuRequest::Dnload => 1,
            DfuRequest::Upload => 2,
            DfuRequest::GetStatus => 3,
            DfuRequest::ClrStatus => 4,
            DfuRequest::GetState => 5,
            DfuRequest::Abort => 6,
        }
    }
}

/// Enum representing the two "modes" a DFU-class device can be in.
///
/// Runtime mode is the normal operation mode; DFU mode is the limited operating mode used for
/// firmware upgrades only, which devices switch into at the host's request.
#[derive(Debug, Copy, Clone, PartialEq, Eq, Hash, Structural)]
pub enum DfuOperatingMode {
    Runtime,
    FirmwareUpgrade,
}

/// A USB descriptor in a buffer of descriptors: its bytes, starting with the length byte.
#[derive(Debug, Clone, PartialEq, Eq, Hash)]
pub struct GenericDescriptorRef<'a> {
    pub raw: &'a [u8],
}

/// Whether `s` is a well-formed chain of descriptors: each starts with a non-zero length that
/// fits in what is left, and what is left after one is either nothing or more than two bytes.
pub open spec fn descriptor_chain_ok(s: Seq<u8>) -> bool
    decreases s.len(),
{
    if s.len() == 0 || s[0] == 0 || s[0] > s.len() {
        false
    } else if s.len() - s[0] == 0 {
        true
    } else {
        s.len() - s[0] > 2 && descriptor_chain_ok(s.subrange(s[0] as int, s.len() as int))
    }
}

/// Whether a buffer is a well-formed chain of descriptors (see [`descriptor_chain_ok`]).
pub fn is_descriptor_chain(bytes: &[u8]) -> (r: bool)
    ensures
        r == descriptor_chain_ok(bytes@),
{
    let n = bytes.len();
    let mut pos: usize = 0;
    assert(bytes@.subrange(0, n as int) =~= bytes@);
    loop
        invariant
            n == bytes@.len(),
            pos <= n,
            descriptor_chain_ok(bytes@) == descriptor_chain_ok(bytes@.subrange(pos as int, n as int)),
        decreases n - pos,
    {
        let ghost s = bytes@.subrange(pos as int, n as int);
        let rest_len = n - pos;
        if rest_len == 0 {
            return false;
        }
        assert(s[0] == bytes@[pos as int]);
        let length = bytes[pos] as usize;
        if length == 0 || length > rest_len {
            return false;
        }
        if rest_len - length == 0 {
            return true;
        }
        if rest_len - length <= 2 {
            return false;
        }
        assert(s.subrange(length as int, s.len() as int) =~= bytes@.subrange(pos + length, n as int));
        pos = pos + length;
    }
}

/// The descriptors of a well-formed chain, in order.
pub open spec fn descriptor_chain(s: Seq<u8>) -> Seq<Seq<u8>>
    decreases s.len(),
{
    if s.len() == 0 || s[0] == 0 || s[0] > s.len() || s.len() - s[0] == 0 {
        seq![s.subrange(0, if s.len() == 0 { 0 } else { s[0] as int })]
    } else {
        seq![s.subrange(0, s[0] as int)] + descriptor_chain(s.subrange(s[0] as int, s.len() as int))
    }
}

/// All the descriptors of a chain, one after the other.
pub open spec fn concat_all(parts: Seq<Seq<u8>>) -> Seq<u8>
    decreases parts.len(),
{
    if parts.len() == 0 {
        Seq::empty()
    } else {
        parts[0] + concat_all(parts.drop_first())
    }
}

impl<'a> GenericDescriptorRef<'a> {
    /// Returns the first descriptor found.
    pub fn single_from_bytes(bytes: &'a [u8]) -> (r: Self)
        requires
            bytes@.len() > 0,
            bytes@[0] <= bytes@.len(),
        ensures
            r.raw@ == bytes@.subrange(0, bytes@[0] as int),
    {
        let length = bytes[0] as usize;
        GenericDescriptorRef { raw: &bytes[0..length] }
    }

    /// Splits a buffer into the descriptors it holds.
    pub fn multiple_from_bytes(bytes: &'a [u8]) -> (r: Vec<Self>)
        requires
            descriptor_chain_ok(bytes@),
        ensures
            r@.len() == descriptor_chain(bytes@).len(),
            forall|i: int| 0 <= i < r@.len() ==> (#[trigger] r@[i]).raw@ == descriptor_chain(bytes@)[i],
    {
        let mut v: Vec<Self> = Vec::new();
        let mut current: &'a [u8] = bytes;
        loop
            invariant_except_break
                descriptor_chain(bytes@) == v@.map_values(|d: GenericDescriptorRef<'a>| d.raw@)
                    + descriptor_chain(current@),
            invariant
                descriptor_chain_ok(current@),
            ensures
                descriptor_chain(bytes@) == v@.map_values(|d: GenericDescriptorRef<'a>| d.raw@),
            decreases current@.len(),
        {
            let descriptor = Self::single_from_bytes(current);
            let parsed_count = descriptor.length_usize();
            let remaining = current.len() - parsed_count;
            let ghost before = v@;
            v.push(descriptor);
            assert(v@.map_values(|d: GenericDescriptorRef<'a>| d.raw@) =~= before.map_values(
                |d: GenericDescriptorRef<'a>| d.raw@,
            ).push(descriptor.raw@));
            if remaining == 0 {
                assert(descriptor_chain(current@) == seq![current@.subrange(0, current@[0] as int)]);
                assert(descriptor_chain(bytes@) =~= v@.map_values(|d: GenericDescriptorRef<'a>| d.raw@));
                break;
            }
            let ghost old_current = current@;
            current = &current[parsed_count..current.len()];
            assert(descriptor_chain(old_current) == seq![old_current.subrange(0, old_current[0] as int)]
                + descriptor_chain(current@));
        }
        proof {
            let views = v@.map_values(|d: GenericDescriptorRef<'a>| d.raw@);
            assert forall|i: int| 0 <= i < v@.len() implies (#[trigger] v@[i]).raw@ == descriptor_chain(
                bytes@,
            )[i] by {
                assert(views[i] == v@[i].raw@);
            }
        }
        v
    }

    /// The descriptor's bLength field.
    pub fn length(&self) -> (r: u8)
        requires
            self.raw@.len() > 0,
        ensures
            r == self.raw@[0],
    {
        self.raw[0]
    }

    /// The descriptor's bLength field as a `usize`.
    pub fn length_usize(&self) -> (r: usize)
        requires
            self.raw@.len() > 0,
        ensures
            r == self.raw@[0],
    {
        self.raw[0] as usize
    }

    /// The descriptor's bDescriptorType field.
    pub fn descriptor_type(&self) -> (r: u8)
        requires
            self.raw@.len() > 1,
        ensures
            r == self.raw@[1],
    {
        self.raw[1]
    }
}

/// The descriptors of a well-formed chain, put back together, are the bytes they came from.
pub proof fn law_descriptor_chain_tiles(s: Seq<u8>)
    requires
        descriptor_chain_ok(s),
    ensures
        concat_all(descriptor_chain(s)) == s,
        forall|i: int| 0 <= i < descriptor_chain(s).len() ==> (#[trigger] descriptor_chain(s)[i]).len() > 0,
    decreases s.len(),
{
    let first = s.subrange(0, s[0] as int);
    if s.len() - s[0] == 0 {
        let c = descriptor_chain(s);
        assert(c.drop_first() =~= Seq::<Seq<u8>>::empty());
        assert(concat_all(c.drop_first()) =~= Seq::<u8>::empty());
        assert(first =~= s);
        assert(concat_all(c) =~= first + Seq::<u8>::empty());
    } else {
        let rest = s.subrange(s[0] as int, s.len() as int);
        law_descriptor_chain_tiles(rest);
        let c = descriptor_chain(s);
        assert(c =~= seq![first] + descriptor_chain(rest));
        assert(c.drop_first() =~= descriptor_chain(rest));
        assert(concat_all(c) == first + concat_all(descriptor_chain(rest)));
        assert(first + rest =~= s);
        assert forall|i: int| 0 <= i < c.len() implies (#[trigger] c[i]).len() > 0 by {
            if i > 0 {
                assert(c[i] == descriptor_chain(rest)[i - 1]);
            }
        }
    }
}

/// Why a byte buffer is not a descriptor of the expected type.
#[derive(Debug, Clone, PartialEq, Eq, Hash, Structural)]
pub enum DescriptorConvertError {
    LengthFieldMismatch { provided_length: u8, correct_length: u8 },
    DescriptorTypeMismatch { provided_type: u8, correct_type: u8 },
}

/// The message for a descriptor that does not convert.
pub open spec fn descriptor_error_text(e: DescriptorConvertError) -> Seq<char> {
    match e {
        DescriptorConvertError::LengthFieldMismatch { provided_length, correct_length } => "bLength field ("@
            + crate::text::decimal_digits(provided_length as nat)
            + ") in provided data does not match the correct value("@
            + crate::text::decimal_digits(correct_length as nat) + ") for this descriptor type"@,
        DescriptorConvertError::DescriptorTypeMismatch { provided_type, correct_type } => "bDescriptorType field ("@
            + crate::text::decimal_digits(provided_type as nat)
            + ") in provided data does not match the correctvalue ("@
            + crate::text::decimal_digits(correct_type as nat) + ") for this descriptor type"@,
    }
}

impl DescriptorConvertError {
    /// The message for this error.
    pub fn to_string(&self) -> (r: String)
        ensures
            r@ == descriptor_error_text(*self),
    {
        match self {
            DescriptorConvertError::LengthFieldMismatch { provided_length, correct_length } => {
                let mut r = "bLength field (".to_owned();
                push_decimal(&mut r, *provided_length as usize);
                string_extend_str(&mut r, ") in provided data does not match the correct value(");
                push_decimal(&mut r, *correct_length as usize);
                string_extend_str(&mut r, ") for this descriptor type");
                r
            },
            DescriptorConvertError::DescriptorTypeMismatch { provided_type, correct_type } => {
                let mut r = "bDescriptorType field (".to_owned();
                push_decimal(&mut r, *provided_type as usize);
                string_extend_str(&mut r, ") in provided data does not match the correctvalue (");
                push_decimal(&mut r, *correct_type as usize);
                string_extend_str(&mut r, ") for this descriptor type");
                r
            },
        }
    }
}

/// Structure of the DFU-class functional descriptor.
#[allow(non_snake_case)]
#[derive(Debug, Clone, PartialEq, Eq, Hash, Structural)]
pub struct DfuFunctionalDescriptor {
    pub bLength: u8,
    pub bDescriptorType: u8,
    pub bmAttributes: u8,
    pub wDetachTimeOut: u16,
    pub wTransferSize: u16,
    pub bcdDFUVersion: u16,
}

/// A little-endian 16-bit value from its two bytes.
pub open spec fn le16(lo: u8, hi: u8) -> u16 {
    (lo as nat + hi as nat * 256) as u16
}

/// What a DFU functional descriptor buffer decodes to.
pub open spec fn spec_dfu_functional_descriptor(b: Seq<u8>) -> Result<
    DfuFunctionalDescriptor,
    DescriptorConvertError,
> {
    if b[0] != 0x09 {
        Err(DescriptorConvertError::LengthFieldMismatch { provided_length: b[0], correct_length: 0x09 })
    } else if b[1] != 0x21 {
        Err(DescriptorConvertError::DescriptorTypeMismatch { provided_type: b[1], correct_type: 0x21 })
    } else {
        Ok(
            DfuFunctionalDescriptor {
                bLength: b[0],
                bDescriptorType: b[1],
                bmAttributes: b[2],
                wDetachTimeOut: le16(b[3], b[4]),
                wTransferSize: le16(b[5], b[6]),
                bcdDFUVersion: le16(b[7], b[8]),
            },
        )
    }
}

/// Reads a little-endian 16-bit value.
fn read_le16(lo: u8, hi: u8) -> (r: u16)
    ensures
        r == le16(lo, hi),
{
    (lo as u16) + (hi as u16) * 256
}

impl DfuFunctionalDescriptor {
    pub const LENGTH: u8 = 0x09;

    pub const TYPE: u8 = 0x21;

    /// Constructs a [DfuFunctionalDescriptor] from a byte slice, via per-field copy.
    pub fn copy_from_bytes(bytes: &[u8; 9]) -> (r: Result<Self, DescriptorConvertError>)
        ensures
            r == spec_dfu_functional_descriptor(bytes@),
    {
        if bytes[0] != Self::LENGTH {
            return Err(
                DescriptorConvertError::LengthFieldMismatch {
                    provided_length: bytes[0],
                    correct_length: Self::LENGTH,
                },
            );
        }
        if bytes[1] != Self::TYPE {
            return Err(
                DescriptorConvertError::DescriptorTypeMismatch {
                    provided_type: bytes[1],
                    correct_type: Self::TYPE,
                },
            );
        }
        Ok(
            DfuFunctionalDescriptor {
                bLength: bytes[0],
                bDescriptorType: bytes[1],
                bmAttributes: bytes[2],
                wDetachTimeOut: read_le16(bytes[3], bytes[4]),
                wTransferSize: read_le16(bytes[5], bytes[6]),
                bcdDFUVersion: read_le16(bytes[7], bytes[8]),
            },
        )
    }
}

/// What `std::path::Path::file_name` returns for the path with the given characters: its
/// final component, if that is a normal file name.
pub uninterp spec fn spec_path_file_name(path: Seq<char>) -> Option<Seq<char>>;

/// `std::path::Path::file_name` on a UTF-8 path; the name of a UTF-8 path is UTF-8, so it
/// converts to a `String` whole. Which characters separate components depends on the target, so
/// the named result is fixed for each target.
#[verifier::external_body]
fn path_file_name(path: &str) -> (r: Option<String>)
    ensures
        match r {
            Some(n) => spec_path_file_name(path@) == Some(n@),
            None => spec_path_file_name(path@) is None,
        },
{
    std::path::Path::new(path).file_name().map(|name| name.to_string_lossy().into_owned())
}

/// How a port is shown: by the last component of its path.
pub open spec fn port_text(p: PortId) -> Seq<char> {
    match spec_path_file_name(p.path_view()) {
        Some(n) => n,
        None => "Invalid PortId (bad path)"@,
    }
}

/// Abstraction of a USB device's location on the host system.
#[derive(Debug, Eq, PartialEq, Clone)]
pub struct PortId {
    bus_number: u8,
    path: String,
}

impl PortId {
    /// A port from the bus number and the device's system path.
    pub fn new(bus_number: u8, path: String) -> (r: Self)
        ensures
            r.bus_number() == bus_number,
            r.path_view() == path@,
    {
        PortId { bus_number, path }
    }

    /// The bus number.
    pub closed spec fn bus_number(&self) -> u8 {
        self.bus_number
    }

    /// The device's system path.
    pub closed spec fn path_view(&self) -> Seq<char> {
        self.path@
    }

    /// A second port equal to this one.
    pub fn duplicate(&self) -> (r: Self)
        ensures
            r.bus_number() == self.bus_number(),
            r.path_view() == self.path_view(),
    {
        PortId { bus_number: self.bus_number, path: self.path.clone() }
    }

    /// Whether two ports are the same: same bus and same path.
    pub fn eq(&self, other: &Self) -> (r: bool)
        ensures
            r == (self.bus_number() == other.bus_number() && self.path_view() == other.path_view()),
    {
        self.bus_number == other.bus_number && self.path == other.path
    }

    /// Shows the port by the last component of its path.
    pub fn to_string(&self) -> (r: String)
        ensures
            r@ == port_text(*self),
    {
        match path_file_name(self.path.as_str()) {
            Some(n) => n,
            None => "Invalid PortId (bad path)".to_owned(),
        }
    }
}

} // verus!
