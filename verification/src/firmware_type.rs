//! Telling a bootloader image from an application image, by its load address or by the reset
//! vector in the Armv7-M vector table at its front.
use vstd::prelude::*;

use crate::bmp::BmpPlatform;
use crate::firmware_file::FirmwareFile;
use crate::text::{push_hex_fixed, string_extend_str};

verus! {

#[verifier::external_type_specification]
#[verifier::external_body]
pub struct ExTryFromSliceError(std::array::TryFromSliceError);

/// The little-endian 32-bit word made of four bytes.
pub open spec fn le32(b0: u8, b1: u8, b2: u8, b3: u8) -> u32 {
    (b0 + b1 * 0x100 + b2 * 0x1_0000 + b3 * 0x100_0000) as u32
}

/// The little-endian word at word index `index` of `bytes`.
pub open spec fn word_at(bytes: Seq<u8>, index: int) -> u32 {
    le32(bytes[4 * index], bytes[4 * index + 1], bytes[4 * index + 2], bytes[4 * index + 3])
}

/// Represents a conceptual Vector Table for Armv7 processors.
pub struct Armv7mVectorTable<'b> {
    bytes: &'b [u8],
}

impl<'b> View for Armv7mVectorTable<'b> {
    type V = Seq<u8>;

    closed spec fn view(&self) -> Seq<u8> {
        self.bytes@
    }
}

impl<'b> Armv7mVectorTable<'b> {
    /// The little-endian word at word index `index`.
    fn word(&self, index: usize) -> (r: Result<u32, std::array::TryFromSliceError>)
        requires
            4 * index + 4 <= self@.len(),
        ensures
            r == Ok::<u32, std::array::TryFromSliceError>(word_at(self@, index as int)),
    {
        let b = self.bytes;
        let n = b.len();
        assert(4 * index + 4 <= n);
        let start = index * 4;
        let v: u32 = b[start] as u32 + b[start + 1] as u32 * 0x100 + b[start + 2] as u32 * 0x1_0000 + b[start + 3] as u32
            * 0x100_0000;
        Ok(v)
    }

    /// Construct a conceptual Armv7m Vector Table from a bytes slice.
    pub fn from_bytes(bytes: &'b [u8]) -> (r: Self)
        requires
            bytes@.len() >= 4 * 2,
        ensures
            r@ == bytes@,
    {
        Armv7mVectorTable { bytes }
    }

    /// The initial stack pointer: the table's first word.
    pub fn stack_pointer(&self) -> (r: Result<u32, std::array::TryFromSliceError>)
        requires
            self@.len() >= 8,
        ensures
            r == Ok::<u32, std::array::TryFromSliceError>(word_at(self@, 0)),
    {
        self.word(0)
    }

    /// The reset vector: the table's second word.
    pub fn reset_vector(&self) -> (r: Result<u32, std::array::TryFromSliceError>)
        requires
            self@.len() >= 8,
        ensures
            r == Ok::<u32, std::array::TryFromSliceError>(word_at(self@, 1)),
    {
        self.word(1)
    }

    /// The vector of an exception: the word after the one numbered `exception_number`.
    pub fn exception(&self, exception_number: u32) -> (r: Result<u32, std::array::TryFromSliceError>)
        requires
            exception_number < u32::MAX,
            4 * (exception_number + 1) + 4 <= self@.len(),
        ensures
            r == Ok::<u32, std::array::TryFromSliceError>(word_at(self@, exception_number + 1)),
    {
        self.word((exception_number + 1) as usize)
    }
}

/// Firmware types for the Black Magic Probe.
#[derive(Debug, Copy, Clone, PartialEq, Eq, Hash, Structural)]
pub enum FirmwareType {
    /// The bootloader. For native probes this is linked at 0x0800_0000
    Bootloader,
    /// The main application. For native probes this is linked at 0x0800_2000.
    Application,
}

/// The name of a firmware type.
pub open spec fn firmware_type_text(t: FirmwareType) -> Seq<char> {
    match t {
        FirmwareType::Bootloader => "bootloader"@,
        FirmwareType::Application => "application"@,
    }
}

/// Why the type of a firmware image could not be told.
#[derive(Debug, Clone, Copy, PartialEq, Eq, Structural)]
pub enum FirmwareTypeError {
    /// The image's reset vector does not point into Flash.
    ResetVectorOutOfBounds(u32),
}

/// The message for this error.
pub open spec fn firmware_type_error_text(e: FirmwareTypeError) -> Seq<char> {
    match e {
        FirmwareTypeError::ResetVectorOutOfBounds(v) =>
            "Firmware file does not seem valid: reset vector address seems to be outside of reasonable bounds - 0x"@
                + crate::text::hex_digits_fixed(v as nat, 8),
    }
}

impl FirmwareTypeError {
    /// The message for this error.
    pub fn to_string(&self) -> (r: String)
        ensures
            r@ == firmware_type_error_text(*self),
    {
        match self {
            FirmwareTypeError::ResetVectorOutOfBounds(v) => {
                let mut r = String::new();
                string_extend_str(
                    &mut r,
                    "Firmware file does not seem valid: reset vector address seems to be outside of reasonable bounds - 0x",
                );
                push_hex_fixed(&mut r, *v as u64, 8);
                r
            },
        }
    }
}

/// The type of an image with no known load address, from the reset vector at the front of its
/// vector table: it must point into Flash (bit 27 set), and it names the application when it
/// lies past the application's load address.
pub open spec fn spec_type_from_image(platform: BmpPlatform, image: Seq<u8>) -> Result<FirmwareType, FirmwareTypeError> {
    let reset_vector = word_at(image, 1);
    if (reset_vector & 0x0800_0000) != 0x0800_0000 {
        Err(FirmwareTypeError::ResetVectorOutOfBounds(reset_vector))
    } else if reset_vector > crate::bmp::spec_platform_load_address(platform, FirmwareType::Application) {
        Ok(FirmwareType::Application)
    } else {
        Ok(FirmwareType::Bootloader)
    }
}

/// The type of firmware with the given load address and image: where the file says where it
/// loads, the bootloader is firmware loading at the platform's bootloader address; otherwise
/// the image's reset vector decides.
pub open spec fn spec_detect_firmware_type(platform: BmpPlatform, load_address: Option<u32>, image: Seq<u8>) -> Result<
    FirmwareType,
    FirmwareTypeError,
> {
    match load_address {
        Some(a) => Ok(
            if a == crate::bmp::spec_platform_load_address(platform, FirmwareType::Bootloader) {
                FirmwareType::Bootloader
            } else {
                FirmwareType::Application
            },
        ),
        None => spec_type_from_image(platform, image),
    }
}

/// Where a firmware file says where it loads, it is a bootloader exactly when it loads at the
/// platform's bootloader address, and otherwise an application; in particular a file loading at
/// the platform's application address, where that differs, is an application.
pub proof fn law_load_address_decides_firmware_type(platform: BmpPlatform, a: u32, image: Seq<u8>)
    ensures
        spec_detect_firmware_type(platform, Some(a), image) is Ok,
        spec_detect_firmware_type(platform, Some(a), image) == Ok::<FirmwareType, FirmwareTypeError>(
            FirmwareType::Bootloader,
        ) <==> a == crate::bmp::spec_platform_load_address(platform, FirmwareType::Bootloader),
        a == crate::bmp::spec_platform_load_address(platform, FirmwareType::Application) && a
            != crate::bmp::spec_platform_load_address(platform, FirmwareType::Bootloader)
            ==> spec_detect_firmware_type(platform, Some(a), image) == Ok::<FirmwareType, FirmwareTypeError>(
            FirmwareType::Application,
        ),
{
}

impl FirmwareType {
    /// The name of this firmware type.
    pub fn to_string(&self) -> (r: String)
        ensures
            r@ == firmware_type_text(*self),
    {
        match self {
            FirmwareType::Bootloader => "bootloader".to_owned(),
            FirmwareType::Application => "application".to_owned(),
        }
    }

    /// Detect the kind of firmware from an image with no known load address, by examining the
    /// reset vector address at its front.
    pub fn detect_from_image(platform: BmpPlatform, firmware: &[u8]) -> (r: Result<Self, FirmwareTypeError>)
        requires
            firmware@.len() >= 4 * 2,
        ensures
            r == spec_type_from_image(platform, firmware@),
    {
        let buffer = &firmware[0..(4 * 2)];
        let vector_table = Armv7mVectorTable::from_bytes(buffer);
        let reset_vector = match vector_table.reset_vector() {
            Ok(v) => v,
            Err(_) => {
                assert(false);
                0
            },
        };
        assert(word_at(buffer@, 1) == word_at(firmware@, 1));
        if (reset_vector & 0x0800_0000) != 0x0800_0000 {
            return Err(FirmwareTypeError::ResetVectorOutOfBounds(reset_vector));
        }
        let app_start = platform.load_address(FirmwareType::Application);
        if reset_vector > app_start {
            Ok(FirmwareType::Application)
        } else {
            Ok(FirmwareType::Bootloader)
        }
    }

    /// Detect the kind of firmware in a firmware file: by its load address where the file gives
    /// one, else by the reset vector at the front of its image.
    pub fn detect_from_firmware(platform: BmpPlatform, firmware_file: &FirmwareFile) -> (r: Result<
        Self,
        FirmwareTypeError,
    >)
        requires
            firmware_file@.load_address is None ==> firmware_file@.data.len() >= 4 * 2,
        ensures
            r == spec_detect_firmware_type(platform, firmware_file@.load_address, firmware_file@.data),
            firmware_file@.load_address matches Some(a) ==> r is Ok && (r == Ok::<Self, FirmwareTypeError>(
                FirmwareType::Bootloader,
            ) <==> a == crate::bmp::spec_platform_load_address(platform, FirmwareType::Bootloader)),
    {
        if let Some(load_address) = firmware_file.load_address() {
            let boot_start = platform.load_address(FirmwareType::Bootloader);
            return Ok(
                if load_address == boot_start {
                    FirmwareType::Bootloader
                } else {
                    FirmwareType::Application
                },
            );
        }
        FirmwareType::detect_from_image(platform, firmware_file.data())
    }
}

/// Defaults to [`FirmwareType::Application`].
impl Default for FirmwareType {
    fn default() -> (r: Self)
        ensures
            r == FirmwareType::Application,
    {
        FirmwareType::Application
    }
}

/// The type to flash firmware as: the detected type unless another is asked for, which is
/// only done where dangerous options are allowed; otherwise the request is refused (`None`).
pub open spec fn spec_resolve_firmware_type(
    detected: FirmwareType,
    override_type: Option<FirmwareType>,
    allow: crate::AllowDangerous,
) -> Option<FirmwareType> {
    match override_type {
        None => Some(detected),
        Some(t) => if allow == crate::AllowDangerous::Really {
            Some(t)
        } else {
            None
        },
    }
}

/// Settles the type to flash firmware as (see [`spec_resolve_firmware_type`]).
pub fn resolve_firmware_type(
    detected: FirmwareType,
    override_type: Option<FirmwareType>,
    allow: crate::AllowDangerous,
) -> (r: Option<FirmwareType>)
    ensures
        r == spec_resolve_firmware_type(detected, override_type, allow),
{
    match override_type {
        None => Some(detected),
        Some(t) => match allow {
            crate::AllowDangerous::Really => Some(t),
            crate::AllowDangerous::Never => None,
        },
    }
}

} // verus!
