//! Firmware files in the three formats that Black Magic Probe firmware comes in, told apart by
//! their first bytes.
pub mod address_map;
pub mod elf;
pub mod ihex;
pub mod raw;

use vstd::prelude::*;

use crate::firmware_file::elf::{ELFFirmwareFile, ElfError};
use crate::firmware_file::ihex::{IntelHexError, IntelHexFirmwareFile};
use crate::firmware_file::raw::RawFirmwareFile;

verus! {

/// File formats that Black Magic Probe firmware can be in.
#[derive(Debug, Clone, Copy, PartialEq, Eq, Structural)]
pub enum FirmwareFormat {
    /// Raw binary format. Made with `objcopy -O binary`. Typical file extension: `.bin`.
    Binary,
    /// The Unix ELF executable binary format. Typical file extension: `.elf`.
    Elf,
    /// Intel HEX. Typical file extensions: `.hex`, `.ihex`.
    IntelHex,
}

/// The four bytes that open an ELF file.
pub open spec fn elf_magic() -> Seq<u8> {
    seq![0x7fu8, 0x45u8, 0x4cu8, 0x46u8]
}

/// The format of firmware whose first four bytes are `sig`: ELF for the ELF magic, Intel HEX for
/// a leading `:`, raw binary otherwise.
pub open spec fn spec_format_of_signature(sig: Seq<u8>) -> FirmwareFormat {
    if sig == elf_magic() {
        FirmwareFormat::Elf
    } else if sig[0] == 0x3a {
        FirmwareFormat::IntelHex
    } else {
        FirmwareFormat::Binary
    }
}

/// The first four bytes of a file, zero where the file is shorter.
pub open spec fn signature(contents: Seq<u8>) -> Seq<u8> {
    Seq::new(4, |i: int| if i < contents.len() { contents[i] } else { 0u8 })
}

/// Whether `s` opens with the ELF magic.
fn starts_with_elf_magic(s: &[u8]) -> (r: bool)
    requires
        s@.len() >= 4,
    ensures
        r == (s@.subrange(0, 4) == elf_magic()),
{
    let r = s[0] == 0x7f && s[1] == 0x45 && s[2] == 0x4c && s[3] == 0x46;
    assert(r ==> s@.subrange(0, 4) =~= elf_magic());
    assert(s@.subrange(0, 4) == elf_magic() ==> s@.subrange(0, 4)[0] == 0x7f && s@.subrange(0, 4)[1] == 0x45
        && s@.subrange(0, 4)[2] == 0x4c && s@.subrange(0, 4)[3] == 0x46);
    r
}

impl FirmwareFormat {
    /// Detect the kind of firmware from its data.
    pub fn detect_from_firmware(firmware: &[u8]) -> (r: Self)
        requires
            firmware@.len() >= 4,
        ensures
            r == spec_format_of_signature(firmware@.subrange(0, 4)),
    {
        if starts_with_elf_magic(firmware) {
            FirmwareFormat::Elf
        } else if firmware[0] == 0x3a {
            FirmwareFormat::IntelHex
        } else {
            FirmwareFormat::Binary
        }
    }
}

/// Why a firmware file could not be read.
#[derive(Debug, PartialEq, Eq, Clone)]
pub enum FirmwareFileError {
    IntelHex(IntelHexError),
    Elf(ElfError),
}

/// The message for this error.
pub open spec fn firmware_file_error_text(e: FirmwareFileError) -> Seq<char> {
    match e {
        FirmwareFileError::IntelHex(e) => crate::firmware_file::ihex::intel_hex_error_text(e),
        FirmwareFileError::Elf(e) => crate::firmware_file::elf::elf_error_text(e),
    }
}

impl FirmwareFileError {
    /// The message for this error.
    pub fn to_string(&self) -> (r: String)
        ensures
            r@ == firmware_file_error_text(*self),
    {
        match self {
            FirmwareFileError::IntelHex(e) => e.to_string(),
            FirmwareFileError::Elf(e) => e.to_string(),
        }
    }
}

/// The file as read in its format.
pub enum FirmwareStorage {
    Raw(RawFirmwareFile),
    IntelHex(IntelHexFirmwareFile),
    Elf(ELFFirmwareFile),
}

/// A firmware file in one of the supported formats.
pub struct FirmwareFile {
    inner: FirmwareStorage,
}

/// Mathematical model of a [`FirmwareFile`]: where its image loads, if the file says, and the
/// image to write into Flash at that address.
pub struct FirmwareFileView {
    pub load_address: Option<u32>,
    pub data: Seq<u8>,
}

impl View for FirmwareFile {
    type V = FirmwareFileView;

    closed spec fn view(&self) -> FirmwareFileView {
        match self.inner {
            FirmwareStorage::Raw(f) => FirmwareFileView { load_address: None, data: f@ },
            FirmwareStorage::IntelHex(f) => FirmwareFileView {
                load_address: if f@.segments.len() == 0 {
                    None
                } else {
                    Some(f@.segments[0].0)
                },
                data: f@.image,
            },
            FirmwareStorage::Elf(f) => FirmwareFileView { load_address: None, data: seq![] },
        }
    }
}

/// What a firmware file's bytes give where the format and its reading are settled by the bytes
/// alone (raw binary and Intel HEX files).
pub open spec fn spec_firmware_file(contents: Seq<u8>) -> Result<FirmwareFileView, FirmwareFileError> {
    match spec_format_of_signature(signature(contents)) {
        FirmwareFormat::IntelHex => match crate::firmware_file::ihex::spec_intel_hex_file(contents) {
            Err(e) => Err(FirmwareFileError::IntelHex(e)),
            Ok(f) => Ok(
                FirmwareFileView {
                    load_address: if f.segments.len() == 0 {
                        None
                    } else {
                        Some(f.segments[0].0)
                    },
                    data: f.image,
                },
            ),
        },
        _ => Ok(FirmwareFileView { load_address: None, data: contents }),
    }
}

/// The first four bytes of a file, zero where the file is shorter.
fn read_signature(contents: &[u8]) -> (r: [u8; 4])
    ensures
        r@ == signature(contents@),
{
    let mut sig: [u8; 4] = [0u8; 4];
    let mut i: usize = 0;
    while i < 4 && i < contents.len()
        invariant
            i <= 4,
            i <= contents@.len(),
            sig@.len() == 4,
            forall|j: int| 0 <= j < i ==> sig@[j] == contents@[j],
            forall|j: int| i <= j < 4 ==> sig@[j] == 0u8,
        decreases 4 - i,
    {
        sig.set(i, contents[i]);
        i = i + 1;
    }
    assert(sig@ =~= signature(contents@));
    sig
}

impl FirmwareFile {
    /// Reads a firmware file from its bytes: a file that opens with the ELF magic is read as
    /// ELF, one that opens with `:` as Intel HEX, any other as a raw binary image.
    pub fn from_contents(contents: Vec<u8>) -> (r: Result<Self, FirmwareFileError>)
        ensures
            spec_format_of_signature(signature(contents@)) != FirmwareFormat::Elf ==> match r {
                Ok(f) => spec_firmware_file(contents@) == Ok::<FirmwareFileView, FirmwareFileError>(f@),
                Err(e) => spec_firmware_file(contents@) == Err::<FirmwareFileView, FirmwareFileError>(e),
            },
            spec_format_of_signature(signature(contents@)) == FirmwareFormat::Elf ==> match r {
                Ok(f) => f@ == (FirmwareFileView { load_address: None, data: seq![] }) && exists|
                    p: crate::firmware_file::elf::ElfSummaryView,
                |
                    crate::firmware_file::elf::spec_goblin_elf_parse(contents@) == Some(p)
                        && crate::firmware_file::elf::spec_elf_file(contents@, p) is Ok,
                Err(FirmwareFileError::Elf(ElfError::Parse(_))) => crate::firmware_file::elf::spec_goblin_elf_parse(
                    contents@,
                ) is None,
                Err(FirmwareFileError::Elf(e)) => exists|p: crate::firmware_file::elf::ElfSummaryView|
                    crate::firmware_file::elf::spec_goblin_elf_parse(contents@) == Some(p)
                        && crate::firmware_file::elf::spec_elf_file(contents@, p) == Err::<
                        crate::firmware_file::elf::ELFFirmwareFileView,
                        ElfError,
                    >(e),
                Err(_) => false,
            },
    {
        let sig = read_signature(contents.as_slice());
        let format = FirmwareFormat::detect_from_firmware(&sig);
        assert(sig@.subrange(0, 4) =~= sig@);
        match format {
            FirmwareFormat::Elf => match ELFFirmwareFile::try_from(contents) {
                Err(e) => Err(FirmwareFileError::Elf(e)),
                Ok(f) => Ok(FirmwareFile { inner: FirmwareStorage::Elf(f) }),
            },
            FirmwareFormat::IntelHex => match IntelHexFirmwareFile::try_from(contents.as_slice()) {
                Err(e) => Err(FirmwareFileError::IntelHex(e)),
                Ok(f) => Ok(FirmwareFile { inner: FirmwareStorage::IntelHex(f) }),
            },
            FirmwareFormat::Binary => Ok(FirmwareFile { inner: FirmwareStorage::Raw(RawFirmwareFile::from_contents(contents)) }),
        }
    }

    /// Where the image loads, where the file says.
    pub fn load_address(&self) -> (r: Option<u32>)
        ensures
            r == self@.load_address,
    {
        match &self.inner {
            FirmwareStorage::Raw(f) => f.load_address(),
            FirmwareStorage::IntelHex(f) => f.load_address(),
            FirmwareStorage::Elf(f) => f.load_address(),
        }
    }

    /// Provides the firmware data this file holds in a format suitable for
    /// writing into Flash directly at the load address
    pub fn firmware_data(&self) -> (r: &[u8])
        ensures
            r@ == self@.data,
    {
        match &self.inner {
            FirmwareStorage::Raw(f) => f.firmware_data(),
            FirmwareStorage::IntelHex(f) => f.firmware_data(),
            FirmwareStorage::Elf(f) => f.firmware_data(),
        }
    }

    /// The firmware data (see [`FirmwareFile::firmware_data`]).
    pub fn data(&self) -> (r: &[u8])
        ensures
            r@ == self@.data,
    {
        self.firmware_data()
    }

    /// The length of the firmware data.
    pub fn len(&self) -> (r: usize)
        ensures
            r == self@.data.len(),
    {
        self.firmware_data().len()
    }
}

} // verus!
