use bmputil::bmp::BmpPlatform;
use bmputil::firmware_file::elf::{ELFFirmwareFile, ElfError};
use bmputil::firmware_file::ihex::{from_records, read_records, IntelHexError, IntelHexFirmwareFile, IntelHexRecordType};
use bmputil::firmware_file::{FirmwareFile, FirmwareFileError, FirmwareFormat};
use bmputil::firmware_type::{resolve_firmware_type, Armv7mVectorTable, FirmwareType, FirmwareTypeError};
use bmputil::AllowDangerous;

fn ihex(text: &str) -> Result<IntelHexFirmwareFile, IntelHexError> {
    IntelHexFirmwareFile::try_from(text.as_bytes())
}

#[test]
fn intel_hex_single_data_record() {
    let f = ihex(":10000000000102030405060708090A0B0C0D0E0F78\r\n:00000001FF\r\n").unwrap();
    assert_eq!(f.load_address(), Some(0));
    assert_eq!(f.firmware_data(), &(0u8..16).collect::<Vec<u8>>()[..]);
}

#[test]
fn intel_hex_extended_linear_address() {
    let f = ihex(":020000040800F2\n:0400000001020304F2\n:00000001FF\n").unwrap();
    assert_eq!(f.load_address(), Some(0x0800_0000));
    assert_eq!(f.firmware_data(), &[1u8, 2, 3, 4][..]);
}

#[test]
fn intel_hex_gap_is_erased() {
    let f = ihex(":020000000102FB\n:02000400AABB95\n:00000001FF").unwrap();
    assert_eq!(f.load_address(), Some(0));
    assert_eq!(f.firmware_data(), &[1u8, 2, 0xff, 0xff, 0xaa, 0xbb][..]);
}

#[test]
fn intel_hex_later_segment_at_same_address_wins() {
    let f = ihex(":020000000102FB\n:02000400AABB95\n:02000000CCDD55\n:00000001FF\n").unwrap();
    assert_eq!(f.firmware_data(), &[0xcc, 0xdd, 0xff, 0xff, 0xaa, 0xbb][..]);
}

#[test]
fn intel_hex_segments_are_ordered_by_address() {
    let f = ihex(":02000400AABB95\n:020000000102FB\n:00000001FF\n").unwrap();
    assert_eq!(f.load_address(), Some(0));
    assert_eq!(f.firmware_data(), &[1u8, 2, 0xff, 0xff, 0xaa, 0xbb][..]);
}

#[test]
fn intel_hex_without_end_record_drops_the_last_segment() {
    let f = ihex(":020000000102FB\n").unwrap();
    assert_eq!(f.load_address(), None);
    assert_eq!(f.firmware_data(), &[] as &[u8]);
}

#[test]
fn intel_hex_errors() {
    assert_eq!(ihex(":020000000102FA\n:00000001FF").err(), Some(IntelHexError::ChecksumInvalid));
    assert_eq!(ihex(":0G0000000102FA").err(), Some(IntelHexError::InvalidHexDigits));
    assert_eq!(ihex(":0200000001").err(), Some(IntelHexError::UnexpectedEndOfFile));
    assert_eq!(ihex("").err(), Some(IntelHexError::UnexpectedEndOfFile));
    assert_eq!(ihex(":00000006FA").err(), Some(IntelHexError::InvalidRecordType(6)));
    assert_eq!(ihex(":01000001AA54").err(), Some(IntelHexError::InvalidEofByteCount(1)));
    assert_eq!(ihex(":00000001FF\n:020000000102FB\n").err(), Some(IntelHexError::PrematureEndOfFileRecord));
    assert_eq!(ihex(":020000021000EC\n:00000001FF").err(), Some(IntelHexError::UnsupportedRecordType));
    assert_eq!(ihex(":00000001FF\n ").err(), Some(IntelHexError::UnexpectedEndOfFile));
}

#[test]
fn intel_hex_error_messages() {
    assert_eq!(IntelHexError::ChecksumInvalid.to_string(), "Checksum invalid for ihex record");
    assert_eq!(IntelHexError::InvalidRecordType(6).to_string(), "Invalid record type 6 found");
    assert_eq!(IntelHexError::InvalidEofByteCount(3).to_string(), "Invalid EOF, expected 0 bytes in record, got 3");
    assert_eq!(
        IntelHexError::InvalidStartAddressByteCount(2).to_string(),
        "Invalid extended address record, expected 4 bytes, got 2"
    );
    assert_eq!(IntelHexError::PrematureEndOfFileRecord.to_string(), "Premature EOF record found, invalid Intel HEX file");
}

#[test]
fn intel_hex_record_types() {
    assert_eq!(IntelHexRecordType::try_from(4), Ok(IntelHexRecordType::ExtendedLinearAddress));
    assert_eq!(IntelHexRecordType::try_from(9), Err(IntelHexError::InvalidRecordType(9)));
    assert_eq!(IntelHexRecordType::ExtendedLinearAddress.validate_byte_count(2), Ok(()));
    assert_eq!(
        IntelHexRecordType::StartLinearAddress.validate_byte_count(2),
        Err(IntelHexError::InvalidStartAddressByteCount(2))
    );
    assert_eq!(IntelHexRecordType::Data.validate_byte_count(200), Ok(()));
}

#[test]
fn raw_firmware_file() {
    let contents = vec![0u8, 0x20, 0, 0x20, 0x01, 0x20, 0, 0x08, 9, 9];
    let f = FirmwareFile::from_contents(contents.clone()).unwrap();
    assert_eq!(f.load_address(), None);
    assert_eq!(f.firmware_data(), &contents[..]);
    assert_eq!(f.data(), &contents[..]);
    assert_eq!(f.len(), contents.len());
}

#[test]
fn intel_hex_firmware_file() {
    let f = FirmwareFile::from_contents(b":020000040800F2\n:0400000001020304F2\n:00000001FF\n".to_vec()).unwrap();
    assert_eq!(f.load_address(), Some(0x0800_0000));
    assert_eq!(f.firmware_data(), &[1u8, 2, 3, 4][..]);
    let bad = FirmwareFile::from_contents(b":020000000102FA".to_vec());
    assert_eq!(bad.err(), Some(FirmwareFileError::IntelHex(IntelHexError::ChecksumInvalid)));
}

fn elf_header(machine: u16, phnum: u16) -> Vec<u8> {
    let mut h = vec![0x7f, b'E', b'L', b'F', 1, 1, 1, 0, 0, 0, 0, 0, 0, 0, 0, 0];
    h.extend_from_slice(&2u16.to_le_bytes()); // e_type
    h.extend_from_slice(&machine.to_le_bytes()); // e_machine
    h.extend_from_slice(&1u32.to_le_bytes()); // e_version
    h.extend_from_slice(&0x0800_0000u32.to_le_bytes()); // e_entry
    h.extend_from_slice(&(if phnum > 0 { 52u32 } else { 0u32 }).to_le_bytes()); // e_phoff
    h.extend_from_slice(&0u32.to_le_bytes()); // e_shoff
    h.extend_from_slice(&0u32.to_le_bytes()); // e_flags
    h.extend_from_slice(&52u16.to_le_bytes()); // e_ehsize
    h.extend_from_slice(&32u16.to_le_bytes()); // e_phentsize
    h.extend_from_slice(&phnum.to_le_bytes()); // e_phnum
    h.extend_from_slice(&40u16.to_le_bytes()); // e_shentsize
    h.extend_from_slice(&0u16.to_le_bytes()); // e_shnum
    h.extend_from_slice(&0u16.to_le_bytes()); // e_shstrndx
    if phnum > 0 {
        for word in [1u32, 0, 0x0800_0000, 0x0800_0000, 84, 84, 5, 4] {
            h.extend_from_slice(&word.to_le_bytes());
        }
    }
    h
}

#[test]
fn elf_firmware_file() {
    let arm = elf_header(40, 1);
    let f = FirmwareFile::from_contents(arm.clone()).unwrap();
    assert_eq!(f.load_address(), None);
    assert_eq!(f.len(), 0);
    assert!(ELFFirmwareFile::try_from(elf_header(40, 0)).is_ok());
    assert_eq!(ELFFirmwareFile::try_from(elf_header(3, 1)).err(), Some(ElfError::NotFirmware));
    assert_eq!(
        ElfError::NotFirmware.to_string(),
        "ELF does not represent firmware for a Black Magic Debug device"
    );
}

#[test]
fn truncated_elf_is_a_parse_error() {
    match FirmwareFile::from_contents(b"\x7fELF\x01".to_vec()) {
        Err(FirmwareFileError::Elf(ElfError::Parse(message))) => assert!(!message.is_empty()),
        _ => panic!("a truncated ELF file must not parse"),
    }
}

#[test]
fn firmware_format_detection() {
    assert_eq!(FirmwareFormat::detect_from_firmware(b"\x7fELF\x01\x01"), FirmwareFormat::Elf);
    assert_eq!(FirmwareFormat::detect_from_firmware(b":100000"), FirmwareFormat::IntelHex);
    assert_eq!(FirmwareFormat::detect_from_firmware(b"\x00\x20\x00\x20"), FirmwareFormat::Binary);
}

#[test]
fn vector_table_words() {
    let bytes = [0x00u8, 0x50, 0x00, 0x20, 0x01, 0x21, 0x00, 0x08, 0x10, 0x20, 0x30, 0x40];
    let table = Armv7mVectorTable::from_bytes(&bytes);
    assert_eq!(table.stack_pointer().unwrap(), 0x2000_5000);
    assert_eq!(table.reset_vector().unwrap(), 0x0800_2101);
    assert_eq!(table.exception(1).unwrap(), 0x4030_2010);
}

#[test]
fn firmware_type_from_reset_vector() {
    let app = [0x00u8, 0x50, 0x00, 0x20, 0x01, 0x21, 0x00, 0x08];
    let boot = [0x00u8, 0x50, 0x00, 0x20, 0x01, 0x01, 0x00, 0x08];
    let bad = [0x00u8, 0x50, 0x00, 0x20, 0x01, 0x01, 0x00, 0x00];
    assert_eq!(FirmwareType::detect_from_image(BmpPlatform::BlackMagicDebug, &app), Ok(FirmwareType::Application));
    assert_eq!(FirmwareType::detect_from_image(BmpPlatform::BlackMagicDebug, &boot), Ok(FirmwareType::Bootloader));
    assert_eq!(
        FirmwareType::detect_from_image(BmpPlatform::BlackMagicDebug, &bad),
        Err(FirmwareTypeError::ResetVectorOutOfBounds(0x0000_0101))
    );
    assert_eq!(
        FirmwareTypeError::ResetVectorOutOfBounds(0x101).to_string(),
        "Firmware file does not seem valid: reset vector address seems to be outside of reasonable bounds - 0x00000101"
    );
}

#[test]
fn firmware_type_from_load_address() {
    let f = FirmwareFile::from_contents(b":020000040800F2\n:0400000001020304F2\n:00000001FF\n".to_vec()).unwrap();
    assert_eq!(FirmwareType::detect_from_firmware(BmpPlatform::BlackMagicDebug, &f), Ok(FirmwareType::Bootloader));
    assert_eq!(FirmwareType::detect_from_firmware(BmpPlatform::DragonBoot, &f), Ok(FirmwareType::Application));
    let raw = FirmwareFile::from_contents(vec![0x00, 0x50, 0x00, 0x20, 0x01, 0x21, 0x00, 0x08]).unwrap();
    assert_eq!(FirmwareType::detect_from_firmware(BmpPlatform::BlackMagicDebug, &raw), Ok(FirmwareType::Application));
}

#[test]
fn firmware_type_names_and_override() {
    assert_eq!(FirmwareType::Bootloader.to_string(), "bootloader");
    assert_eq!(FirmwareType::Application.to_string(), "application");
    assert_eq!(FirmwareType::default(), FirmwareType::Application);
    assert_eq!(resolve_firmware_type(FirmwareType::Application, None, AllowDangerous::Never), Some(FirmwareType::Application));
    assert_eq!(
        resolve_firmware_type(FirmwareType::Application, Some(FirmwareType::Bootloader), AllowDangerous::Really),
        Some(FirmwareType::Bootloader)
    );
    assert_eq!(resolve_firmware_type(FirmwareType::Application, Some(FirmwareType::Bootloader), AllowDangerous::Never), None);
}

#[test]
fn intel_hex_segments_are_maximal_runs() {
    let text = ":020000000102FB\n:020002000304F5\n:02000600AABB93\n:00000001FF\n";
    let records = read_records(text.as_bytes()).unwrap();
    let segments = from_records(&records).unwrap();
    assert_eq!(segments.len(), 2);
    assert_eq!(segments[0].base_address, 0);
    assert_eq!(segments[0].data, vec![1u8, 2, 3, 4]);
    assert_eq!(segments[1].base_address, 6);
    assert_eq!(segments[1].data, vec![0xaa, 0xbb]);
}
