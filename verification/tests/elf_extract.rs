use bmputil::elf::{extract_binary, extract_from_sections, get_data, get_section_by_name};
use bmputil::firmware_file::elf::{ElfError, ElfSection};

/// A 32-bit little-endian ARM executable holding the given sections (name, bytes), followed by
/// the section name table and the section headers.
fn elf_with_sections(sections: &[(&str, &[u8])]) -> Vec<u8> {
    let mut body: Vec<u8> = Vec::new();
    let mut names: Vec<u8> = vec![0];
    let mut entries: Vec<(u32, u32, u32, u32)> = Vec::new(); // name offset, type, offset, size
    for (name, bytes) in sections {
        let name_offset = names.len() as u32;
        names.extend_from_slice(name.as_bytes());
        names.push(0);
        entries.push((name_offset, 1, 52 + body.len() as u32, bytes.len() as u32));
        body.extend_from_slice(bytes);
    }
    let strtab_name = names.len() as u32;
    names.extend_from_slice(b".shstrtab\0");
    entries.push((strtab_name, 3, 52 + body.len() as u32, names.len() as u32));
    body.extend_from_slice(&names);
    while body.len() % 4 != 0 {
        body.push(0);
    }
    let shoff = 52 + body.len() as u32;
    let shnum = entries.len() as u16 + 1;

    let mut h = vec![0x7f, b'E', b'L', b'F', 1, 1, 1, 0, 0, 0, 0, 0, 0, 0, 0, 0];
    h.extend_from_slice(&2u16.to_le_bytes()); // e_type
    h.extend_from_slice(&40u16.to_le_bytes()); // e_machine
    h.extend_from_slice(&1u32.to_le_bytes()); // e_version
    h.extend_from_slice(&0u32.to_le_bytes()); // e_entry
    h.extend_from_slice(&0u32.to_le_bytes()); // e_phoff
    h.extend_from_slice(&shoff.to_le_bytes()); // e_shoff
    h.extend_from_slice(&0u32.to_le_bytes()); // e_flags
    h.extend_from_slice(&52u16.to_le_bytes()); // e_ehsize
    h.extend_from_slice(&32u16.to_le_bytes()); // e_phentsize
    h.extend_from_slice(&0u16.to_le_bytes()); // e_phnum
    h.extend_from_slice(&40u16.to_le_bytes()); // e_shentsize
    h.extend_from_slice(&shnum.to_le_bytes()); // e_shnum
    h.extend_from_slice(&(shnum - 1).to_le_bytes()); // e_shstrndx
    h.extend_from_slice(&body);
    h.extend_from_slice(&[0u8; 40]);
    for (name, kind, offset, size) in entries {
        for word in [name, kind, 0, 0, offset, size, 0, 0, 1, 0] {
            h.extend_from_slice(&word.to_le_bytes());
        }
    }
    h
}

#[test]
fn extracts_text_exidx_and_data() {
    let elf = elf_with_sections(&[(".text", &[1, 2, 3, 4]), (".ARM.exidx", &[5, 6]), (".data", &[7, 8, 9])]);
    assert_eq!(extract_binary(&elf), Ok(vec![1, 2, 3, 4, 5, 6, 7, 8, 9]));
}

#[test]
fn exidx_is_optional() {
    let elf = elf_with_sections(&[(".data", &[7, 8]), (".text", &[1, 2])]);
    assert_eq!(extract_binary(&elf), Ok(vec![1, 2, 7, 8]));
}

#[test]
fn missing_sections_are_errors() {
    let no_text = elf_with_sections(&[(".data", &[7])]);
    assert_eq!(extract_binary(&no_text), Err(ElfError::Malformed("ELF .text section not found".to_string())));
    let no_data = elf_with_sections(&[(".text", &[1])]);
    let err = extract_binary(&no_data).unwrap_err();
    assert_eq!(err.to_string(), "Malformed entity: ELF .data section not found");
}

#[test]
fn unparsable_files() {
    assert!(matches!(extract_binary(b"not an elf"), Err(ElfError::Parse(_))));
}

#[test]
fn section_lookup_and_bounds() {
    let sections = vec![
        ElfSection { name: Some(".text".into()), sh_offset: 1, sh_size: 2 },
        ElfSection { name: None, sh_offset: 0, sh_size: 0 },
        ElfSection { name: Some(".data".into()), sh_offset: 0, sh_size: 1 },
    ];
    assert_eq!(get_section_by_name(&sections, ".text"), Some(0));
    // The search gives up at a section whose name cannot be read.
    assert_eq!(get_section_by_name(&sections, ".data"), None);
    let contents = [10u8, 11, 12];
    assert_eq!(get_data(&sections[0], &contents), Ok(&contents[1..3]));
    let outside = ElfSection { name: Some(".text".into()), sh_offset: 2, sh_size: 5 };
    assert_eq!(
        get_data(&outside, &contents),
        Err("ELF section header does not point to a valid section (offset [2..7])".to_string())
    );
    let text_only = vec![ElfSection { name: Some(".text".into()), sh_offset: 0, sh_size: 1 }];
    assert_eq!(
        extract_from_sections(&text_only, &contents),
        Err(ElfError::Malformed("ELF .data section not found".to_string()))
    );
}
