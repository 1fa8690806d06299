//! Extracting the binary image from an ELF file, as `objcopy -Obinary` does for the sections
//! that Black Magic Debug firmware is made of: `.text`, then `.ARM.exidx` where there is one,
//! then `.data`.
use vstd::prelude::*;

use crate::firmware_file::elf::{
    goblin_elf_parse, goblin_error_message, sections_view, spec_goblin_elf_parse, ElfError, ElfSection,
    ElfSectionView,
};
use crate::text::{push_decimal, str_eq, string_extend_str};

verus! {

/// The position of the section named `name`, searching from position `i`: the first section
/// whose name is `name`; the search gives up at a section whose name cannot be read.
pub open spec fn section_from(ss: Seq<ElfSectionView>, name: Seq<char>, i: int) -> Option<int>
    decreases ss.len() - i,
{
    if i < 0 || i >= ss.len() {
        None
    } else {
        match ss[i].name {
            None => None,
            Some(n) => if n == name {
                Some(i)
            } else {
                section_from(ss, name, i + 1)
            },
        }
    }
}

/// The position of the section named `name` (see [`section_from`]).
pub open spec fn spec_section_by_name(ss: Seq<ElfSectionView>, name: Seq<char>) -> Option<int> {
    section_from(ss, name, 0)
}

/// `a + b`, wrapping around past the largest `usize`.
pub open spec fn wrapping_add_usize(a: usize, b: usize) -> usize {
    if a + b > usize::MAX {
        (a + b - usize::MAX - 1) as usize
    } else {
        (a + b) as usize
    }
}

/// Where a section's data starts and ends in the file.
pub open spec fn section_bounds(s: ElfSectionView) -> (usize, usize) {
    let start = s.sh_offset as usize;
    (start, wrapping_add_usize(start, s.sh_size as usize))
}

/// A section's data within the file's bytes, or the message saying that its header points
/// outside them.
pub open spec fn spec_section_data(s: ElfSectionView, contents: Seq<u8>) -> Result<Seq<u8>, Seq<char>> {
    let (start, end) = section_bounds(s);
    if start <= end && end <= contents.len() {
        Ok(contents.subrange(start as int, end as int))
    } else {
        Err(
            "ELF section header does not point to a valid section (offset ["@ + crate::text::decimal_digits(
                start as nat,
            ) + ".."@ + crate::text::decimal_digits(end as nat) + "])"@,
        )
    }
}

/// The binary image of a parsed ELF file (see the module's description); the sections are
/// looked up in turn, and a missing or misplaced `.text` or `.data` is an error (with its
/// message), while a `.ARM.exidx` that is missing or misplaced is left out.
pub open spec fn spec_extract(ss: Seq<ElfSectionView>, contents: Seq<u8>) -> Result<Seq<u8>, Seq<char>> {
    match spec_section_by_name(ss, ".text"@) {
        None => Err("ELF .text section not found"@),
        Some(t) => match spec_section_data(ss[t], contents) {
            Err(m) => Err(m),
            Ok(text) => {
                let exidx = match spec_section_by_name(ss, ".ARM.exidx"@) {
                    None => Seq::<u8>::empty(),
                    Some(x) => match spec_section_data(ss[x], contents) {
                        Ok(d) => d,
                        Err(_) => Seq::<u8>::empty(),
                    },
                };
                match spec_section_by_name(ss, ".data"@) {
                    None => Err("ELF .data section not found"@),
                    Some(d) => match spec_section_data(ss[d], contents) {
                        Err(m) => Err(m),
                        Ok(data) => Ok(text + exidx + data),
                    },
                }
            },
        },
    }
}

/// Finds the section named `name` (see [`spec_section_by_name`]).
pub fn get_section_by_name(sections: &[ElfSection], name: &str) -> (r: Option<usize>)
    ensures
        match r {
            Some(i) => spec_section_by_name(sections_view(sections@), name@) == Some(i as int) && i
                < sections@.len(),
            None => spec_section_by_name(sections_view(sections@), name@) is None,
        },
{
    let ghost ss = sections_view(sections@);
    let mut k: usize = 0;
    while k < sections.len()
        invariant
            k <= sections@.len(),
            ss == sections_view(sections@),
            ss.len() == sections@.len(),
            section_from(ss, name@, 0) == section_from(ss, name@, k as int),
        decreases sections@.len() - k,
    {
        assert(ss[k as int] == sections@[k as int]@);
        match &sections[k].name {
            None => return None,
            Some(n) => {
                if str_eq(n.as_str(), name) {
                    return Some(k);
                }
            },
        }
        k = k + 1;
    }
    None
}

/// `a + b`, wrapping around past the largest `usize`.
fn wrapping_add(a: usize, b: usize) -> (r: usize)
    ensures
        r == wrapping_add_usize(a, b),
{
    if b > usize::MAX - a {
        b - (usize::MAX - a) - 1
    } else {
        a + b
    }
}

/// A section's data within the file's bytes (see [`spec_section_data`]).
pub fn get_data<'a>(section: &ElfSection, contents: &'a [u8]) -> (r: Result<&'a [u8], String>)
    ensures
        match r {
            Ok(d) => spec_section_data(section@, contents@) == Ok::<Seq<u8>, Seq<char>>(d@),
            Err(m) => spec_section_data(section@, contents@) == Err::<Seq<u8>, Seq<char>>(m@),
        },
{
    let start = section.sh_offset as usize;
    let end = wrapping_add(start, section.sh_size as usize);
    if start <= end && end <= contents.len() {
        Ok(&contents[start..end])
    } else {
        let mut m = "ELF section header does not point to a valid section (offset [".to_owned();
        push_decimal(&mut m, start);
        string_extend_str(&mut m, "..");
        push_decimal(&mut m, end);
        string_extend_str(&mut m, "])");
        Err(m)
    }
}

/// Extracts the binary image from a parsed ELF file's sections (see [`spec_extract`]).
pub fn extract_from_sections(sections: &[ElfSection], contents: &[u8]) -> (r: Result<Vec<u8>, ElfError>)
    ensures
        match r {
            Ok(b) => spec_extract(sections_view(sections@), contents@) == Ok::<Seq<u8>, Seq<char>>(b@),
            Err(e) => e matches ElfError::Malformed(m) && spec_extract(sections_view(sections@), contents@)
                == Err::<Seq<u8>, Seq<char>>(m@),
        },
{
    let ghost ss = sections_view(sections@);
    let t = match get_section_by_name(sections, ".text") {
        None => return Err(ElfError::Malformed("ELF .text section not found".to_owned())),
        Some(t) => t,
    };
    assert(ss[t as int] == sections@[t as int]@);
    let text = match get_data(&sections[t], contents) {
        Err(m) => return Err(ElfError::Malformed(m)),
        Ok(d) => d,
    };
    let exidx: Option<&[u8]> = match get_section_by_name(sections, ".ARM.exidx") {
        None => None,
        Some(x) => {
            assert(ss[x as int] == sections@[x as int]@);
            match get_data(&sections[x], contents) {
                Ok(d) => Some(d),
                Err(_) => None,
            }
        },
    };
    let d = match get_section_by_name(sections, ".data") {
        None => return Err(ElfError::Malformed("ELF .data section not found".to_owned())),
        Some(d) => d,
    };
    assert(ss[d as int] == sections@[d as int]@);
    let data = match get_data(&sections[d], contents) {
        Err(m) => return Err(ElfError::Malformed(m)),
        Ok(d) => d,
    };
    let mut extracted: Vec<u8> = Vec::new();
    extend_bytes(&mut extracted, text);
    match exidx {
        Some(x) => extend_bytes(&mut extracted, x),
        None => {},
    }
    extend_bytes(&mut extracted, data);
    proof {
        let ex = match exidx {
            Some(x) => x@,
            None => Seq::<u8>::empty(),
        };
        assert(extracted@ =~= text@ + ex + data@);
    }
    Ok(extracted)
}

/// Appends bytes.
fn extend_bytes(v: &mut Vec<u8>, bytes: &[u8])
    ensures
        final(v)@ == old(v)@ + bytes@,
{
    let mut k: usize = 0;
    while k < bytes.len()
        invariant
            k <= bytes@.len(),
            v@ == old(v)@ + bytes@.subrange(0, k as int),
        decreases bytes@.len() - k,
    {
        v.push(bytes[k]);
        assert(bytes@.subrange(0, k + 1) =~= bytes@.subrange(0, k as int).push(bytes@[k as int]));
        k = k + 1;
    }
    assert(bytes@.subrange(0, bytes@.len() as int) =~= bytes@);
}

/// Extracts the binary image from the bytes of an ELF file: the file is parsed with goblin, and
/// its sections extracted (see [`spec_extract`]); a file goblin cannot parse gives its message.
pub fn extract_binary(elf_data: &[u8]) -> (r: Result<Vec<u8>, ElfError>)
    ensures
        match spec_goblin_elf_parse(elf_data@) {
            None => r matches Err(ElfError::Parse(_)),
            Some(e) => match r {
                Ok(b) => spec_extract(e.sections, elf_data@) == Ok::<Seq<u8>, Seq<char>>(b@),
                Err(x) => x matches ElfError::Malformed(m) && spec_extract(e.sections, elf_data@) == Err::<
                    Seq<u8>,
                    Seq<char>,
                >(m@),
            },
        },
{
    match goblin_elf_parse(elf_data) {
        Err(e) => Err(ElfError::Parse(goblin_error_message(&e))),
        Ok(elf) => extract_from_sections(elf.sections.as_slice(), elf_data),
    }
}

} // verus!
