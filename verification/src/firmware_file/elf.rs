//! ELF firmware images: the header is checked to describe a 32-bit little-endian ARM executable,
//! and the loadable program headers that carry file data are gathered by physical address.
use vstd::prelude::*;

use goblin::error::Error as GoblinError;

use crate::firmware_file::address_map;

verus! {

/// The fields of an ELF program header that the firmware loader reads.
#[derive(Debug, PartialEq, Eq, Clone, Copy)]
pub struct ElfProgramHeader {
    pub p_type: u32,
    pub p_offset: u64,
    pub p_paddr: u64,
    pub p_filesz: u64,
}

/// The fields of an ELF section header that binary extraction reads, with the section's name
/// as the section name string table gives it (`None` where the table has no string there).
#[derive(Debug, PartialEq, Eq, Clone)]
pub struct ElfSection {
    pub name: Option<String>,
    pub sh_offset: u64,
    pub sh_size: u64,
}

/// Mathematical model of an [`ElfSection`].
pub struct ElfSectionView {
    pub name: Option<Seq<char>>,
    pub sh_offset: u64,
    pub sh_size: u64,
}

impl View for ElfSection {
    type V = ElfSectionView;

    open spec fn view(&self) -> ElfSectionView {
        ElfSectionView {
            name: match self.name {
                Some(n) => Some(n@),
                None => None,
            },
            sh_offset: self.sh_offset,
            sh_size: self.sh_size,
        }
    }
}

/// The models of some section headers.
pub open spec fn sections_view(v: Seq<ElfSection>) -> Seq<ElfSectionView> {
    v.map_values(|s: ElfSection| s@)
}

/// The parts of a parsed ELF file that the firmware loader and binary extraction read.
#[derive(Debug, PartialEq, Eq, Clone)]
pub struct ElfSummary {
    pub e_ident: Vec<u8>,
    pub e_type: u16,
    pub e_machine: u16,
    pub program_headers: Vec<ElfProgramHeader>,
    pub sections: Vec<ElfSection>,
}

/// Mathematical model of an [`ElfSummary`].
pub struct ElfSummaryView {
    pub e_ident: Seq<u8>,
    pub e_type: u16,
    pub e_machine: u16,
    pub program_headers: Seq<ElfProgramHeader>,
    pub sections: Seq<ElfSectionView>,
}

impl View for ElfSummary {
    type V = ElfSummaryView;

    open spec fn view(&self) -> ElfSummaryView {
        ElfSummaryView {
            e_ident: self.e_ident@,
            e_type: self.e_type,
            e_machine: self.e_machine,
            program_headers: self.program_headers@,
            sections: sections_view(self.sections@),
        }
    }
}

#[verifier::external_type_specification]
#[verifier::external_body]
pub struct ExGoblinError(GoblinError);

/// What goblin's ELF parser makes of a file's bytes, where it accepts them.
pub uninterp spec fn spec_goblin_elf_parse(contents: Seq<u8>) -> Option<ElfSummaryView>;

/// Parses an ELF file with `goblin::elf::Elf::parse` and copies out the header fields, the
/// program headers that the loader reads, and the section headers with their names. The parse depends on the bytes alone: whether it
/// succeeds and what it yields is named by [`spec_goblin_elf_parse`]; what goblin accepts is
/// not stated here. The header's identification bytes are an array of sixteen.
#[verifier::external_body]
pub(crate) fn goblin_elf_parse(contents: &[u8]) -> (r: Result<ElfSummary, GoblinError>)
    ensures
        match r {
            Ok(e) => spec_goblin_elf_parse(contents@) == Some(e@) && e@.e_ident.len() == 16,
            Err(_) => spec_goblin_elf_parse(contents@) is None,
        },
{
    let elf = goblin::elf::Elf::parse(contents)?;
    let names = &elf.shdr_strtab;
    Ok(ElfSummary {
        e_ident: elf.header.e_ident.to_vec(),
        e_type: elf.header.e_type,
        e_machine: elf.header.e_machine,
        program_headers: elf.program_headers.iter().map(
            |h| ElfProgramHeader { p_type: h.p_type, p_offset: h.p_offset, p_paddr: h.p_paddr, p_filesz: h.p_filesz },
        ).collect(),
        sections: elf.section_headers.iter().map(
            |h| ElfSection { name: names.get_at(h.sh_name).map(str::to_owned), sh_offset: h.sh_offset, sh_size: h.sh_size },
        ).collect(),
    })
}

/// The message goblin gives for a parse error (its `Display`); nothing is stated of it.
#[verifier::external_body]
pub(crate) fn goblin_error_message(e: &GoblinError) -> String {
    format!("{}", e)
}

/// `ET_EXEC`: an executable file.
pub const ET_EXEC: u16 = 2;

/// `EM_ARM`: the ARM architecture.
pub const EM_ARM: u16 = 40;

/// Index of the class byte in the identification bytes.
pub const EI_CLASS: usize = 4;

/// Index of the data-encoding byte in the identification bytes.
pub const EI_DATA: usize = 5;

/// `ELFCLASS32`: a 32-bit file.
pub const ELFCLASS32: u8 = 1;

/// `ELFDATA2LSB`: little-endian data.
pub const ELFDATA2LSB: u8 = 1;

/// `ELFDATA2MSB`: big-endian data.
pub const ELFDATA2MSB: u8 = 2;

/// `PT_LOAD`: a loadable segment.
pub const PT_LOAD: u32 = 1;

/// Why an ELF file cannot be used as firmware.
#[derive(Debug, PartialEq, Eq, Clone)]
pub enum ElfError {
    /// goblin could not parse the file; its message.
    Parse(String),
    /// The header's data-encoding byte names no byte order.
    InvalidEndianness(u8),
    /// The file is not a 32-bit little-endian ARM executable.
    NotFirmware,
    /// The file lacks something, or holds something wrong; what it is.
    Malformed(String),
}

/// The message for an error.
pub open spec fn elf_error_text(e: ElfError) -> Seq<char> {
    match e {
        ElfError::Parse(m) => m@,
        ElfError::InvalidEndianness(d) => "Malformed entity: Invalid endianness in Header: "@ + crate::text::decimal_digits(
            d as nat,
        ),
        ElfError::NotFirmware => "ELF does not represent firmware for a Black Magic Debug device"@,
        ElfError::Malformed(m) => "Malformed entity: "@ + m@,
    }
}

impl ElfError {
    /// The message for this error.
    pub fn to_string(&self) -> (r: String)
        ensures
            r@ == elf_error_text(*self),
    {
        match self {
            ElfError::Parse(m) => m.clone(),
            ElfError::InvalidEndianness(d) => {
                let mut r = "Malformed entity: Invalid endianness in Header: ".to_owned();
                crate::text::push_decimal(&mut r, *d as usize);
                r
            },
            ElfError::NotFirmware => "ELF does not represent firmware for a Black Magic Debug device".to_owned(),
            ElfError::Malformed(m) => {
                let mut r = "Malformed entity: ".to_owned();
                crate::text::string_extend_str(&mut r, m.as_str());
                r
            },
        }
    }
}

/// The byte order that the data-encoding byte names, as goblin's `Header::endianness` reads it:
/// `Some(true)` for little-endian, `Some(false)` for big-endian.
pub open spec fn spec_little_endian(data_byte: u8) -> Option<bool> {
    if data_byte == ELFDATA2LSB {
        Some(true)
    } else if data_byte == ELFDATA2MSB {
        Some(false)
    } else {
        None
    }
}

/// Whether the header describes firmware for a Black Magic Debug device; checked in the order
/// the loader checks it, so that a bad byte order is only reported for ARM executables.
pub open spec fn spec_check_header(e: ElfSummaryView) -> Result<(), ElfError> {
    if e.e_type != ET_EXEC || e.e_machine != EM_ARM {
        Err(ElfError::NotFirmware)
    } else {
        match spec_little_endian(e.e_ident[EI_DATA as int]) {
            None => Err(ElfError::InvalidEndianness(e.e_ident[EI_DATA as int])),
            Some(little) => if !little || e.e_ident[EI_CLASS as int] != ELFCLASS32 {
                Err(ElfError::NotFirmware)
            } else {
                Ok(())
            },
        }
    }
}

/// The file bytes a program header covers, as goblin's `ProgramHeader::file_range` gives them.
pub open spec fn spec_file_range(h: ElfProgramHeader) -> (usize, usize) {
    let end: u64 = if h.p_offset + h.p_filesz > u64::MAX {
        u64::MAX
    } else {
        (h.p_offset + h.p_filesz) as u64
    };
    (h.p_offset as usize, end as usize)
}

/// The address and file bytes of the program headers that load data, in order.
pub open spec fn loadable_entries(hs: Seq<ElfProgramHeader>) -> Seq<(u32, (usize, usize))>
    decreases hs.len(),
{
    if hs.len() == 0 {
        seq![]
    } else {
        let rest = loadable_entries(hs.drop_last());
        let h = hs.last();
        if h.p_type == PT_LOAD && h.p_filesz != 0 {
            rest.push((h.p_paddr as u32, spec_file_range(h)))
        } else {
            rest
        }
    }
}

/// A loadable segment: its physical address and the file bytes it covers.
#[derive(Debug, PartialEq, Eq, Clone, Copy)]
pub struct ElfSegment {
    pub address: u32,
    pub start: usize,
    pub end: usize,
}

impl View for ElfSegment {
    type V = (u32, (usize, usize));

    open spec fn view(&self) -> (u32, (usize, usize)) {
        (self.address, (self.start, self.end))
    }
}

/// The models of some segments.
pub open spec fn elf_segments_view(v: Seq<ElfSegment>) -> Seq<(u32, (usize, usize))> {
    v.map_values(|g: ElfSegment| g@)
}

/// An ELF firmware file: its bytes, and its loadable segments ordered by address.
pub struct ELFFirmwareFile {
    contents: Vec<u8>,
    segments: Vec<ElfSegment>,
}

/// Mathematical model of an [`ELFFirmwareFile`].
pub struct ELFFirmwareFileView {
    pub contents: Seq<u8>,
    pub segments: Seq<(u32, (usize, usize))>,
}

impl View for ELFFirmwareFile {
    type V = ELFFirmwareFileView;

    closed spec fn view(&self) -> ELFFirmwareFileView {
        ELFFirmwareFileView { contents: self.contents@, segments: elf_segments_view(self.segments@) }
    }
}

/// What an ELF file gives once parsed: its header checked, and its loadable segments ordered by
/// physical address, a later one at the same address replacing an earlier one.
pub open spec fn spec_elf_file(contents: Seq<u8>, parsed: ElfSummaryView) -> Result<ELFFirmwareFileView, ElfError> {
    match spec_check_header(parsed) {
        Err(e) => Err(e),
        Ok(_) => Ok(
            ELFFirmwareFileView {
                contents,
                segments: address_map::sorted_keyed(loadable_entries(parsed.program_headers)),
            },
        ),
    }
}

/// Reads the byte order that the data-encoding byte names (see [`spec_little_endian`]).
fn little_endian(data_byte: u8) -> (r: Option<bool>)
    ensures
        r == spec_little_endian(data_byte),
{
    if data_byte == ELFDATA2LSB {
        Some(true)
    } else if data_byte == ELFDATA2MSB {
        Some(false)
    } else {
        None
    }
}

/// Checks that the header describes firmware (see [`spec_check_header`]).
pub fn check_header(e: &ElfSummary) -> (r: Result<(), ElfError>)
    requires
        e@.e_ident.len() > EI_DATA,
    ensures
        r == spec_check_header(e@),
{
    if e.e_type != ET_EXEC || e.e_machine != EM_ARM {
        return Err(ElfError::NotFirmware);
    }
    match little_endian(e.e_ident[EI_DATA]) {
        None => Err(ElfError::InvalidEndianness(e.e_ident[EI_DATA])),
        Some(little) => {
            if !little || e.e_ident[EI_CLASS] != ELFCLASS32 {
                Err(ElfError::NotFirmware)
            } else {
                Ok(())
            }
        },
    }
}

/// The file bytes a program header covers (see [`spec_file_range`]).
fn file_range(h: &ElfProgramHeader) -> (r: (usize, usize))
    ensures
        r == spec_file_range(*h),
{
    let end: u64 = h.p_offset.saturating_add(h.p_filesz);
    (h.p_offset as usize, end as usize)
}

/// Places a segment among segments ordered by address (see [`address_map::insert_keyed`]).
fn insert_segment(sorted: &mut Vec<ElfSegment>, g: ElfSegment)
    requires
        address_map::keys_strictly_sorted(elf_segments_view(old(sorted)@)),
    ensures
        elf_segments_view(final(sorted)@) == address_map::insert_keyed(elf_segments_view(old(sorted)@), g@),
        address_map::keys_strictly_sorted(elf_segments_view(final(sorted)@)),
{
    let ghost sv = elf_segments_view(sorted@);
    assert(sv.len() == sorted@.len());
    let mut i: usize = 0;
    while i < sorted.len() && sorted[i].address < g.address
        invariant
            i <= sorted@.len(),
            sorted@ == old(sorted)@,
            sv == elf_segments_view(sorted@),
            sv.len() == sorted@.len(),
            forall|j: int| 0 <= j < i ==> (#[trigger] sv[j]).0 < g.address,
        decreases sorted@.len() - i,
    {
        assert(sv[i as int].0 == sorted@[i as int].address);
        i = i + 1;
    }
    proof {
        if i < sv.len() {
            assert(sv[i as int].0 == sorted@[i as int].address);
        }
        address_map::lemma_insert_keyed_at(sv, g@, i as int);
    }
    if i < sorted.len() && sorted[i].address == g.address {
        sorted.set(i, g);
        assert(elf_segments_view(sorted@) =~= sv.update(i as int, g@));
    } else {
        sorted.insert(i, g);
        assert(elf_segments_view(sorted@) =~= sv.insert(i as int, g@));
    }
}

/// The loadable segments of some program headers ordered by address, a later one at the same
/// address replacing an earlier one.
pub fn collect_loadable(hs: &[ElfProgramHeader]) -> (r: Vec<ElfSegment>)
    ensures
        elf_segments_view(r@) == address_map::sorted_keyed(loadable_entries(hs@)),
        address_map::keys_strictly_sorted(elf_segments_view(r@)),
{
    let mut sorted: Vec<ElfSegment> = Vec::new();
    let mut k: usize = 0;
    assert(elf_segments_view(sorted@) =~= seq![]);
    assert(hs@.subrange(0, 0) =~= seq![]);
    while k < hs.len()
        invariant
            k <= hs@.len(),
            elf_segments_view(sorted@) == address_map::sorted_keyed(loadable_entries(hs@.subrange(0, k as int))),
            address_map::keys_strictly_sorted(elf_segments_view(sorted@)),
        decreases hs@.len() - k,
    {
        let h = hs[k];
        let ghost before = hs@.subrange(0, k as int);
        let ghost after = hs@.subrange(0, k + 1);
        assert(after.drop_last() =~= before);
        assert(after.last() == h);
        if h.p_type == PT_LOAD && h.p_filesz != 0 {
            let (start, end) = file_range(&h);
            let g = ElfSegment { address: h.p_paddr as u32, start, end };
            assert(loadable_entries(after) == loadable_entries(before).push(g@));
            assert(loadable_entries(after).drop_last() =~= loadable_entries(before));
            insert_segment(&mut sorted, g);
        } else {
            assert(loadable_entries(after) == loadable_entries(before));
        }
        k = k + 1;
    }
    assert(hs@.subrange(0, hs@.len() as int) =~= hs@);
    sorted
}

impl ELFFirmwareFile {
    /// Checks a parsed ELF file and gathers its loadable segments (see [`spec_elf_file`]).
    pub fn from_parsed(contents: Vec<u8>, parsed: &ElfSummary) -> (r: Result<Self, ElfError>)
        requires
            parsed@.e_ident.len() > EI_DATA,
        ensures
            match r {
                Ok(f) => spec_elf_file(contents@, parsed@) == Ok::<ELFFirmwareFileView, ElfError>(f@),
                Err(e) => spec_elf_file(contents@, parsed@) == Err::<ELFFirmwareFileView, ElfError>(e),
            },
    {
        match check_header(parsed) {
            Err(e) => return Err(e),
            Ok(_) => {},
        }
        let segments = collect_loadable(parsed.program_headers.as_slice());
        Ok(ELFFirmwareFile { contents, segments })
    }

    /// Parses an ELF file's bytes with goblin and checks that it is firmware (see
    /// [`spec_elf_file`]); a parse failure gives goblin's message.
    pub fn try_from(contents: Vec<u8>) -> (r: Result<Self, ElfError>)
        ensures
            match r {
                Ok(f) => exists|p: ElfSummaryView|
                    spec_goblin_elf_parse(contents@) == Some(p) && spec_elf_file(contents@, p) == Ok::<
                        ELFFirmwareFileView,
                        ElfError,
                    >(f@),
                Err(ElfError::Parse(_)) => spec_goblin_elf_parse(contents@) is None,
                Err(e) => exists|p: ElfSummaryView|
                    spec_goblin_elf_parse(contents@) == Some(p) && spec_elf_file(contents@, p) == Err::<
                        ELFFirmwareFileView,
                        ElfError,
                    >(e),
            },
    {
        let parsed = match goblin_elf_parse(contents.as_slice()) {
            Err(e) => return Err(ElfError::Parse(goblin_error_message(&e))),
            Ok(p) => p,
        };
        let ghost pv = parsed@;
        let ghost cv = contents@;
        assert(spec_goblin_elf_parse(cv) == Some(pv));
        ELFFirmwareFile::from_parsed(contents, &parsed)
    }

    /// ELF images are not flattened: no load address is given.
    pub fn load_address(&self) -> (r: Option<u32>)
        ensures
            r is None,
    {
        None
    }

    /// ELF images are not flattened: no data is given.
    pub fn firmware_data(&self) -> (r: &[u8])
        ensures
            r@.len() == 0,
    {
        &[]
    }
}

} // verus!
