//! The ELF64 file header and the program-header table, and the search for
//! the first build-id note.

use vstd::prelude::*;
use crate::error::ExtractError;
use crate::hex::{hex_of, to_hex};
use crate::le::{le_u16, le_u32, le_u64, u16_at, u32_at, u64_at};
use crate::note::{scan_notes, scan_segment, NoteScan};

verus! {

/// First byte of the ELF magic.
pub const ELFMAG0: u8 = 0x7f;
/// Second byte of the ELF magic, `E`.
pub const ELFMAG1: u8 = 0x45;
/// Third byte of the ELF magic, `L`.
pub const ELFMAG2: u8 = 0x4c;
/// Fourth byte of the ELF magic, `F`.
pub const ELFMAG3: u8 = 0x46;
/// Class byte of a 64-bit image.
pub const ELFCLASS64: u8 = 2;
/// Program-header type of a note segment.
pub const PT_NOTE: u32 = 4;
/// Bytes in the identification block.
pub const EI_NIDENT: u64 = 16;
/// Bytes in the whole ELF64 file header.
pub const EHDR_SIZE: u64 = 64;
/// Offset of `e_phoff` in the file header.
pub const E_PHOFF_AT: u64 = 32;
/// Offset of `e_phnum` in the file header.
pub const E_PHNUM_AT: u64 = 56;
/// Bytes in one ELF64 program header.
pub const PHDR_SIZE: u64 = 56;
/// Offset of `p_offset` in a program header.
pub const P_OFFSET_AT: u64 = 8;
/// Offset of `p_filesz` in a program header.
pub const P_FILESZ_AT: u64 = 32;

/// Whether the image starts with the four magic bytes.
pub open spec fn has_elf_magic(d: Seq<u8>) -> bool {
    d[0] == ELFMAG0 && d[1] == ELFMAG1 && d[2] == ELFMAG2 && d[3] == ELFMAG3
}

/// The offset of the program-header table.
pub open spec fn e_phoff(d: Seq<u8>) -> int {
    le_u64(d, E_PHOFF_AT as int)
}

/// The number of program headers.
pub open spec fn e_phnum(d: Seq<u8>) -> int {
    le_u16(d, E_PHNUM_AT as int)
}

/// The offset of program header `i` of the table at `phoff`.
pub open spec fn phdr_at(phoff: int, i: int) -> int {
    phoff + PHDR_SIZE * i
}

/// Whether program header `i` lies inside the image and is a note segment.
pub open spec fn is_note_phdr(d: Seq<u8>, phoff: int, i: int) -> bool {
    le_u32(d, phdr_at(phoff, i)) == PT_NOTE as int
}

/// What the notes of the segment that program header `i` describes come to.
pub open spec fn phdr_notes(d: Seq<u8>, phoff: int, i: int) -> NoteScan {
    let at = phdr_at(phoff, i);
    scan_segment(d, le_u64(d, at + P_OFFSET_AT), le_u64(d, at + P_FILESZ_AT))
}

/// Visits program headers `i`, `i + 1`, ... below `phnum` in table order and
/// returns the descriptor of the first build-id note of the first note segment
/// that has one.
pub open spec fn search_from(d: Seq<u8>, phoff: int, phnum: int, i: int) -> Result<Seq<u8>, ExtractError>
    decreases phnum - i,
{
    if i >= phnum {
        Err(ExtractError::BuildIdNotFound)
    } else if phdr_at(phoff, i) + PHDR_SIZE > d.len() {
        Err(ExtractError::IoFailure)
    } else if !is_note_phdr(d, phoff, i) {
        search_from(d, phoff, phnum, i + 1)
    } else {
        match phdr_notes(d, phoff, i) {
            NoteScan::Found(desc) => Ok(desc),
            NoteScan::Truncated => Err(ExtractError::IoFailure),
            NoteScan::Exhausted => search_from(d, phoff, phnum, i + 1),
        }
    }
}

/// The descriptor bytes of the build id of image `d`, or why there is none.
pub open spec fn build_id_bytes(d: Seq<u8>) -> Result<Seq<u8>, ExtractError> {
    if d.len() < EI_NIDENT {
        Err(ExtractError::IoFailure)
    } else if !has_elf_magic(d) {
        Err(ExtractError::NotElf)
    } else if d[4] != ELFCLASS64 {
        Err(ExtractError::WrongClass)
    } else if d.len() < EHDR_SIZE {
        Err(ExtractError::IoFailure)
    } else if e_phoff(d) == 0 {
        Err(ExtractError::NoProgramHeaders)
    } else {
        search_from(d, e_phoff(d), e_phnum(d), 0)
    }
}

/// The build id of image `d` as lowercase hexadecimal text, or why there is none.
pub open spec fn build_id_hex(d: Seq<u8>) -> Result<Seq<char>, ExtractError> {
    match build_id_bytes(d) {
        Ok(desc) => Ok(hex_of(desc)),
        Err(e) => Err(e),
    }
}

/// Walks the `phnum` program headers of the table at `phoff` and returns the
/// descriptor of the first build-id note found in a note segment.
pub fn find_build_id(data: &[u8], phoff: u64, phnum: u16) -> (r: Result<&[u8], ExtractError>)
    ensures
        match search_from(data@, phoff as int, phnum as int, 0) {
            Ok(desc) => r matches Ok(s) && s@ == desc,
            Err(e) => r == Err::<&[u8], ExtractError>(e),
        },
{
    let mut i: u16 = 0;
    let mut at: u64 = phoff;
    while i < phnum
        invariant
            i <= phnum,
            at == phdr_at(phoff as int, i as int),
            at <= data@.len() || i == 0,
            search_from(data@, phoff as int, phnum as int, i as int)
                == search_from(data@, phoff as int, phnum as int, 0),
        decreases phnum - i,
    {
        let len = data.len() as u64;
        if at > len || len - at < PHDR_SIZE {
            return Err(ExtractError::IoFailure);
        }
        let p_type = u32_at(data, at).unwrap();
        if p_type == PT_NOTE {
            let p_offset = u64_at(data, at + P_OFFSET_AT).unwrap();
            let p_filesz = u64_at(data, at + P_FILESZ_AT).unwrap();
            match scan_notes(data, p_offset, p_filesz) {
                Ok(Some(desc)) => {
                    return Ok(desc);
                },
                Ok(None) => {},
                Err(e) => {
                    return Err(e);
                },
            }
        }
        i = i + 1;
        at = at + PHDR_SIZE;
    }
    Err(ExtractError::BuildIdNotFound)
}

/// Extracts the build id of the ELF64 image `data`: the descriptor of the
/// first `NT_GNU_BUILD_ID` or `NT_GO_BUILD_ID` note of the first `PT_NOTE`
/// segment that holds one, as lowercase hexadecimal text.
pub fn get_buildid(data: &[u8]) -> (r: Result<String, ExtractError>)
    ensures
        match build_id_hex(data@) {
            Ok(text) => r matches Ok(s) && s@ == text,
            Err(e) => r == Err::<String, ExtractError>(e),
        },
{
    let len = data.len() as u64;
    if len < EI_NIDENT {
        return Err(ExtractError::IoFailure);
    }
    if data[0] != ELFMAG0 || data[1] != ELFMAG1 || data[2] != ELFMAG2 || data[3] != ELFMAG3 {
        return Err(ExtractError::NotElf);
    }
    if data[4] != ELFCLASS64 {
        return Err(ExtractError::WrongClass);
    }
    if len < EHDR_SIZE {
        return Err(ExtractError::IoFailure);
    }
    let phoff = u64_at(data, E_PHOFF_AT).unwrap();
    let phnum = u16_at(data, E_PHNUM_AT).unwrap();
    if phoff == 0 {
        return Err(ExtractError::NoProgramHeaders);
    }
    match find_build_id(data, phoff, phnum) {
        Ok(desc) => Ok(to_hex(desc)),
        Err(e) => Err(e),
    }
}

} // verus!
