//! Properties of build-id extraction as a whole, proved over the model that
//! `get_buildid` is verified against.

use vstd::prelude::*;
use crate::elf::{
    build_id_hex, e_phnum, e_phoff, has_elf_magic, is_note_phdr, phdr_at, phdr_notes, search_from,
    EHDR_SIZE, EI_NIDENT, ELFCLASS64, PHDR_SIZE,
};
use crate::error::ExtractError;
use crate::hex::hex_of;
use crate::le::le_u32;
use crate::note::{is_build_id_type, round4, scan_from, NoteScan};

verus! {

/// Whether `d` has a complete 64-bit header with the magic, the 64-bit class
/// and a non-zero program-header table offset.
pub open spec fn has_valid_header(d: Seq<u8>) -> bool {
    d.len() >= EHDR_SIZE && has_elf_magic(d) && d[4] == ELFCLASS64 && e_phoff(d) != 0
}

/// Whether program header `i` lies inside the image and is either no note
/// segment or one without a build-id note.
pub open spec fn passes_over(d: Seq<u8>, i: int) -> bool {
    &&& phdr_at(e_phoff(d), i) + PHDR_SIZE <= d.len()
    &&& (!is_note_phdr(d, e_phoff(d), i) || phdr_notes(d, e_phoff(d), i) is Exhausted)
}

/// Whether program header `i` lies inside the image and is a note segment
/// whose notes include a build-id note.
pub open spec fn yields_build_id(d: Seq<u8>, i: int) -> bool {
    &&& phdr_at(e_phoff(d), i) + PHDR_SIZE <= d.len()
    &&& is_note_phdr(d, e_phoff(d), i)
    &&& phdr_notes(d, e_phoff(d), i) is Found
}

/// An image whose first four bytes are not the ELF magic is rejected as
/// `NotElf`, whatever follows them.
pub proof fn bad_magic_is_not_elf(d: Seq<u8>)
    requires
        d.len() >= EI_NIDENT,
        !has_elf_magic(d),
    ensures
        build_id_hex(d) == Err::<Seq<char>, ExtractError>(ExtractError::NotElf),
{
}

/// An image with the magic and the 32-bit class byte is rejected as
/// `WrongClass`.
pub proof fn class_32_is_wrong_class(d: Seq<u8>)
    requires
        d.len() >= EI_NIDENT,
        has_elf_magic(d),
        d[4] == 1,
    ensures
        build_id_hex(d) == Err::<Seq<char>, ExtractError>(ExtractError::WrongClass),
{
}

/// A complete 64-bit header whose program-header offset is zero is rejected
/// as `NoProgramHeaders`.
pub proof fn zero_phoff_is_no_program_headers(d: Seq<u8>)
    requires
        d.len() >= EHDR_SIZE,
        has_elf_magic(d),
        d[4] == ELFCLASS64,
        e_phoff(d) == 0,
    ensures
        build_id_hex(d) == Err::<Seq<char>, ExtractError>(ExtractError::NoProgramHeaders),
{
}

proof fn search_passes_over(d: Seq<u8>, i: int)
    requires
        has_valid_header(d),
        0 <= i <= e_phnum(d),
        forall|j: int| i <= j < e_phnum(d) ==> passes_over(d, j),
    ensures
        search_from(d, e_phoff(d), e_phnum(d), i)
            == Err::<Seq<u8>, ExtractError>(ExtractError::BuildIdNotFound),
    decreases e_phnum(d) - i,
{
    if i < e_phnum(d) {
        assert(passes_over(d, i));
        search_passes_over(d, i + 1);
    }
}

/// An image whose program headers all lie inside it, and none of which is a
/// note segment holding a build-id note (no note segment at all, or only
/// notes of other types), yields `BuildIdNotFound`.
pub proof fn no_build_id_note_is_not_found(d: Seq<u8>)
    requires
        has_valid_header(d),
        forall|j: int| 0 <= j < e_phnum(d) ==> passes_over(d, j),
    ensures
        build_id_hex(d) == Err::<Seq<char>, ExtractError>(ExtractError::BuildIdNotFound),
{
    search_passes_over(d, 0);
}

proof fn search_reaches(d: Seq<u8>, i: int, k: int)
    requires
        has_valid_header(d),
        0 <= i <= k < e_phnum(d),
        forall|j: int| i <= j < k ==> passes_over(d, j),
        yields_build_id(d, k),
    ensures
        search_from(d, e_phoff(d), e_phnum(d), i)
            == Ok::<Seq<u8>, ExtractError>(phdr_notes(d, e_phoff(d), k)->Found_0),
    decreases k - i,
{
    if i < k {
        assert(passes_over(d, i));
        search_reaches(d, i + 1, k);
    }
}

/// Of two note segments that both hold a build-id note, the one whose
/// program header comes first gives the result, provided every program
/// header before it is passed over; the second is never reported.
pub proof fn first_match_wins(d: Seq<u8>, first: int, second: int)
    requires
        has_valid_header(d),
        0 <= first < second < e_phnum(d),
        forall|j: int| 0 <= j < first ==> passes_over(d, j),
        yields_build_id(d, first),
        yields_build_id(d, second),
    ensures
        build_id_hex(d) == Ok::<Seq<char>, ExtractError>(
            hex_of(phdr_notes(d, e_phoff(d), first)->Found_0),
        ),
{
    search_reaches(d, 0, first);
}

/// A note that lies wholly inside the image and before the segment's end
/// takes 12 header bytes and then its name and descriptor, each padded to a
/// multiple of four: a build-id note gives the unpadded descriptor that
/// follows the padded name, and any other note is skipped to the header that
/// follows its padded descriptor.
pub proof fn note_layout(d: Seq<u8>, pos: int, end: int)
    requires
        0 <= pos < end,
        pos + 12 + round4(le_u32(d, pos)) + round4(le_u32(d, pos + 4)) <= d.len(),
    ensures
        ({
            let desc_at = pos + 12 + round4(le_u32(d, pos));
            let next = desc_at + round4(le_u32(d, pos + 4));
            if is_build_id_type(le_u32(d, pos + 8)) {
                scan_from(d, pos, end) == NoteScan::Found(d.subrange(desc_at, desc_at + le_u32(d, pos + 4)))
            } else {
                scan_from(d, pos, end) == scan_from(d, next, end)
            }
        }),
{
}

} // verus!
