//! Notes inside a `PT_NOTE` segment: 12-byte headers followed by a name and a
//! descriptor, each stored padded to a multiple of four bytes.

use vstd::prelude::*;
use crate::error::ExtractError;
use crate::le::{le_u32, u32_at};

verus! {

/// Note type of a GNU toolchain build id.
pub const NT_GNU_BUILD_ID: u32 = 3;
/// Note type of a Go toolchain build id.
pub const NT_GO_BUILD_ID: u32 = 4;
/// Bytes in a note header: name size, descriptor size, type.
pub const NOTE_HEADER_SIZE: u64 = 12;

/// Whether a note type is one of the two build-id types.
pub open spec fn is_build_id_type(t: int) -> bool {
    t == NT_GNU_BUILD_ID as int || t == NT_GO_BUILD_ID as int
}

/// `n` rounded up to the next multiple of four.
pub open spec fn round4(n: int) -> int {
    if n % 4 == 0 {
        n
    } else {
        (n / 4 + 1) * 4
    }
}

/// The smaller of `a` and `b`.
pub open spec fn min(a: int, b: int) -> int {
    if a <= b {
        a
    } else {
        b
    }
}

/// What scanning the notes of one segment comes to.
pub enum NoteScan {
    /// A build-id note was met first; these are its descriptor bytes.
    Found(Seq<u8>),
    /// The segment ended without a build-id note.
    Exhausted,
    /// The image ended inside a note header.
    Truncated,
}

/// Scans the notes from offset `pos` while `pos` lies before `end`. A name or
/// descriptor that runs past the image yields the bytes that are there; a
/// header that does is `Truncated`.
pub open spec fn scan_from(d: Seq<u8>, pos: int, end: int) -> NoteScan
    decreases d.len() - pos,
{
    if pos >= end {
        NoteScan::Exhausted
    } else if pos < 0 || pos + 12 > d.len() {
        NoteScan::Truncated
    } else {
        let namesz = le_u32(d, pos);
        let descsz = le_u32(d, pos + 4);
        let desc_at = min(pos + 12 + round4(namesz), d.len() as int);
        if is_build_id_type(le_u32(d, pos + 8)) {
            NoteScan::Found(d.subrange(desc_at, min(desc_at + descsz, d.len() as int)))
        } else {
            scan_from(d, min(desc_at + round4(descsz), d.len() as int), end)
        }
    }
}

/// The notes of the segment of `filesz` bytes at `offset`.
pub open spec fn scan_segment(d: Seq<u8>, offset: int, filesz: int) -> NoteScan {
    scan_from(d, offset, offset + filesz)
}

/// Rounds a note's name or descriptor size up to the next multiple of four,
/// the length it takes in the segment.
pub fn round_up_to_4(n: u32) -> (r: u64)
    ensures
        r == round4(n as int),
        r % 4 == 0,
        n <= r < n + 4,
{
    if n % 4 != 0 {
        ((n / 4) as u64 + 1) * 4
    } else {
        n as u64
    }
}

/// Scans the notes of the segment of `p_filesz` bytes at `p_offset` and returns
/// the descriptor of the first build-id note, `None` if there is none, or
/// `IoFailure` where the image ends inside a note header.
pub fn scan_notes(data: &[u8], p_offset: u64, p_filesz: u64) -> (r: Result<Option<&[u8]>, ExtractError>)
    ensures
        match scan_segment(data@, p_offset as int, p_filesz as int) {
            NoteScan::Found(desc) => r matches Ok(Some(s)) && s@ == desc,
            NoteScan::Exhausted => r matches Ok(None),
            NoteScan::Truncated => r == Err::<Option<&[u8]>, ExtractError>(ExtractError::IoFailure),
        },
{
    let ghost end = p_offset + p_filesz;
    let ulen: usize = data.len();
    let len = ulen as u64;
    let mut pos: u64 = p_offset;
    while pos - p_offset < p_filesz
        invariant
            p_offset <= pos,
            len == ulen,
            ulen == data@.len(),
            end == p_offset + p_filesz,
            pos > p_offset ==> pos <= len,
            scan_from(data@, pos as int, end) == scan_segment(data@, p_offset as int, p_filesz as int),
        decreases len - pos,
    {
        if pos > len || len - pos < NOTE_HEADER_SIZE {
            return Err(ExtractError::IoFailure);
        }
        let namesz = u32_at(data, pos).unwrap();
        let descsz = u32_at(data, pos + 4).unwrap();
        let n_type = u32_at(data, pos + 8).unwrap();
        let name_len = round_up_to_4(namesz);
        let desc_len = round_up_to_4(descsz);
        let name_at = pos + NOTE_HEADER_SIZE;
        let desc_at = if name_len >= len - name_at { len } else { name_at + name_len };
        if n_type == NT_GNU_BUILD_ID || n_type == NT_GO_BUILD_ID {
            let desc_end = if descsz as u64 >= len - desc_at { len } else { desc_at + descsz as u64 };
            let desc = vstd::slice::slice_subrange(data, desc_at as usize, desc_end as usize);
            return Ok(Some(desc));
        }
        pos = if desc_len >= len - desc_at { len } else { desc_at + desc_len };
    }
    Ok(None)
}

} // verus!
