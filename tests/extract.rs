use elfget::elf::get_buildid;
use elfget::error::ExtractError;
use elfget::hex::to_hex;
use elfget::le::{u16_at, u32_at, u64_at};
use elfget::note::{round_up_to_4, scan_notes};

const EHDR: usize = 64;
const PHDR: usize = 56;

fn elf_header(phoff: u64, phnum: u16) -> Vec<u8> {
    let mut h = vec![0x7f, b'E', b'L', b'F', 2, 1, 1, 0, 0, 0, 0, 0, 0, 0, 0, 0];
    h.extend_from_slice(&2u16.to_le_bytes()); // e_type
    h.extend_from_slice(&62u16.to_le_bytes()); // e_machine
    h.extend_from_slice(&1u32.to_le_bytes()); // e_version
    h.extend_from_slice(&0x401000u64.to_le_bytes()); // e_entry
    h.extend_from_slice(&phoff.to_le_bytes());
    h.extend_from_slice(&0u64.to_le_bytes()); // e_shoff
    h.extend_from_slice(&0u32.to_le_bytes()); // e_flags
    h.extend_from_slice(&64u16.to_le_bytes()); // e_ehsize
    h.extend_from_slice(&56u16.to_le_bytes()); // e_phentsize
    h.extend_from_slice(&phnum.to_le_bytes());
    h.extend_from_slice(&64u16.to_le_bytes()); // e_shentsize
    h.extend_from_slice(&0u16.to_le_bytes()); // e_shnum
    h.extend_from_slice(&0u16.to_le_bytes()); // e_shstrndx
    assert_eq!(h.len(), EHDR);
    h
}

fn program_header(p_type: u32, offset: u64, filesz: u64) -> Vec<u8> {
    let mut p = Vec::new();
    p.extend_from_slice(&p_type.to_le_bytes());
    p.extend_from_slice(&4u32.to_le_bytes()); // p_flags
    p.extend_from_slice(&offset.to_le_bytes());
    p.extend_from_slice(&0u64.to_le_bytes()); // p_vaddr
    p.extend_from_slice(&0u64.to_le_bytes()); // p_paddr
    p.extend_from_slice(&filesz.to_le_bytes());
    p.extend_from_slice(&filesz.to_le_bytes()); // p_memsz
    p.extend_from_slice(&4u64.to_le_bytes()); // p_align
    assert_eq!(p.len(), PHDR);
    p
}

fn pad4(v: &mut Vec<u8>) {
    while v.len() % 4 != 0 {
        v.push(0);
    }
}

fn note(n_type: u32, name: &[u8], desc: &[u8]) -> Vec<u8> {
    let mut n = Vec::new();
    n.extend_from_slice(&(name.len() as u32).to_le_bytes());
    n.extend_from_slice(&(desc.len() as u32).to_le_bytes());
    n.extend_from_slice(&n_type.to_le_bytes());
    n.extend_from_slice(name);
    pad4(&mut n);
    n.extend_from_slice(desc);
    pad4(&mut n);
    n
}

/// An image with the given program headers (type and note bytes) laid out
/// after the header, each segment's notes following the table in order.
fn image(segments: &[(u32, Vec<u8>)]) -> Vec<u8> {
    let mut out = elf_header(EHDR as u64, segments.len() as u16);
    let mut offset = EHDR + PHDR * segments.len();
    for (p_type, notes) in segments {
        out.extend(program_header(*p_type, offset as u64, notes.len() as u64));
        offset += notes.len();
    }
    for (_, notes) in segments {
        out.extend_from_slice(notes);
    }
    out
}

#[test]
fn round_trip_gnu_build_id() {
    let data = image(&[(4, note(3, b"GNU\0", &[0xDE, 0xAD, 0xBE, 0xEF]))]);
    assert_eq!(get_buildid(&data), Ok("deadbeef".to_string()));
}

#[test]
fn go_build_id_recognized() {
    let data = image(&[(4, note(4, b"Go\0\0", &[0x01, 0x02]))]);
    assert_eq!(get_buildid(&data), Ok("0102".to_string()));
}

#[test]
fn name_of_five_bytes_is_padded_to_eight() {
    let first = note(3, b"GNU\0x", &[0x11, 0x22, 0x33, 0x44]);
    assert_eq!(first.len(), 12 + 8 + 4);
    let data = image(&[(4, first)]);
    assert_eq!(get_buildid(&data), Ok("11223344".to_string()));
}

#[test]
fn padded_notes_are_skipped_without_losing_position() {
    let mut notes = note(1, b"GNU\0x", &[0xAA, 0xBB, 0xCC]);
    notes.extend(note(2, b"abcde", &[0x01]));
    notes.extend(note(3, b"GNU\0", &[0xCA, 0xFE, 0xBA, 0xBE, 0x00, 0x01]));
    let data = image(&[(4, notes)]);
    assert_eq!(get_buildid(&data), Ok("cafebabe0001".to_string()));
}

#[test]
fn round_up_to_4_values() {
    assert_eq!(round_up_to_4(0), 0);
    assert_eq!(round_up_to_4(1), 4);
    assert_eq!(round_up_to_4(4), 4);
    assert_eq!(round_up_to_4(5), 8);
    assert_eq!(round_up_to_4(7), 8);
    assert_eq!(round_up_to_4(8), 8);
    assert_eq!(round_up_to_4(u32::MAX), 4_294_967_296);
}

#[test]
fn bad_magic_is_not_elf() {
    let good = image(&[(4, note(3, b"GNU\0", &[1, 2, 3, 4]))]);
    for i in 0..4 {
        let mut data = good.clone();
        data[i] ^= 0x20;
        assert_eq!(get_buildid(&data), Err(ExtractError::NotElf));
    }
    let mut junk = vec![0u8; 16];
    junk[4] = 2;
    assert_eq!(get_buildid(&junk), Err(ExtractError::NotElf));
    assert_eq!(get_buildid(b"MZ\x90\x00 not an elf image at all"), Err(ExtractError::NotElf));
}

#[test]
fn class_32_is_wrong_class() {
    let mut data = image(&[(4, note(3, b"GNU\0", &[1, 2, 3, 4]))]);
    data[4] = 1;
    assert_eq!(get_buildid(&data), Err(ExtractError::WrongClass));
    assert_eq!(get_buildid(&data[..16]), Err(ExtractError::WrongClass));
}

#[test]
fn zero_phoff_is_no_program_headers() {
    let data = elf_header(0, 3);
    assert_eq!(get_buildid(&data), Err(ExtractError::NoProgramHeaders));
}

#[test]
fn short_images_are_io_failures() {
    assert_eq!(get_buildid(&[]), Err(ExtractError::IoFailure));
    assert_eq!(get_buildid(&[0x7f, b'E', b'L', b'F', 2]), Err(ExtractError::IoFailure));
    let header = elf_header(64, 1);
    assert_eq!(get_buildid(&header[..63]), Err(ExtractError::IoFailure));
    // The table promises one program header that is not there.
    assert_eq!(get_buildid(&header), Err(ExtractError::IoFailure));
}

#[test]
fn note_header_past_the_end_is_io_failure() {
    let mut data = image(&[(4, note(3, b"GNU\0", &[1, 2, 3, 4]))]);
    let keep = EHDR + PHDR + 8;
    data.truncate(keep);
    assert_eq!(get_buildid(&data), Err(ExtractError::IoFailure));
}

#[test]
fn no_note_segment_is_not_found() {
    let data = image(&[(1, vec![0u8; 16]), (6, vec![0u8; 8])]);
    assert_eq!(get_buildid(&data), Err(ExtractError::BuildIdNotFound));
    let empty_table = elf_header(64, 0);
    assert_eq!(get_buildid(&empty_table), Err(ExtractError::BuildIdNotFound));
}

#[test]
fn unrecognized_notes_are_not_found() {
    let mut notes = note(1, b"GNU\0", &[0u8; 16]);
    notes.extend(note(5, b"GNU\0", &[1, 2]));
    let data = image(&[(4, notes)]);
    assert_eq!(get_buildid(&data), Err(ExtractError::BuildIdNotFound));
}

#[test]
fn empty_note_segment_is_not_found() {
    let data = image(&[(4, Vec::new())]);
    assert_eq!(get_buildid(&data), Err(ExtractError::BuildIdNotFound));
}

#[test]
fn first_match_wins() {
    let data = image(&[
        (1, vec![0u8; 8]),
        (4, note(3, b"GNU\0", &[0xAB, 0xCD])),
        (4, note(4, b"Go\0\0", &[0x12, 0x34, 0x56, 0x78])),
    ]);
    assert_eq!(get_buildid(&data), Ok("abcd".to_string()));
}

#[test]
fn later_segment_found_after_exhausted_one() {
    let data = image(&[
        (4, note(1, b"GNU\0", &[0xFF; 4])),
        (4, note(4, b"Go\0\0", &[0x12, 0x34])),
    ]);
    assert_eq!(get_buildid(&data), Ok("1234".to_string()));
}

#[test]
fn descriptor_cut_by_end_of_image_keeps_what_is_there() {
    let mut data = image(&[(4, note(3, b"GNU\0", &[0x01, 0x02, 0x03, 0x04, 0x05, 0x06, 0x07, 0x08]))]);
    let len = data.len();
    data.truncate(len - 5);
    assert_eq!(get_buildid(&data), Ok("010203".to_string()));
}

#[test]
fn scan_notes_on_a_segment() {
    let mut seg = vec![0u8; 4];
    seg.extend(note(1, b"x", &[9, 9]));
    let at = seg.len() as u64;
    seg.extend(note(3, b"GNU\0", &[0x5a, 0xa5]));
    assert_eq!(scan_notes(&seg, 4, seg.len() as u64 - 4), Ok(Some(&[0x5a, 0xa5][..])));
    assert_eq!(scan_notes(&seg, 4, at - 4), Ok(None));
    assert_eq!(scan_notes(&seg, 4, 0), Ok(None));
    assert_eq!(scan_notes(&seg, seg.len() as u64, 1), Err(ExtractError::IoFailure));
}

#[test]
fn to_hex_is_lowercase_pairs() {
    assert_eq!(to_hex(&[]), "");
    assert_eq!(to_hex(&[0x00, 0x0f, 0xa0, 0xff, 0x7b]), "000fa0ff7b");
}

#[test]
fn little_endian_fields() {
    let b = [0x01, 0x02, 0x03, 0x04, 0x05, 0x06, 0x07, 0x08, 0x09];
    assert_eq!(u16_at(&b, 1), Some(0x0302));
    assert_eq!(u32_at(&b, 0), Some(0x04030201));
    assert_eq!(u64_at(&b, 1), Some(0x0908070605040302));
    assert_eq!(u64_at(&b, 2), None);
    assert_eq!(u32_at(&b, u64::MAX), None);
    assert_eq!(u16_at(&b, 8), None);
}

#[test]
fn table_at_a_later_offset_is_read_little_endian() {
    let mut data = elf_header(0x100, 1);
    data.resize(0x100, 0xEE);
    let note_at = 0x100 + PHDR;
    let notes = note(3, b"GNU\0", &[0x42; 4]);
    data.extend(program_header(4, note_at as u64, notes.len() as u64));
    data.extend(notes);
    assert_eq!(get_buildid(&data), Ok("42424242".to_string()));
}
