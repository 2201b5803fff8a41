use vdr::build_id::{
    build_id_from_notes, is_malformed_executable, to_hex, ElfNote, MAX_EXE_SIZE,
};
use vdr::{build_id_from_bytes, parse_executable_build_id};

fn note(name: &[u8], ty: u32, desc: &[u8]) -> Vec<u8> {
    let mut v = Vec::new();
    v.extend_from_slice(&(name.len() as u32).to_le_bytes());
    v.extend_from_slice(&(desc.len() as u32).to_le_bytes());
    v.extend_from_slice(&ty.to_le_bytes());
    v.extend_from_slice(name);
    while v.len() % 4 != 0 {
        v.push(0);
    }
    v.extend_from_slice(desc);
    while v.len() % 4 != 0 {
        v.push(0);
    }
    v
}

fn header(name: u32, ty: u32, offset: u64, size: u64, align: u64) -> Vec<u8> {
    let mut v = Vec::new();
    v.extend_from_slice(&name.to_le_bytes());
    v.extend_from_slice(&ty.to_le_bytes());
    v.extend_from_slice(&0u64.to_le_bytes());
    v.extend_from_slice(&0u64.to_le_bytes());
    v.extend_from_slice(&offset.to_le_bytes());
    v.extend_from_slice(&size.to_le_bytes());
    v.extend_from_slice(&0u32.to_le_bytes());
    v.extend_from_slice(&0u32.to_le_bytes());
    v.extend_from_slice(&align.to_le_bytes());
    v.extend_from_slice(&0u64.to_le_bytes());
    v
}

fn elf_with(section: &str, ty: u32, data: &[u8]) -> Vec<u8> {
    let mut strtab = vec![0u8];
    let name = strtab.len() as u32;
    strtab.extend_from_slice(section.as_bytes());
    strtab.push(0);
    let data_at = 64u64;
    let strtab_at = data_at + data.len() as u64;
    let shoff = strtab_at + strtab.len() as u64;
    let mut v = vec![0x7f, b'E', b'L', b'F', 2, 1, 1, 0, 0, 0, 0, 0, 0, 0, 0, 0];
    v.extend_from_slice(&2u16.to_le_bytes());
    v.extend_from_slice(&62u16.to_le_bytes());
    v.extend_from_slice(&1u32.to_le_bytes());
    v.extend_from_slice(&0u64.to_le_bytes());
    v.extend_from_slice(&0u64.to_le_bytes());
    v.extend_from_slice(&shoff.to_le_bytes());
    v.extend_from_slice(&0u32.to_le_bytes());
    v.extend_from_slice(&64u16.to_le_bytes());
    v.extend_from_slice(&56u16.to_le_bytes());
    v.extend_from_slice(&0u16.to_le_bytes());
    v.extend_from_slice(&64u16.to_le_bytes());
    v.extend_from_slice(&3u16.to_le_bytes());
    v.extend_from_slice(&2u16.to_le_bytes());
    assert_eq!(v.len(), 64);
    v.extend_from_slice(data);
    v.extend_from_slice(&strtab);
    v.extend(header(0, 0, 0, 0, 0));
    v.extend(header(name, ty, data_at, data.len() as u64, 4));
    v.extend(header(0, 3, strtab_at, strtab.len() as u64, 1));
    v
}

const SECTION: &str = ".note.gnu.build-id";

#[test]
fn finds_the_build_id() {
    let id = [0x77, 0x41, 0x9f, 0x0d, 0xa5, 0x10, 0x83, 0x0c, 0x00, 0xff];
    let exe = elf_with(SECTION, 7, &note(b"GNU\0", 3, &id));
    assert_eq!(build_id_from_bytes(&exe), Some("77419f0da510830c00ff".to_string()));
    assert_eq!(parse_executable_build_id(Some(&exe)), Some("77419f0da510830c00ff".to_string()));
}

#[test]
fn first_build_id_note_counts() {
    let mut notes = note(b"ABC\0", 3, &[1, 2]);
    notes.extend(note(b"GNU\0", 1, &[0; 16]));
    notes.extend(note(b"GNU\0", 3, &[0xab]));
    notes.extend(note(b"GNU\0", 3, &[0xcd]));
    let exe = elf_with(SECTION, 7, &notes);
    assert_eq!(build_id_from_bytes(&exe), Some("ab".to_string()));
}

#[test]
fn no_build_id_without_the_note() {
    let exe = elf_with(SECTION, 7, &note(b"GNU\0", 1, &[0; 16]));
    assert_eq!(build_id_from_bytes(&exe), None);
    let exe = elf_with(SECTION, 7, &[]);
    assert_eq!(build_id_from_bytes(&exe), None);
}

#[test]
fn no_build_id_in_other_sections() {
    let id = note(b"GNU\0", 3, &[1, 2, 3]);
    assert_eq!(build_id_from_bytes(&elf_with(".note.other", 7, &id)), None);
    assert_eq!(build_id_from_bytes(&elf_with(SECTION, 1, &id)), None);
}

#[test]
fn empty_build_id_is_none() {
    let exe = elf_with(SECTION, 7, &note(b"GNU\0", 3, &[]));
    assert_eq!(build_id_from_bytes(&exe), None);
}

#[test]
fn malformed_executables_have_no_build_id() {
    assert_eq!(build_id_from_bytes(&[]), None);
    assert_eq!(build_id_from_bytes(b"#!/bin/sh\n"), None);
    assert_eq!(build_id_from_bytes(b"\x7fELF"), None);
    assert_eq!(build_id_from_bytes(&[0u8; 200]), None);
}

#[test]
fn any_bytes_give_none_or_a_well_formed_build_id() {
    let exe = elf_with(SECTION, 7, &note(b"GNU\0", 3, &[0xde, 0xad, 0xbe, 0xef]));
    for at in 0..exe.len() {
        for with in [0x00u8, 0x01, 0x7f, 0x80, 0xff] {
            let mut bad = exe.clone();
            bad[at] = with;
            if let Some(id) = build_id_from_bytes(&bad) {
                assert!(!id.is_empty() && id.len() % 2 == 0);
                assert!(id.chars().all(|c| c.is_ascii_hexdigit()));
            }
        }
        if let Some(id) = build_id_from_bytes(&exe[..at]) {
            assert!(!id.is_empty() && id.len() % 2 == 0);
        }
    }
}

#[test]
fn unreadable_executable_has_no_build_id() {
    assert_eq!(parse_executable_build_id(None), None);
}

#[test]
fn large_executables_are_not_searched() {
    let mut exe = elf_with(SECTION, 7, &note(b"GNU\0", 3, &[0x12]));
    exe.resize(MAX_EXE_SIZE as usize, 0);
    assert_eq!(MAX_EXE_SIZE, 64 * 1024 * 1024);
    assert_eq!(parse_executable_build_id(Some(&exe)), Some("12".to_string()));
    exe.push(0);
    assert_eq!(parse_executable_build_id(Some(&exe)), None);
}

#[test]
fn malformed_executables_are_told_apart() {
    assert!(!is_malformed_executable(None));
    assert!(is_malformed_executable(Some(b"")));
    assert!(is_malformed_executable(Some(b"#!/bin/sh\n")));
    assert!(!is_malformed_executable(Some(&elf_with(".text", 1, &[]))));
    assert!(!is_malformed_executable(Some(&vec![0u8; MAX_EXE_SIZE as usize + 1])));
}

#[test]
fn many_other_notes_are_skipped() {
    let mut notes = Vec::new();
    for _ in 0..100_000 {
        notes.extend(note(b"", 0, &[]));
    }
    assert_eq!(build_id_from_bytes(&elf_with(SECTION, 7, &notes)), None);
    notes.extend(note(b"GNU\0", 3, &[0xfe]));
    assert_eq!(build_id_from_bytes(&elf_with(SECTION, 7, &notes)), Some("fe".to_string()));
}

#[test]
fn notes_are_searched_in_order() {
    assert_eq!(build_id_from_notes(&[]), None);
    assert_eq!(build_id_from_notes(&[ElfNote::Unknown, ElfNote::GnuAbiTag]), None);
    let notes = [ElfNote::Unknown, ElfNote::GnuBuildId(&[0xab, 0x01]), ElfNote::GnuBuildId(&[9])];
    assert_eq!(build_id_from_notes(&notes), Some("ab01".to_string()));
    let notes = [ElfNote::GnuBuildId(&[]), ElfNote::GnuBuildId(&[9])];
    assert_eq!(build_id_from_notes(&notes), None);
}

#[test]
fn hexadecimal_tells_bytes_apart() {
    assert_eq!(to_hex(&[]), "");
    for b in 0..=255u8 {
        assert_eq!(to_hex(&[b]), format!("{:02x}", b));
    }
    assert_ne!(to_hex(&[0x01, 0x02]), to_hex(&[0x10, 0x02]));
}
