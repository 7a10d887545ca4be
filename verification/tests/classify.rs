use patchall::classify::{
    classify, classify_magic, inspect_file_type, Candidate, FileKind, Inspection, EXECUTE_BITS,
    MAGIC_LEN,
};

fn executable_file(length: u64) -> Candidate {
    Candidate { is_regular: true, executable: true, length }
}

#[test]
fn constants() {
    assert_eq!(MAGIC_LEN, 4);
    assert_eq!(EXECUTE_BITS, 0o111);
}

#[test]
fn short_files_are_uninteresting() {
    assert_eq!(classify(&executable_file(0), b""), FileKind::Uninteresting);
    assert_eq!(classify(&executable_file(2), b"#!"), FileKind::Uninteresting);
    assert_eq!(classify(&executable_file(3), b"\x7fEL"), FileKind::Uninteresting);
    assert_eq!(classify(&executable_file(3), b"#!\n"), FileKind::Uninteresting);
    assert_eq!(classify(&executable_file(3), b"\x7fELF"), FileKind::Uninteresting);
    assert_eq!(classify(&executable_file(4), b"\x7fEL"), FileKind::Uninteresting);
}

#[test]
fn files_without_execute_bits_are_uninteresting() {
    let plain = Candidate { is_regular: true, executable: false, length: 100 };
    assert_eq!(classify(&plain, b"\x7fELF\x02\x01\x01"), FileKind::Uninteresting);
    assert_eq!(classify(&plain, b"#!/bin/sh\n"), FileKind::Uninteresting);
    assert_eq!(plain.inspect(), Inspection::Settled(FileKind::Uninteresting));
}

#[test]
fn other_entries_are_uninteresting() {
    let directory = Candidate { is_regular: false, executable: true, length: 4096 };
    assert_eq!(classify(&directory, b"\x7fELF"), FileKind::Uninteresting);
    assert_eq!(directory.inspect(), Inspection::Settled(FileKind::Uninteresting));
    assert_eq!(inspect_file_type(false), Inspection::Settled(FileKind::Uninteresting));
    assert_eq!(inspect_file_type(true), Inspection::NeedMetadata);
}

#[test]
fn elf_signature_is_recognised_whatever_follows() {
    assert_eq!(classify(&executable_file(4), b"\x7fELF"), FileKind::ElfBinary);
    assert_eq!(classify(&executable_file(64), b"\x7fELF\x02\x01\x01\x00"), FileKind::ElfBinary);
    assert_eq!(classify(&executable_file(64), b"\x7fELF#!/bin/sh\n"), FileKind::ElfBinary);
    assert_eq!(classify(&executable_file(9), b"\x7fELF\xff\xfe\x00\n\n"), FileKind::ElfBinary);
    assert_eq!(classify_magic(&[0x7F, b'E', b'L', b'F']), FileKind::ElfBinary);
}

#[test]
fn near_misses_of_the_elf_signature_are_not_elf() {
    assert_eq!(classify_magic(&[0x74, b'E', b'L', b'F']), FileKind::Uninteresting);
    assert_eq!(classify_magic(&[0x7F, b'E', b'L', b'G']), FileKind::Uninteresting);
    assert_eq!(classify_magic(&[0x7F, b'e', b'l', b'f']), FileKind::Uninteresting);
    assert_eq!(classify_magic(&[b'E', b'L', b'F', 0x7F]), FileKind::Uninteresting);
}

#[test]
fn shebang_is_recognised() {
    assert_eq!(classify(&executable_file(10), b"#!/bin/sh\n"), FileKind::ShebangScript);
    assert_eq!(classify(&executable_file(4), b"#!\n\n"), FileKind::ShebangScript);
    assert_eq!(classify(&executable_file(40), b"#! /usr/bin/env python\nprint()\n"), FileKind::ShebangScript);
    assert_eq!(classify_magic(&[b'#', b'!', b'/', b'b']), FileKind::ShebangScript);
    assert_eq!(classify_magic(&[b'#', b'!', 0, 0xff]), FileKind::ShebangScript);
}

#[test]
fn other_content_is_uninteresting() {
    assert_eq!(classify(&executable_file(10), b"hello worl"), FileKind::Uninteresting);
    assert_eq!(classify(&executable_file(10), b" #!/bin/sh"), FileKind::Uninteresting);
    assert_eq!(classify_magic(&[b'#', b'#', b'!', b'/']), FileKind::Uninteresting);
    assert_eq!(classify_magic(&[b'!', b'#', b'/', b'b']), FileKind::Uninteresting);
    assert_eq!(classify_magic(&[0, 0, 0, 0]), FileKind::Uninteresting);
}

#[test]
fn only_the_first_four_bytes_of_a_prefix_count() {
    assert_eq!(
        classify(&executable_file(100), b"#!xx\x7fELF"),
        classify(&executable_file(100), b"#!xx")
    );
    assert_eq!(
        classify(&executable_file(100), b"abcd#!"),
        FileKind::Uninteresting
    );
}

#[test]
fn candidates_from_metadata() {
    let c = Candidate::from_metadata(true, 0o100755, 1234);
    assert_eq!(c, Candidate { is_regular: true, executable: true, length: 1234 });
    assert_eq!(c.inspect(), Inspection::NeedMagic);
    assert!(Candidate::from_metadata(true, 0o100100, 4).executable);
    assert!(Candidate::from_metadata(true, 0o100010, 4).executable);
    assert!(Candidate::from_metadata(true, 0o100001, 4).executable);
    assert!(!Candidate::from_metadata(true, 0o100644, 4).executable);
    assert!(!Candidate::from_metadata(true, 0o104666, 4).executable);
    assert!(!Candidate::from_metadata(true, 0, 4).executable);
    assert!(!Candidate::from_metadata(false, 0o40755, 4096).is_regular);
}

#[test]
fn inspection_reads_only_what_can_matter() {
    assert_eq!(executable_file(4).inspect(), Inspection::NeedMagic);
    assert_eq!(executable_file(u64::MAX).inspect(), Inspection::NeedMagic);
    assert_eq!(executable_file(3).inspect(), Inspection::Settled(FileKind::Uninteresting));
    assert_eq!(executable_file(0).inspect(), Inspection::Settled(FileKind::Uninteresting));
    assert_eq!(
        Candidate::from_metadata(true, 0o644, 100).inspect(),
        Inspection::Settled(FileKind::Uninteresting)
    );
}
