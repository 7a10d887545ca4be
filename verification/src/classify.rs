//! Telling ELF binaries and `#!` scripts from everything else.
//!
//! Only regular files with an execute bit set and at least four bytes are
//! looked into; of those, the first four bytes decide.

use vstd::prelude::*;

verus! {

/// How many leading bytes of a file are read to classify it.
pub const MAGIC_LEN: usize = 4;

/// The execute bits of owner, group and others in a file mode.
pub const EXECUTE_BITS: u32 = 0o111;

/// What kind of file a candidate is.
#[derive(Debug, Clone, Copy, PartialEq, Eq, Structural)]
pub enum FileKind {
    /// Nothing that this library patches.
    Uninteresting,
    /// A binary that starts with the ELF signature.
    ElfBinary,
    /// A script that starts with `#!`.
    ShebangScript,
}

/// What is known of a directory entry before it is opened.
#[derive(Debug, Clone, Copy, PartialEq, Eq, Structural)]
pub struct Candidate {
    /// Whether the entry is a regular file.
    pub is_regular: bool,
    /// Whether any of the execute bits is set.
    pub executable: bool,
    /// The file's length in bytes.
    pub length: u64,
}

/// What has to happen next before an entry's kind is known.
#[derive(Debug, Clone, Copy, PartialEq, Eq, Structural)]
pub enum Inspection {
    /// The kind is settled; nothing more is read.
    Settled(FileKind),
    /// The entry's mode and length are to be looked up.
    NeedMetadata,
    /// The first four bytes of the file are to be read.
    NeedMagic,
}

/// Whether `mode` has an execute bit set for owner, group or others.
pub open spec fn mode_is_executable(mode: u32) -> bool {
    mode & EXECUTE_BITS != 0
}

/// The kind that the first bytes of a file stand for: the ELF signature
/// first, then `#!`.
pub open spec fn magic_kind(magic: Seq<u8>) -> FileKind {
    if magic.len() >= 4 && magic[0] == 0x7F && magic[1] == 0x45 && magic[2] == 0x4C && magic[3]
        == 0x46 {
        FileKind::ElfBinary
    } else if magic.len() >= 2 && magic[0] == 0x23 && magic[1] == 0x21 {
        FileKind::ShebangScript
    } else {
        FileKind::Uninteresting
    }
}

/// The kind of a candidate whose file holds `content`.
pub open spec fn kind_of(candidate: Candidate, content: Seq<u8>) -> FileKind {
    if candidate.worth_reading() && content.len() >= MAGIC_LEN {
        magic_kind(content.take(MAGIC_LEN as int))
    } else {
        FileKind::Uninteresting
    }
}

impl Candidate {
    /// Whether the file has to be opened to classify it.
    pub open spec fn worth_reading(self) -> bool {
        self.is_regular && self.executable && self.length >= MAGIC_LEN
    }

    /// What has to happen once the candidate's mode and length are known.
    pub open spec fn inspection(self) -> Inspection {
        if self.worth_reading() {
            Inspection::NeedMagic
        } else {
            Inspection::Settled(FileKind::Uninteresting)
        }
    }

    /// The candidate that an entry's type, mode and length describe.
    pub fn from_metadata(is_regular: bool, mode: u32, length: u64) -> (c: Candidate)
        ensures
            c == (Candidate { is_regular, executable: mode_is_executable(mode), length }),
    {
        Candidate { is_regular, executable: mode & EXECUTE_BITS != 0, length }
    }

    /// What to do once the candidate's mode and length are known: the file
    /// is read only if it is regular, executable and long enough.
    pub fn inspect(&self) -> (r: Inspection)
        ensures
            r == self.inspection(),
    {
        if self.is_regular && self.executable && self.length >= 4 {
            Inspection::NeedMagic
        } else {
            Inspection::Settled(FileKind::Uninteresting)
        }
    }
}

/// What to do once an entry's type is known: anything but a regular file is
/// settled without looking up its mode or length.
pub fn inspect_file_type(is_regular: bool) -> (r: Inspection)
    ensures
        r == if is_regular {
            Inspection::NeedMetadata
        } else {
            Inspection::Settled(FileKind::Uninteresting)
        },
{
    if is_regular {
        Inspection::NeedMetadata
    } else {
        Inspection::Settled(FileKind::Uninteresting)
    }
}

/// The kind that the first four bytes of a file stand for.
pub fn classify_magic(magic: &[u8; 4]) -> (kind: FileKind)
    ensures
        kind == magic_kind(magic@),
{
    if magic[0] == 0x7F && magic[1] == 0x45 && magic[2] == 0x4C && magic[3] == 0x46 {
        FileKind::ElfBinary
    } else if magic[0] == 0x23 && magic[1] == 0x21 {
        FileKind::ShebangScript
    } else {
        FileKind::Uninteresting
    }
}

/// Classifies a candidate whose file starts with `prefix`. Of `prefix` at
/// most the first four bytes are looked at.
pub fn classify(candidate: &Candidate, prefix: &[u8]) -> (kind: FileKind)
    ensures
        kind == kind_of(*candidate, prefix@),
{
    match candidate.inspect() {
        Inspection::NeedMagic => {
            if prefix.len() >= 4 {
                let magic: [u8; 4] = [prefix[0], prefix[1], prefix[2], prefix[3]];
                classify_magic(&magic)
            } else {
                FileKind::Uninteresting
            }
        },
        _ => FileKind::Uninteresting,
    }
}

/// A file of fewer than four bytes, or one without an execute bit, is
/// uninteresting whatever it holds, and is settled without being read.
pub proof fn lemma_short_or_not_executable(candidate: Candidate, content: Seq<u8>)
    requires
        content.len() < 4 || candidate.length < 4 || !candidate.executable,
    ensures
        kind_of(candidate, content) == FileKind::Uninteresting,
        candidate.length < 4 || !candidate.executable ==> candidate.inspection()
            == Inspection::Settled(FileKind::Uninteresting),
{
}

/// Only the first four bytes of a file bear on its kind.
pub proof fn lemma_only_magic_matters(candidate: Candidate, a: Seq<u8>, b: Seq<u8>)
    requires
        a.len() >= 4,
        b.len() >= 4,
        a.take(4) == b.take(4),
    ensures
        kind_of(candidate, a) == kind_of(candidate, b),
{
}

/// An executable regular file that begins with the ELF signature is an ELF
/// binary, whatever follows the signature.
pub proof fn lemma_elf_signature_decides(candidate: Candidate, content: Seq<u8>)
    requires
        candidate.worth_reading(),
        content.len() >= 4,
        content[0] == 0x7F,
        content[1] == 0x45,
        content[2] == 0x4C,
        content[3] == 0x46,
    ensures
        kind_of(candidate, content) == FileKind::ElfBinary,
{
}

/// An executable regular file of at least four bytes that begins with `#!`
/// is a script.
pub proof fn lemma_shebang_signature_decides(candidate: Candidate, content: Seq<u8>)
    requires
        candidate.worth_reading(),
        content.len() >= 4,
        content[0] == 0x23,
        content[1] == 0x21,
    ensures
        kind_of(candidate, content) == FileKind::ShebangScript,
{
}

} // verus!
