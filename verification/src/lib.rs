//! Decision logic for making executables run where the conventional
//! absolute paths (`/lib64/ld-linux-x86-64.so.2`, `/usr/bin/python3`, ...)
//! do not exist: which files to touch, what to write into them, and what to
//! leave alone.
//!
//! The library reads no file and runs no program. Its callers hand it what
//! they read and what the external tools printed, and carry out what it
//! decides.
//!
//! - [`classify`]: which files are ELF binaries or scripts at all.
//! - [`loader`]: the dynamic loader named in the dependency resolver's
//!   output.
//! - [`elf`]: whether a binary's recorded loader is to be replaced.
//! - [`shebang`]: whether a script's first line is to be replaced, and by
//!   what.
//! - [`script`]: a script's bytes before and after.
//! - [`action`]: what was decided, and what of it is carried out.
//! - [`sweep`], [`error`]: counting failures over a run.
//! - [`tempname`]: names for temporary files.
//! - [`text`], [`path`], [`decode`]: characters, words, file names, bytes.

pub mod action;
pub mod classify;
pub mod decode;
pub mod elf;
pub mod error;
pub mod loader;
pub mod path;
pub mod script;
pub mod shebang;
pub mod sweep;
pub mod tempname;
pub mod text;
