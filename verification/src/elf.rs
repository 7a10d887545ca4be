//! ELF binaries and the dynamic loader recorded in them.
//!
//! A binary whose recorded loader exists on disk is taken to be linked as
//! it should be. Any other is to be pointed at the loader that the running
//! program itself uses; the change is made by an external tool.

use vstd::prelude::*;
use vstd::string::*;
use crate::action::{effect_of, ActionView, EffectView, PatchAction};
use crate::error::{ErrorKind, ErrorView, PatchError};
use crate::loader::{failure_message, LoaderPath, ResolutionError};

verus! {

/// The program that replaces the loader recorded in a binary.
pub const PATCH_TOOL: &'static str = "patchelf";

/// The option of the patch tool that is followed by the new loader.
pub const SET_INTERPRETER: &'static str = "--set-interpreter";

/// What is shown when the patch tool reports failure.
pub const PATCH_TOOL_FAILED: &'static str = "patchelf failed";

/// The loader that a binary records, as the resolver reports it for that
/// binary.
pub type ElfInterpreterInfo = LoaderPath;

/// What is decided for a binary that records the loader `current`, given
/// whether that path exists, where `loader` is the loader to use instead.
pub open spec fn elf_action(current: Seq<char>, current_exists: bool, loader: Seq<char>)
    -> ActionView {
    if current_exists {
        ActionView::NoAction
    } else {
        ActionView::RewriteElfInterpreter { old: current, new: loader }
    }
}

/// Decides what to do about a binary that records the loader `current`.
/// Whether a loader that exists is the wanted one is not looked at.
pub fn plan_elf(current: &ElfInterpreterInfo, current_exists: bool, loader: &LoaderPath) -> (r:
    PatchAction)
    ensures
        r@ == elf_action(current@, current_exists, loader@),
{
    if current_exists {
        PatchAction::NoAction
    } else {
        PatchAction::RewriteElfInterpreter { old: current.path.clone(), new: loader.path.clone() }
    }
}

/// What the patch tool's exit status means for the file.
pub fn patch_tool_outcome(success: bool) -> (r: Result<(), PatchError>)
    ensures
        r is Ok <==> success,
        r matches Err(e) ==> e@ == (ErrorView {
            kind: ErrorKind::ElfPatch,
            message: PATCH_TOOL_FAILED@,
        }),
{
    if success {
        Ok(())
    } else {
        Err(PatchError::new(ErrorKind::ElfPatch, String::from_str(PATCH_TOOL_FAILED)))
    }
}

/// The loader that a binary records, from what the resolver made of the
/// binary. A binary for which the resolver fails or names no loader (one
/// that is statically linked, say) is a failure of that file alone.
pub fn recorded_loader(found: Result<LoaderPath, ResolutionError>) -> (r: Result<
    ElfInterpreterInfo,
    PatchError,
>)
    ensures
        match (found, r) {
            (Ok(current), Ok(loader)) => loader == current,
            (Err(e), Err(failure)) => failure@ == (ErrorView {
                kind: ErrorKind::ElfPatch,
                message: failure_message(e@),
            }),
            _ => false,
        },
{
    match found {
        Ok(loader) => Ok(loader),
        Err(e) => Err(PatchError::new(ErrorKind::ElfPatch, e.message())),
    }
}

/// A binary whose recorded loader exists is left alone, in every mode. One
/// whose recorded loader does not exist is reported with the old and the
/// new loader, and outside a dry run the patch tool is to be run with the
/// new loader.
pub proof fn lemma_elf_decision(
    current: Seq<char>,
    current_exists: bool,
    loader: Seq<char>,
    dry_run: bool,
)
    ensures
        current_exists ==> elf_action(current, current_exists, loader) is NoAction && effect_of(
            elf_action(current, current_exists, loader),
            dry_run,
        ) is Nothing,
        !current_exists ==> elf_action(current, current_exists, loader)
            == (ActionView::RewriteElfInterpreter { old: current, new: loader }),
        !current_exists && !dry_run ==> effect_of(
            elf_action(current, current_exists, loader),
            dry_run,
        ) == (EffectView::RunPatchTool { arguments: seq![SET_INTERPRETER@, loader] }),
        !current_exists && dry_run ==> effect_of(
            elf_action(current, current_exists, loader),
            dry_run,
        ) is Nothing,
{
}

} // verus!
