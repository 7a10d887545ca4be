//! What the decision logic asks to be done to one file, and what of it the
//! caller has to carry out.
//!
//! Deciding and carrying out are kept apart. A decision is made from what
//! was read of the file and never from the mode of the run; whether it is
//! carried out depends on the mode alone.

use vstd::prelude::*;
use vstd::string::*;
use crate::elf::SET_INTERPRETER;
use crate::text::texts;

verus! {

/// The outcome of deciding about one file. This is what is reported, in a
/// dry run as in a real one.
#[derive(Debug, Clone, PartialEq, Eq)]
pub enum PatchAction {
    /// The file is left as it is.
    NoAction,
    /// The dynamic loader recorded in an ELF binary is to be replaced.
    RewriteElfInterpreter { old: String, new: String },
    /// The first line of a script is to be replaced.
    RewriteShebang { old_interpreter: String, new_invocation: String },
}

/// The mathematical content of a [`PatchAction`].
pub enum ActionView {
    NoAction,
    RewriteElfInterpreter { old: Seq<char>, new: Seq<char> },
    RewriteShebang { old_interpreter: Seq<char>, new_invocation: Seq<char> },
}

impl View for PatchAction {
    type V = ActionView;

    open spec fn view(&self) -> ActionView {
        match *self {
            PatchAction::NoAction => ActionView::NoAction,
            PatchAction::RewriteElfInterpreter { old, new } => ActionView::RewriteElfInterpreter {
                old: old@,
                new: new@,
            },
            PatchAction::RewriteShebang {
                old_interpreter,
                new_invocation,
            } => ActionView::RewriteShebang {
                old_interpreter: old_interpreter@,
                new_invocation: new_invocation@,
            },
        }
    }
}

/// What the caller has to carry out for a decided action.
#[derive(Debug, Clone, PartialEq, Eq)]
pub enum Effect {
    /// Nothing is written, moved or run.
    Nothing,
    /// The patch tool is to be run with these arguments, followed by the
    /// path of the binary.
    RunPatchTool { arguments: Vec<String> },
    /// The script is to be written to a temporary file, with this line in
    /// place of its first, and the temporary file moved over the script.
    ReplaceFirstLine { new_invocation: String },
}

/// The mathematical content of an [`Effect`].
pub enum EffectView {
    Nothing,
    RunPatchTool { arguments: Seq<Seq<char>> },
    ReplaceFirstLine { new_invocation: Seq<char> },
}

impl View for Effect {
    type V = EffectView;

    open spec fn view(&self) -> EffectView {
        match *self {
            Effect::Nothing => EffectView::Nothing,
            Effect::RunPatchTool { arguments } => EffectView::RunPatchTool {
                arguments: texts(arguments@),
            },
            Effect::ReplaceFirstLine { new_invocation } => EffectView::ReplaceFirstLine {
                new_invocation: new_invocation@,
            },
        }
    }
}

/// What is to be carried out for `action`: nothing at all in a dry run, and
/// otherwise what the action asks for.
pub open spec fn effect_of(action: ActionView, dry_run: bool) -> EffectView {
    if dry_run {
        EffectView::Nothing
    } else {
        match action {
            ActionView::NoAction => EffectView::Nothing,
            ActionView::RewriteElfInterpreter { new, .. } => EffectView::RunPatchTool {
                arguments: seq![SET_INTERPRETER@, new],
            },
            ActionView::RewriteShebang { new_invocation, .. } => EffectView::ReplaceFirstLine {
                new_invocation,
            },
        }
    }
}

impl PatchAction {
    /// What the caller has to carry out for this action.
    pub fn effect(&self, dry_run: bool) -> (r: Effect)
        ensures
            r@ == effect_of(self@, dry_run),
    {
        if dry_run {
            return Effect::Nothing;
        }
        match self {
            PatchAction::NoAction => Effect::Nothing,
            PatchAction::RewriteElfInterpreter { old, new } => {
                let mut arguments: Vec<String> = Vec::new();
                arguments.push(String::from_str(SET_INTERPRETER));
                arguments.push(new.clone());
                assert(texts(arguments@) == seq![SET_INTERPRETER@, new@]);
                Effect::RunPatchTool { arguments }
            },
            PatchAction::RewriteShebang { old_interpreter, new_invocation } => {
                Effect::ReplaceFirstLine { new_invocation: new_invocation.clone() }
            },
        }
    }
}

/// In a dry run nothing is carried out, whatever was decided: no temporary
/// file is written, nothing is moved, and the patch tool is not run. In a
/// real run exactly the actions that change a file have an effect. What is
/// reported is the decided action itself, which is the same in both modes.
pub proof fn lemma_dry_run_has_no_effect(action: ActionView)
    ensures
        effect_of(action, true) is Nothing,
        effect_of(action, false) is Nothing <==> action is NoAction,
        effect_of(action, false) is RunPatchTool <==> action is RewriteElfInterpreter,
        effect_of(action, false) is ReplaceFirstLine <==> action is RewriteShebang,
{
}

} // verus!
