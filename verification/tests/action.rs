use patchall::action::{Effect, PatchAction};
use patchall::error::{ErrorKind, PatchError};

fn elf() -> PatchAction {
    PatchAction::RewriteElfInterpreter { old: "/lib64/ld.so".to_string(), new: "/nix/ld.so".to_string() }
}

fn script() -> PatchAction {
    PatchAction::RewriteShebang {
        old_interpreter: "/usr/bin/python3".to_string(),
        new_invocation: "#!/usr/bin/env python3".to_string(),
    }
}

#[test]
fn dry_run_has_no_effect() {
    assert_eq!(PatchAction::NoAction.effect(true), Effect::Nothing);
    assert_eq!(elf().effect(true), Effect::Nothing);
    assert_eq!(script().effect(true), Effect::Nothing);
}

#[test]
fn real_run_carries_out_what_was_decided() {
    assert_eq!(PatchAction::NoAction.effect(false), Effect::Nothing);
    assert_eq!(
        elf().effect(false),
        Effect::RunPatchTool {
            arguments: vec!["--set-interpreter".to_string(), "/nix/ld.so".to_string()]
        }
    );
    assert_eq!(
        script().effect(false),
        Effect::ReplaceFirstLine { new_invocation: "#!/usr/bin/env python3".to_string() }
    );
}

#[test]
fn the_decision_does_not_depend_on_the_mode() {
    let decided = patchall::shebang::plan_line("#!/usr/bin/python3 -u somearg");
    assert_eq!(decided.effect(true), Effect::Nothing);
    assert_eq!(
        decided.effect(false),
        Effect::ReplaceFirstLine { new_invocation: "#!/usr/bin/env python3 -u somearg".to_string() }
    );
    assert_eq!(
        decided,
        PatchAction::RewriteShebang {
            old_interpreter: "/usr/bin/python3".to_string(),
            new_invocation: "#!/usr/bin/env python3 -u somearg".to_string(),
        }
    );
}

#[test]
fn only_loader_resolution_is_fatal() {
    assert!(ErrorKind::LoaderResolution.is_fatal());
    assert!(!ErrorKind::Traversal.is_fatal());
    assert!(!ErrorKind::ClassificationIo.is_fatal());
    assert!(!ErrorKind::ElfPatch.is_fatal());
    assert!(!ErrorKind::ShebangRewrite.is_fatal());
    assert!(PatchError::new(ErrorKind::LoaderResolution, "x".to_string()).is_fatal());
    assert!(!PatchError::new(ErrorKind::Traversal, "x".to_string()).is_fatal());
}

#[test]
fn errors_keep_kind_and_message() {
    let e = PatchError::new(ErrorKind::ShebangRewrite, "rename failed".to_string());
    assert_eq!(e.kind, ErrorKind::ShebangRewrite);
    assert_eq!(e.message, "rename failed");
}
