use patchall::action::PatchAction;
use patchall::error::{ErrorKind, PatchError};
use patchall::loader::{LoaderPath, ResolutionError, NO_LOADER_MESSAGE};
use patchall::sweep::{begin_run, decimal_text, tally, SweepSummary};

fn failure(kind: ErrorKind) -> Result<PatchAction, PatchError> {
    Err(PatchError::new(kind, "failed".to_string()))
}

#[test]
fn decimal_text_of_numbers() {
    assert_eq!(decimal_text(0), "0");
    assert_eq!(decimal_text(7), "7");
    assert_eq!(decimal_text(9), "9");
    assert_eq!(decimal_text(10), "10");
    assert_eq!(decimal_text(42), "42");
    assert_eq!(decimal_text(100), "100");
    assert_eq!(decimal_text(1234567890), "1234567890");
    assert_eq!(decimal_text(u64::MAX), "18446744073709551615");
}

#[test]
fn decimal_text_agrees_with_formatting() {
    let mut n: u64 = 0;
    while n < 2000 {
        assert_eq!(decimal_text(n), format!("{}", n));
        n += 1;
    }
}

#[test]
fn clean_sweep_reports_nothing() {
    let summary = SweepSummary::new();
    assert_eq!(summary.error_count(), 0);
    assert_eq!(summary.final_report(), None);
    let mut after = SweepSummary::new();
    after.record(&Ok(PatchAction::NoAction));
    after.record(&Ok(PatchAction::RewriteShebang {
        old_interpreter: "/usr/bin/python3".to_string(),
        new_invocation: "#!/usr/bin/env python3".to_string(),
    }));
    assert_eq!(after.error_count(), 0);
    assert_eq!(after.final_report(), None);
}

#[test]
fn failures_are_counted_and_the_sweep_goes_on() {
    let mut summary = SweepSummary::new();
    summary.record(&failure(ErrorKind::Traversal));
    assert_eq!(summary.error_count(), 1);
    summary.record(&Ok(PatchAction::NoAction));
    assert_eq!(summary.error_count(), 1);
    summary.record(&failure(ErrorKind::ClassificationIo));
    summary.record(&failure(ErrorKind::ElfPatch));
    assert_eq!(summary.error_count(), 3);
    assert_eq!(summary.final_report(), Some("Finished. 3 errors occured".to_string()));
}

#[test]
fn final_report_of_one_failure() {
    let mut summary = SweepSummary::new();
    summary.record(&failure(ErrorKind::ShebangRewrite));
    assert_eq!(summary.final_report(), Some("Finished. 1 errors occured".to_string()));
}

#[test]
fn tally_counts_the_failures() {
    assert_eq!(tally(&[]).error_count(), 0);
    let outcomes = vec![
        Ok(PatchAction::NoAction),
        failure(ErrorKind::ElfPatch),
        Ok(PatchAction::NoAction),
        failure(ErrorKind::Traversal),
        failure(ErrorKind::ShebangRewrite),
        Ok(PatchAction::RewriteElfInterpreter { old: "a".to_string(), new: "b".to_string() }),
    ];
    let summary = tally(&outcomes);
    assert_eq!(summary.error_count(), 3);
    assert_eq!(summary.final_report(), Some("Finished. 3 errors occured".to_string()));
    let mut many = Vec::new();
    let mut i = 0;
    while i < 12 {
        many.push(failure(ErrorKind::ElfPatch));
        i += 1;
    }
    assert_eq!(tally(&many).final_report(), Some("Finished. 12 errors occured".to_string()));
}

#[test]
fn run_begins_with_a_resolved_loader() {
    let loader = LoaderPath { path: "/nix/store/g/lib/ld-linux-x86-64.so.2".to_string() };
    assert_eq!(begin_run(Ok(loader.clone())), Ok(loader));
}

#[test]
fn run_is_aborted_without_a_loader() {
    let aborted = begin_run(Err(ResolutionError::NoLoader));
    assert_eq!(
        aborted,
        Err(PatchError { kind: ErrorKind::LoaderResolution, message: NO_LOADER_MESSAGE.to_string() })
    );
    assert!(aborted.unwrap_err().is_fatal());
    assert_eq!(
        begin_run(Err(ResolutionError::ToolFailed { diagnostics: "ldd: not found".to_string() })),
        Err(PatchError { kind: ErrorKind::LoaderResolution, message: "ldd: not found".to_string() })
    );
}
