//! Keeping count over a sweep: every file is attempted, failures are
//! counted, and the count is reported at the end if there were any.

use vstd::prelude::*;
use vstd::string::*;
use crate::action::PatchAction;
use crate::error::{ErrorKind, ErrorView, PatchError};
use crate::loader::{failure_message, LoaderPath, ResolutionError};

verus! {

/// The decimal digit for `d`.
pub open spec fn decimal_digit(d: int) -> char {
    if d == 0 {
        '0'
    } else if d == 1 {
        '1'
    } else if d == 2 {
        '2'
    } else if d == 3 {
        '3'
    } else if d == 4 {
        '4'
    } else if d == 5 {
        '5'
    } else if d == 6 {
        '6'
    } else if d == 7 {
        '7'
    } else if d == 8 {
        '8'
    } else {
        '9'
    }
}

/// `n` in decimal, without leading zeros.
pub open spec fn decimal(n: nat) -> Seq<char>
    decreases n,
{
    if n < 10 {
        seq![decimal_digit(n as int)]
    } else {
        decimal(n / 10).push(decimal_digit((n % 10) as int))
    }
}

/// The closing line of a sweep in which `errors` files failed.
pub open spec fn report_text(errors: nat) -> Seq<char> {
    "Finished. "@ + decimal(errors) + " errors occured"@
}

/// How many of `outcomes` are failures.
pub open spec fn failures(outcomes: Seq<Result<PatchAction, PatchError>>) -> nat
    decreases outcomes.len(),
{
    if outcomes.len() == 0 {
        0
    } else {
        failures(outcomes.drop_last()) + if outcomes.last() is Err {
            1nat
        } else {
            0nat
        }
    }
}

/// The count that a sweep keeps.
#[derive(Debug, Clone, Copy, PartialEq, Eq)]
pub struct SweepSummary {
    errors: u64,
}

impl SweepSummary {
    /// How many files have failed so far.
    pub closed spec fn errors(&self) -> nat {
        self.errors as nat
    }

    /// The summary of a sweep that has not seen any file yet.
    pub fn new() -> (s: SweepSummary)
        ensures
            s.errors() == 0,
    {
        SweepSummary { errors: 0 }
    }

    /// How many files have failed so far.
    pub fn error_count(&self) -> (n: u64)
        ensures
            n == self.errors(),
    {
        self.errors
    }

    /// Takes note of one file's outcome. A failure is counted and the sweep
    /// goes on; the count stops at the largest number it can hold.
    pub fn record(&mut self, outcome: &Result<PatchAction, PatchError>)
        ensures
            final(self).errors() == if outcome is Err && old(self).errors() < u64::MAX {
                old(self).errors() + 1
            } else {
                old(self).errors()
            },
    {
        if outcome.is_err() && self.errors < u64::MAX {
            self.errors = self.errors + 1;
        }
    }

    /// The line to print when the sweep is over: none if every file went
    /// through.
    pub fn final_report(&self) -> (r: Option<String>)
        ensures
            match r {
                Some(line) => self.errors() > 0 && line@ == report_text(self.errors()),
                None => self.errors() == 0,
            },
    {
        if self.errors > 0 {
            let mut line = String::from_str("Finished. ");
            let count = decimal_text(self.errors);
            line.append(count.as_str());
            line.append(" errors occured");
            Some(line)
        } else {
            None
        }
    }
}

fn decimal_digit_text(d: u64) -> (r: &'static str)
    requires
        d < 10,
    ensures
        r@ == seq![decimal_digit(d as int)],
{
    proof {
        reveal_strlit("0");
        reveal_strlit("1");
        reveal_strlit("2");
        reveal_strlit("3");
        reveal_strlit("4");
        reveal_strlit("5");
        reveal_strlit("6");
        reveal_strlit("7");
        reveal_strlit("8");
        reveal_strlit("9");
    }
    match d {
        0 => "0",
        1 => "1",
        2 => "2",
        3 => "3",
        4 => "4",
        5 => "5",
        6 => "6",
        7 => "7",
        8 => "8",
        _ => "9",
    }
}

/// `n` in decimal, without leading zeros.
pub fn decimal_text(n: u64) -> (r: String)
    ensures
        r@ == decimal(n as nat),
    decreases n,
{
    if n < 10 {
        String::from_str(decimal_digit_text(n))
    } else {
        let mut text = decimal_text(n / 10);
        text.append(decimal_digit_text(n % 10));
        text
    }
}

/// The summary of a sweep with the given outcomes, one per file.
pub fn tally(outcomes: &[Result<PatchAction, PatchError>]) -> (s: SweepSummary)
    ensures
        s.errors() == failures(outcomes@),
{
    let mut summary = SweepSummary::new();
    let mut i: usize = 0;
    while i < outcomes.len()
        invariant
            i <= outcomes.len(),
            summary.errors() == failures(outcomes@.take(i as int)),
            summary.errors() <= i,
        decreases outcomes.len() - i,
    {
        assert(outcomes@.take(i + 1).drop_last() == outcomes@.take(i as int));
        summary.record(&outcomes[i]);
        i += 1;
    }
    assert(outcomes@.take(outcomes.len() as int) == outcomes@);
    summary
}

/// Whether a sweep can start: it needs the loader of the running program,
/// and fails as a whole, before any file is touched, if that could not be
/// determined.
pub fn begin_run(own_loader: Result<LoaderPath, ResolutionError>) -> (r: Result<
    LoaderPath,
    PatchError,
>)
    ensures
        match (own_loader, r) {
            (Ok(found), Ok(loader)) => loader == found,
            (Err(e), Err(failure)) => failure@ == (ErrorView {
                kind: ErrorKind::LoaderResolution,
                message: failure_message(e@),
            }),
            _ => false,
        },
{
    match own_loader {
        Ok(loader) => Ok(loader),
        Err(e) => Err(PatchError::new(ErrorKind::LoaderResolution, e.message())),
    }
}

} // verus!
