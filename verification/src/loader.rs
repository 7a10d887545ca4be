//! Finding the dynamic loader in the output of the dependency resolver.
//!
//! The resolver prints one dependency per line, in the form
//! `<name> => <resolved-path> (<address>)`. The loader is the text before
//! `=>`, trimmed, of the first line where that text's file name is the
//! loader's.

use vstd::prelude::*;
use vstd::string::*;
use vstd::utf8::{decode_utf8, valid_utf8};
use crate::decode::{decode_lossy, lossy_text};
use crate::path::{file_name, file_name_bounds};
use crate::text::{chars_of, same_chars, trim, trim_bounds};

verus! {

/// Where the running program finds its own executable.
pub const OWN_EXECUTABLE: &'static str = "/proc/self/exe";

/// The program that resolves a binary's dependencies.
pub const RESOLVER_TOOL: &'static str = "ldd";

/// What is shown when the resolver's output names no loader.
pub const NO_LOADER_MESSAGE: &'static str =
    "unable to determine path to dynamic loader. Note: patchall must be dynamically linked for it to work since it checks its own dynamic loader to determine the path to the dynamic loader.";

/// The file name by which the loader is recognised.
pub const LOADER_FILE_NAME: &'static str = "ld-linux-x86-64.so.2";

/// The path of a dynamic loader.
#[derive(Debug, Clone, PartialEq, Eq)]
pub struct LoaderPath {
    pub path: String,
}

impl View for LoaderPath {
    type V = Seq<char>;

    open spec fn view(&self) -> Seq<char> {
        self.path@
    }
}

/// Why no loader was found.
#[derive(Debug, Clone, PartialEq, Eq)]
pub enum ResolutionError {
    /// The resolver reported failure; this is what it wrote to its error
    /// stream.
    ToolFailed { diagnostics: String },
    /// The resolver's output names no loader.
    NoLoader,
}

/// The mathematical content of a [`ResolutionError`].
pub enum ResolutionFailure {
    ToolFailed { diagnostics: Seq<char> },
    NoLoader,
}

impl View for ResolutionError {
    type V = ResolutionFailure;

    open spec fn view(&self) -> ResolutionFailure {
        match *self {
            ResolutionError::ToolFailed { diagnostics } => ResolutionFailure::ToolFailed {
                diagnostics: diagnostics@,
            },
            ResolutionError::NoLoader => ResolutionFailure::NoLoader,
        }
    }
}

/// The text to show for a failed resolution.
pub open spec fn failure_message(failure: ResolutionFailure) -> Seq<char> {
    match failure {
        ResolutionFailure::ToolFailed { diagnostics } => diagnostics,
        ResolutionFailure::NoLoader => NO_LOADER_MESSAGE@,
    }
}

/// Whether `=>` stands at position `at` of `line`.
pub open spec fn arrow_at(line: Seq<char>, at: int) -> bool {
    0 <= at && at + 1 < line.len() && line[at] == '=' && line[at + 1] == '>'
}

/// The position of the first `=>` in `line`.
pub open spec fn first_arrow(line: Seq<char>) -> Option<int>
    decreases line.len(),
{
    if line.len() < 2 {
        None
    } else if line[0] == '=' && line[1] == '>' {
        Some(0)
    } else {
        match first_arrow(line.drop_first()) {
            Some(at) => Some(at + 1),
            None => None,
        }
    }
}

/// The loader that one line of resolver output names, if it names one.
pub open spec fn line_loader(line: Seq<char>) -> Option<Seq<char>> {
    match first_arrow(line) {
        Some(at) => {
            let library = trim(line.take(at));
            if file_name(library) == Some(LOADER_FILE_NAME@) {
                Some(library)
            } else {
                None
            }
        },
        None => None,
    }
}

/// How many characters of `text` come before its first line break.
pub open spec fn line_len(text: Seq<char>) -> nat
    decreases text.len(),
{
    if text.len() == 0 || text[0] == '\n' {
        0
    } else {
        1 + line_len(text.drop_first())
    }
}

/// The loader that the first line of `text` to name one names.
pub open spec fn find_loader(text: Seq<char>) -> Option<Seq<char>>
    decreases text.len(),
{
    let n = line_len(text) as int;
    match line_loader(text.take(n)) {
        Some(loader) => Some(loader),
        None => if n < text.len() {
            find_loader(text.skip(n + 1))
        } else {
            None
        },
    }
}

/// What a run of the resolver amounts to: the loader found in its output if
/// it reported success, and otherwise what it complained of.
pub open spec fn resolution(success: bool, output: Seq<char>, diagnostics: Seq<char>) -> Result<
    Seq<char>,
    ResolutionFailure,
> {
    if !success {
        Err(ResolutionFailure::ToolFailed { diagnostics })
    } else {
        match find_loader(output) {
            Some(loader) => Ok(loader),
            None => Err(ResolutionFailure::NoLoader),
        }
    }
}

/// The view of a resolution's result.
pub open spec fn resolved(r: Result<LoaderPath, ResolutionError>) -> Result<
    Seq<char>,
    ResolutionFailure,
> {
    match r {
        Ok(loader) => Ok(loader@),
        Err(e) => Err(e@),
    }
}

/// A loader that is found carries the loader's file name.
pub proof fn lemma_found_loader_is_named(text: Seq<char>)
    ensures
        find_loader(text) matches Some(loader) ==> file_name(loader) == Some(LOADER_FILE_NAME@),
    decreases text.len(),
{
    let n = line_len(text) as int;
    if line_loader(text.take(n)) is None && n < text.len() {
        lemma_found_loader_is_named(text.skip(n + 1));
    }
}

/// A `=>` at `at` with none before it is the first.
pub proof fn lemma_first_arrow(line: Seq<char>, at: int)
    requires
        arrow_at(line, at),
        forall|j: int| 0 <= j < at ==> !arrow_at(line, j),
    ensures
        first_arrow(line) == Some(at),
    decreases at,
{
    if at > 0 {
        let rest = line.drop_first();
        assert(!arrow_at(line, 0));
        assert forall|j: int| 0 <= j < at - 1 implies !arrow_at(rest, j) by {
            assert(!arrow_at(line, j + 1));
        }
        lemma_first_arrow(rest, at - 1);
    }
}

/// A line without any `=>` has no first one.
pub proof fn lemma_no_arrow(line: Seq<char>)
    requires
        forall|j: int| !arrow_at(line, j),
    ensures
        first_arrow(line) is None,
    decreases line.len(),
{
    if line.len() >= 2 {
        let rest = line.drop_first();
        assert(!arrow_at(line, 0));
        assert forall|j: int| !arrow_at(rest, j) by {
            assert(!arrow_at(line, j + 1));
        }
        lemma_no_arrow(rest);
    }
}

/// A stretch of `k` characters without a line break, followed by a line
/// break or by the end of the text, is the first line.
pub proof fn lemma_line_len(text: Seq<char>, k: int)
    requires
        0 <= k <= text.len(),
        forall|j: int| 0 <= j < k ==> #[trigger] text[j] != '\n',
        k == text.len() || text[k] == '\n',
    ensures
        line_len(text) == k,
    decreases k,
{
    if k > 0 {
        lemma_line_len(text.drop_first(), k - 1);
    }
}

/// The position of the first `=>` in `line`.
pub fn find_arrow(line: &[char]) -> (r: Option<usize>)
    ensures
        match r {
            Some(at) => at + 1 < line.len() && first_arrow(line@) == Some(at as int),
            None => first_arrow(line@) is None,
        },
{
    let n = line.len();
    let mut i: usize = 0;
    while i < n && i + 1 < n
        invariant
            n == line.len(),
            i <= n,
            forall|j: int| 0 <= j < i ==> !arrow_at(line@, j),
        decreases n - i,
    {
        if line[i] == '=' && line[i + 1] == '>' {
            proof {
                lemma_first_arrow(line@, i as int);
            }
            return Some(i);
        }
        i += 1;
    }
    proof {
        lemma_no_arrow(line@);
    }
    None
}

/// Where in `line` the loader stands that the line names: `line[start..end]`
/// is `line_loader(line)`.
pub fn loader_bounds(line: &[char]) -> (r: Option<(usize, usize)>)
    ensures
        match r {
            Some((start, end)) => start <= end <= line.len() && line_loader(line@) == Some(
                line@.subrange(start as int, end as int),
            ),
            None => line_loader(line@) is None,
        },
{
    match find_arrow(line) {
        Some(at) => {
            let before = &line[0..at];
            let (start, end) = trim_bounds(before);
            let library = &before[start..end];
            match file_name_bounds(library) {
                Some((from, to)) => {
                    let name = &library[from..to];
                    let wanted = chars_of(LOADER_FILE_NAME);
                    if same_chars(name, wanted.as_slice()) {
                        Some((start, end))
                    } else {
                        None
                    }
                },
                None => None,
            }
        },
        None => None,
    }
}

/// The loader that the resolver's output names.
pub fn loader_in_output(output: &str) -> (r: Option<LoaderPath>)
    ensures
        match r {
            Some(loader) => find_loader(output@) == Some(loader@) && file_name(loader@) == Some(
                LOADER_FILE_NAME@,
            ),
            None => find_loader(output@) is None,
        },
{
    proof {
        lemma_found_loader_is_named(output@);
    }
    let chars = chars_of(output);
    let n = chars.len();
    let mut start: usize = 0;
    assert(output@.skip(0) == output@);
    loop
        invariant
            start <= n,
            n == chars.len(),
            chars@ == output@,
            find_loader(output@) == find_loader(output@.skip(start as int)),
        decreases n - start,
    {
        let ghost rest = output@.skip(start as int);
        let mut end: usize = start;
        while end < n && chars[end] != '\n'
            invariant
                start <= end <= n,
                n == chars.len(),
                forall|j: int| start <= j < end ==> #[trigger] chars@[j] != '\n',
            decreases n - end,
        {
            end += 1;
        }
        let line = &chars.as_slice()[start..end];
        proof {
            lemma_line_len(rest, end - start);
            assert(rest.take(end - start) == line@);
        }
        match loader_bounds(line) {
            Some((from, to)) => {
                let found = output.substring_char(start + from, start + to);
                assert(found@ == line@.subrange(from as int, to as int));
                return Some(LoaderPath { path: String::from_str(found) });
            },
            None => {
                if end < n {
                    assert(rest.skip(end - start + 1) == output@.skip(end + 1));
                    start = end + 1;
                } else {
                    return None;
                }
            },
        }
    }
}

/// The loader that a run of the resolver yields, from its exit status and
/// the text of its two streams.
pub fn loader_from_text(success: bool, output: &str, diagnostics: &str) -> (r: Result<
    LoaderPath,
    ResolutionError,
>)
    ensures
        resolved(r) == resolution(success, output@, diagnostics@),
{
    if !success {
        return Err(ResolutionError::ToolFailed { diagnostics: String::from_str(diagnostics) });
    }
    match loader_in_output(output) {
        Some(loader) => Ok(loader),
        None => Err(ResolutionError::NoLoader),
    }
}

/// The loader that a run of the resolver yields, from its exit status and
/// the bytes of its two streams. Bytes that are not UTF-8 are decoded
/// lossily; streams that are UTF-8 are taken as the text they encode.
pub fn loader_from_tool(success: bool, stdout: &[u8], stderr: &[u8]) -> (r: Result<
    LoaderPath,
    ResolutionError,
>)
    ensures
        resolved(r) == resolution(success, lossy_text(stdout@), lossy_text(stderr@)),
        valid_utf8(stdout@) && valid_utf8(stderr@) ==> resolved(r) == resolution(
            success,
            decode_utf8(stdout@),
            decode_utf8(stderr@),
        ),
{
    let output = decode_lossy(stdout);
    let diagnostics = decode_lossy(stderr);
    loader_from_text(success, output.as_str(), diagnostics.as_str())
}

impl ResolutionError {
    /// The text to show for this failure.
    pub fn message(&self) -> (r: String)
        ensures
            r@ == failure_message(self@),
    {
        match self {
            ResolutionError::ToolFailed { diagnostics } => diagnostics.clone(),
            ResolutionError::NoLoader => String::from_str(NO_LOADER_MESSAGE),
        }
    }
}

} // verus!
