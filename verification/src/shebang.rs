//! The `#!` line of a script.
//!
//! A script's first line names the interpreter that runs it. Where that
//! interpreter is an absolute path below one of the system roots, the line
//! is to be replaced by one that finds the interpreter through
//! `/usr/bin/env`, with the arguments kept in order. `/bin/sh` and
//! `/usr/bin/env` itself are taken to exist everywhere and stay.

use vstd::prelude::*;
use vstd::string::*;
use vstd::utf8::{decode_utf8, valid_utf8};
use crate::action::{ActionView, PatchAction};
use crate::decode::strict_text;
use crate::path::{file_name, final_component, lemma_file_name_within};
use crate::text::{
    begins_with, chars_of, is_space, is_word, lemma_first_word, lemma_trim_end_keeps_prefix,
    lemma_words_hold_no_space, same_chars, split_words, texts, trim, trim_start, trimmed, words,
};

verus! {

/// The shell that every system is taken to have.
pub const SHELL: &'static str = "/bin/sh";

/// The program that looks an interpreter up by its name.
pub const ENV: &'static str = "/usr/bin/env";

/// What a line begins with that runs its interpreter through `env`.
pub const ENV_MARKER: &'static str = "#!/usr/bin/env ";

/// The parsed first line of a script.
#[derive(Debug, Clone, PartialEq, Eq)]
pub struct ShebangLine {
    /// The first word after `#!`.
    pub interpreter_path: String,
    /// The words after the interpreter, in order.
    pub extra_args: Vec<String>,
}

/// The mathematical content of a [`ShebangLine`].
pub struct ShebangText {
    pub interpreter_path: Seq<char>,
    pub extra_args: Seq<Seq<char>>,
}

impl ShebangText {
    /// Whether interpreter and arguments are words: not empty, and free of
    /// whitespace.
    pub open spec fn wf(self) -> bool {
        &&& is_word(self.interpreter_path)
        &&& forall|i: int| 0 <= i < self.extra_args.len() ==> is_word(#[trigger] self.extra_args[i])
    }
}

impl View for ShebangLine {
    type V = ShebangText;

    open spec fn view(&self) -> ShebangText {
        ShebangText {
            interpreter_path: self.interpreter_path@,
            extra_args: texts(self.extra_args@),
        }
    }
}

/// What a first line says, if it is a `#!` line that names an interpreter.
pub open spec fn parse_line(line: Seq<char>) -> Option<ShebangText> {
    if line.len() >= 2 && line[0] == '#' && line[1] == '!' {
        let w = words(trim(line.skip(2)));
        if w.len() > 0 {
            Some(ShebangText { interpreter_path: w[0], extra_args: w.skip(1) })
        } else {
            None
        }
    } else {
        None
    }
}

/// Interpreters that every system is taken to have where they are.
pub open spec fn is_portable(interpreter: Seq<char>) -> bool {
    interpreter == SHELL@ || interpreter == ENV@
}

/// Whether `interpreter` begins with one of the system roots.
pub open spec fn under_system_root(interpreter: Seq<char>) -> bool {
    ||| "/bin"@.is_prefix_of(interpreter)
    ||| "/lib"@.is_prefix_of(interpreter)
    ||| "/lib64"@.is_prefix_of(interpreter)
    ||| "/sbin"@.is_prefix_of(interpreter)
    ||| "/usr"@.is_prefix_of(interpreter)
}

/// The name under which `env` is to look the interpreter up, where the
/// interpreter is to be replaced at all.
pub open spec fn env_name(interpreter: Seq<char>) -> Option<Seq<char>> {
    if is_portable(interpreter) || !under_system_root(interpreter) {
        None
    } else {
        file_name(interpreter)
    }
}

/// Each argument with one space before it.
pub open spec fn spaced(args: Seq<Seq<char>>) -> Seq<char>
    decreases args.len(),
{
    if args.len() == 0 {
        Seq::empty()
    } else {
        spaced(args.drop_last()) + seq![' '] + args.last()
    }
}

/// The first line that runs `name` through `env`, with `args` kept in order.
pub open spec fn env_invocation(name: Seq<char>, args: Seq<Seq<char>>) -> Seq<char> {
    ENV_MARKER@ + name + spaced(args)
}

/// What is decided for a script whose first line is `line`.
pub open spec fn line_action(line: Seq<char>) -> ActionView {
    match parse_line(line) {
        Some(shebang) => match env_name(shebang.interpreter_path) {
            Some(name) => ActionView::RewriteShebang {
                old_interpreter: shebang.interpreter_path,
                new_invocation: env_invocation(name, shebang.extra_args),
            },
            None => ActionView::NoAction,
        },
        None => ActionView::NoAction,
    }
}

/// What is decided for a script whose first line holds the bytes `line`:
/// a line that is not UTF-8 is left alone.
pub open spec fn first_line_action(line: Seq<u8>) -> ActionView {
    if valid_utf8(line) {
        line_action(decode_utf8(line))
    } else {
        ActionView::NoAction
    }
}

/// What is parsed from a line is well formed.
pub proof fn lemma_parsed_line_is_well_formed(line: Seq<char>)
    ensures
        parse_line(line) matches Some(shebang) ==> shebang.wf(),
{
    if let Some(shebang) = parse_line(line) {
        let found = words(trim(line.skip(2)));
        lemma_words_hold_no_space(trim(line.skip(2)));
        assert(is_word(found[0]));
        assert forall|i: int| 0 <= i < shebang.extra_args.len() implies is_word(
            #[trigger] shebang.extra_args[i],
        ) by {
            assert(shebang.extra_args[i] == found[i + 1]);
        }
    }
}

/// A line is left alone if its interpreter is `/bin/sh` or `/usr/bin/env`,
/// or does not begin with one of the system roots.
pub proof fn lemma_interpreter_left_alone(line: Seq<char>)
    requires
        parse_line(line) matches Some(shebang) && (is_portable(shebang.interpreter_path)
            || !under_system_root(shebang.interpreter_path)),
    ensures
        line_action(line) is NoAction,
{
}

/// A line that runs its interpreter through `env` is itself left alone,
/// whatever the interpreter and its arguments: patching a line a second
/// time changes nothing.
pub proof fn lemma_env_line_left_alone(name: Seq<char>, args: Seq<Seq<char>>)
    ensures
        line_action(env_invocation(name, args)) is NoAction,
{
    reveal_strlit("#!/usr/bin/env ");
    reveal_strlit("/usr/bin/env");
    let line = env_invocation(name, args);
    let env = ENV@;
    // After `#!` the line goes on with `/usr/bin/env` and a space.
    let body = line.skip(2);
    assert forall|j: int| 0 <= j < 12 implies body[j] == env[j] by {
        assert(body[j] == line[j + 2]);
    }
    assert(env.is_prefix_of(body));
    assert(body[12] == ' ');
    // Trimming takes nothing off the front and leaves `/usr/bin/env` in
    // place, so that is the first word.
    assert(trim_start(body) == body);
    lemma_trim_end_keeps_prefix(body, env);
    let kept = trim(body);
    if kept.len() > 12 {
        assert(kept[12] == body[12]);
    }
    lemma_first_word(kept, env);
    assert(is_portable(words(kept)[0]));
}

/// Words put one after the other, each behind a space, hold no line break.
pub proof fn lemma_spaced_holds_no_newline(args: Seq<Seq<char>>)
    requires
        forall|i: int| 0 <= i < args.len() ==> is_word(#[trigger] args[i]),
    ensures
        !spaced(args).contains('\n'),
    decreases args.len(),
{
    if args.len() > 0 {
        let front = spaced(args.drop_last());
        let last = args.last();
        lemma_spaced_holds_no_newline(args.drop_last());
        assert(is_word(last));
        let all = front + seq![' '] + last;
        assert forall|j: int| 0 <= j < all.len() implies all[j] != '\n' by {
            if j < front.len() {
                assert(front.contains(front[j]));
            } else if j > front.len() {
                assert(!is_space(last[j - front.len() - 1]));
            }
        }
    }
}

/// The line that replaces a script's first line holds no line break, so it
/// is again a first line once it stands in the file.
pub proof fn lemma_new_invocation_is_one_line(line: Seq<char>)
    requires
        line_action(line) is RewriteShebang,
    ensures
        !line_action(line)->new_invocation.contains('\n'),
{
    reveal_strlit("#!/usr/bin/env ");
    let found = words(trim(line.skip(2)));
    lemma_words_hold_no_space(trim(line.skip(2)));
    let interpreter = found[0];
    let args = found.skip(1);
    let name = file_name(interpreter)->0;
    let marker = ENV_MARKER@;
    let tail = spaced(args);
    let new_line = marker + name + tail;
    assert(line_action(line)->new_invocation == new_line);
    // The name is made of characters of the interpreter, which is a word,
    // and the arguments are words.
    assert(is_word(interpreter));
    lemma_file_name_within(interpreter);
    assert forall|i: int| 0 <= i < args.len() implies is_word(#[trigger] args[i]) by {
        assert(args[i] == found[i + 1]);
    }
    lemma_spaced_holds_no_newline(args);
    assert forall|j: int| 0 <= j < new_line.len() implies new_line[j] != '\n' by {
        if j < 15 {
            assert(new_line[j] == marker[j]);
        } else if j < 15 + name.len() {
            let c = name[j - 15];
            assert(interpreter.contains(c));
            let k = choose|k: int| 0 <= k < interpreter.len() && interpreter[k] == c;
            assert(!is_space(interpreter[k]));
        } else {
            assert(tail.contains(tail[j - 15 - name.len()]));
        }
    }
}

/// Parses the first line of a script (without its newline).
pub fn parse_shebang(line: &str) -> (r: Option<ShebangLine>)
    ensures
        match r {
            Some(shebang) => parse_line(line@) == Some(shebang@) && shebang@.wf(),
            None => parse_line(line@) is None,
        },
{
    proof {
        lemma_parsed_line_is_well_formed(line@);
    }
    let chars = chars_of(line);
    if chars.len() < 2 || chars[0] != '#' || chars[1] != '!' {
        return None;
    }
    let rest = line.substring_char(2, chars.len());
    let body = trimmed(rest);
    let mut found = split_words(body.as_str());
    if found.len() == 0 {
        return None;
    }
    let ghost all = found@;
    let interpreter_path = found.remove(0);
    assert(texts(found@) == texts(all).skip(1));
    Some(ShebangLine { interpreter_path, extra_args: found })
}

/// Whether `interpreter` is one of the interpreters that stay as they are.
pub fn portable(interpreter: &str) -> (r: bool)
    ensures
        r == is_portable(interpreter@),
{
    let chars = chars_of(interpreter);
    let sh = chars_of(SHELL);
    let env = chars_of(ENV);
    same_chars(chars.as_slice(), sh.as_slice()) || same_chars(chars.as_slice(), env.as_slice())
}

/// Whether `interpreter` begins with one of the system roots.
pub fn in_system_root(interpreter: &str) -> (r: bool)
    ensures
        r == under_system_root(interpreter@),
{
    let chars = chars_of(interpreter);
    let bin = chars_of("/bin");
    let lib = chars_of("/lib");
    let lib64 = chars_of("/lib64");
    let sbin = chars_of("/sbin");
    let usr = chars_of("/usr");
    begins_with(chars.as_slice(), bin.as_slice()) || begins_with(chars.as_slice(), lib.as_slice())
        || begins_with(chars.as_slice(), lib64.as_slice()) || begins_with(
        chars.as_slice(),
        sbin.as_slice(),
    ) || begins_with(chars.as_slice(), usr.as_slice())
}

/// The name under which `env` is to look `interpreter` up, or `None` where
/// the interpreter stays as it is.
pub fn env_target(interpreter: &str) -> (r: Option<String>)
    ensures
        match r {
            Some(name) => env_name(interpreter@) == Some(name@),
            None => env_name(interpreter@) is None,
        },
{
    if portable(interpreter) || !in_system_root(interpreter) {
        None
    } else {
        final_component(interpreter)
    }
}

/// The first line that runs `name` through `env` with `args`.
pub fn env_line(name: &str, args: &Vec<String>) -> (r: String)
    ensures
        r@ == env_invocation(name@, texts(args@)),
{
    let mut line = String::from_str(ENV_MARKER);
    line.append(name);
    let ghost all = texts(args@);
    let mut i: usize = 0;
    while i < args.len()
        invariant
            i <= args.len(),
            all == texts(args@),
            line@ == ENV_MARKER@ + name@ + spaced(all.take(i as int)),
        decreases args.len() - i,
    {
        proof {
            reveal_strlit(" ");
            assert(all.take(i + 1).drop_last() == all.take(i as int));
        }
        line.append(" ");
        line.append(args[i].as_str());
        i += 1;
    }
    assert(all.take(args.len() as int) == all);
    line
}

/// Decides what to do about a script whose first line is `line`.
pub fn plan_line(line: &str) -> (r: PatchAction)
    ensures
        r@ == line_action(line@),
{
    match parse_shebang(line) {
        Some(shebang) => match env_target(shebang.interpreter_path.as_str()) {
            Some(name) => {
                let new_invocation = env_line(name.as_str(), &shebang.extra_args);
                PatchAction::RewriteShebang {
                    old_interpreter: shebang.interpreter_path,
                    new_invocation,
                }
            },
            None => PatchAction::NoAction,
        },
        None => PatchAction::NoAction,
    }
}

/// Decides what to do about a script whose first line holds the bytes
/// `line` (without the newline).
pub fn plan_first_line(line: &[u8]) -> (r: PatchAction)
    ensures
        r@ == first_line_action(line@),
{
    match strict_text(line) {
        Some(text) => plan_line(text),
        None => PatchAction::NoAction,
    }
}

} // verus!
