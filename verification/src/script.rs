//! A script as bytes: finding its first line while the file is read piece
//! by piece, and putting the patched file together.
//!
//! The first line ends at the first newline byte. A file without any
//! newline has no first line and is left alone. Where the first line is
//! replaced, every byte from the first newline on is kept as it is.

use vstd::prelude::*;
use vstd::string::*;
use vstd::utf8::{decode_utf8, encode_utf8, encode_utf8_decode_utf8, encode_utf8_valid_utf8};
use crate::action::{ActionView, PatchAction};
use crate::decode::lemma_encoded_ascii;
use crate::shebang::{
    env_invocation, env_name, first_line_action, lemma_env_line_left_alone,
    lemma_new_invocation_is_one_line, line_action, parse_line, plan_first_line,
};

verus! {

/// The byte that ends a line.
pub const NEWLINE: u8 = 0x0A;

/// How many bytes of a script are read at a time while its first line is
/// looked for.
pub const CHUNK_SIZE: usize = 256;

/// Where the search for the first line stands after a piece was read.
#[derive(Debug, Clone, Copy, PartialEq, Eq, Structural)]
pub enum Scan {
    /// No newline yet; another piece is to be read.
    NeedMore,
    /// The first newline is at this position.
    Line(usize),
    /// The file ended before any newline.
    NoLine,
}

/// What a scan reports once it holds `bytes`, the last piece having been
/// `fed` bytes long. An empty piece means that the file has ended.
pub open spec fn scan_result(bytes: Seq<u8>, fed: nat) -> Scan {
    match bytes.index_of_first(NEWLINE) {
        Some(newline) => Scan::Line(newline as usize),
        None => if fed == 0 {
            Scan::NoLine
        } else {
            Scan::NeedMore
        },
    }
}

/// The bytes before the first newline of `bytes`, if there is a newline.
pub open spec fn first_line_of(bytes: Seq<u8>) -> Option<Seq<u8>> {
    match bytes.index_of_first(NEWLINE) {
        Some(newline) => Some(bytes.take(newline)),
        None => None,
    }
}

/// The bytes of `bytes` from its first newline on; nothing where it has no
/// newline.
pub open spec fn after_first_line(bytes: Seq<u8>) -> Seq<u8> {
    match bytes.index_of_first(NEWLINE) {
        Some(newline) => bytes.skip(newline),
        None => Seq::empty(),
    }
}

/// What is decided for a script with the bytes `content`: without a newline
/// there is no first line, and nothing to do.
pub open spec fn script_action(content: Seq<u8>) -> ActionView {
    match first_line_of(content) {
        Some(line) => first_line_action(line),
        None => ActionView::NoAction,
    }
}

/// The bytes of the script after patching: where its first line is
/// replaced, the new line and then everything from the first newline on.
pub open spec fn patched(content: Seq<u8>) -> Seq<u8> {
    match script_action(content) {
        ActionView::RewriteShebang { new_invocation, .. } => encode_utf8(new_invocation)
            + after_first_line(content),
        _ => content,
    }
}

/// A script without any newline is left byte for byte as it is.
pub proof fn lemma_no_newline_unchanged(content: Seq<u8>)
    requires
        !content.contains(NEWLINE),
    ensures
        script_action(content) is NoAction,
        patched(content) == content,
{
    content.index_of_first_ensures(NEWLINE);
}

/// Once the bytes read so far hold a newline, what follows them changes
/// neither where the first line ends nor what is decided, and it reaches
/// the patched file untouched.
pub proof fn lemma_first_line_decides(head: Seq<u8>, tail: Seq<u8>)
    requires
        head.contains(NEWLINE),
    ensures
        first_line_of(head + tail) == first_line_of(head),
        after_first_line(head + tail) == after_first_line(head) + tail,
        script_action(head + tail) == script_action(head),
        patched(head + tail) == patched(head) + tail,
{
    let whole = head + tail;
    head.index_of_first_ensures(NEWLINE);
    whole.index_of_first_ensures(NEWLINE);
    let at = head.index_of_first(NEWLINE)->0;
    assert(whole[at] == NEWLINE);
    let found = whole.index_of_first(NEWLINE)->0;
    if found < at {
        assert(head[found] == whole[found]);
    }
    assert(found == at);
    assert(whole.take(at) == head.take(at));
    assert(whole.skip(at) == head.skip(at) + tail);
    match script_action(head) {
        ActionView::RewriteShebang { new_invocation, .. } => {
            assert(encode_utf8(new_invocation) + (head.skip(at) + tail) == (encode_utf8(
                new_invocation,
            ) + head.skip(at)) + tail);
        },
        _ => {},
    }
}

/// Patching a script that has been patched changes nothing: the line that
/// was written names `/usr/bin/env`, which is left alone.
pub proof fn lemma_patch_idempotent(content: Seq<u8>)
    ensures
        script_action(patched(content)) is NoAction,
        patched(patched(content)) == patched(content),
{
    content.index_of_first_ensures(NEWLINE);
    match script_action(content) {
        ActionView::RewriteShebang { old_interpreter, new_invocation } => {
            let at = content.index_of_first(NEWLINE)->0;
            let old_line = decode_utf8(content.take(at));
            let header = encode_utf8(new_invocation);
            let rest = content.skip(at);
            let once = header + rest;
            assert(patched(content) == once);
            // The header holds no newline, so the first line of the patched
            // file is the header.
            lemma_new_invocation_is_one_line(old_line);
            lemma_encoded_ascii(new_invocation, NEWLINE);
            assert(!header.contains(NEWLINE));
            let cut = header.len() as int;
            assert(once[cut] == rest[0]);
            once.index_of_first_ensures(NEWLINE);
            let found = once.index_of_first(NEWLINE)->0;
            if found < cut {
                assert(header[found] == once[found]);
            }
            assert(found == cut);
            assert(once.take(cut) == header);
            // The header decodes to the line that was written, which runs its
            // interpreter through `env`.
            encode_utf8_valid_utf8(new_invocation);
            encode_utf8_decode_utf8(new_invocation);
            let parsed = parse_line(old_line)->0;
            let name = env_name(parsed.interpreter_path)->0;
            assert(new_invocation == env_invocation(name, parsed.extra_args));
            lemma_env_line_left_alone(name, parsed.extra_args);
            assert(first_line_action(header) is NoAction);
        },
        _ => {},
    }
}

/// Collects the start of a file, piece by piece, until its first line is
/// complete.
pub struct LineScanner {
    buffer: Vec<u8>,
}

impl View for LineScanner {
    type V = Seq<u8>;

    /// All bytes fed so far, in order.
    closed spec fn view(&self) -> Seq<u8> {
        self.buffer@
    }
}

impl LineScanner {
    /// A scanner that has seen nothing yet.
    pub fn new() -> (scanner: Self)
        ensures
            scanner@ == Seq::<u8>::empty(),
    {
        LineScanner { buffer: Vec::new() }
    }

    /// Takes in the next piece of the file. An empty piece stands for the
    /// end of the file.
    pub fn feed(&mut self, chunk: &[u8]) -> (r: Scan)
        ensures
            final(self)@ == old(self)@ + chunk@,
            r == scan_result(final(self)@, chunk@.len()),
    {
        append_bytes(&mut self.buffer, chunk);
        match find_newline(self.buffer.as_slice()) {
            Some(newline) => Scan::Line(newline),
            None => if chunk.len() == 0 {
                Scan::NoLine
            } else {
                Scan::NeedMore
            },
        }
    }

    /// Everything fed so far.
    pub fn bytes(&self) -> (r: &[u8])
        ensures
            r@ == self@,
    {
        self.buffer.as_slice()
    }

    /// The first line, without its newline, once it is complete.
    pub fn first_line(&self) -> (r: Option<&[u8]>)
        ensures
            match r {
                Some(line) => first_line_of(self@) == Some(line@),
                None => first_line_of(self@) is None,
            },
    {
        match find_newline(self.buffer.as_slice()) {
            Some(newline) => {
                proof {
                    self@.index_of_first_ensures(NEWLINE);
                }
                let line = &self.buffer.as_slice()[0..newline];
                Some(line)
            },
            None => None,
        }
    }

    /// What was fed from the first newline on.
    pub fn remainder(&self) -> (r: &[u8])
        ensures
            r@ == after_first_line(self@),
    {
        let all = self.buffer.as_slice();
        match find_newline(all) {
            Some(newline) => {
                proof {
                    self@.index_of_first_ensures(NEWLINE);
                }
                &all[newline..all.len()]
            },
            None => &all[0..0],
        }
    }
}

/// The position of the first newline in `bytes`.
pub fn find_newline(bytes: &[u8]) -> (r: Option<usize>)
    ensures
        match r {
            Some(at) => bytes@.index_of_first(NEWLINE) == Some(at as int),
            None => bytes@.index_of_first(NEWLINE) is None,
        },
{
    let mut i: usize = 0;
    while i < bytes.len()
        invariant
            i <= bytes.len(),
            forall|j: int| 0 <= j < i ==> bytes@[j] != NEWLINE,
        decreases bytes.len() - i,
    {
        if bytes[i] == NEWLINE {
            proof {
                bytes@.index_of_first_ensures(NEWLINE);
            }
            return Some(i);
        }
        i += 1;
    }
    proof {
        bytes@.index_of_first_ensures(NEWLINE);
    }
    None
}

/// Appends `src` to `out`.
pub fn append_bytes(out: &mut Vec<u8>, src: &[u8])
    ensures
        final(out)@ == old(out)@ + src@,
{
    let mut i: usize = 0;
    while i < src.len()
        invariant
            i <= src.len(),
            out@ == old(out)@ + src@.take(i as int),
        decreases src.len() - i,
    {
        out.push(src[i]);
        i += 1;
    }
}

/// The patched file: the new first line, what was already read from the
/// first newline on, and what was read afterwards.
pub fn replace_first_line(new_invocation: &str, remainder: &[u8], tail: &[u8]) -> (out: Vec<u8>)
    ensures
        out@ == encode_utf8(new_invocation@) + remainder@ + tail@,
{
    let mut out: Vec<u8> = Vec::new();
    append_bytes(&mut out, new_invocation.as_bytes());
    append_bytes(&mut out, remainder);
    append_bytes(&mut out, tail);
    out
}

/// Decides what to do about a script, from all of its bytes.
pub fn plan_script(content: &[u8]) -> (r: PatchAction)
    ensures
        r@ == script_action(content@),
{
    match find_newline(content) {
        Some(newline) => {
            proof {
                content@.index_of_first_ensures(NEWLINE);
            }
            plan_first_line(&content[0..newline])
        },
        None => PatchAction::NoAction,
    }
}

/// The bytes that a script holds after patching, from all of its bytes.
pub fn patch_script(content: &[u8]) -> (out: Vec<u8>)
    ensures
        out@ == patched(content@),
{
    let action = plan_script(content);
    let scanned = find_newline(content);
    proof {
        content@.index_of_first_ensures(NEWLINE);
    }
    match (action, scanned) {
        (PatchAction::RewriteShebang { old_interpreter, new_invocation }, Some(newline)) => {
            let rest = &content[newline..content.len()];
            let out = replace_first_line(new_invocation.as_str(), rest, &content[0..0]);
            out
        },
        _ => {
            let mut out: Vec<u8> = Vec::new();
            append_bytes(&mut out, content);
            out
        },
    }
}

} // verus!
