//! The final file-name component of a `/`-separated path.
//!
//! Components are the maximal `/`-free runs of the path. Empty components
//! (repeated or trailing slashes) and `.` components do not count; a path
//! whose last counting component is `..`, or that has none, has no file name.

use vstd::prelude::*;
use vstd::string::*;
use crate::text::chars_of;

verus! {

/// The characters of `p` after its last `/` (all of `p` if it has none).
pub open spec fn last_segment(p: Seq<char>) -> Seq<char>
    decreases p.len(),
{
    if p.len() == 0 || p.last() == '/' {
        Seq::empty()
    } else {
        last_segment(p.drop_last()).push(p.last())
    }
}

/// The final file-name component of `p`, if it has one.
pub open spec fn file_name(p: Seq<char>) -> Option<Seq<char>>
    decreases p.len(),
{
    if p.len() == 0 {
        None
    } else if p.last() == '/' {
        file_name(p.drop_last())
    } else {
        let segment = last_segment(p);
        if segment == seq!['.'] {
            file_name(p.drop_last())
        } else if segment == seq!['.', '.'] {
            None
        } else {
            Some(segment)
        }
    }
}

/// A `/`-free stretch `p[start..end]` that is preceded by `/` or by the
/// start of `p` is the last segment of `p[..end]`.
pub proof fn lemma_last_segment(p: Seq<char>, start: int, end: int)
    requires
        0 <= start <= end <= p.len(),
        forall|j: int| start <= j < end ==> #[trigger] p[j] != '/',
        start == 0 || p[start - 1] == '/',
    ensures
        last_segment(p.take(end)) == p.subrange(start, end),
    decreases end - start,
{
    let q = p.take(end);
    if start == end {
        if end > 0 {
            assert(q.last() == p[end - 1]);
        }
    } else {
        assert(q.drop_last() == p.take(end - 1));
        lemma_last_segment(p, start, end - 1);
    }
}

/// Every character of the last segment is a character of the path.
pub proof fn lemma_last_segment_within(p: Seq<char>)
    ensures
        forall|j: int| 0 <= j < last_segment(p).len() ==> p.contains(#[trigger] last_segment(p)[j]),
    decreases p.len(),
{
    if p.len() > 0 && p.last() != '/' {
        let shorter = p.drop_last();
        let head = last_segment(shorter);
        lemma_last_segment_within(shorter);
        assert forall|j: int| 0 <= j < last_segment(p).len() implies p.contains(
            #[trigger] last_segment(p)[j],
        ) by {
            if j < head.len() {
                let k = choose|k: int| 0 <= k < shorter.len() && shorter[k] == head[j];
                assert(p[k] == head[j]);
            } else {
                assert(last_segment(p)[j] == p[p.len() - 1]);
            }
        }
    }
}

/// Every character of a file name is a character of the path.
pub proof fn lemma_file_name_within(p: Seq<char>)
    ensures
        file_name(p) matches Some(name) ==> forall|j: int|
            0 <= j < name.len() ==> p.contains(#[trigger] name[j]),
    decreases p.len(),
{
    if p.len() > 0 {
        let shorter = p.drop_last();
        if p.last() == '/' || last_segment(p) == seq!['.'] {
            lemma_file_name_within(shorter);
            if let Some(name) = file_name(shorter) {
                assert forall|j: int| 0 <= j < name.len() implies p.contains(#[trigger] name[j]) by {
                    let k = choose|k: int| 0 <= k < shorter.len() && shorter[k] == name[j];
                    assert(p[k] == name[j]);
                }
            }
        } else {
            lemma_last_segment_within(p);
        }
    }
}

/// Where the file name of `p` lies: `p[start..end]` is `file_name(p)`.
pub fn file_name_bounds(p: &[char]) -> (r: Option<(usize, usize)>)
    ensures
        match r {
            Some((start, end)) => start < end <= p.len() && file_name(p@) == Some(
                p@.subrange(start as int, end as int),
            ),
            None => file_name(p@) is None,
        },
{
    let mut end: usize = p.len();
    assert(p@.take(end as int) == p@);
    loop
        invariant
            end <= p.len(),
            file_name(p@) == file_name(p@.take(end as int)),
        decreases end,
    {
        if end == 0 {
            return None;
        }
        if p[end - 1] == '/' {
            assert(p@.take(end as int).drop_last() == p@.take(end - 1));
            end -= 1;
        } else {
            let mut start: usize = end - 1;
            while start > 0 && p[start - 1] != '/'
                invariant
                    start < end <= p.len(),
                    forall|j: int| start <= j < end ==> #[trigger] p@[j] != '/',
                decreases start,
            {
                start -= 1;
            }
            proof {
                lemma_last_segment(p@, start as int, end as int);
            }
            let ghost segment = p@.subrange(start as int, end as int);
            if end - start == 1 && p[start] == '.' {
                assert(segment == seq!['.']);
                assert(p@.take(end as int).drop_last() == p@.take(end - 1));
                end -= 1;
            } else if end - start == 2 && p[start] == '.' && p[start + 1] == '.' {
                assert(segment == seq!['.', '.']);
                return None;
            } else {
                assert(segment != seq!['.']) by {
                    if segment == seq!['.'] {
                        assert(segment.len() == 1);
                        assert(segment[0] == '.');
                    }
                }
                assert(segment != seq!['.', '.']) by {
                    if segment == seq!['.', '.'] {
                        assert(segment.len() == 2);
                        assert(segment[0] == '.');
                        assert(segment[1] == '.');
                    }
                }
                return Some((start, end));
            }
        }
    }
}

/// The final file-name component of `path`, if it has one.
pub fn final_component(path: &str) -> (r: Option<String>)
    ensures
        match r {
            Some(name) => file_name(path@) == Some(name@),
            None => file_name(path@) is None,
        },
{
    let chars = chars_of(path);
    match file_name_bounds(chars.as_slice()) {
        Some((start, end)) => Some(String::from_str(path.substring_char(start, end))),
        None => None,
    }
}

} // verus!
