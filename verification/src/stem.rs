//! Extracting the filename stem from a path given as a string: the part of
//! the final path component before its extension.

use vstd::prelude::*;
use vstd::string::*;
use crate::sanitize::{sanitize_seq, sanitize_stem};

verus! {

/// The final component of a path: the characters after the last slash, or
/// the whole string when it has none. A path that ends in a slash has an
/// empty final component.
pub open spec fn after_last_slash(p: Seq<char>) -> Seq<char>
    decreases p.len(),
{
    if p.len() == 0 {
        Seq::empty()
    } else if p.last() == '/' {
        Seq::empty()
    } else {
        after_last_slash(p.drop_last()).push(p.last())
    }
}

/// The index of the last dot in a filename that stands at position one or
/// later, or zero when there is none. A dot at position zero starts a
/// hidden filename, not an extension.
pub open spec fn last_dot(name: Seq<char>) -> int
    decreases name.len(),
{
    if name.len() <= 1 {
        0
    } else if name.last() == '.' {
        name.len() - 1
    } else {
        last_dot(name.drop_last())
    }
}

/// A filename's stem: the part before the extension dot, or the whole
/// name when it has no extension.
pub open spec fn stem_of(name: Seq<char>) -> Seq<char> {
    if last_dot(name) >= 1 {
        name.subrange(0, last_dot(name))
    } else {
        name
    }
}

/// The stem a path yields: none when the final component is empty.
pub open spec fn file_stem_spec(p: Seq<char>) -> Option<Seq<char>> {
    if after_last_slash(p).len() == 0 {
        None
    } else {
        Some(stem_of(after_last_slash(p)))
    }
}

/// The sanitized output-name fragment a path yields: the sanitized stem,
/// or the empty string when the path yields no stem at all.
pub open spec fn sanitized_name_spec(p: Seq<char>) -> Seq<char> {
    match file_stem_spec(p) {
        None => Seq::empty(),
        Some(s) => sanitize_seq(s),
    }
}

proof fn lemma_after_last_slash_push(p: Seq<char>, c: char)
    ensures
        after_last_slash(p.push(c)) == if c == '/' {
            Seq::<char>::empty()
        } else {
            after_last_slash(p).push(c)
        },
{
    assert(p.push(c).drop_last() =~= p);
    assert(p.push(c).last() == c);
}

proof fn lemma_last_dot_push(name: Seq<char>, c: char)
    requires
        name.len() >= 1,
    ensures
        last_dot(name.push(c)) == if c == '.' {
            name.len() as int
        } else {
            last_dot(name)
        },
{
    assert(name.push(c).drop_last() =~= name);
    assert(name.push(c).last() == c);
}

/// The bounds `last_dot` respects: it never points past the end, and never
/// at position zero or below other than as its "no extension" marker.
proof fn lemma_last_dot_bounds(name: Seq<char>)
    ensures
        0 <= last_dot(name) < name.len() || (name.len() == 0 && last_dot(name) == 0),
    decreases name.len(),
{
    if name.len() > 1 && name.last() != '.' {
        lemma_last_dot_bounds(name.drop_last());
    }
}

/// Extracts the stem of the final path component: everything after the
/// last slash and before the extension dot. Yields nothing when the path
/// is empty or ends in a slash.
pub fn file_stem(path: &str) -> (r: Option<String>)
    ensures
        match r {
            None => file_stem_spec(path@) is None,
            Some(s) => file_stem_spec(path@) == Some(s@),
        },
{
    let n = path.unicode_len();
    // Find where the final component starts.
    let mut start: usize = 0;
    let mut i: usize = 0;
    while i < n
        invariant
            n == path@.len(),
            i <= n,
            start <= i,
            after_last_slash(path@.subrange(0, i as int)) =~= path@.subrange(
                start as int,
                i as int,
            ),
        decreases n - i,
    {
        let c = path.get_char(i);
        proof {
            assert(path@.subrange(0, i + 1) =~= path@.subrange(0, i as int).push(c));
            lemma_after_last_slash_push(path@.subrange(0, i as int), c);
        }
        if c == '/' {
            start = i + 1;
        }
        proof {
            if c == '/' {
                assert(path@.subrange(start as int, i + 1) =~= Seq::<char>::empty());
            } else {
                assert(path@.subrange(start as int, i + 1) =~= path@.subrange(
                    start as int,
                    i as int,
                ).push(c));
            }
        }
        i = i + 1;
    }
    proof {
        assert(path@.subrange(0, n as int) =~= path@);
    }
    if start == n {
        return None;
    }
    // Find the extension dot inside the final component, if any.
    let ghost name = path@.subrange(start as int, n as int);
    let mut dot: usize = start;
    let mut j: usize = start + 1;
    while j < n
        invariant
            n == path@.len(),
            start < j <= n,
            start <= dot,
            name == path@.subrange(start as int, n as int),
            dot - start == last_dot(path@.subrange(start as int, j as int)),
        decreases n - j,
    {
        let c = path.get_char(j);
        proof {
            assert(path@.subrange(start as int, j + 1) =~= path@.subrange(
                start as int,
                j as int,
            ).push(c));
            lemma_last_dot_push(path@.subrange(start as int, j as int), c);
        }
        if c == '.' {
            dot = j;
        }
        j = j + 1;
    }
    let stem_end = if dot > start {
        dot
    } else {
        n
    };
    proof {
        lemma_last_dot_bounds(name);
        if dot > start {
            assert(stem_of(name) =~= path@.subrange(start as int, dot as int));
        } else {
            assert(stem_of(name) =~= path@.subrange(start as int, n as int));
        }
    }
    let piece = path.substring_char(start, stem_end);
    Some(piece.to_owned())
}

/// Derives the sanitized name fragment for a path: the sanitized stem of
/// its final component, or the empty string when there is none.
pub fn sanitized_name(path: &str) -> (r: String)
    ensures
        r@ == sanitized_name_spec(path@),
{
    match file_stem(path) {
        None => String::new(),
        Some(s) => sanitize_stem(s.as_str()),
    }
}

} // verus!
