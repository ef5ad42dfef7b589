//! Filename sanitizing: rewriting a filename stem into a form that is safe
//! to embed in a generated output filename.

use vstd::prelude::*;
use vstd::string::*;

verus! {

/// One character's replacement under the sanitizing rules: double quotes,
/// spaces and parentheses are dropped; hyphens and commas become
/// underscores; the accented letters e-acute, e-grave and a-grave become
/// their unaccented equivalents; every other character passes through
/// unchanged.
pub open spec fn sanitize_char(c: char) -> Seq<char> {
    if c == '"' || c == ' ' || c == '(' || c == ')' {
        Seq::empty()
    } else if c == '-' || c == ',' {
        seq!['_']
    } else if c == '\u{e9}' || c == '\u{e8}' {
        seq!['e']
    } else if c == '\u{e0}' {
        seq!['a']
    } else {
        seq![c]
    }
}

/// The sanitized form of a whole stem: each character replaced in turn.
pub open spec fn sanitize_seq(s: Seq<char>) -> Seq<char>
    decreases s.len(),
{
    if s.len() == 0 {
        Seq::empty()
    } else {
        sanitize_seq(s.drop_last()) + sanitize_char(s.last())
    }
}

/// Relies on std's `String::push`: it appends exactly the one character.
#[verifier::external_body]
fn push_char(s: &mut String, c: char)
    ensures
        final(s)@ == old(s)@.push(c),
{
    s.push(c);
}

/// Sanitizing distributes over concatenation.
pub proof fn lemma_sanitize_concat(a: Seq<char>, b: Seq<char>)
    ensures
        sanitize_seq(a + b) == sanitize_seq(a) + sanitize_seq(b),
    decreases b.len(),
{
    if b.len() == 0 {
        assert(a + b =~= a);
        assert(sanitize_seq(a) + sanitize_seq(b) =~= sanitize_seq(a));
    } else {
        lemma_sanitize_concat(a, b.drop_last());
        assert((a + b).drop_last() =~= a + b.drop_last());
        assert((a + b).last() == b.last());
        assert(sanitize_seq(a) + (sanitize_seq(b.drop_last()) + sanitize_char(b.last()))
            =~= (sanitize_seq(a) + sanitize_seq(b.drop_last())) + sanitize_char(b.last()));
    }
}

/// Every character a replacement can produce is itself left unchanged by
/// the rules.
pub proof fn lemma_sanitize_char_clean(c: char)
    ensures
        sanitize_seq(sanitize_char(c)) == sanitize_char(c),
{
    let r = sanitize_char(c);
    if r.len() == 0 {
        assert(sanitize_seq(r) =~= r);
    } else {
        assert(r.len() == 1);
        assert(r.drop_last() =~= Seq::<char>::empty());
        assert(sanitize_seq(r) == sanitize_seq(r.drop_last()) + sanitize_char(r.last()));
        assert(sanitize_char(r[0]) =~= seq![r[0]]);
        assert(sanitize_seq(r) =~= r);
    }
}

/// A character the sanitizing rules drop or rewrite.
pub open spec fn is_rewritten_char(c: char) -> bool {
    ||| c == '"'
    ||| c == ' '
    ||| c == '('
    ||| c == ')'
    ||| c == '-'
    ||| c == ','
    ||| c == '\u{e9}'
    ||| c == '\u{e8}'
    ||| c == '\u{e0}'
}

/// Law: a sanitized stem is safe to embed in a filename — no character
/// the rules drop or rewrite survives into the result.
pub proof fn lemma_sanitize_safe(s: Seq<char>, i: int)
    requires
        0 <= i < sanitize_seq(s).len(),
    ensures
        !is_rewritten_char(sanitize_seq(s)[i]),
    decreases s.len(),
{
    if s.len() > 0 {
        let left = sanitize_seq(s.drop_last());
        let right = sanitize_char(s.last());
        if i < left.len() {
            lemma_sanitize_safe(s.drop_last(), i);
            assert(sanitize_seq(s)[i] == left[i]);
        } else {
            assert(sanitize_seq(s)[i] == right[i - left.len()]);
        }
    }
}

/// Law: sanitizing is idempotent. A stem that is already clean — in
/// particular, any output of `sanitize_stem` — comes back unchanged from a
/// second pass.
pub proof fn lemma_sanitize_idempotent(s: Seq<char>)
    ensures
        sanitize_seq(sanitize_seq(s)) == sanitize_seq(s),
    decreases s.len(),
{
    if s.len() > 0 {
        lemma_sanitize_idempotent(s.drop_last());
        lemma_sanitize_concat(sanitize_seq(s.drop_last()), sanitize_char(s.last()));
        lemma_sanitize_char_clean(s.last());
    }
}

/// Rewrites a filename stem into its sanitized form.
pub fn sanitize_stem(stem: &str) -> (r: String)
    ensures
        r@ == sanitize_seq(stem@),
{
    let n = stem.unicode_len();
    let mut out = String::new();
    let mut i: usize = 0;
    while i < n
        invariant
            n == stem@.len(),
            i <= n,
            out@ == sanitize_seq(stem@.subrange(0, i as int)),
        decreases n - i,
    {
        let c = stem.get_char(i);
        proof {
            assert(stem@.subrange(0, i + 1).drop_last() =~= stem@.subrange(0, i as int));
            assert(stem@.subrange(0, i + 1).last() == c);
        }
        if c == '"' || c == ' ' || c == '(' || c == ')' {
            proof {
                assert(out@ + sanitize_char(c) =~= out@);
            }
        } else if c == '-' || c == ',' {
            out.append("_");
            proof {
                reveal_strlit("_");
                assert("_"@ =~= seq!['_']);
            }
        } else if c == '\u{e9}' || c == '\u{e8}' {
            out.append("e");
            proof {
                reveal_strlit("e");
                assert("e"@ =~= seq!['e']);
            }
        } else if c == '\u{e0}' {
            out.append("a");
            proof {
                reveal_strlit("a");
                assert("a"@ =~= seq!['a']);
            }
        } else {
            push_char(&mut out, c);
            proof {
                assert(out@ =~= sanitize_seq(stem@.subrange(0, i as int)) + sanitize_char(c));
            }
        }
        i = i + 1;
    }
    proof {
        assert(stem@.subrange(0, n as int) =~= stem@);
    }
    out
}

} // verus!
