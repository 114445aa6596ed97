//! Version-tag handling: stripping the registry's leading `v` prefix and the
//! lexicographic comparison against the running build's version string.
//!
//! The comparison is deliberately the plain lexicographic order on character
//! sequences (by code point), not a semantic-version order: that is the
//! pipeline's stated behaviour, quirks included.

use vstd::prelude::*;

verus! {

/// `tag` with a single leading `v` removed, if one is present.
pub open spec fn spec_strip_v(tag: Seq<char>) -> Seq<char> {
    if tag.len() > 0 && tag[0] == 'v' {
        tag.skip(1)
    } else {
        tag
    }
}

/// Lexicographic order on character sequences, by code point: `a <= b`.
pub open spec fn spec_lex_le(a: Seq<char>, b: Seq<char>) -> bool
    decreases a.len(),
{
    if a.len() == 0 {
        true
    } else if b.len() == 0 {
        false
    } else if a[0] == b[0] {
        spec_lex_le(a.skip(1), b.skip(1))
    } else {
        (a[0] as u32) < (b[0] as u32)
    }
}

/// Removes a single leading `v` from a release tag, if one is present.
pub fn strip_tag_prefix(tag: &str) -> (r: &str)
    ensures
        r@ == spec_strip_v(tag@),
{
    let n = tag.unicode_len();
    if n > 0 && tag.get_char(0) == 'v' {
        let r = tag.substring_char(1, n);
        proof {
            assert(r@ =~= tag@.skip(1));
        }
        r
    } else {
        tag
    }
}

/// Decides `a <= b` in the lexicographic order on character sequences.
pub fn lex_le(a: &str, b: &str) -> (r: bool)
    ensures
        r == spec_lex_le(a@, b@),
{
    let a_len = a.unicode_len();
    let b_len = b.unicode_len();
    let mut i: usize = 0;
    proof {
        assert(a@.skip(0) =~= a@);
        assert(b@.skip(0) =~= b@);
    }
    loop
        invariant
            i <= a@.len(),
            i <= b@.len(),
            a_len == a@.len(),
            b_len == b@.len(),
            spec_lex_le(a@, b@) == spec_lex_le(a@.skip(i as int), b@.skip(i as int)),
        decreases a@.len() - i,
    {
        if i >= a_len {
            // `a` is exhausted: a prefix of `b`, or equal to it.
            return true;
        }
        if i >= b_len {
            // `b` is exhausted but `a` goes on: `a` is greater.
            return false;
        }
        let ca = a.get_char(i);
        let cb = b.get_char(i);
        if ca == cb {
            proof {
                assert(a@.skip(i as int).skip(1) =~= a@.skip(i + 1));
                assert(b@.skip(i as int).skip(1) =~= b@.skip(i + 1));
            }
            i = i + 1;
        } else {
            return (ca as u32) < (cb as u32);
        }
    }
}

/// Whether the release tagged `tag` is newer than the running build's
/// version `current`: the tag, minus one leading `v`, must be strictly
/// greater than `current` in the lexicographic order.
pub open spec fn spec_version_is_newer(tag: Seq<char>, current: Seq<char>) -> bool {
    !spec_lex_le(spec_strip_v(tag), current)
}

/// Decides whether the release tagged `tag` is newer than the running
/// build's version `current`.
pub fn version_is_newer(tag: &str, current: &str) -> (r: bool)
    ensures
        r == spec_version_is_newer(tag@, current@),
{
    let stripped = strip_tag_prefix(tag);
    !lex_le(stripped, current)
}

} // verus!
