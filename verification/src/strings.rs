//! Prefix tests on strings, the basis of the textual identifier forms.

use vstd::prelude::*;

verus! {

/// Whether `prefix` is a prefix of `s`.
pub open spec fn spec_starts_with(s: Seq<char>, prefix: Seq<char>) -> bool {
    prefix.len() <= s.len() && s.subrange(0, prefix.len() as int) == prefix
}

/// `s` with a leading `prefix` removed.
pub open spec fn spec_strip(s: Seq<char>, prefix: Seq<char>) -> Seq<char> {
    s.skip(prefix.len() as int)
}

/// Whether `s` is an absolute path: it begins with the path separator.
pub open spec fn spec_is_absolute(s: Seq<char>) -> bool {
    s.len() > 0 && s[0] == '/'
}

/// Prepending `prefix` to any string yields a string that starts with
/// `prefix`, and stripping it recovers the rest.
pub proof fn lemma_prefix_concat(prefix: Seq<char>, rest: Seq<char>)
    ensures
        spec_starts_with(prefix + rest, prefix),
        spec_strip(prefix + rest, prefix) == rest,
{
    assert((prefix + rest).subrange(0, prefix.len() as int) =~= prefix);
    assert((prefix + rest).skip(prefix.len() as int) =~= rest);
}

/// A string that differs from `prefix` at some index within `prefix` does
/// not start with `prefix`.
pub proof fn lemma_differs_not_prefix(s: Seq<char>, prefix: Seq<char>, i: int)
    requires
        0 <= i < prefix.len(),
        0 <= i < s.len(),
        s[i] != prefix[i],
    ensures
        !spec_starts_with(s, prefix),
{
    if spec_starts_with(s, prefix) {
        assert(s.subrange(0, prefix.len() as int)[i] == s[i]);
    }
}

/// Whether `s` starts with `prefix`, compared character by character.
pub fn starts_with_str(s: &str, prefix: &str) -> (r: bool)
    ensures
        r == spec_starts_with(s@, prefix@),
{
    let sn = s.unicode_len();
    let pn = prefix.unicode_len();
    if pn > sn {
        return false;
    }
    let mut i: usize = 0;
    while i < pn
        invariant
            i <= pn <= sn,
            sn == s@.len(),
            pn == prefix@.len(),
            forall|j: int| 0 <= j < i ==> s@[j] == prefix@[j],
        decreases pn - i,
    {
        if s.get_char(i) != prefix.get_char(i) {
            proof {
                lemma_differs_not_prefix(s@, prefix@, i as int);
            }
            return false;
        }
        i += 1;
    }
    proof {
        assert(s@.subrange(0, prefix@.len() as int) =~= prefix@);
    }
    true
}

} // verus!
