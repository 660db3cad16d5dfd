//! Operations on key names.

use vstd::prelude::*;
use vstd::string::*;

verus! {

/// `s` without the slashes at its end.
pub open spec fn without_trailing_slashes(s: Seq<char>) -> Seq<char>
    decreases s.len(),
{
    if s.len() > 0 && s.last() == '/' {
        without_trailing_slashes(s.drop_last())
    } else {
        s
    }
}

/// Removes every `/` from the end of `key`.
pub fn trim_trailing_slashes(key: &str) -> (r: &str)
    ensures
        r@ == without_trailing_slashes(key@),
{
    let mut end: usize = key.unicode_len();
    assert(key@.subrange(0, end as int) =~= key@);
    while end > 0 && key.get_char(end - 1) == '/'
        invariant
            end <= key@.len(),
            without_trailing_slashes(key@) == without_trailing_slashes(
                key@.subrange(0, end as int),
            ),
        decreases end,
    {
        assert(key@.subrange(0, end as int).drop_last() =~= key@.subrange(0, end - 1));
        end = end - 1;
    }
    key.substring_char(0, end)
}

/// What is cut off is made of slashes only, and what is left does not end in
/// one: the result is the shortest prefix of `s` that differs from `s` by
/// slashes alone.
pub proof fn lemma_without_trailing_slashes(s: Seq<char>)
    ensures
        without_trailing_slashes(s).len() <= s.len(),
        without_trailing_slashes(s) == s.subrange(0, without_trailing_slashes(s).len() as int),
        forall|i: int| without_trailing_slashes(s).len() <= i < s.len() ==> s[i] == '/',
        without_trailing_slashes(s).len() > 0 ==> without_trailing_slashes(s).last() != '/',
    decreases s.len(),
{
    if s.len() > 0 && s.last() == '/' {
        let t = s.drop_last();
        lemma_without_trailing_slashes(t);
        let n = without_trailing_slashes(t).len() as int;
        assert(t.subrange(0, n) =~= s.subrange(0, n));
        assert forall|i: int| n <= i < s.len() implies s[i] == '/' by {
            if i < t.len() {
                assert(t[i] == s[i]);
            }
        }
    } else {
        assert(s.subrange(0, s.len() as int) =~= s);
    }
}

} // verus!
