//! Case folding and underscore removal for matching identifier names.

use vstd::prelude::*;

verus! {

/// What `str::to_lowercase` gives for a string: its lowercase form under
/// the Unicode case mapping.
pub uninterp spec fn unicode_lowercase(s: Seq<char>) -> Seq<char>;

/// Whether every character is an ASCII character.
pub open spec fn all_ascii(s: Seq<char>) -> bool {
    forall|i: int| 0 <= i < s.len() ==> (s[i] as u32) < 128
}

/// A character with `A` to `Z` turned into `a` to `z`.
pub open spec fn ascii_lower_char(c: char) -> char {
    if 'A' <= c && c <= 'Z' {
        ((c as u32) + 32) as char
    } else {
        c
    }
}

/// A string with `A` to `Z` turned into `a` to `z`.
pub open spec fn ascii_lowercase(s: Seq<char>) -> Seq<char> {
    Seq::new(s.len(), |i: int| ascii_lower_char(s[i]))
}

/// The characters of `str::to_lowercase(s)`.
///
/// Trusted: `str::to_lowercase` returns the Unicode lowercase form of its
/// argument, named here [`unicode_lowercase`]; for a string of ASCII
/// characters the Unicode mapping sends `A` to `Z` to `a` to `z` and leaves
/// every other character as it is. Nothing is said of other inputs.
#[verifier::external_body]
pub(crate) fn lowercase_chars(s: &str) -> (lower: Vec<char>)
    ensures
        lower@ == unicode_lowercase(s@),
        all_ascii(s@) ==> lower@ == ascii_lowercase(s@),
{
    s.to_lowercase().chars().collect()
}

/// A string with every `_` taken out.
pub open spec fn without_underscores(s: Seq<char>) -> Seq<char>
    decreases s.len(),
{
    if s.len() == 0 {
        s
    } else {
        let rest = without_underscores(s.drop_last());
        if s.last() == '_' {
            rest
        } else {
            rest.push(s.last())
        }
    }
}

/// An underscore put anywhere into a string is taken out again.
pub proof fn lemma_inserted_underscore_vanishes(s: Seq<char>, i: int)
    requires
        0 <= i <= s.len(),
    ensures
        without_underscores(s.insert(i, '_')) == without_underscores(s),
    decreases s.len(),
{
    let t = s.insert(i, '_');
    if i == s.len() {
        assert(t.drop_last() =~= s);
    } else {
        assert(t.drop_last() =~= s.drop_last().insert(i, '_'));
        assert(t.last() == s.last());
        lemma_inserted_underscore_vanishes(s.drop_last(), i);
    }
}

/// The characters with every `_` taken out.
pub(crate) fn remove_underscores(s: &Vec<char>) -> (out: Vec<char>)
    ensures
        out@ == without_underscores(s@),
{
    let mut out: Vec<char> = Vec::new();
    for i in 0..s.len()
        invariant
            out@ == without_underscores(s@.take(i as int)),
    {
        assert(s@.take(i + 1).drop_last() =~= s@.take(i as int));
        if s[i] != '_' {
            out.push(s[i]);
        }
    }
    assert(s@.take(s@.len() as int) =~= s@);
    out
}

/// Whether two character sequences are the same.
pub(crate) fn same_chars(a: &Vec<char>, b: &Vec<char>) -> (same: bool)
    ensures
        same == (a@ == b@),
{
    if a.len() != b.len() {
        return false;
    }
    for i in 0..a.len()
        invariant
            a@.len() == b@.len(),
            forall|j: int| 0 <= j < i ==> a@[j] == b@[j],
    {
        if a[i] != b[i] {
            return false;
        }
    }
    assert(a@ =~= b@);
    true
}

} // verus!
