//! Text helpers shared by the planners.

use vstd::prelude::*;
use vstd::string::*;

verus! {

/// Views of a sequence of strings, element by element.
pub open spec fn texts(v: Seq<String>) -> Seq<Seq<char>> {
    Seq::new(v.len(), |i: int| v[i]@)
}

/// `pat` occurs in `s` as a contiguous run of characters.
pub open spec fn has_substring(s: Seq<char>, pat: Seq<char>) -> bool {
    exists|i: int| 0 <= i && i + pat.len() <= s.len() && #[trigger] s.subrange(i, i + pat.len()) == pat
}

/// The lowercase form of a text, as `str::to_lowercase` computes it.
pub uninterp spec fn lowercased(s: Seq<char>) -> Seq<char>;

/// `s` with each hyphen replaced by an underscore.
pub open spec fn underscored(s: Seq<char>) -> Seq<char> {
    Seq::new(s.len(), |i: int| if s[i] == '-' { '_' } else { s[i] })
}

/// Trusted: `str::contains` with a string pattern. Its documentation says it
/// returns true exactly when the pattern matches a sub-slice of the text.
#[verifier::external_body]
pub(crate) fn str_contains(s: &str, pat: &str) -> (r: bool)
    ensures
        r == has_substring(s@, pat@),
{
    s.contains(pat)
}

/// Trusted: `str::to_lowercase`. The result is Unicode's lowercase mapping of
/// the argument, which is not restated here; it is only given a name.
#[verifier::external_body]
pub(crate) fn to_lowercase(s: &str) -> (r: String)
    ensures
        r@ == lowercased(s@),
{
    s.to_lowercase()
}

/// Trusted: `String::push`, which appends one character to the end.
#[verifier::external_body]
pub(crate) fn push_char(s: &mut String, c: char)
    ensures
        final(s)@ == old(s)@.push(c),
{
    s.push(c)
}

/// Replaces every hyphen of `s` by an underscore.
pub fn hyphens_to_underscores(s: &str) -> (r: String)
    ensures
        r@ == underscored(s@),
{
    let n: usize = s.unicode_len();
    let mut out = String::new();
    let mut i: usize = 0;
    while i < n
        invariant
            n == s@.len(),
            i <= n,
            out@ == underscored(s@).subrange(0, i as int),
        decreases n - i,
    {
        let c = s.get_char(i);
        if c == '-' {
            push_char(&mut out, '_');
        } else {
            push_char(&mut out, c);
        }
        i += 1;
        assert(out@ =~= underscored(s@).subrange(0, i as int));
    }
    assert(out@ =~= underscored(s@));
    out
}

/// `a` followed by `b`.
pub fn with_suffix(a: &str, b: &str) -> (r: String)
    ensures
        r@ == a@ + b@,
{
    String::from_str(a).concat(b)
}

/// Appends a copy of `s` to `v`.
pub(crate) fn push_text(v: &mut Vec<String>, s: &str)
    ensures
        texts(final(v)@) == texts(old(v)@).push(s@),
{
    v.push(String::from_str(s));
    assert(texts(v@) =~= texts(old(v)@).push(s@));
}

} // verus!
