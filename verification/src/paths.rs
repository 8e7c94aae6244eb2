//! Path arithmetic, delegated to the standard library's `Path`.
//!
//! Paths travel through the library as UTF-8 strings. What `Path` makes of
//! them (where a parent ends, what counts as a component) follows the path
//! rules of the platform the library is built for; those rules are not
//! restated here. Each operation's result is given a name, and the planners'
//! contracts are exact over those names.

use vstd::prelude::*;
use crate::text::texts;

verus! {

/// The path without its final component, as `Path::parent` gives it.
pub uninterp spec fn parent_of(path: Seq<char>) -> Option<Seq<char>>;

/// The final component of the path, as `Path::file_name` gives it.
pub uninterp spec fn file_name_of(path: Seq<char>) -> Option<Seq<char>>;

/// `rest` adjoined to `base`, as `Path::join` gives it.
pub uninterp spec fn joined(base: Seq<char>, rest: Seq<char>) -> Seq<char>;

/// Whether `base` is a prefix of `path` component by component, as
/// `Path::starts_with` decides it.
pub uninterp spec fn path_within(path: Seq<char>, base: Seq<char>) -> bool;

/// The components of the path, in order, as `Path::components` yields them.
pub uninterp spec fn components_of(path: Seq<char>) -> Seq<Seq<char>>;

/// How many components the path has.
pub open spec fn component_count(path: Seq<char>) -> nat {
    components_of(path).len()
}

/// Trusted: `Path::parent`. The result is the named parent of the argument;
/// `None` where the path ends in a root or is empty.
#[verifier::external_body]
pub(crate) fn parent(path: &str) -> (r: Option<String>)
    ensures
        r is Some <==> parent_of(path@) is Some,
        r is Some ==> r->0@ == parent_of(path@)->0,
{
    match std::path::Path::new(path).parent() {
        Some(p) => Some(p.to_string_lossy().into_owned()),
        None => None,
    }
}

/// Trusted: `Path::file_name`. The result is the named final component of the
/// argument; `None` where the path ends in `..` or has no component.
#[verifier::external_body]
pub(crate) fn file_name(path: &str) -> (r: Option<String>)
    ensures
        r is Some <==> file_name_of(path@) is Some,
        r is Some ==> r->0@ == file_name_of(path@)->0,
{
    match std::path::Path::new(path).file_name() {
        Some(n) => Some(n.to_string_lossy().into_owned()),
        None => None,
    }
}

/// Trusted: `Path::join`. The result is the named join of the two arguments.
#[verifier::external_body]
pub(crate) fn join(base: &str, rest: &str) -> (r: String)
    ensures
        r@ == joined(base@, rest@),
{
    std::path::Path::new(base).join(rest).to_string_lossy().into_owned()
}

/// Trusted: `Path::starts_with`. The result is the named prefix test.
#[verifier::external_body]
pub(crate) fn starts_with(path: &str, base: &str) -> (r: bool)
    ensures
        r == path_within(path@, base@),
{
    std::path::Path::new(path).starts_with(base)
}

/// Trusted: `Path::components`, each component taken as text. The result
/// is the named sequence of components.
#[verifier::external_body]
pub(crate) fn components(path: &str) -> (r: Vec<String>)
    ensures
        texts(r@) == components_of(path@),
{
    let mut parts: Vec<String> = Vec::new();
    for c in std::path::Path::new(path).components() {
        parts.push(c.as_os_str().to_string_lossy().into_owned());
    }
    parts
}

} // verus!
