//! What the library leaves to others: the path functions of `std::path`,
//! two functions of `std` on texts, and the reading of glob patterns by
//! `glob`.
//!
//! Each function here makes one such call and nothing else. Verus does
//! not look into these calls: it takes the contracts in this module on
//! trust. Where the result of a call would take pages to state, the
//! contract gives it a name and says no more; the rules of the library
//! are then stated over that name.
//!
//! The path functions follow the conventions of the platform that the
//! crate is built for: a name stands for what the function gives in that
//! build.

use crate::text::ordered;
use crate::text::texts;
use vstd::prelude::*;

verus! {

/// The path that `std::path::Path::join` gives for `base` and `rel`.
pub uninterp spec fn joined(base: Seq<char>, rel: Seq<char>) -> Seq<char>;

/// What `std::path::Path::strip_prefix` leaves of `path` once `base` is
/// removed from its front, or `None` where `base` is no prefix of `path`.
pub uninterp spec fn without_prefix(path: Seq<char>, base: Seq<char>) -> Option<Seq<char>>;

/// The final component of `path` as `std::path::Path::file_name` gives it.
pub uninterp spec fn final_component(path: Seq<char>) -> Option<Seq<char>>;

/// The extension of `path` as `std::path::Path::extension` gives it.
pub uninterp spec fn extension_of(path: Seq<char>) -> Option<Seq<char>>;

/// The parent of `path` as `std::path::Path::parent` gives it.
pub uninterp spec fn parent_of(path: Seq<char>) -> Option<Seq<char>>;

/// Calls `std::path::Path::join`. The contract only names the result: the
/// joined path is a function of the two texts.
#[verifier::external_body]
pub(crate) fn join(base: &str, rel: &str) -> (out: String)
    ensures
        out@ == joined(base@, rel@),
{
    std::path::Path::new(base).join(rel).to_string_lossy().into_owned()
}

/// Calls `std::path::Path::strip_prefix`. The contract only names the
/// result; a failed strip is `None`.
#[verifier::external_body]
pub(crate) fn strip_prefix(path: &str, base: &str) -> (out: Option<String>)
    ensures
        out is Some == without_prefix(path@, base@) is Some,
        out is Some ==> out->0@ == without_prefix(path@, base@)->0,
{
    match std::path::Path::new(path).strip_prefix(base) {
        Ok(rest) => Some(rest.to_string_lossy().into_owned()),
        Err(_) => None,
    }
}

/// Calls `std::path::Path::file_name`. The contract only names the result.
#[verifier::external_body]
pub(crate) fn file_name(path: &str) -> (out: Option<String>)
    ensures
        out is Some == final_component(path@) is Some,
        out is Some ==> out->0@ == final_component(path@)->0,
{
    std::path::Path::new(path).file_name().map(|name| name.to_string_lossy().into_owned())
}

/// Calls `std::path::Path::extension`. The contract only names the result.
#[verifier::external_body]
pub(crate) fn extension(path: &str) -> (out: Option<String>)
    ensures
        out is Some == extension_of(path@) is Some,
        out is Some ==> out->0@ == extension_of(path@)->0,
{
    std::path::Path::new(path).extension().map(|ext| ext.to_string_lossy().into_owned())
}

/// Calls `std::path::Path::parent`. The contract only names the result.
#[verifier::external_body]
pub(crate) fn parent(path: &str) -> (out: Option<String>)
    ensures
        out is Some == parent_of(path@) is Some,
        out is Some ==> out->0@ == parent_of(path@)->0,
{
    std::path::Path::new(path).parent().map(|dir| dir.to_string_lossy().into_owned())
}

/// Whether `std::path::Path::is_absolute` holds of `path`.
pub uninterp spec fn absolute(path: Seq<char>) -> bool;

/// Calls `std::path::Path::is_absolute`. The contract only names the
/// result.
#[verifier::external_body]
pub(crate) fn is_absolute(path: &str) -> (out: bool)
    ensures
        out == absolute(path@),
{
    std::path::Path::new(path).is_absolute()
}

/// Whether `std::path::Path` takes `left` and `right` for equal, which it
/// does where their components are the same.
pub uninterp spec fn same_location(left: Seq<char>, right: Seq<char>) -> bool;

/// Calls `==` of `std::path::Path`. The contract only names the result.
#[verifier::external_body]
pub(crate) fn same_path(left: &str, right: &str) -> (out: bool)
    ensures
        out == same_location(left@, right@),
{
    std::path::Path::new(left) == std::path::Path::new(right)
}

/// The text that `str::trim` leaves of `text`.
pub uninterp spec fn trimmed(text: Seq<char>) -> Seq<char>;

/// Calls `str::trim`, which drops the white space at both ends. The
/// contract only names the result.
#[verifier::external_body]
pub(crate) fn trim(text: &str) -> (out: String)
    ensures
        out@ == trimmed(text@),
{
    text.trim().to_owned()
}

/// What `glob::glob` finds wrong with `pattern`: the text of its error,
/// or nothing where the pattern can be read.
pub uninterp spec fn pattern_fault(pattern: Seq<char>) -> Option<Seq<char>>;

/// Calls `glob::glob` and keeps its error. `glob::glob` reads the pattern
/// and prepares the search, for which it asks whether the place where the
/// search starts is a directory; the answer has no part in its error. It
/// looks for matches only when its result is iterated, which is not done
/// here. The contract only names the result.
#[verifier::external_body]
pub(crate) fn fault_of(pattern: &str) -> (out: Option<String>)
    ensures
        out is Some == pattern_fault(pattern@) is Some,
        out is Some ==> out->0@ == pattern_fault(pattern@)->0,
{
    match glob::glob(pattern) {
        Ok(_) => None,
        Err(error) => Some(error.to_string()),
    }
}

/// Whether `std::path::Path` puts `left` before `right` or takes the two
/// for equal: the `<=` of paths, which compares component by component.
pub uninterp spec fn path_before(left: Seq<char>, right: Seq<char>) -> bool;

/// Whether `items` stand in the order of paths.
pub open spec fn path_ordered(items: Seq<Seq<char>>) -> bool {
    forall|i: int, j: int| 0 <= i <= j < items.len() ==> path_before(items[i], items[j])
}

/// Calls `sort` on the items taken as `std::path::PathBuf`. It keeps the
/// items and puts them in the order of paths. The contract names that
/// order.
#[verifier::external_body]
pub(crate) fn sort_paths(items: &mut Vec<String>)
    ensures
        texts(final(items)@).to_multiset() == texts(old(items)@).to_multiset(),
        forall|i: int, j: int|
            0 <= i <= j < final(items)@.len() ==> path_before(
                #[trigger] texts(final(items)@)[i],
                #[trigger] texts(final(items)@)[j],
            ),
{
    let mut paths: Vec<std::path::PathBuf> = items.iter().map(std::path::PathBuf::from).collect();
    paths.sort();
    *items = paths.into_iter().map(|path| path.to_string_lossy().into_owned()).collect();
}

/// Calls `sort` of `Vec<String>`. It keeps the items and puts them in the
/// order of `String`, which compares byte by byte and so character by
/// character by code point.
#[verifier::external_body]
pub(crate) fn sort(items: &mut Vec<String>)
    ensures
        texts(final(items)@).to_multiset() == texts(old(items)@).to_multiset(),
        ordered(texts(final(items)@)),
{
    items.sort();
}

} // verus!
