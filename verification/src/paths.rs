//! The resolution of declared paths: a path that begins with the
//! separator is taken from the repository root, any other from the
//! directory of the configuration that declares it.

use crate::trusted::join;
use crate::trusted::joined;
use vstd::prelude::*;
use vstd::string::*;

verus! {

/// A declared path is root-relative when it begins with the separator.
pub open spec fn is_root_relative(path: Seq<char>) -> bool {
    path.len() > 0 && path[0] == '/'
}

/// The declared path without its leading separator.
pub open spec fn after_separator(path: Seq<char>) -> Seq<char>
    recommends
        is_root_relative(path),
{
    path.skip(1)
}

/// The display label of a declared path: the path itself, less its
/// separator, when it is root-relative, and otherwise the path joined to
/// the directory of the declaring configuration.
pub open spec fn label_of(config_relative_dir: Seq<char>, path: Seq<char>) -> Seq<char> {
    if is_root_relative(path) {
        after_separator(path)
    } else {
        joined(config_relative_dir, path)
    }
}

/// The location of a declared path under `base`: `base` joined with the label.
pub open spec fn location_of(base: Seq<char>, config_relative_dir: Seq<char>, path: Seq<char>) -> Seq<char> {
    joined(base, label_of(config_relative_dir, path))
}

/// Splits off the leading separator of a declared path, if it has one.
pub fn strip_root_marker(path: &str) -> (out: Option<String>)
    ensures
        out is Some == is_root_relative(path@),
        out is Some ==> out->0@ == after_separator(path@),
{
    let len: usize = path.unicode_len();
    if len > 0 && path.get_char(0) == '/' {
        let rest = path.substring_char(1, len);
        proof {
            assert(path@.subrange(1, len as int) =~= path@.skip(1));
        }
        Some(String::from_str(rest))
    } else {
        None
    }
}

/// Resolves a declared path against `base`, giving its location and its label.
pub fn resolve_path(base: &str, config_relative_dir: &str, path: &str) -> (out: (String, String))
    ensures
        out.0@ == location_of(base@, config_relative_dir@, path@),
        out.1@ == label_of(config_relative_dir@, path@),
{
    match strip_root_marker(path) {
        Some(stripped) => {
            let location = join(base, stripped.as_str());
            (location, stripped)
        },
        None => {
            let label = join(config_relative_dir, path);
            let location = join(base, label.as_str());
            (location, label)
        },
    }
}

} // verus!
