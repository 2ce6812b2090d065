//! Where the server listens: the path that the environment names, or the
//! default.

use vstd::prelude::*;
use vstd::string::*;

verus! {

/// The path to connect to: the value of the override variable where it is
/// set and not empty, the default path otherwise.
pub open spec fn resolved(value: Option<Seq<char>>, default_path: Seq<char>) -> Seq<char> {
    match value {
        Some(path) if path.len() > 0 => path,
        _ => default_path,
    }
}

/// An optional text as contracts see it.
pub open spec fn value_view(value: Option<String>) -> Option<Seq<char>> {
    match value {
        Some(path) => Some(path@),
        None => None,
    }
}

/// The path to connect to, given what the override variable holds (`None`
/// where it is not set) and the default path. The value is taken as it is.
pub fn resolve(value: Option<String>, default_path: &str) -> (path: String)
    ensures
        path@ == resolved(value_view(value), default_path@),
{
    match value {
        Some(path) => {
            if path.as_str().is_empty() {
                String::from_str(default_path)
            } else {
                path
            }
        },
        None => String::from_str(default_path),
    }
}

} // verus!
