//! The home directory of the user who runs the node.

use vstd::prelude::*;

verus! {

/// Asks `dirs::home_dir` for the user's home directory and gives its path as
/// text.
///
/// Nothing is claimed of the answer: it depends on the environment, and
/// there may be none. A home directory whose path is not valid Unicode has no
/// text and is given as `None` too.
#[verifier::external_body]
pub(crate) fn home_dir() -> (home: Option<String>) {
    match dirs::home_dir() {
        Some(path) => path.to_str().map(String::from),
        None => None,
    }
}

} // verus!
