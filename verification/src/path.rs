//! Home-relative path construction.

use vstd::prelude::*;
use vstd::string::*;

verus! {

/// Spec: `rel` appended to `home` with a single separating slash.
pub open spec fn joined_path(home: Seq<char>, rel: Seq<char>) -> Seq<char> {
    home + "/"@ + rel
}

/// Resolve a path relative to the user's home directory. The caller
/// supplies the home directory it read from the environment.
pub fn get_home_relative_path(home: &str, path: &str) -> (r: String)
    ensures
        r@ == joined_path(home@, path@),
{
    let mut s = home.to_owned();
    s.append("/");
    s.append(path);
    s
}

} // verus!
