//! Path computation for the store: given the user's home directory, the
//! store root, the pointer file and each profile file have fixed names.

use vstd::prelude::*;
use vstd::string::StringExecFns;

verus! {

/// The store root: `<home>/.pit`.
pub open spec fn root_path_of(home: Seq<char>) -> Seq<char> {
    home + "/.pit"@
}

/// The pointer file: `<root>/pit.yaml`.
pub open spec fn pointer_path_of(home: Seq<char>) -> Seq<char> {
    root_path_of(home) + "/pit.yaml"@
}

/// A profile file inside a store root: `<dir>/<name>.yaml`.
pub open spec fn profile_path_in(dir: Seq<char>, name: Seq<char>) -> Seq<char> {
    dir + "/"@ + name + ".yaml"@
}

/// Computes the store root for a home directory.
pub fn root_path(home: &str) -> (r: String)
    ensures
        r@ == root_path_of(home@),
{
    let mut s = home.to_owned();
    s.append("/.pit");
    s
}

/// Computes the pointer file's path for a home directory.
pub fn pointer_path(home: &str) -> (r: String)
    ensures
        r@ == pointer_path_of(home@),
{
    let mut s = root_path(home);
    s.append("/pit.yaml");
    s
}

/// Computes the path of the profile file named `name` inside `dir`.
pub fn profile_file_path(dir: &str, name: &str) -> (r: String)
    ensures
        r@ == profile_path_in(dir@, name@),
{
    let mut s = dir.to_owned();
    s.append("/");
    s.append(name);
    s.append(".yaml");
    s
}

} // verus!
