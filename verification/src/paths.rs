//! Location-relative path resolution: every file this library manages lives
//! in the directory that holds the running executable.

use vstd::prelude::*;
use vstd::string::StringExecFns;

verus! {

/// The path of the file named `file` inside the directory `dir`.
pub open spec fn path_join(dir: Seq<char>, file: Seq<char>) -> Seq<char> {
    dir + "/"@ + file
}

/// Resolves `file` against the directory that holds the running executable.
/// The caller supplies that directory as `exe_dir`; the result is always
/// `<exe_dir>/<file>`, so resolution is deterministic and location-relative.
pub fn resolve(exe_dir: &str, file: &str) -> (r: String)
    ensures
        r@ == path_join(exe_dir@, file@),
{
    let mut r = String::from_str(exe_dir);
    r.append("/");
    r.append(file);
    r
}

} // verus!
