//! The compute part of the file-browsing handlers: every request's path
//! is resolved against the configured root directory. Reading and
//! writing the files themselves is I/O and lives outside the library.

use vstd::prelude::*;

verus! {

/// The root directory prefixed to a request's file path.
pub fn resolve_path(root: &str, file_path: &str) -> (r: String)
    ensures
        r@ == root@ + file_path@,
{
    let mut s: String = root.to_owned();
    s.append(file_path);
    s
}

} // verus!
