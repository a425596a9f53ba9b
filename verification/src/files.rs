//! The one disk probe the library's logic consults directly.

use vstd::prelude::*;

verus! {

/// Relies on Path::exists: whether anything exists on disk at this path.
/// The result depends on the filesystem, so nothing is promised of it;
/// callers state what holds of either outcome.
#[verifier::external_body]
pub fn file_exists(path: &str) -> bool {
    std::path::Path::new(path).exists()
}

} // verus!
