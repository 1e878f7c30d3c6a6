//! Where the application's bundled files live.

use vstd::prelude::*;
use std::path::PathBuf;

verus! {

/// `std::path::PathBuf`, carried through as an opaque value: nothing is
/// claimed about what a path holds.
#[verifier::external_type_specification]
#[verifier::external_body]
pub struct ExPathBuf(PathBuf);

/// The directory below which the application's assets are looked up. The
/// host joins an asset's relative path to `base` and reads the file.
pub struct Assets {
    pub base: PathBuf,
}

impl Assets {
    /// The asset source rooted at `base`.
    pub fn new(base: PathBuf) -> (assets: Assets)
        ensures
            assets.base == base,
    {
        Assets { base }
    }
}

} // verus!
