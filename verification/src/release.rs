//! Options of a GitHub release.

use vstd::prelude::*;

verus! {

/// What a GitHub release is created with.
pub struct ReleaseOptions {
    pub token: String,
    /// `owner/repo`.
    pub repo: String,
    pub tag: String,
    pub name: String,
    pub body: String,
    pub draft: bool,
    pub prerelease: bool,
}

} // verus!
