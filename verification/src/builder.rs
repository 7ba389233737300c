//! Build descriptions: a repository, the branches to build and the
//! commands of the build.

use vstd::prelude::*;

verus! {

/// What to build for a repository, and on which of its branches.
#[derive(Clone, Debug, PartialEq)]
pub struct Build {
    pub repository: String,
    pub branches: Vec<String>,
    pub build: Vec<String>,
}

} // verus!
