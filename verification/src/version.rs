//! The CLI's own version.

use vstd::prelude::*;

verus! {

/// The version of this CLI, as printed by `oqtopus version`.
pub struct VersionInfo {
    pub version: String,
}

} // verus!
