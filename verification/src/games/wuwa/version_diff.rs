use vstd::prelude::*;

verus! {

/// Difference between the installed game and the latest one: game files are
/// downloaded one by one, as for PGR
pub type VersionDiff = crate::games::pgr::version_diff::VersionDiff;

} // verus!
