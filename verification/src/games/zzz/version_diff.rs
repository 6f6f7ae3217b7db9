use vstd::prelude::*;
use super::consts::GameEdition;

verus! {

/// Difference between the installed game and the latest one
pub type VersionDiff = crate::games::package_diff::VersionDiff<GameEdition>;

} // verus!
