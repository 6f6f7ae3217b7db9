use vstd::prelude::*;
use super::consts::GameEdition;
use crate::games::branch_diff::{DiffDownloadingError, DiffModel};

verus! {

/// Difference between the installed game and the latest one
pub type VersionDiff = crate::games::branch_diff::VersionDiff<GameEdition>;

impl crate::games::branch_diff::VersionDiff<GameEdition> {
    /// Downloading a difference as a single file: never possible, since no
    /// single file holds it. An up to date component says so, and so does
    /// one too old to update
    pub fn download_as(&self) -> (r: Result<(), DiffDownloadingError>)
        ensures
            r == Err::<(), DiffDownloadingError>(match self@ {
                DiffModel::Latest { .. } => DiffDownloadingError::AlreadyLatest,
                DiffModel::Outdated { .. } => DiffDownloadingError::Outdated,
                _ => DiffDownloadingError::MultipleSegments,
            }),
    {
        match self {
            Self::Latest { .. } => Err(DiffDownloadingError::AlreadyLatest),
            Self::Outdated { .. } => Err(DiffDownloadingError::Outdated),
            _ => Err(DiffDownloadingError::MultipleSegments),
        }
    }
}

} // verus!
