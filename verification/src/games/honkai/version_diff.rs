use vstd::prelude::*;
use super::consts::GameEdition;
use crate::games::branch_diff::{DiffDownloadingError, DiffModel};

verus! {

/// Difference between the installed game and the latest one
pub type VersionDiff = crate::games::branch_diff::VersionDiff<GameEdition>;

impl crate::games::branch_diff::VersionDiff<GameEdition> {
    /// Downloading a difference as a single file: never possible, since no
    /// single file holds it. An up to date component says so
    pub fn download_as(&self) -> (r: Result<(), DiffDownloadingError>)
        ensures
            r == Err::<(), DiffDownloadingError>(match self@ {
                DiffModel::Latest { .. } => DiffDownloadingError::AlreadyLatest,
                _ => DiffDownloadingError::MultipleSegments,
            }),
    {
        match self {
            Self::Latest { .. } => Err(DiffDownloadingError::AlreadyLatest),
            _ => Err(DiffDownloadingError::MultipleSegments),
        }
    }
}

} // verus!
