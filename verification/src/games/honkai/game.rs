use vstd::prelude::*;
use crate::paths::{join, path_join};
use crate::version::Version;
use super::consts::GameEdition;
use crate::games::branch_diff::{
    BranchDiffError, DiffInfo, DiffModel, DiffStep, DownloadInfo, GameBranch, diff_result, downloads_diff, game_predownload,
    game_step, game_update, spec_downloads_diff, spec_game_predownload, spec_game_step, spec_game_update,
};
use crate::games::package_diff::found_parts;
use super::version_diff::VersionDiff;

verus! {

#[derive(Debug, Clone, PartialEq, Eq)]
pub struct Game {
    path: String,
    edition: GameEdition,
}

impl Game {
    pub closed spec fn spec_path(&self) -> Seq<char> {
        self.path@
    }

    pub closed spec fn spec_edition(&self) -> GameEdition {
        self.edition
    }

    #[inline]
    pub fn new(path: &str, edition: GameEdition) -> (r: Self)
        ensures
            r.spec_path() == path@,
            r.spec_edition() == edition,
    {
        Self { path: path.to_owned(), edition }
    }

    #[inline]
    pub fn path(&self) -> (r: &str)
        ensures
            r@ == self.spec_path(),
    {
        self.path.as_str()
    }

    #[inline]
    pub fn edition(&self) -> (r: GameEdition)
        ensures
            r == self.spec_edition(),
    {
        self.edition
    }

    /// Path of the `.version` file of this installation
    pub fn version_file(&self) -> (r: String)
        ensures
            r@ == path_join(self.spec_path(), ".version"@),
    {
        join(self.path.as_str(), ".version")
    }

    /// Path of the game data file whose bytes name the installed version
    pub fn version_data_file(&self) -> (r: String)
        ensures
            r@ == path_join(path_join(self.spec_path(), "BH3_Data"@), "globalgamemanagers"@),
    {
        let data = join(self.path.as_str(), self.edition.data_folder());
        join(data.as_str(), "globalgamemanagers")
    }

    /// First step of the search for the difference between this
    /// installation and `latest`, the latest version of the game's branches
    /// `branch`; `installed` says whether the game folder exists, `current`
    /// is what `get_version` gave and `folder_empty` whether the game folder
    /// is empty (see `spec_game_step`)
    pub fn diff_step<Er>(
        &self,
        branch: &GameBranch,
        latest: Version,
        installed: bool,
        current: Result<Version, Er>,
        folder_empty: bool,
    ) -> (r: Result<DiffStep<GameEdition>, Er>)
        ensures
            match spec_game_step(*branch, latest@, self.spec_edition(), installed, found_parts(current), folder_empty) {
                Some(m) => r matches Ok(s) && s@ == m,
                None => r is Err && current is Err && r->Err_0 == current->Err_0,
            },
    {
        game_step(branch, latest, self.edition, installed, current, folder_empty)
    }

    /// The difference of this installation when it counts as not installed,
    /// from the download manifests of the main branch (see
    /// `spec_downloads_diff`)
    pub fn downloads_diff(&self, latest: Version, downloads: Vec<DownloadInfo>) -> (r: Result<VersionDiff, BranchDiffError>)
        ensures
            diff_result(r) == spec_downloads_diff(latest@, self.spec_edition(), self.spec_path(), downloads@),
    {
        downloads_diff(latest, self.edition, self.path.as_str(), downloads)
    }

    /// The predownload difference of this installation, of version
    /// `current`, from the diff manifests of the predownload branch of
    /// `branch` (see `spec_game_predownload`)
    pub fn predownload_diff(&self, current: Version, branch: &GameBranch, diffs: Vec<DiffInfo>) -> (r: VersionDiff)
        requires
            branch.pre_download is Some,
            spec_game_predownload(current@, self.spec_edition(), self.spec_path(), branch.pre_download->0, diffs@) is Ok,
        ensures
            spec_game_predownload(current@, self.spec_edition(), self.spec_path(), branch.pre_download->0, diffs@)
                == Ok::<DiffModel<GameEdition>, BranchDiffError>(r@),
    {
        match &branch.pre_download {
            Some(pre) => game_predownload(current, self.edition, self.path.as_str(), pre, diffs).unwrap(),
            None => {
                proof {
                    assert(false);
                }
                VersionDiff::Latest { version: current, edition: self.edition }
            },
        }
    }

    /// The difference of this installation, of version `current` older than
    /// `latest`, from the diff manifests of the main branch of `branch` (see
    /// `spec_game_update`)
    pub fn update_diff(&self, current: Version, latest: Version, branch: &GameBranch, diffs: Vec<DiffInfo>) -> (r: Result<VersionDiff, BranchDiffError>)
        ensures
            diff_result(r) == spec_game_update(current@, latest@, self.spec_edition(), self.spec_path(), branch.main, diffs@),
    {
        game_update(current, latest, self.edition, self.path.as_str(), &branch.main, diffs)
    }

}

} // verus!
