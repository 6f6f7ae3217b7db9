use vstd::prelude::*;
use crate::games::genshin::api::schema::GamePackage;
use crate::games::package_diff::{package_diff, spec_package_diff, package_diff_defined, found_parts};
use crate::paths::{join, path_join};
use crate::version::Version;
use super::consts::GameEdition;
use super::version_diff::VersionDiff;

verus! {

#[derive(Debug, Clone, PartialEq, Eq)]
pub struct Game {
    path: String,
    edition: GameEdition,
}

impl Game {
    pub closed spec fn spec_path(&self) -> Seq<char> {
        self.path@
    }

    pub closed spec fn spec_edition(&self) -> GameEdition {
        self.edition
    }

    #[inline]
    pub fn new(path: &str, edition: GameEdition) -> (r: Self)
        ensures
            r.spec_path() == path@,
            r.spec_edition() == edition,
    {
        Self { path: path.to_owned(), edition }
    }

    #[inline]
    pub fn path(&self) -> (r: &str)
        ensures
            r@ == self.spec_path(),
    {
        self.path.as_str()
    }

    #[inline]
    pub fn edition(&self) -> (r: GameEdition)
        ensures
            r == self.spec_edition(),
    {
        self.edition
    }

    /// Path of the `.version` file of this installation
    pub fn version_file(&self) -> (r: String)
        ensures
            r@ == path_join(self.spec_path(), ".version"@),
    {
        join(self.path.as_str(), ".version")
    }

    /// Path of the game data file that names the installed version
    pub fn version_data_file(&self) -> (r: String)
        ensures
            r@ == path_join(path_join(self.spec_path(), "ZenlessZoneZero_Data"@), "globalgamemanagers"@),
    {
        let data = join(self.path.as_str(), self.edition.data_folder());
        join(data.as_str(), "globalgamemanagers")
    }

    /// Path of the game executable
    pub fn exe_path(&self) -> (r: String)
        ensures
            r@ == path_join(self.spec_path(), "ZenlessZoneZero.exe"@),
    {
        join(self.path.as_str(), self.edition.exe_name())
    }

    /// Difference between this installation and the package that the game
    /// API lists; `installed` says whether the game folder exists, `current`
    /// is the installed version (or why it is unknown) and `folder_empty`
    /// whether the game folder is empty
    pub fn try_get_diff<Er>(&self, package: &GamePackage, installed: bool, current: Result<Version, Er>, folder_empty: bool) -> (r: Result<VersionDiff, Er>)
        requires
            package_diff_defined(*package, installed, found_parts(current), folder_empty),
        ensures
            match spec_package_diff(*package, self.spec_edition(), self.spec_path(), installed, found_parts(current), folder_empty) {
                Some(m) => r matches Ok(d) && d@ == m,
                None => r is Err && current is Err && r->Err_0 == current->Err_0,
            },
    {
        package_diff(package, self.edition, self.path.as_str(), installed, current, folder_empty)
    }
}

} // verus!
