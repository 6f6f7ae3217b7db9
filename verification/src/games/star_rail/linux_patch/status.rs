use vstd::prelude::*;
use crate::version::Version;
use crate::strings::from_chars;
use crate::strings::to_chars;
use crate::games::star_rail::consts::GameEdition;
use crate::games::star_rail::linux_patch::main_patch::{MainPatch, PatchMetadata, main_status};
use crate::version::parse_version;

verus! {

#[derive(Debug, Clone, PartialEq, Eq)]
pub enum PatchStatus {
    /// Patch is not available for selected region
    NotAvailable,
    /// The patch is outdated and nothing was made to update it
    Outdated { current: Version, latest: Version },
    /// Patch is available for the latest version of the game, but only in testing mode
    Testing { version: Version, srbase_hash: String, player_hash: String },
    /// Patch is fully available and tested for the latest version of the game
    Available { version: Version, srbase_hash: String, player_hash: String },
}

#[derive(Debug, Clone, PartialEq, Eq)]
pub struct Patch {
    folder: String,
}

impl Patch {
    pub closed spec fn spec_folder(&self) -> Seq<char> {
        self.folder@
    }

    #[inline]
    pub fn new(folder: &str) -> (r: Self)
        ensures
            r.spec_folder() == folder@,
    {
        Self { folder: from_chars(to_chars(folder).as_slice()) }
    }

    /// Patch repository folder
    #[inline]
    pub fn folder(&self) -> (r: &str)
        ensures
            r@ == self.spec_folder(),
    {
        self.folder.as_str()
    }

    /// Status of the main patch in this repository for `region`: `metadata`
    /// is what the repository's `version.json` holds and `latest` the latest
    /// game version (see `main_status`)
    #[inline]
    pub fn main_patch(&self, region: GameEdition, metadata: PatchMetadata, latest: Version) -> (r: MainPatch)
        requires
            parse_version(metadata.version@) is Some,
        ensures
            r.folder@ == self.spec_folder(),
            main_status(metadata, region, latest, r.status),
    {
        MainPatch::from_folder(self.folder.as_str(), region, metadata, latest)
    }
}

} // verus!
