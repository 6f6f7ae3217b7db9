use vstd::prelude::*;
use crate::version::Version;
use crate::strings::str_eq;
use super::patches::{UnityPlayerPatch, XluaPatch, patch_status, listing_defined, listing_status};

verus! {

#[derive(Debug, Clone, PartialEq, Eq)]
pub enum Regions {
    /// `UnityPlayer.dll` / `Plugins/xlua.dll` md5 hash
    Global(String),
    /// `UnityPlayer.dll` / `Plugins/xlua.dll` md5 hash
    China(String),
    /// `UnityPlayer.dll` / `Plugins/xlua.dll` md5 hashes for different regions
    Both { global: String, china: String },
}

/// Mathematical value of `Regions`
pub enum RegionsModel {
    Global(Seq<char>),
    China(Seq<char>),
    Both { global: Seq<char>, china: Seq<char> },
}

impl View for Regions {
    type V = RegionsModel;

    open spec fn view(&self) -> RegionsModel {
        match self {
            Regions::Global(h) => RegionsModel::Global(h@),
            Regions::China(h) => RegionsModel::China(h@),
            Regions::Both { global, china } => RegionsModel::Both { global: global@, china: china@ },
        }
    }
}

/// Whether a library with the hash `player_hash` is patched: its hash is
/// none of the unpatched ones
pub open spec fn spec_is_applied(regions: RegionsModel, player_hash: Seq<char>) -> bool {
    match regions {
        RegionsModel::Global(h) => h != player_hash,
        RegionsModel::China(h) => h != player_hash,
        RegionsModel::Both { global, china } => global != player_hash && china != player_hash,
    }
}

/// A library still holding one of the unpatched hashes that a `Regions`
/// value lists is not patched, whichever region that hash belongs to; a
/// library whose hash differs from every listed hash is patched
pub proof fn lemma_unpatched_hash_not_applied(regions: RegionsModel, player_hash: Seq<char>)
    ensures
        regions matches RegionsModel::Global(g) ==> !spec_is_applied(regions, g),
        regions matches RegionsModel::China(c) ==> !spec_is_applied(regions, c),
        regions matches RegionsModel::Both { global, china } ==> !spec_is_applied(regions, global) && !spec_is_applied(regions, china),
        spec_is_applied(regions, player_hash) <==> match regions {
            RegionsModel::Global(g) => player_hash != g,
            RegionsModel::China(c) => player_hash != c,
            RegionsModel::Both { global, china } => player_hash != global && player_hash != china,
        },
{
}

impl Regions {
    /// Compares `player_hash` with inner values
    ///
    /// If `player_hash` not equal to the inner value, then the patch was applied
    #[inline]
    pub fn is_applied(&self, player_hash: &str) -> (r: bool)
        ensures
            r == spec_is_applied(self@, player_hash@),
    {
        match self {
            Self::Global(hash) | Self::China(hash) => !str_eq(hash.as_str(), player_hash),
            Self::Both { global, china } => !str_eq(global.as_str(), player_hash) && !str_eq(china.as_str(), player_hash),
        }
    }
}

#[derive(Debug, Clone, PartialEq, Eq)]
pub enum PatchStatus {
    /// Patch is not available
    NotAvailable,
    /// The patch is outdated and nothing was made to update it
    Outdated { current: Version, latest: Version },
    /// Some preparations for the new version of the game were made, but the patch is not available
    ///
    /// Technically the same as `Outdated`
    Preparation { version: Version },
    /// Patch is available for the latest version of the game, but only in testing mode
    Testing { version: Version, player_hash: Regions },
    /// Patch is fully available and tested for the latest version of the game
    Available { version: Version, player_hash: Regions },
}

#[derive(Debug, Clone, PartialEq, Eq)]
pub struct Patch {
    folder: String,
}

impl Patch {
    pub closed spec fn spec_folder(&self) -> Seq<char> {
        self.folder@
    }

    #[inline]
    pub fn new(folder: &str) -> (r: Self)
        ensures
            r.spec_folder() == folder@,
    {
        Self { folder: folder.to_owned() }
    }

    /// Patch repository folder
    #[inline]
    pub fn folder(&self) -> (r: &str)
        ensures
            r@ == self.spec_folder(),
    {
        self.folder.as_str()
    }

    /// The UnityPlayer patch of this repository, whose version folders
    /// (those that hold its script) are named `names`, when the latest game
    /// version is `latest` and `script` is the script of the newest of them
    pub fn unity_player_patch(&self, names: &[String], latest: Version, script: &str) -> (r: UnityPlayerPatch)
        requires
            listing_defined(names@, latest@, script@),
        ensures
            r.patch_folder@ == self.spec_folder(),
            r.status@ == listing_status(names@, latest@, script@),
    {
        UnityPlayerPatch { patch_folder: self.folder.clone(), status: patch_status(names, latest, script) }
    }

    /// The xlua patch of this repository, whose version folders (those that
    /// hold its script) are named `names`, when the latest game version is
    /// `latest` and `script` is the script of the newest of them
    pub fn xlua_patch(&self, names: &[String], latest: Version, script: &str) -> (r: XluaPatch)
        requires
            listing_defined(names@, latest@, script@),
        ensures
            r.patch_folder@ == self.spec_folder(),
            r.status@ == listing_status(names@, latest@, script@),
    {
        XluaPatch { patch_folder: self.folder.clone(), status: patch_status(names, latest, script) }
    }
}

} // verus!
