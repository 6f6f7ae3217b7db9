use vstd::prelude::*;
use crate::strings::{from_chars, to_chars, str_eq, str_contains, contains};
use crate::paths::{join, path_join};
use crate::digest::{md5_hex, md5_hex_of};
use crate::games::star_rail::linux_patch::status::PatchStatus;
use crate::games::star_rail::consts::GameEdition;
use crate::version::{Version, parse_version, parts_lt};

verus! {

/// Why a patch could not be applied or reverted
#[derive(Debug, Clone, Copy, PartialEq, Eq, Structural)]
pub enum PatchError {
    /// "Patch for selected region is not available"
    NotAvailable,
    /// The patch is outdated and can't be applied or reverted
    Outdated,
}

#[derive(Debug, Clone, PartialEq, Eq)]
pub struct MainPatch {
    pub folder: String,
    pub status: PatchStatus,
}

/// MD5 digests of a region's unpatched game files, as the patch metadata
/// lists them
#[derive(Debug, Clone, PartialEq, Eq)]
pub struct RegionHashes {
    pub srbase: String,
    pub player: String,
}

/// The unpatched files' digests for each region the patch supports
#[derive(Debug, Clone, PartialEq, Eq)]
pub struct PatchHashes {
    pub global: Option<RegionHashes>,
    pub china: Option<RegionHashes>,
}

/// What a patch repository's `version.json` says: the game version the
/// patch is made for, whether it is still in testing, and the digests of
/// the files it patches
#[derive(Debug, Clone, PartialEq, Eq)]
pub struct PatchMetadata {
    pub version: String,
    pub testing: bool,
    pub hashes: PatchHashes,
}

/// The digests that the metadata lists for `region`
pub open spec fn region_hashes(hashes: PatchHashes, region: GameEdition) -> Option<RegionHashes> {
    match region {
        GameEdition::Global => hashes.global,
        GameEdition::China => hashes.china,
    }
}

/// The status of a patch whose metadata is `metadata`, for `region`, when
/// the latest game version is `latest`: outdated when made for an older
/// version; else in testing or available, as the metadata says, with the
/// region's digests; not available when the metadata lists none for the
/// region
pub open spec fn main_status(metadata: PatchMetadata, region: GameEdition, latest: Version, status: PatchStatus) -> bool {
    let v = parse_version(metadata.version@)->0;
    if parts_lt(v, latest@) {
        status matches PatchStatus::Outdated { current, latest: l } && current@ == v && l == latest
    } else {
        match region_hashes(metadata.hashes, region) {
            Some(h) => if metadata.testing {
                status matches PatchStatus::Testing { version, srbase_hash, player_hash }
                    && version@ == v && srbase_hash == h.srbase && player_hash == h.player
            } else {
                status matches PatchStatus::Available { version, srbase_hash, player_hash }
                    && version@ == v && srbase_hash == h.srbase && player_hash == h.player
            },
            None => status == PatchStatus::NotAvailable,
        }
    }
}

impl MainPatch {
    /// Try to parse patch status
    ///
    /// `patch_folder` should point to standard patch repository folder;
    /// `metadata` is what its `version.json` holds and `latest` the latest
    /// game version (see `main_status`)
    pub fn from_folder(patch_folder: &str, region: GameEdition, metadata: PatchMetadata, latest: Version) -> (r: Self)
        requires
            parse_version(metadata.version@) is Some,
        ensures
            r.folder@ == patch_folder@,
            main_status(metadata, region, latest, r.status),
    {
        let version = Version::from_str(metadata.version.as_str()).unwrap();
        let folder = patch_folder.to_owned();
        if version.lt(&latest) {
            return Self { folder, status: PatchStatus::Outdated { current: version, latest } };
        }
        let PatchMetadata { testing, hashes, .. } = metadata;
        let PatchHashes { global, china } = hashes;
        let chosen = match region {
            GameEdition::Global => global,
            GameEdition::China => china,
        };
        let status = match chosen {
            Some(RegionHashes { srbase, player }) => if testing {
                PatchStatus::Testing { version, srbase_hash: srbase, player_hash: player }
            } else {
                PatchStatus::Available { version, srbase_hash: srbase, player_hash: player }
            },
            None => PatchStatus::NotAvailable,
        };
        Self { folder, status }
    }

    /// Get current patch repository folder
    #[inline]
    pub fn folder(&self) -> (r: &str)
        ensures
            r@ == self.folder@,
    {
        self.folder.as_str()
    }

    /// Get latest available patch status
    #[inline]
    pub fn status(&self) -> (r: &PatchStatus)
        ensures
            *r == self.status,
    {
        &self.status
    }

    /// Whether the game files with these MD5 digests (lower case hex) are
    /// patched: neither is the digest of the unpatched file. Never when the
    /// patch is not available or outdated
    pub fn is_applied_with(&self, srbase_md5: &str, player_md5: &str) -> (r: bool)
        ensures
            r == match self.status {
                PatchStatus::NotAvailable | PatchStatus::Outdated { .. } => false,
                PatchStatus::Testing { srbase_hash, player_hash, .. }
                | PatchStatus::Available { srbase_hash, player_hash, .. } => srbase_md5@ != srbase_hash@ && player_md5@ != player_hash@,
            },
    {
        match &self.status {
            PatchStatus::NotAvailable | PatchStatus::Outdated { .. } => false,
            PatchStatus::Testing { srbase_hash, player_hash, .. }
            | PatchStatus::Available { srbase_hash, player_hash, .. } => {
                !str_eq(srbase_md5, srbase_hash.as_str()) && !str_eq(player_md5, player_hash.as_str())
            },
        }
    }

    /// Check if the patch is applied to the game, given the content of its
    /// `StarRailBase.dll` and `UnityPlayer.dll`
    pub fn is_applied(&self, srbase_dll: &[u8], player_dll: &[u8]) -> (r: bool)
        ensures
            r == match self.status {
                PatchStatus::NotAvailable | PatchStatus::Outdated { .. } => false,
                PatchStatus::Testing { srbase_hash, player_hash, .. }
                | PatchStatus::Available { srbase_hash, player_hash, .. } => md5_hex(srbase_dll@) != srbase_hash@ && md5_hex(player_dll@) != player_hash@,
            },
    {
        match &self.status {
            PatchStatus::NotAvailable | PatchStatus::Outdated { .. } => false,
            _ => {
                let srbase = md5_hex_of(srbase_dll);
                let player = md5_hex_of(player_dll);
                self.is_applied_with(srbase.as_str(), player.as_str())
            },
        }
    }

    /// Whether this patch can be applied or reverted: only a testing or an
    /// available one
    pub fn check_usable(&self) -> (r: Result<(), PatchError>)
        ensures
            match self.status {
                PatchStatus::NotAvailable => r == Err::<(), PatchError>(PatchError::NotAvailable),
                PatchStatus::Outdated { .. } => r == Err::<(), PatchError>(PatchError::Outdated),
                _ => r is Ok,
            },
    {
        match &self.status {
            PatchStatus::NotAvailable => Err(PatchError::NotAvailable),
            PatchStatus::Outdated { .. } => Err(PatchError::Outdated),
            _ => Ok(()),
        }
    }

    /// Arguments of the `bash` run that applies the patch copied to
    /// `temp_dir`: its `install.sh`, `--yes-to-all`, and `--no-root` unless
    /// `use_root`
    pub fn install_args(temp_dir: &str, use_root: bool) -> (r: Vec<String>)
        ensures
            r@.len() == if use_root { 2int } else { 3int },
            r@[0]@ == path_join(temp_dir@, "install.sh"@),
            r@[1]@ == "--yes-to-all"@,
            !use_root ==> r@[2]@ == "--no-root"@,
    {
        let mut args: Vec<String> = Vec::new();
        args.push(join(temp_dir, "install.sh"));
        args.push(from_chars(to_chars("--yes-to-all").as_slice()));
        if !use_root {
            args.push(from_chars(to_chars("--no-root").as_slice()));
        }
        args
    }

    /// Whether the output of the patch's script says that it worked: it
    /// contains `Done`
    pub fn script_succeeded(stdout: &str) -> (r: bool)
        ensures
            r == contains(stdout@, "Done"@),
    {
        str_contains(stdout, "Done")
    }
}

} // verus!
