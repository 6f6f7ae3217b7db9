use vstd::prelude::*;
use crate::version::{Version, VersionParts, parse_version, parts_lt, version_text, opt_parts};
use crate::strings::{parse_unsigned, parse_u64, str_eq};
use crate::games::package_diff::{opt_str, found_parts, counts_as_not_installed};

verus! {

/// What the library reads of a download manifest of the game API: the field
/// that names the package (`game`, or a locale code for a voice package)
/// and its sizes
#[derive(Debug, Clone, PartialEq, Eq, Hash)]
pub struct DownloadInfo {
    pub matching_field: String,
    pub compressed_size: String,
    pub uncompressed_size: String,
}

/// Sizes of the patch that updates a package from the version `tag`
#[derive(Debug, Clone, PartialEq, Eq, Hash)]
pub struct PatchStats {
    pub tag: String,
    pub compressed_size: String,
    pub uncompressed_size: String,
}

/// What the library reads of a diff manifest of the game API: the field that
/// names the package and the sizes of its patches, one entry for each
/// version that it updates
#[derive(Debug, Clone, PartialEq, Eq, Hash)]
pub struct DiffInfo {
    pub matching_field: String,
    pub stats: Vec<PatchStats>,
}

/// What the library reads of a branch of the game API: the version tag that
/// it installs and the versions that its patches update
#[derive(Debug, Clone, PartialEq, Eq)]
pub struct BranchInfo {
    pub tag: String,
    pub diff_tags: Vec<String>,
}

/// The main branch of a game and its predownload, when there is one
#[derive(Debug, Clone, PartialEq, Eq)]
pub struct GameBranch {
    pub main: BranchInfo,
    pub pre_download: Option<BranchInfo>,
}

/// A full download or a patch
#[derive(Debug, Clone, PartialEq, Eq)]
pub enum DownloadOrDiff {
    Download(DownloadInfo),
    Patch(DiffInfo),
}

/// Why no difference could be made of the game API's answer
#[derive(Debug, Clone, Copy, PartialEq, Eq, Structural)]
pub enum BranchDiffError {
    /// The download manifests hold none for the game
    NoGameManifest,
    /// The patch lists no sizes for the installed version
    NoDiffStats,
    /// The predownload names no valid version
    NoPredownloadVersion,
    /// A size is not a `u64`
    InvalidSize,
}

// ---------------------------------------------------------------------------
// Searching lists

/// Index of the first item of `list` that `pred` holds of, or -1
pub open spec fn first_index<T>(list: Seq<T>, pred: spec_fn(T) -> bool) -> int
    decreases list.len(),
{
    if list.len() == 0 {
        -1
    } else if pred(list[0]) {
        0
    } else {
        let k = first_index(list.drop_first(), pred);
        if k < 0 { -1 } else { k + 1 }
    }
}

/// `first_index` is the first item that the predicate holds of, and -1
/// exactly when it holds of none
pub proof fn lemma_first_index<T>(list: Seq<T>, pred: spec_fn(T) -> bool)
    ensures
        first_index(list, pred) < list.len(),
        first_index(list, pred) >= 0 ==> pred(list[first_index(list, pred)]),
        first_index(list, pred) >= 0 ==> forall|j: int| 0 <= j < first_index(list, pred) ==> !pred(#[trigger] list[j]),
        first_index(list, pred) < 0 <==> forall|j: int| 0 <= j < list.len() ==> !pred(#[trigger] list[j]),
    decreases list.len(),
{
    if list.len() > 0 {
        lemma_first_index(list.drop_first(), pred);
        let k = first_index(list.drop_first(), pred);
        if !pred(list[0]) {
            if k < 0 {
                assert forall|j: int| 0 <= j < list.len() implies !pred(#[trigger] list[j]) by {
                    if j > 0 {
                        assert(list[j] == list.drop_first()[j - 1]);
                    }
                }
            } else {
                assert forall|j: int| 0 <= j < k + 1 implies !pred(#[trigger] list[j]) by {
                    if j > 0 {
                        assert(list[j] == list.drop_first()[j - 1]);
                    }
                }
                assert(list[k + 1] == list.drop_first()[k]);
            }
        }
    }
}

/// The first item that the predicate holds of is found at `i`
pub proof fn lemma_first_index_at<T>(list: Seq<T>, pred: spec_fn(T) -> bool, i: int)
    requires
        0 <= i < list.len(),
        pred(list[i]),
        forall|j: int| 0 <= j < i ==> !pred(#[trigger] list[j]),
    ensures
        first_index(list, pred) == i,
{
    lemma_first_index(list, pred);
    let k = first_index(list, pred);
    if k < 0 {
        assert(!pred(list[i]));
    } else if k < i {
        assert(!pred(list[k]));
    } else if k > i {
        assert(!pred(list[i]));
    }
}

/// A version tag names the version `c`
pub open spec fn names_version(c: VersionParts) -> spec_fn(String) -> bool {
    |t: String| t@ == version_text(c)
}

/// A download manifest is the one for the package `field`
pub open spec fn download_for(field: Seq<char>) -> spec_fn(DownloadInfo) -> bool {
    |d: DownloadInfo| d.matching_field@ == field
}

/// A diff manifest is the one for the package `field`
pub open spec fn diff_for(field: Seq<char>) -> spec_fn(DiffInfo) -> bool {
    |d: DiffInfo| d.matching_field@ == field
}

/// Patch sizes are those of the patch from version `c`
pub open spec fn stats_for(c: VersionParts) -> spec_fn(PatchStats) -> bool {
    |s: PatchStats| s.tag@ == version_text(c)
}

/// A diff manifest is one for the game with the sizes of a patch from `c`
pub open spec fn game_patch_from(c: VersionParts) -> spec_fn(DiffInfo) -> bool {
    |d: DiffInfo| d.matching_field@ == "game"@ && first_index(d.stats@, stats_for(c)) >= 0
}

/// The tags name version `c`
pub open spec fn tags_contain(tags: Seq<String>, c: VersionParts) -> bool {
    first_index(tags, names_version(c)) >= 0
}

/// Whether one of the tags names version `c`
pub fn tags_name(tags: &[String], c: &Version) -> (r: bool)
    ensures
        r == tags_contain(tags@, c@),
{
    let n = tags.len();
    let mut i: usize = 0;
    while i < n
        invariant
            n == tags@.len(),
            i <= n,
            forall|j: int| 0 <= j < i ==> !names_version(c@)(#[trigger] tags@[j]),
        decreases n - i,
    {
        if c.eq_str(tags[i].as_str()) {
            proof {
                lemma_first_index_at(tags@, names_version(c@), i as int);
            }
            return true;
        }
        i += 1;
    }
    proof {
        lemma_first_index(tags@, names_version(c@));
    }
    false
}

/// Index of the download manifest for the package `field`, if any
pub fn find_download(list: &[DownloadInfo], field: &str) -> (r: Option<usize>)
    ensures
        match r {
            Some(i) => i < list@.len() && i as int == first_index(list@, download_for(field@)),
            None => first_index(list@, download_for(field@)) < 0,
        },
{
    let n = list.len();
    let mut i: usize = 0;
    while i < n
        invariant
            n == list@.len(),
            i <= n,
            forall|j: int| 0 <= j < i ==> !download_for(field@)(#[trigger] list@[j]),
        decreases n - i,
    {
        if str_eq(list[i].matching_field.as_str(), field) {
            proof {
                lemma_first_index_at(list@, download_for(field@), i as int);
            }
            return Some(i);
        }
        i += 1;
    }
    proof {
        lemma_first_index(list@, download_for(field@));
    }
    None
}

/// Index of the diff manifest for the package `field`, if any
pub fn find_diff(list: &[DiffInfo], field: &str) -> (r: Option<usize>)
    ensures
        match r {
            Some(i) => i < list@.len() && i as int == first_index(list@, diff_for(field@)),
            None => first_index(list@, diff_for(field@)) < 0,
        },
{
    let n = list.len();
    let mut i: usize = 0;
    while i < n
        invariant
            n == list@.len(),
            i <= n,
            forall|j: int| 0 <= j < i ==> !diff_for(field@)(#[trigger] list@[j]),
        decreases n - i,
    {
        if str_eq(list[i].matching_field.as_str(), field) {
            proof {
                lemma_first_index_at(list@, diff_for(field@), i as int);
            }
            return Some(i);
        }
        i += 1;
    }
    proof {
        lemma_first_index(list@, diff_for(field@));
    }
    None
}

/// Index of the sizes of the patch from version `c`, if any
pub fn find_stats(stats: &[PatchStats], c: &Version) -> (r: Option<usize>)
    ensures
        match r {
            Some(i) => i < stats@.len() && i as int == first_index(stats@, stats_for(c@)),
            None => first_index(stats@, stats_for(c@)) < 0,
        },
{
    let n = stats.len();
    let mut i: usize = 0;
    while i < n
        invariant
            n == stats@.len(),
            i <= n,
            forall|j: int| 0 <= j < i ==> !stats_for(c@)(#[trigger] stats@[j]),
        decreases n - i,
    {
        if c.eq_str(stats[i].tag.as_str()) {
            proof {
                lemma_first_index_at(stats@, stats_for(c@), i as int);
            }
            return Some(i);
        }
        i += 1;
    }
    proof {
        lemma_first_index(stats@, stats_for(c@));
    }
    None
}

/// Index of the first diff manifest for the game that holds the sizes of a
/// patch from version `c`, if any
pub fn find_game_patch(list: &[DiffInfo], c: &Version) -> (r: Option<usize>)
    ensures
        match r {
            Some(i) => i < list@.len() && i as int == first_index(list@, game_patch_from(c@)),
            None => first_index(list@, game_patch_from(c@)) < 0,
        },
{
    proof {
        reveal_strlit("game");
    }
    let n = list.len();
    let mut i: usize = 0;
    while i < n
        invariant
            n == list@.len(),
            i <= n,
            forall|j: int| 0 <= j < i ==> !game_patch_from(c@)(#[trigger] list@[j]),
        decreases n - i,
    {
        if str_eq(list[i].matching_field.as_str(), "game") && find_stats(list[i].stats.as_slice(), c).is_some() {
            proof {
                lemma_first_index_at(list@, game_patch_from(c@), i as int);
            }
            return Some(i);
        }
        i += 1;
    }
    proof {
        lemma_first_index(list@, game_patch_from(c@));
    }
    None
}

// ---------------------------------------------------------------------------
// Differences

/// Difference between an installed component and the latest one, where the
/// game API describes downloads and patches by manifests
#[derive(Debug, Clone, PartialEq, Eq)]
pub enum VersionDiff<E> {
    /// Latest version
    Latest { version: Version, edition: E },
    /// Component's update can be predownloaded, but you still can use it
    Predownload {
        current: Version,
        latest: Version,
        download_info: DownloadOrDiff,
        edition: E,
        downloaded_size: u64,
        unpacked_size: u64,
        /// Path to the folder this difference should be installed by the `install` method
        installation_path: Option<String>,
        /// Optional path to the `.version` file
        version_file_path: Option<String>,
        /// Temp folder path
        temp_folder: Option<String>,
    },
    /// Component should be updated before using it
    Diff {
        current: Version,
        latest: Version,
        diff: DiffInfo,
        edition: E,
        downloaded_size: u64,
        unpacked_size: u64,
        installation_path: Option<String>,
        version_file_path: Option<String>,
        temp_folder: Option<String>,
    },
    /// Difference can't be calculated because installed version is too old
    Outdated { current: Version, latest: Version, edition: E },
    /// Component is not yet installed
    NotInstalled {
        latest: Version,
        download_info: DownloadInfo,
        edition: E,
        downloaded_size: u64,
        unpacked_size: u64,
        installation_path: Option<String>,
        version_file_path: Option<String>,
        temp_folder: Option<String>,
    },
}

/// Mathematical value of a `VersionDiff`
pub enum DiffModel<E> {
    Latest { version: VersionParts, edition: E },
    Predownload {
        current: VersionParts,
        latest: VersionParts,
        download_info: DownloadOrDiff,
        edition: E,
        downloaded_size: u64,
        unpacked_size: u64,
        installation_path: Option<Seq<char>>,
        version_file_path: Option<Seq<char>>,
        temp_folder: Option<Seq<char>>,
    },
    Diff {
        current: VersionParts,
        latest: VersionParts,
        diff: DiffInfo,
        edition: E,
        downloaded_size: u64,
        unpacked_size: u64,
        installation_path: Option<Seq<char>>,
        version_file_path: Option<Seq<char>>,
        temp_folder: Option<Seq<char>>,
    },
    Outdated { current: VersionParts, latest: VersionParts, edition: E },
    NotInstalled {
        latest: VersionParts,
        download_info: DownloadInfo,
        edition: E,
        downloaded_size: u64,
        unpacked_size: u64,
        installation_path: Option<Seq<char>>,
        version_file_path: Option<Seq<char>>,
        temp_folder: Option<Seq<char>>,
    },
}

impl<E> View for VersionDiff<E> {
    type V = DiffModel<E>;

    open spec fn view(&self) -> DiffModel<E> {
        match self {
            VersionDiff::Latest { version, edition } => DiffModel::Latest { version: version@, edition: *edition },
            VersionDiff::Predownload {
                current,
                latest,
                download_info,
                edition,
                downloaded_size,
                unpacked_size,
                installation_path,
                version_file_path,
                temp_folder,
            } => DiffModel::Predownload {
                current: current@,
                latest: latest@,
                download_info: *download_info,
                edition: *edition,
                downloaded_size: *downloaded_size,
                unpacked_size: *unpacked_size,
                installation_path: opt_str(*installation_path),
                version_file_path: opt_str(*version_file_path),
                temp_folder: opt_str(*temp_folder),
            },
            VersionDiff::Diff {
                current,
                latest,
                diff,
                edition,
                downloaded_size,
                unpacked_size,
                installation_path,
                version_file_path,
                temp_folder,
            } => DiffModel::Diff {
                current: current@,
                latest: latest@,
                diff: *diff,
                edition: *edition,
                downloaded_size: *downloaded_size,
                unpacked_size: *unpacked_size,
                installation_path: opt_str(*installation_path),
                version_file_path: opt_str(*version_file_path),
                temp_folder: opt_str(*temp_folder),
            },
            VersionDiff::Outdated { current, latest, edition } => DiffModel::Outdated {
                current: current@,
                latest: latest@,
                edition: *edition,
            },
            VersionDiff::NotInstalled {
                latest,
                download_info,
                edition,
                downloaded_size,
                unpacked_size,
                installation_path,
                version_file_path,
                temp_folder,
            } => DiffModel::NotInstalled {
                latest: latest@,
                download_info: *download_info,
                edition: *edition,
                downloaded_size: *downloaded_size,
                unpacked_size: *unpacked_size,
                installation_path: opt_str(*installation_path),
                version_file_path: opt_str(*version_file_path),
                temp_folder: opt_str(*temp_folder),
            },
        }
    }
}

impl<E> DiffModel<E> {
    /// Whether the difference can be installed
    pub open spec fn is_installable(self) -> bool {
        !(self is Latest || self is Outdated)
    }

    /// Temp folder of a difference; nothing for one that cannot be installed
    pub open spec fn temp_folder(self) -> Option<Seq<char>> {
        match self {
            DiffModel::Predownload { temp_folder, .. } => temp_folder,
            DiffModel::Diff { temp_folder, .. } => temp_folder,
            DiffModel::NotInstalled { temp_folder, .. } => temp_folder,
            _ => None,
        }
    }

    /// The same difference with another temp folder; one that cannot be
    /// installed stays as it is
    pub open spec fn with_temp_folder(self, temp: Seq<char>) -> DiffModel<E> {
        match self {
            DiffModel::Predownload {
                current, latest, download_info, edition, downloaded_size, unpacked_size, installation_path, version_file_path, ..
            } => DiffModel::Predownload {
                current, latest, download_info, edition, downloaded_size, unpacked_size, installation_path, version_file_path,
                temp_folder: Some(temp),
            },
            DiffModel::Diff {
                current, latest, diff, edition, downloaded_size, unpacked_size, installation_path, version_file_path, ..
            } => DiffModel::Diff {
                current, latest, diff, edition, downloaded_size, unpacked_size, installation_path, version_file_path,
                temp_folder: Some(temp),
            },
            DiffModel::NotInstalled {
                latest, download_info, edition, downloaded_size, unpacked_size, installation_path, version_file_path, ..
            } => DiffModel::NotInstalled {
                latest, download_info, edition, downloaded_size, unpacked_size, installation_path, version_file_path,
                temp_folder: Some(temp),
            },
            m => m,
        }
    }
}

/// Reading the temp folder back after selecting it gives the selected folder
/// for a difference that can be installed; selecting one for another
/// difference changes nothing
pub proof fn lemma_temp_folder_read_after_write<E>(d: DiffModel<E>, temp: Seq<char>)
    ensures
        d.is_installable() ==> d.with_temp_folder(temp).temp_folder() == Some(temp),
        !d.is_installable() ==> d.with_temp_folder(temp) == d,
{
}

impl<E: Copy> VersionDiff<E> {
    pub fn edition(&self) -> (r: E)
        ensures
            r == match self@ {
                DiffModel::Latest { edition, .. } => edition,
                DiffModel::Predownload { edition, .. } => edition,
                DiffModel::Diff { edition, .. } => edition,
                DiffModel::Outdated { edition, .. } => edition,
                DiffModel::NotInstalled { edition, .. } => edition,
            },
    {
        match self {
            Self::Latest { edition, .. }
            | Self::Predownload { edition, .. }
            | Self::Diff { edition, .. }
            | Self::Outdated { edition, .. }
            | Self::NotInstalled { edition, .. } => *edition,
        }
    }

    /// Installed version, if the component is installed
    pub fn current(&self) -> (r: Option<Version>)
        ensures
            opt_parts(r) == match self@ {
                DiffModel::Latest { version, .. } => Some(version),
                DiffModel::Predownload { current, .. } => Some(current),
                DiffModel::Diff { current, .. } => Some(current),
                DiffModel::Outdated { current, .. } => Some(current),
                DiffModel::NotInstalled { .. } => None,
            },
    {
        match self {
            Self::Latest { version: current, .. }
            | Self::Predownload { current, .. }
            | Self::Diff { current, .. }
            | Self::Outdated { current, .. } => Some(*current),
            Self::NotInstalled { .. } => None,
        }
    }

    /// Version that installing this difference gives
    pub fn latest(&self) -> (r: Version)
        ensures
            r@ == match self@ {
                DiffModel::Latest { version, .. } => version,
                DiffModel::Predownload { latest, .. } => latest,
                DiffModel::Diff { latest, .. } => latest,
                DiffModel::Outdated { latest, .. } => latest,
                DiffModel::NotInstalled { latest, .. } => latest,
            },
    {
        match self {
            Self::Latest { version: latest, .. }
            | Self::Predownload { latest, .. }
            | Self::Diff { latest, .. }
            | Self::Outdated { latest, .. }
            | Self::NotInstalled { latest, .. } => *latest,
        }
    }

    pub fn downloaded_size(&self) -> (r: Option<u64>)
        ensures
            r == match self@ {
                DiffModel::Predownload { downloaded_size, .. } => Some(downloaded_size),
                DiffModel::Diff { downloaded_size, .. } => Some(downloaded_size),
                DiffModel::NotInstalled { downloaded_size, .. } => Some(downloaded_size),
                _ => None,
            },
    {
        match self {
            Self::Latest { .. } | Self::Outdated { .. } => None,
            Self::Predownload { downloaded_size, .. }
            | Self::Diff { downloaded_size, .. }
            | Self::NotInstalled { downloaded_size, .. } => Some(*downloaded_size),
        }
    }

    pub fn unpacked_size(&self) -> (r: Option<u64>)
        ensures
            r == match self@ {
                DiffModel::Predownload { unpacked_size, .. } => Some(unpacked_size),
                DiffModel::Diff { unpacked_size, .. } => Some(unpacked_size),
                DiffModel::NotInstalled { unpacked_size, .. } => Some(unpacked_size),
                _ => None,
            },
    {
        match self {
            Self::Latest { .. } | Self::Outdated { .. } => None,
            Self::Predownload { unpacked_size, .. }
            | Self::Diff { unpacked_size, .. }
            | Self::NotInstalled { unpacked_size, .. } => Some(*unpacked_size),
        }
    }

    /// Path to the folder this difference should be installed to
    pub fn installation_path(&self) -> (r: Option<&str>)
        ensures
            opt_str_ref(r) == match self@ {
                DiffModel::Predownload { installation_path, .. } => installation_path,
                DiffModel::Diff { installation_path, .. } => installation_path,
                DiffModel::NotInstalled { installation_path, .. } => installation_path,
                _ => None,
            },
    {
        match self {
            Self::Latest { .. } | Self::Outdated { .. } => None,
            Self::Predownload { installation_path, .. }
            | Self::Diff { installation_path, .. }
            | Self::NotInstalled { installation_path, .. } => match installation_path {
                Some(path) => Some(path.as_str()),
                None => None,
            },
        }
    }

    /// Get `.version` file path
    pub fn version_file_path(&self) -> (r: Option<String>)
        ensures
            opt_str(r) == match self@ {
                DiffModel::Predownload { version_file_path, .. } => version_file_path,
                DiffModel::Diff { version_file_path, .. } => version_file_path,
                DiffModel::NotInstalled { version_file_path, .. } => version_file_path,
                _ => None,
            },
    {
        match self {
            Self::Latest { .. } | Self::Outdated { .. } => None,
            Self::Predownload { version_file_path, .. }
            | Self::Diff { version_file_path, .. }
            | Self::NotInstalled { version_file_path, .. } => version_file_path.clone(),
        }
    }

    /// Currently selected temp folder; `None` means the system's temp folder
    pub fn temp_folder(&self) -> (r: Option<String>)
        ensures
            opt_str(r) == self@.temp_folder(),
    {
        match self {
            Self::Latest { .. } | Self::Outdated { .. } => None,
            Self::Predownload { temp_folder, .. }
            | Self::Diff { temp_folder, .. }
            | Self::NotInstalled { temp_folder, .. } => temp_folder.clone(),
        }
    }

    /// Selects the temp folder of a difference that can be installed; other
    /// differences stay as they are
    pub fn with_temp_folder(self, temp: String) -> (r: Self)
        ensures
            r@ == self@.with_temp_folder(temp@),
    {
        match self {
            Self::Predownload {
                current, latest, download_info, edition, downloaded_size, unpacked_size, installation_path, version_file_path, ..
            } => Self::Predownload {
                current, latest, download_info, edition, downloaded_size, unpacked_size, installation_path, version_file_path,
                temp_folder: Some(temp),
            },
            Self::Diff {
                current, latest, diff, edition, downloaded_size, unpacked_size, installation_path, version_file_path, ..
            } => Self::Diff {
                current, latest, diff, edition, downloaded_size, unpacked_size, installation_path, version_file_path,
                temp_folder: Some(temp),
            },
            Self::NotInstalled {
                latest, download_info, edition, downloaded_size, unpacked_size, installation_path, version_file_path, ..
            } => Self::NotInstalled {
                latest, download_info, edition, downloaded_size, unpacked_size, installation_path, version_file_path,
                temp_folder: Some(temp),
            },
            other => other,
        }
    }

    /// No single link downloads such a difference
    pub fn downloading_uri(&self) -> (r: Option<String>)
        ensures
            r is None,
    {
        None
    }
}

/// Why a difference cannot be installed, or downloaded as a single file
#[derive(Debug, Clone, Copy, PartialEq, Eq, Structural)]
pub enum DiffDownloadingError {
    /// Your installation is already up to date and not needed to be updated
    AlreadyLatest,
    /// Current version is too outdated and can't be updated: everything has
    /// to be downloaded from zero
    Outdated,
    /// The component has several downloads and can't be saved as a single
    /// file
    MultipleSegments,
}

/// What installing a difference does
#[derive(Debug, Clone, Copy, PartialEq, Eq)]
pub enum InstallAction {
    /// Patch the installed files from this version
    Patch(Version),
    /// Download the component in full
    Download,
    /// Download the update from this version ahead of time, without
    /// applying it
    Predownload(Version),
}

impl<E: Copy> VersionDiff<E> {
    /// What installing this difference does: a patch from the installed
    /// version, a full download, or a predownload; nothing for a component
    /// that is up to date or too old to update
    pub fn install_action(&self) -> (r: Result<InstallAction, DiffDownloadingError>)
        ensures
            match self@ {
                DiffModel::Latest { .. } => r == Err::<InstallAction, DiffDownloadingError>(DiffDownloadingError::AlreadyLatest),
                DiffModel::Outdated { .. } => r == Err::<InstallAction, DiffDownloadingError>(DiffDownloadingError::Outdated),
                DiffModel::Diff { current, .. } => r matches Ok(InstallAction::Patch(v)) && v@ == current,
                DiffModel::NotInstalled { .. } => r == Ok::<InstallAction, DiffDownloadingError>(InstallAction::Download),
                DiffModel::Predownload { current, .. } => r matches Ok(InstallAction::Predownload(v)) && v@ == current,
            },
    {
        match self {
            Self::Latest { .. } => Err(DiffDownloadingError::AlreadyLatest),
            Self::Outdated { .. } => Err(DiffDownloadingError::Outdated),
            Self::Diff { current, .. } => Ok(InstallAction::Patch(*current)),
            Self::NotInstalled { .. } => Ok(InstallAction::Download),
            Self::Predownload { current, .. } => Ok(InstallAction::Predownload(*current)),
        }
    }
}

/// Optional borrowed string as a sequence of characters
pub open spec fn opt_str_ref(o: Option<&str>) -> Option<Seq<char>> {
    match o {
        Some(s) => Some(s@),
        None => None,
    }
}

// ---------------------------------------------------------------------------
// Finding a difference

/// What the game API is asked next while a difference is searched
#[derive(Debug, Clone, Copy, PartialEq, Eq, Structural)]
pub enum DiffRequest {
    /// The download manifests of the main branch
    MainDownloads,
    /// The diff manifests of the predownload branch
    PredownloadDiffs,
    /// The diff manifests of the main branch
    MainDiffs,
}

/// Next step of the search for a difference: a request to the game API, or
/// the difference itself
#[derive(Debug, Clone, PartialEq, Eq)]
pub enum DiffStep<E> {
    Fetch(DiffRequest),
    Done(VersionDiff<E>),
}

/// Mathematical value of a `DiffStep`
pub enum StepModel<E> {
    Fetch(DiffRequest),
    Done(DiffModel<E>),
}

impl<E> View for DiffStep<E> {
    type V = StepModel<E>;

    open spec fn view(&self) -> StepModel<E> {
        match self {
            DiffStep::Fetch(q) => StepModel::Fetch(*q),
            DiffStep::Done(d) => StepModel::Done(d@),
        }
    }
}

/// A difference or an error, by its mathematical value
pub open spec fn diff_result<E>(r: Result<VersionDiff<E>, BranchDiffError>) -> Result<DiffModel<E>, BranchDiffError> {
    match r {
        Ok(d) => Ok(d@),
        Err(e) => Err(e),
    }
}

/// A step or an error, by its mathematical value
pub open spec fn step_result<E>(r: Result<DiffStep<E>, BranchDiffError>) -> Result<StepModel<E>, BranchDiffError> {
    match r {
        Ok(s) => Ok(s@),
        Err(e) => Err(e),
    }
}

/// Value of a size field, as `str::parse::<u64>` reads it
pub open spec fn size_value(s: Seq<char>) -> Option<u64> {
    match parse_unsigned(s, u64::MAX as nat) {
        Some(n) => Some(n as u64),
        None => None,
    }
}

fn parse_size(s: &str) -> (r: Result<u64, BranchDiffError>)
    ensures
        match size_value(s@) {
            Some(n) => r == Ok::<u64, BranchDiffError>(n),
            None => r == Err::<u64, BranchDiffError>(BranchDiffError::InvalidSize),
        },
{
    match parse_u64(s) {
        Some(n) => Ok(n),
        None => Err(BranchDiffError::InvalidSize),
    }
}

/// The predownload branch offers a patch from version `c`
pub open spec fn predownload_offered(branch: GameBranch, c: VersionParts) -> bool {
    branch.pre_download matches Some(pre) && tags_contain(pre.diff_tags@, c)
}

/// First step of the search for the difference between a game and the
/// latest version `latest` of its branches. `installed` says whether the
/// game folder exists, `current` is the version found in it and
/// `folder_empty` whether that folder is empty; `None` when the version
/// could not be found in a folder that is not empty.
///
/// A game that counts as not installed needs the main branch's downloads;
/// an up to date one needs the predownload's patches when they update its
/// version and is `Latest` when not; an older one needs the main branch's
/// patches.
pub open spec fn spec_game_step<E>(
    branch: GameBranch,
    latest: VersionParts,
    edition: E,
    installed: bool,
    current: Option<VersionParts>,
    folder_empty: bool,
) -> Option<StepModel<E>> {
    if counts_as_not_installed(installed, current, folder_empty) {
        Some(StepModel::Fetch(DiffRequest::MainDownloads))
    } else if current is None {
        None
    } else if !parts_lt(current->0, latest) {
        if predownload_offered(branch, current->0) {
            Some(StepModel::Fetch(DiffRequest::PredownloadDiffs))
        } else {
            Some(StepModel::Done(DiffModel::Latest { version: current->0, edition: edition }))
        }
    } else {
        Some(StepModel::Fetch(DiffRequest::MainDiffs))
    }
}

/// Whether the predownload branch offers a patch from version `c`
pub fn offers_predownload(branch: &GameBranch, c: &Version) -> (r: bool)
    ensures
        r == predownload_offered(*branch, c@),
{
    match &branch.pre_download {
        Some(pre) => tags_name(pre.diff_tags.as_slice(), c),
        None => false,
    }
}

/// First step of the search for the difference between a game and the
/// latest version of its branches; see `spec_game_step`. The error of
/// `current` is returned when its version is unknown and its folder is not
/// empty.
pub fn game_step<E: Copy, Er>(
    branch: &GameBranch,
    latest: Version,
    edition: E,
    installed: bool,
    current: Result<Version, Er>,
    folder_empty: bool,
) -> (r: Result<DiffStep<E>, Er>)
    ensures
        match spec_game_step(*branch, latest@, edition, installed, found_parts(current), folder_empty) {
            Some(m) => r matches Ok(s) && s@ == m,
            None => r is Err && current is Err && r->Err_0 == current->Err_0,
        },
{
    if !installed {
        return Ok(DiffStep::Fetch(DiffRequest::MainDownloads));
    }
    match current {
        Err(err) => {
            if folder_empty {
                Ok(DiffStep::Fetch(DiffRequest::MainDownloads))
            } else {
                Err(err)
            }
        },
        Ok(c) => {
            if !c.lt(&latest) {
                if offers_predownload(branch, &c) {
                    Ok(DiffStep::Fetch(DiffRequest::PredownloadDiffs))
                } else {
                    Ok(DiffStep::Done(VersionDiff::Latest { version: c, edition }))
                }
            } else {
                Ok(DiffStep::Fetch(DiffRequest::MainDiffs))
            }
        },
    }
}

/// `NotInstalled` difference that downloads `d` in full
pub open spec fn download_model<E>(
    latest: VersionParts,
    edition: E,
    d: DownloadInfo,
    installation_path: Option<Seq<char>>,
    version_file_path: Option<Seq<char>>,
) -> Result<DiffModel<E>, BranchDiffError> {
    match (size_value(d.compressed_size@), size_value(d.uncompressed_size@)) {
        (Some(a), Some(b)) => Ok(DiffModel::NotInstalled {
            latest: latest,
            download_info: d,
            edition: edition,
            downloaded_size: a,
            unpacked_size: b,
            installation_path: installation_path,
            version_file_path: version_file_path,
            temp_folder: None,
        }),
        _ => Err(BranchDiffError::InvalidSize),
    }
}

/// `NotInstalled` difference that downloads `d` in full; see
/// `download_model`
pub fn download_diff<E: Copy>(
    latest: Version,
    edition: E,
    d: DownloadInfo,
    installation_path: Option<String>,
    version_file_path: Option<String>,
) -> (r: Result<VersionDiff<E>, BranchDiffError>)
    ensures
        diff_result(r) == download_model(latest@, edition, d, opt_str(installation_path), opt_str(version_file_path)),
{
    let downloaded_size = match parse_size(d.compressed_size.as_str()) {
        Ok(n) => n,
        Err(e) => return Err(e),
    };
    let unpacked_size = match parse_size(d.uncompressed_size.as_str()) {
        Ok(n) => n,
        Err(e) => return Err(e),
    };
    Ok(VersionDiff::NotInstalled {
        latest,
        download_info: d,
        edition,
        downloaded_size,
        unpacked_size,
        installation_path,
        version_file_path,
        temp_folder: None,
    })
}

/// The difference of a game that counts as not installed, at `path`, from
/// the download manifests of the main branch: the game's one is downloaded
/// in full
pub open spec fn spec_downloads_diff<E>(
    latest: VersionParts,
    edition: E,
    path: Seq<char>,
    downloads: Seq<DownloadInfo>,
) -> Result<DiffModel<E>, BranchDiffError> {
    let k = first_index(downloads, download_for("game"@));
    if k < 0 {
        Err(BranchDiffError::NoGameManifest)
    } else {
        download_model(latest, edition, downloads[k], Some(path), None)
    }
}

/// The difference of a game that counts as not installed, at `path`, from
/// the download manifests of the main branch; see `spec_downloads_diff`
pub fn downloads_diff<E: Copy>(
    latest: Version,
    edition: E,
    path: &str,
    downloads: Vec<DownloadInfo>,
) -> (r: Result<VersionDiff<E>, BranchDiffError>)
    ensures
        diff_result(r) == spec_downloads_diff(latest@, edition, path@, downloads@),
{
    proof {
        reveal_strlit("game");
    }
    let mut downloads = downloads;
    match find_download(downloads.as_slice(), "game") {
        None => Err(BranchDiffError::NoGameManifest),
        Some(k) => download_diff(latest, edition, downloads.remove(k), Some(path.to_owned()), None),
    }
}

/// `Predownload` difference through the patch `d` of the predownload
/// branch `pre`, from version `c`: its sizes for `c`, and the version that
/// the predownload names
pub open spec fn predownload_model<E>(
    c: VersionParts,
    edition: E,
    pre: BranchInfo,
    d: DiffInfo,
    installation_path: Option<Seq<char>>,
    version_file_path: Option<Seq<char>>,
) -> Result<DiffModel<E>, BranchDiffError> {
    let j = first_index(d.stats@, stats_for(c));
    if j < 0 {
        Err(BranchDiffError::NoDiffStats)
    } else if parse_version(pre.tag@) is None {
        Err(BranchDiffError::NoPredownloadVersion)
    } else {
        let s = d.stats@[j];
        match (size_value(s.compressed_size@), size_value(s.uncompressed_size@)) {
            (Some(a), Some(b)) => Ok(DiffModel::Predownload {
                current: c,
                latest: parse_version(pre.tag@)->0,
                download_info: DownloadOrDiff::Patch(d),
                edition: edition,
                downloaded_size: a,
                unpacked_size: b,
                installation_path: installation_path,
                version_file_path: version_file_path,
                temp_folder: None,
            }),
            _ => Err(BranchDiffError::InvalidSize),
        }
    }
}

/// `Predownload` difference through the patch `d` of the predownload
/// branch `pre`, from version `c`; see `predownload_model`
pub fn predownload_diff<E: Copy>(
    c: Version,
    edition: E,
    pre: &BranchInfo,
    d: DiffInfo,
    installation_path: Option<String>,
    version_file_path: Option<String>,
) -> (r: Result<VersionDiff<E>, BranchDiffError>)
    ensures
        diff_result(r) == predownload_model(c@, edition, *pre, d, opt_str(installation_path), opt_str(version_file_path)),
{
    let j = match find_stats(d.stats.as_slice(), &c) {
        Some(j) => j,
        None => return Err(BranchDiffError::NoDiffStats),
    };
    let latest = match Version::from_str(pre.tag.as_str()) {
        Some(v) => v,
        None => return Err(BranchDiffError::NoPredownloadVersion),
    };
    let s = &d.stats[j];
    let downloaded_size = match parse_size(s.compressed_size.as_str()) {
        Ok(n) => n,
        Err(e) => return Err(e),
    };
    let unpacked_size = match parse_size(s.uncompressed_size.as_str()) {
        Ok(n) => n,
        Err(e) => return Err(e),
    };
    Ok(VersionDiff::Predownload {
        current: c,
        latest,
        download_info: DownloadOrDiff::Patch(d),
        edition,
        downloaded_size,
        unpacked_size,
        installation_path,
        version_file_path,
        temp_folder: None,
    })
}

/// The predownload difference of a game at `path`, from version `c`, from
/// the diff manifests of the predownload branch `pre`: the game's one
pub open spec fn spec_game_predownload<E>(
    c: VersionParts,
    edition: E,
    path: Seq<char>,
    pre: BranchInfo,
    diffs: Seq<DiffInfo>,
) -> Result<DiffModel<E>, BranchDiffError> {
    let k = first_index(diffs, diff_for("game"@));
    if k < 0 {
        Err(BranchDiffError::NoGameManifest)
    } else {
        predownload_model(c, edition, pre, diffs[k], Some(path), None)
    }
}

/// The predownload difference of a game at `path`, from version `c`, from
/// the diff manifests of the predownload branch `pre`; see
/// `spec_game_predownload`
pub fn game_predownload<E: Copy>(
    c: Version,
    edition: E,
    path: &str,
    pre: &BranchInfo,
    diffs: Vec<DiffInfo>,
) -> (r: Result<VersionDiff<E>, BranchDiffError>)
    ensures
        diff_result(r) == spec_game_predownload(c@, edition, path@, *pre, diffs@),
{
    proof {
        reveal_strlit("game");
    }
    let mut diffs = diffs;
    match find_diff(diffs.as_slice(), "game") {
        None => Err(BranchDiffError::NoGameManifest),
        Some(k) => predownload_diff(c, edition, pre, diffs.remove(k), Some(path.to_owned()), None),
    }
}

/// `Diff` difference through the patch `d`, from version `c` to `latest`:
/// its sizes for `c`
pub open spec fn update_model<E>(
    c: VersionParts,
    latest: VersionParts,
    edition: E,
    d: DiffInfo,
    installation_path: Option<Seq<char>>,
    version_file_path: Option<Seq<char>>,
) -> Result<DiffModel<E>, BranchDiffError> {
    let j = first_index(d.stats@, stats_for(c));
    if j < 0 {
        Err(BranchDiffError::NoDiffStats)
    } else {
        let s = d.stats@[j];
        match (size_value(s.compressed_size@), size_value(s.uncompressed_size@)) {
            (Some(a), Some(b)) => Ok(DiffModel::Diff {
                current: c,
                latest: latest,
                diff: d,
                edition: edition,
                downloaded_size: a,
                unpacked_size: b,
                installation_path: installation_path,
                version_file_path: version_file_path,
                temp_folder: None,
            }),
            _ => Err(BranchDiffError::InvalidSize),
        }
    }
}

/// `Diff` difference through the patch `d`, from version `c` to `latest`;
/// see `update_model`
pub fn update_diff<E: Copy>(
    c: Version,
    latest: Version,
    edition: E,
    d: DiffInfo,
    installation_path: Option<String>,
    version_file_path: Option<String>,
) -> (r: Result<VersionDiff<E>, BranchDiffError>)
    ensures
        diff_result(r) == update_model(c@, latest@, edition, d, opt_str(installation_path), opt_str(version_file_path)),
{
    let j = match find_stats(d.stats.as_slice(), &c) {
        Some(j) => j,
        None => return Err(BranchDiffError::NoDiffStats),
    };
    let s = &d.stats[j];
    let downloaded_size = match parse_size(s.compressed_size.as_str()) {
        Ok(n) => n,
        Err(e) => return Err(e),
    };
    let unpacked_size = match parse_size(s.uncompressed_size.as_str()) {
        Ok(n) => n,
        Err(e) => return Err(e),
    };
    Ok(VersionDiff::Diff {
        current: c,
        latest,
        diff: d,
        edition,
        downloaded_size,
        unpacked_size,
        installation_path,
        version_file_path,
        temp_folder: None,
    })
}

/// The difference of a game at `path` older than `latest`, from version
/// `c`, from the diff manifests of the main branch `main`: `Diff` through
/// the first of the game's manifests with sizes for `c` when the branch
/// patches `c`, and `Outdated` when it does not or no such manifest exists
pub open spec fn spec_game_update<E>(
    c: VersionParts,
    latest: VersionParts,
    edition: E,
    path: Seq<char>,
    main: BranchInfo,
    diffs: Seq<DiffInfo>,
) -> Result<DiffModel<E>, BranchDiffError> {
    let k = first_index(diffs, game_patch_from(c));
    if tags_contain(main.diff_tags@, c) && k >= 0 {
        update_model(c, latest, edition, diffs[k], Some(path), None)
    } else {
        Ok(DiffModel::Outdated { current: c, latest: latest, edition: edition })
    }
}

/// The difference of a game at `path` older than `latest`, from version
/// `c`, from the diff manifests of the main branch `main`; see
/// `spec_game_update`
pub fn game_update<E: Copy>(
    c: Version,
    latest: Version,
    edition: E,
    path: &str,
    main: &BranchInfo,
    diffs: Vec<DiffInfo>,
) -> (r: Result<VersionDiff<E>, BranchDiffError>)
    ensures
        diff_result(r) == spec_game_update(c@, latest@, edition, path@, *main, diffs@),
{
    let mut diffs = diffs;
    if tags_name(main.diff_tags.as_slice(), &c) {
        if let Some(k) = find_game_patch(diffs.as_slice(), &c) {
            return update_diff(c, latest, edition, diffs.remove(k), Some(path.to_owned()), None);
        }
    }
    Ok(VersionDiff::Outdated { current: c, latest, edition })
}

/// Sizes read from a manifest's size fields, as std reads a `u64`: the
/// compressed size is what is downloaded and the uncompressed one what
/// unpacking gives
pub open spec fn sizes_read(downloaded_size: u64, unpacked_size: u64, compressed: Seq<char>, uncompressed: Seq<char>) -> bool {
    &&& parse_unsigned(compressed, u64::MAX as nat) == Some(downloaded_size as nat)
    &&& parse_unsigned(uncompressed, u64::MAX as nat) == Some(unpacked_size as nat)
}

/// Where the differences of a game come from in the game API's manifests:
/// a full download is the game's download manifest, of the latest version;
/// a predownload patches the installed version `c` with the game's diff
/// manifest of the predownload branch, up to that branch's version; an
/// update patches `c` up to `latest` with a game diff manifest of the main
/// branch, whose patches update `c`. Sizes are those that the manifest
/// lists for `c` (for a patch), the compressed one being what is
/// downloaded. The game folder `path` is where it is installed
pub proof fn lemma_branch_diff_sources<E>(
    c: VersionParts,
    latest: VersionParts,
    edition: E,
    path: Seq<char>,
    branch: BranchInfo,
    downloads: Seq<DownloadInfo>,
    diffs: Seq<DiffInfo>,
)
    ensures
        spec_downloads_diff(latest, edition, path, downloads) matches Ok(DiffModel::NotInstalled {
            latest: l, download_info, edition: e, downloaded_size, unpacked_size, installation_path, .. })
            ==> {
                &&& l == latest && e == edition && installation_path == Some(path)
                &&& download_info.matching_field@ == "game"@
                &&& exists|i: int| 0 <= i < downloads.len() && #[trigger] downloads[i] == download_info
                &&& sizes_read(downloaded_size, unpacked_size, download_info.compressed_size@, download_info.uncompressed_size@)
            },
        spec_downloads_diff(latest, edition, path, downloads) is Ok ==> spec_downloads_diff(latest, edition, path, downloads)->Ok_0 is NotInstalled,
        spec_game_predownload(c, edition, path, branch, diffs) matches Ok(m) ==> m matches DiffModel::Predownload {
            current, latest: l, download_info, edition: e, downloaded_size, unpacked_size, installation_path, .. } && {
                &&& current == c && e == edition && installation_path == Some(path)
                &&& Some(l) == parse_version(branch.tag@)
                &&& download_info matches DownloadOrDiff::Patch(d) && {
                    &&& d.matching_field@ == "game"@
                    &&& (exists|i: int| 0 <= i < diffs.len() && #[trigger] diffs[i] == d)
                    &&& exists|j: int| 0 <= j < d.stats@.len() && (#[trigger] d.stats@[j]).tag@ == version_text(c)
                        && sizes_read(downloaded_size, unpacked_size, d.stats@[j].compressed_size@, d.stats@[j].uncompressed_size@)
                }
            },
        spec_game_update(c, latest, edition, path, branch, diffs) matches Ok(m) ==> match m {
            DiffModel::Diff { current, latest: l, diff, edition: e, downloaded_size, unpacked_size, installation_path, .. } => {
                &&& current == c && l == latest && e == edition && installation_path == Some(path)
                &&& exists|t: int| 0 <= t < branch.diff_tags@.len() && (#[trigger] branch.diff_tags@[t])@ == version_text(c)
                &&& diff.matching_field@ == "game"@
                &&& (exists|i: int| 0 <= i < diffs.len() && #[trigger] diffs[i] == diff)
                &&& exists|j: int| 0 <= j < diff.stats@.len() && (#[trigger] diff.stats@[j]).tag@ == version_text(c)
                    && sizes_read(downloaded_size, unpacked_size, diff.stats@[j].compressed_size@, diff.stats@[j].uncompressed_size@)
            },
            DiffModel::Outdated { current, latest: l, edition: e } => current == c && l == latest && e == edition,
            _ => false,
        },
{
    lemma_first_index(downloads, download_for("game"@));
    lemma_first_index(diffs, diff_for("game"@));
    lemma_first_index(diffs, game_patch_from(c));
    lemma_first_index(branch.diff_tags@, names_version(c));
    let k = first_index(diffs, diff_for("game"@));
    if k >= 0 {
        let d = diffs[k];
        lemma_first_index(d.stats@, stats_for(c));
        assert(diff_for("game"@)(d));
        assert(d.matching_field@ == "game"@);
        assert(diffs[k] == d);
        let j = first_index(d.stats@, stats_for(c));
        if j >= 0 {
            assert(stats_for(c)(d.stats@[j]));
            assert(d.stats@[j].tag@ == version_text(c));
        }
        if let Ok(m) = spec_game_predownload(c, edition, path, branch, diffs) {
            assert(j >= 0);
            let st = d.stats@[j];
            assert(m matches DiffModel::Predownload { .. });
            if let DiffModel::Predownload { current, latest: l, download_info, downloaded_size, unpacked_size, .. } = m {
                assert(download_info == DownloadOrDiff::Patch(d));
                assert(Some(l) == parse_version(branch.tag@));
                assert(sizes_read(downloaded_size, unpacked_size, st.compressed_size@, st.uncompressed_size@));
            }
        }
    }
    let g = first_index(diffs, game_patch_from(c));
    let t = first_index(branch.diff_tags@, names_version(c));
    if t >= 0 {
        assert(names_version(c)(branch.diff_tags@[t]));
        assert(branch.diff_tags@[t]@ == version_text(c));
    }
    if g >= 0 {
        let d = diffs[g];
        assert(game_patch_from(c)(d));
        assert(d.matching_field@ == "game"@);
        assert(diffs[g] == d);
        lemma_first_index(d.stats@, stats_for(c));
        let j = first_index(d.stats@, stats_for(c));
        assert(stats_for(c)(d.stats@[j]));
        assert(d.stats@[j].tag@ == version_text(c));
        if t >= 0 {
            if let Ok(m) = spec_game_update(c, latest, edition, path, branch, diffs) {
                let st = d.stats@[j];
                if let DiffModel::Diff { diff, downloaded_size, unpacked_size, .. } = m {
                    assert(diff == d);
                    assert(sizes_read(downloaded_size, unpacked_size, st.compressed_size@, st.uncompressed_size@));
                }
            }
        }
    }
}

} // verus!
