use vstd::prelude::*;
use crate::games::genshin::api::schema::{GamePackage, GamePatch, Segment};
use crate::strings::{parse_u64, parse_unsigned};
use crate::version::{Version, VersionParts, parse_version, parts_lt, version_text, opt_parts};

verus! {

/// Value of a size field, or nothing when the field is no `u64` (such
/// fields are skipped when sizes are summed)
pub open spec fn size_or_zero(s: Seq<char>) -> nat {
    match parse_unsigned(s, u64::MAX as nat) {
        Some(v) => v,
        None => 0,
    }
}

/// Sum of the archive sizes of some segments
pub open spec fn sizes_sum(pkgs: Seq<Segment>) -> nat
    decreases pkgs.len(),
{
    if pkgs.len() == 0 {
        0
    } else {
        sizes_sum(pkgs.drop_last()) + size_or_zero(pkgs.last().size@)
    }
}

/// Sum of the unpacked sizes of some segments
pub open spec fn decompressed_sum(pkgs: Seq<Segment>) -> nat
    decreases pkgs.len(),
{
    if pkgs.len() == 0 {
        0
    } else {
        decompressed_sum(pkgs.drop_last()) + size_or_zero(pkgs.last().decompressed_size@)
    }
}

/// The sums fit in `u64` and the unpacked data is not smaller than the
/// archives
pub open spec fn sizes_fit(pkgs: Seq<Segment>) -> bool {
    decompressed_sum(pkgs) <= u64::MAX && sizes_sum(pkgs) <= decompressed_sum(pkgs)
}

proof fn lemma_sums_prefix(pkgs: Seq<Segment>, i: int, j: int)
    requires
        0 <= i <= j <= pkgs.len(),
    ensures
        sizes_sum(pkgs.take(i)) <= sizes_sum(pkgs.take(j)),
        decompressed_sum(pkgs.take(i)) <= decompressed_sum(pkgs.take(j)),
    decreases j - i,
{
    if i < j {
        lemma_sums_prefix(pkgs, i, j - 1);
        assert(pkgs.take(j).drop_last() =~= pkgs.take(j - 1));
    }
}

/// Archive size and the size that unpacking adds, of some segments: sizes
/// that are no `u64` count as nothing
pub fn segments_sizes(pkgs: &[Segment]) -> (r: (u64, u64))
    requires
        sizes_fit(pkgs@),
    ensures
        r.0 == sizes_sum(pkgs@),
        r.1 == decompressed_sum(pkgs@) - sizes_sum(pkgs@),
{
    let n = pkgs.len();
    let mut downloaded: u64 = 0;
    let mut decompressed: u64 = 0;
    let mut i: usize = 0;
    assert(pkgs@.take(n as int) =~= pkgs@);
    while i < n
        invariant
            n == pkgs@.len(),
            i <= n,
            sizes_fit(pkgs@),
            downloaded == sizes_sum(pkgs@.take(i as int)),
            decompressed == decompressed_sum(pkgs@.take(i as int)),
        decreases n - i,
    {
        proof {
            lemma_sums_prefix(pkgs@, i + 1, n as int);
            assert(pkgs@.take(n as int) =~= pkgs@);
            assert(pkgs@.take(i + 1).drop_last() =~= pkgs@.take(i as int));
            assert(pkgs@.take(i + 1).last() == pkgs@[i as int]);
        }
        let size = match parse_u64(pkgs[i].size.as_str()) {
            Some(v) => v,
            None => 0,
        };
        let unpacked = match parse_u64(pkgs[i].decompressed_size.as_str()) {
            Some(v) => v,
            None => 0,
        };
        downloaded = downloaded + size;
        decompressed = decompressed + unpacked;
        i += 1;
    }
    (downloaded, decompressed - downloaded)
}

/// Whether the sums of some segments' sizes fit (see `sizes_fit`)
pub fn segments_fit(pkgs: &[Segment]) -> (r: bool)
    ensures
        r == sizes_fit(pkgs@),
{
    let n = pkgs.len();
    let mut downloaded: u64 = 0;
    let mut decompressed: u64 = 0;
    let mut i: usize = 0;
    while i < n
        invariant
            n == pkgs@.len(),
            i <= n,
            downloaded == sizes_sum(pkgs@.take(i as int)),
            decompressed == decompressed_sum(pkgs@.take(i as int)),
        decreases n - i,
    {
        proof {
            assert(pkgs@.take(n as int) =~= pkgs@);
            assert(pkgs@.take(i + 1).drop_last() =~= pkgs@.take(i as int));
            assert(pkgs@.take(i + 1).last() == pkgs@[i as int]);
            lemma_sums_prefix(pkgs@, i + 1, n as int);
        }
        let size = match parse_u64(pkgs[i].size.as_str()) {
            Some(v) => v,
            None => 0,
        };
        let unpacked = match parse_u64(pkgs[i].decompressed_size.as_str()) {
            Some(v) => v,
            None => 0,
        };
        if unpacked > u64::MAX - decompressed || size > u64::MAX - downloaded {
            return false;
        }
        downloaded = downloaded + size;
        decompressed = decompressed + unpacked;
        i += 1;
    }
    assert(pkgs@.take(n as int) =~= pkgs@);
    downloaded <= decompressed
}

/// Whether a patch is the one for version `c` (its version text is the text
/// of `c`)
pub open spec fn patch_matches(p: GamePatch, c: VersionParts) -> bool {
    p.version@ == version_text(c)
}

pub open spec fn is_first_match(ps: Seq<GamePatch>, c: VersionParts, i: int) -> bool {
    0 <= i < ps.len() && patch_matches(ps[i], c) && forall|j: int| 0 <= j < i ==> !patch_matches(ps[j], c)
}

/// Index of the first patch for version `c`
pub open spec fn first_match(ps: Seq<GamePatch>, c: VersionParts) -> Option<int> {
    if exists|i: int| is_first_match(ps, c, i) {
        Some(choose|i: int| is_first_match(ps, c, i))
    } else {
        None
    }
}

proof fn lemma_first_match(ps: Seq<GamePatch>, c: VersionParts, i: int)
    requires
        is_first_match(ps, c, i),
    ensures
        first_match(ps, c) == Some(i),
{
    let k = choose|k: int| is_first_match(ps, c, k);
    assert(is_first_match(ps, c, k));
    if k < i {
        assert(!patch_matches(ps[k], c));
    } else if i < k {
        assert(!patch_matches(ps[i], c));
    }
}

/// Finds the first patch for version `c`
pub fn find_patch(ps: &[GamePatch], c: &Version) -> (r: Option<usize>)
    ensures
        match r {
            Some(i) => first_match(ps@, c@) == Some(i as int) && i < ps@.len(),
            None => first_match(ps@, c@) is None,
        },
{
    let n = ps.len();
    let mut i: usize = 0;
    while i < n
        invariant
            n == ps@.len(),
            i <= n,
            forall|j: int| 0 <= j < i ==> !patch_matches(ps@[j], c@),
        decreases n - i,
    {
        if c.eq_str(ps[i].version.as_str()) {
            proof {
                lemma_first_match(ps@, c@, i as int);
            }
            return Some(i);
        }
        i += 1;
    }
    None
}

/// Optional string as a sequence of characters
pub open spec fn opt_str(o: Option<String>) -> Option<Seq<char>> {
    match o {
        Some(s) => Some(s@),
        None => None,
    }
}

/// Difference between an installed component and the latest one, where
/// updates are downloaded as segmented archives
#[derive(Debug, Clone, PartialEq, Eq)]
pub enum VersionDiff<E> {
    /// Latest version
    Latest { version: Version, edition: E },
    /// Component's update can be predownloaded, but you still can use it
    Predownload {
        current: Version,
        latest: Version,
        uri: String,
        edition: E,
        downloaded_size: u64,
        unpacked_size: u64,
        /// Path to the folder this difference should be installed by the `install` method
        installation_path: Option<String>,
        /// Optional path to the `.version` file
        version_file_path: Option<String>,
        /// Temp folder path
        temp_folder: Option<String>,
    },
    /// Component should be updated before using it
    Diff {
        current: Version,
        latest: Version,
        uri: String,
        edition: E,
        downloaded_size: u64,
        unpacked_size: u64,
        installation_path: Option<String>,
        version_file_path: Option<String>,
        temp_folder: Option<String>,
    },
    /// Difference can't be calculated because installed version is too old
    Outdated { current: Version, latest: Version, edition: E },
    /// Component is not yet installed
    NotInstalled {
        latest: Version,
        edition: E,
        downloaded_size: u64,
        unpacked_size: u64,
        segments_uris: Vec<String>,
        installation_path: Option<String>,
        version_file_path: Option<String>,
        temp_folder: Option<String>,
    },
}

/// Mathematical value of a `VersionDiff`
pub enum DiffModel<E> {
    Latest { version: VersionParts, edition: E },
    Predownload {
        current: VersionParts,
        latest: VersionParts,
        uri: Seq<char>,
        edition: E,
        downloaded_size: u64,
        unpacked_size: u64,
        installation_path: Option<Seq<char>>,
        version_file_path: Option<Seq<char>>,
        temp_folder: Option<Seq<char>>,
    },
    Diff {
        current: VersionParts,
        latest: VersionParts,
        uri: Seq<char>,
        edition: E,
        downloaded_size: u64,
        unpacked_size: u64,
        installation_path: Option<Seq<char>>,
        version_file_path: Option<Seq<char>>,
        temp_folder: Option<Seq<char>>,
    },
    Outdated { current: VersionParts, latest: VersionParts, edition: E },
    NotInstalled {
        latest: VersionParts,
        edition: E,
        downloaded_size: u64,
        unpacked_size: u64,
        segments_uris: Seq<Seq<char>>,
        installation_path: Option<Seq<char>>,
        version_file_path: Option<Seq<char>>,
        temp_folder: Option<Seq<char>>,
    },
}

impl<E> View for VersionDiff<E> {
    type V = DiffModel<E>;

    open spec fn view(&self) -> DiffModel<E> {
        match self {
            VersionDiff::Latest { version, edition } => DiffModel::Latest {
                version: version@,
                edition: *edition,
            },
            VersionDiff::Predownload {
                current,
                latest,
                uri,
                edition,
                downloaded_size,
                unpacked_size,
                installation_path,
                version_file_path,
                temp_folder,
            } => DiffModel::Predownload {
                current: current@,
                latest: latest@,
                uri: uri@,
                edition: *edition,
                downloaded_size: *downloaded_size,
                unpacked_size: *unpacked_size,
                installation_path: opt_str(*installation_path),
                version_file_path: opt_str(*version_file_path),
                temp_folder: opt_str(*temp_folder),
            },
            VersionDiff::Diff {
                current,
                latest,
                uri,
                edition,
                downloaded_size,
                unpacked_size,
                installation_path,
                version_file_path,
                temp_folder,
            } => DiffModel::Diff {
                current: current@,
                latest: latest@,
                uri: uri@,
                edition: *edition,
                downloaded_size: *downloaded_size,
                unpacked_size: *unpacked_size,
                installation_path: opt_str(*installation_path),
                version_file_path: opt_str(*version_file_path),
                temp_folder: opt_str(*temp_folder),
            },
            VersionDiff::Outdated { current, latest, edition } => DiffModel::Outdated {
                current: current@,
                latest: latest@,
                edition: *edition,
            },
            VersionDiff::NotInstalled {
                latest,
                edition,
                downloaded_size,
                unpacked_size,
                segments_uris,
                installation_path,
                version_file_path,
                temp_folder,
            } => DiffModel::NotInstalled {
                latest: latest@,
                edition: *edition,
                downloaded_size: *downloaded_size,
                unpacked_size: *unpacked_size,
                segments_uris: segments_uris@.map_values(|s: String| s@),
                installation_path: opt_str(*installation_path),
                version_file_path: opt_str(*version_file_path),
                temp_folder: opt_str(*temp_folder),
            },
        }
    }
}


/// The current version that a version check found, if any
pub open spec fn found_parts<Er>(current: Result<Version, Er>) -> Option<VersionParts> {
    match current {
        Ok(v) => Some(v@),
        Err(_) => None,
    }
}

/// Latest version that the package names
pub open spec fn package_latest(p: GamePackage) -> VersionParts {
    parse_version(p.main.major.version@)->0
}

/// Whether the installed version `c` is at least the package's latest one
/// (never when the package names no valid version)
pub open spec fn is_up_to_date(p: GamePackage, c: VersionParts) -> bool {
    parse_version(p.main.major.version@) matches Some(l) && !parts_lt(c, l)
}

/// The predownload patch for version `c`: the predownload, its major version
/// info and the index of the patch
pub open spec fn predownload_patch(p: GamePackage, c: VersionParts) -> Option<int> {
    match p.pre_download {
        Some(pre) => match pre.major {
            Some(_) => first_match(pre.patches@, c),
            None => None,
        },
        None => None,
    }
}

pub open spec fn urls(pkgs: Seq<Segment>) -> Seq<Seq<char>> {
    pkgs.map_values(|s: Segment| s.url@)
}

/// `NotInstalled` difference for a package: the full game archives
pub open spec fn not_installed_model<E>(p: GamePackage, edition: E, path: Seq<char>) -> DiffModel<E> {
    let pkgs = p.main.major.game_pkgs@;
    DiffModel::NotInstalled {
        latest: package_latest(p),
        edition: edition,
        downloaded_size: sizes_sum(pkgs) as u64,
        unpacked_size: (decompressed_sum(pkgs) - sizes_sum(pkgs)) as u64,
        segments_uris: urls(pkgs),
        installation_path: Some(path),
        version_file_path: None,
        temp_folder: None,
    }
}

/// `Predownload` difference through the predownload patch `k`
pub open spec fn predownload_model<E>(p: GamePackage, edition: E, path: Seq<char>, c: VersionParts, k: int) -> DiffModel<E> {
    let pre = p.pre_download->0;
    let pkgs = pre.patches@[k].game_pkgs@;
    DiffModel::Predownload {
        current: c,
        latest: parse_version(pre.major->0.version@)->0,
        uri: pkgs[0].url@,
        edition: edition,
        downloaded_size: sizes_sum(pkgs) as u64,
        unpacked_size: (decompressed_sum(pkgs) - sizes_sum(pkgs)) as u64,
        installation_path: Some(path),
        version_file_path: None,
        temp_folder: None,
    }
}

/// `Diff` difference through the patch `k` of the main game info
pub open spec fn diff_model<E>(p: GamePackage, edition: E, path: Seq<char>, c: VersionParts, k: int) -> DiffModel<E> {
    let pkgs = p.main.patches@[k].game_pkgs@;
    DiffModel::Diff {
        current: c,
        latest: package_latest(p),
        uri: pkgs[0].url@,
        edition: edition,
        downloaded_size: sizes_sum(pkgs) as u64,
        unpacked_size: (decompressed_sum(pkgs) - sizes_sum(pkgs)) as u64,
        installation_path: Some(path),
        version_file_path: None,
        temp_folder: None,
    }
}

/// Whether the component counts as not installed: it is not installed at
/// all, or its version is unknown and its folder is empty
pub open spec fn counts_as_not_installed(installed: bool, current: Option<VersionParts>, folder_empty: bool) -> bool {
    !installed || (current is None && folder_empty)
}

/// The difference between an installed component and a package of the
/// game API. `installed` says whether the component's folder exists,
/// `current` is the version found in it and `folder_empty` whether that
/// folder is empty. `None` when the version could not be found in a folder
/// that is not empty.
///
/// A component whose version is at least the latest one is `Latest` unless
/// the package offers a predownload patch for that version; an older one is
/// `Diff` when a patch for its version is listed and `Outdated` when not.
pub open spec fn spec_package_diff<E>(
    p: GamePackage,
    edition: E,
    path: Seq<char>,
    installed: bool,
    current: Option<VersionParts>,
    folder_empty: bool,
) -> Option<DiffModel<E>> {
    if counts_as_not_installed(installed, current, folder_empty) {
        Some(not_installed_model(p, edition, path))
    } else if current is None {
        None
    } else {
        let c = current->0;
        if is_up_to_date(p, c) {
            match predownload_patch(p, c) {
                Some(k) => Some(predownload_model(p, edition, path, c, k)),
                None => Some(DiffModel::Latest { version: c, edition: edition }),
            }
        } else {
            match first_match(p.main.patches@, c) {
                Some(k) => Some(diff_model(p, edition, path, c, k)),
                None => Some(DiffModel::Outdated { current: c, latest: package_latest(p), edition: edition }),
            }
        }
    }
}

/// The inputs on which the difference is defined: the versions it names are
/// valid, a patch that it uses has an archive, and archive sizes fit
pub open spec fn package_diff_defined(
    p: GamePackage,
    installed: bool,
    current: Option<VersionParts>,
    folder_empty: bool,
) -> bool {
    if counts_as_not_installed(installed, current, folder_empty) {
        parse_version(p.main.major.version@) is Some && sizes_fit(p.main.major.game_pkgs@)
    } else if current is None {
        true
    } else {
        let c = current->0;
        if is_up_to_date(p, c) {
            match predownload_patch(p, c) {
                Some(k) => {
                    let pre = p.pre_download->0;
                    &&& parse_version(pre.major->0.version@) is Some
                    &&& pre.patches@[k].game_pkgs@.len() > 0
                    &&& sizes_fit(pre.patches@[k].game_pkgs@)
                },
                None => true,
            }
        } else {
            &&& parse_version(p.main.major.version@) is Some
            &&& match first_match(p.main.patches@, c) {
                Some(k) => p.main.patches@[k].game_pkgs@.len() > 0 && sizes_fit(p.main.patches@[k].game_pkgs@),
                None => true,
            }
        }
    }
}

/// Whether the difference is defined on these inputs; see
/// `package_diff_defined`
pub fn package_diff_ready<Er>(p: &GamePackage, installed: bool, current: &Result<Version, Er>, folder_empty: bool) -> (r: bool)
    ensures
        r == package_diff_defined(*p, installed, found_parts(*current), folder_empty),
{
    let latest_valid = Version::from_str(p.main.major.version.as_str()).is_some();
    let known = match current {
        Ok(c) => Some(*c),
        Err(_) => None,
    };
    if !installed || (known.is_none() && folder_empty) {
        return latest_valid && segments_fit(p.main.major.game_pkgs.as_slice());
    }
    match known {
        None => true,
        Some(c) => {
            if c.ge_str(p.main.major.version.as_str()) {
                match &p.pre_download {
                    Some(pre) => match &pre.major {
                        Some(major) => match find_patch(pre.patches.as_slice(), &c) {
                            Some(k) => {
                                let pkgs = pre.patches[k].game_pkgs.as_slice();
                                Version::from_str(major.version.as_str()).is_some() && pkgs.len() > 0 && segments_fit(pkgs)
                            },
                            None => true,
                        },
                        None => true,
                    },
                    None => true,
                }
            } else {
                latest_valid && match find_patch(p.main.patches.as_slice(), &c) {
                    Some(k) => {
                        let pkgs = p.main.patches[k].game_pkgs.as_slice();
                        pkgs.len() > 0 && segments_fit(pkgs)
                    },
                    None => true,
                }
            }
        },
    }
}

/// Download URLs of some segments
pub fn segment_urls(pkgs: &[Segment]) -> (r: Vec<String>)
    ensures
        r@.map_values(|s: String| s@) == urls(pkgs@),
{
    let mut r: Vec<String> = Vec::new();
    let n = pkgs.len();
    let mut i: usize = 0;
    while i < n
        invariant
            n == pkgs@.len(),
            i <= n,
            r@.len() == i,
            r@.map_values(|s: String| s@) == urls(pkgs@.take(i as int)),
        decreases n - i,
    {
        let u = pkgs[i].url.clone();
        let ghost old_r = r@;
        r.push(u);
        proof {
            let t = pkgs@.take(i + 1);
            assert forall|j: int| 0 <= j < i + 1 implies r@.map_values(|s: String| s@)[j] == urls(t)[j] by {
                if j < i {
                    assert(r@[j] == old_r[j]);
                    assert(t[j] == pkgs@.take(i as int)[j]);
                    assert(old_r.map_values(|s: String| s@)[j] == urls(pkgs@.take(i as int))[j]);
                }
            }
        }
        i += 1;
        assert(r@.map_values(|s: String| s@) =~= urls(pkgs@.take(i as int)));
    }
    assert(pkgs@.take(n as int) =~= pkgs@);
    r
}

fn not_installed_diff<E: Copy>(p: &GamePackage, edition: E, path: &str) -> (r: VersionDiff<E>)
    requires
        parse_version(p.main.major.version@) is Some,
        sizes_fit(p.main.major.game_pkgs@),
    ensures
        r@ == not_installed_model(*p, edition, path@),
{
    let (downloaded_size, unpacked_size) = segments_sizes(p.main.major.game_pkgs.as_slice());
    let latest = Version::from_str(p.main.major.version.as_str()).unwrap();
    VersionDiff::NotInstalled {
        latest,
        edition,
        downloaded_size,
        unpacked_size,
        segments_uris: segment_urls(p.main.major.game_pkgs.as_slice()),
        installation_path: Some(path.to_owned()),
        version_file_path: None,
        temp_folder: None,
    }
}

fn up_to_date_diff<E: Copy>(p: &GamePackage, edition: E, path: &str, current: Version) -> (r: VersionDiff<E>)
    requires
        is_up_to_date(*p, current@),
        package_diff_defined(*p, true, Some(current@), false),
    ensures
        Some(r@) == spec_package_diff(*p, edition, path@, true, Some(current@), false),
{
    if let Some(pre) = &p.pre_download {
        if let Some(pre_major) = &pre.major {
            if let Some(k) = find_patch(pre.patches.as_slice(), &current) {
                let diff = &pre.patches[k];
                let (downloaded_size, unpacked_size) = segments_sizes(diff.game_pkgs.as_slice());
                let latest = Version::from_str(pre_major.version.as_str()).unwrap();
                return VersionDiff::Predownload {
                    current,
                    latest,
                    uri: diff.game_pkgs[0].url.clone(),
                    edition,
                    downloaded_size,
                    unpacked_size,
                    installation_path: Some(path.to_owned()),
                    version_file_path: None,
                    temp_folder: None,
                };
            }
        }
    }
    VersionDiff::Latest { version: current, edition }
}

fn outdated_diff<E: Copy>(p: &GamePackage, edition: E, path: &str, current: Version) -> (r: VersionDiff<E>)
    requires
        !is_up_to_date(*p, current@),
        package_diff_defined(*p, true, Some(current@), false),
    ensures
        Some(r@) == spec_package_diff(*p, edition, path@, true, Some(current@), false),
{
    let latest = Version::from_str(p.main.major.version.as_str()).unwrap();
    if let Some(k) = find_patch(p.main.patches.as_slice(), &current) {
        let diff = &p.main.patches[k];
        let (downloaded_size, unpacked_size) = segments_sizes(diff.game_pkgs.as_slice());
        return VersionDiff::Diff {
            current,
            latest,
            uri: diff.game_pkgs[0].url.clone(),
            edition,
            downloaded_size,
            unpacked_size,
            installation_path: Some(path.to_owned()),
            version_file_path: None,
            temp_folder: None,
        };
    }
    VersionDiff::Outdated { current, latest, edition }
}

/// Difference between the component installed at `path` and the package
/// `p` that the game API lists for it; see `spec_package_diff`. The error
/// of `current` is returned when its version is unknown and its folder is not
/// empty.
pub fn package_diff<E: Copy, Er>(
    p: &GamePackage,
    edition: E,
    path: &str,
    installed: bool,
    current: Result<Version, Er>,
    folder_empty: bool,
) -> (r: Result<VersionDiff<E>, Er>)
    requires
        package_diff_defined(*p, installed, found_parts(current), folder_empty),
    ensures
        match spec_package_diff(*p, edition, path@, installed, found_parts(current), folder_empty) {
            Some(m) => r matches Ok(d) && d@ == m,
            None => r is Err && current is Err && r->Err_0 == current->Err_0,
        },
{
    if !installed {
        return Ok(not_installed_diff(p, edition, path));
    }
    match current {
        Err(err) => {
            if folder_empty {
                Ok(not_installed_diff(p, edition, path))
            } else {
                Err(err)
            }
        },
        Ok(current) => {
            if current.ge_str(p.main.major.version.as_str()) {
                Ok(up_to_date_diff(p, edition, path, current))
            } else {
                Ok(outdated_diff(p, edition, path, current))
            }
        },
    }
}


impl<E: Copy> VersionDiff<E> {
    pub fn edition(&self) -> (r: E)
        ensures
            r == match self@ {
                DiffModel::Latest { edition, .. } => edition,
                DiffModel::Predownload { edition, .. } => edition,
                DiffModel::Diff { edition, .. } => edition,
                DiffModel::Outdated { edition, .. } => edition,
                DiffModel::NotInstalled { edition, .. } => edition,
            },
    {
        match self {
            Self::Latest { edition, .. }
            | Self::Predownload { edition, .. }
            | Self::Diff { edition, .. }
            | Self::Outdated { edition, .. }
            | Self::NotInstalled { edition, .. } => *edition,
        }
    }

    /// Installed version, if the component is installed
    pub fn current(&self) -> (r: Option<Version>)
        ensures
            opt_parts(r) == match self@ {
                DiffModel::Latest { version, .. } => Some(version),
                DiffModel::Predownload { current, .. } => Some(current),
                DiffModel::Diff { current, .. } => Some(current),
                DiffModel::Outdated { current, .. } => Some(current),
                DiffModel::NotInstalled { .. } => None,
            },
    {
        match self {
            Self::Latest { version: current, .. }
            | Self::Predownload { current, .. }
            | Self::Diff { current, .. }
            | Self::Outdated { current, .. } => Some(*current),
            Self::NotInstalled { .. } => None,
        }
    }

    /// Version that installing this difference gives
    pub fn latest(&self) -> (r: Version)
        ensures
            r@ == match self@ {
                DiffModel::Latest { version, .. } => version,
                DiffModel::Predownload { latest, .. } => latest,
                DiffModel::Diff { latest, .. } => latest,
                DiffModel::Outdated { latest, .. } => latest,
                DiffModel::NotInstalled { latest, .. } => latest,
            },
    {
        match self {
            Self::Latest { version: latest, .. }
            | Self::Predownload { latest, .. }
            | Self::Diff { latest, .. }
            | Self::Outdated { latest, .. }
            | Self::NotInstalled { latest, .. } => *latest,
        }
    }

    pub fn downloaded_size(&self) -> (r: Option<u64>)
        ensures
            r == match self@ {
                DiffModel::Predownload { downloaded_size, .. } => Some(downloaded_size),
                DiffModel::Diff { downloaded_size, .. } => Some(downloaded_size),
                DiffModel::NotInstalled { downloaded_size, .. } => Some(downloaded_size),
                _ => None,
            },
    {
        match self {
            Self::Latest { .. } | Self::Outdated { .. } => None,
            Self::Predownload { downloaded_size, .. }
            | Self::Diff { downloaded_size, .. }
            | Self::NotInstalled { downloaded_size, .. } => Some(*downloaded_size),
        }
    }

    pub fn unpacked_size(&self) -> (r: Option<u64>)
        ensures
            r == match self@ {
                DiffModel::Predownload { unpacked_size, .. } => Some(unpacked_size),
                DiffModel::Diff { unpacked_size, .. } => Some(unpacked_size),
                DiffModel::NotInstalled { unpacked_size, .. } => Some(unpacked_size),
                _ => None,
            },
    {
        match self {
            Self::Latest { .. } | Self::Outdated { .. } => None,
            Self::Predownload { unpacked_size, .. }
            | Self::Diff { unpacked_size, .. }
            | Self::NotInstalled { unpacked_size, .. } => Some(*unpacked_size),
        }
    }

    /// Path to the folder this difference should be installed to
    pub fn installation_path(&self) -> (r: Option<&str>)
        ensures
            match r {
                Some(p) => match self@ {
                    DiffModel::Predownload { installation_path, .. } => installation_path == Some(p@),
                    DiffModel::Diff { installation_path, .. } => installation_path == Some(p@),
                    DiffModel::NotInstalled { installation_path, .. } => installation_path == Some(p@),
                    _ => false,
                },
                None => match self@ {
                    DiffModel::Predownload { installation_path, .. } => installation_path is None,
                    DiffModel::Diff { installation_path, .. } => installation_path is None,
                    DiffModel::NotInstalled { installation_path, .. } => installation_path is None,
                    _ => true,
                },
            },
    {
        match self {
            Self::Latest { .. } | Self::Outdated { .. } => None,
            Self::Predownload { installation_path, .. }
            | Self::Diff { installation_path, .. }
            | Self::NotInstalled { installation_path, .. } => match installation_path {
                Some(path) => Some(path.as_str()),
                None => None,
            },
        }
    }

    /// Get `.version` file path
    pub fn version_file_path(&self) -> (r: Option<String>)
        ensures
            opt_str(r) == match self@ {
                DiffModel::Predownload { version_file_path, .. } => version_file_path,
                DiffModel::Diff { version_file_path, .. } => version_file_path,
                DiffModel::NotInstalled { version_file_path, .. } => version_file_path,
                _ => None,
            },
    {
        match self {
            Self::Latest { .. } | Self::Outdated { .. } => None,
            Self::Predownload { version_file_path, .. }
            | Self::Diff { version_file_path, .. }
            | Self::NotInstalled { version_file_path, .. } => version_file_path.clone(),
        }
    }

    /// Currently selected temp folder; `None` means the system's temp folder
    pub fn temp_folder(&self) -> (r: Option<String>)
        ensures
            opt_str(r) == self@.temp_folder(),
    {
        match self {
            Self::Latest { .. } | Self::Outdated { .. } => None,
            Self::Predownload { temp_folder, .. }
            | Self::Diff { temp_folder, .. }
            | Self::NotInstalled { temp_folder, .. } => temp_folder.clone(),
        }
    }

    /// Selects the temp folder of a difference that can be installed; other
    /// differences stay as they are
    pub fn with_temp_folder(self, temp: String) -> (r: Self)
        ensures
            r@ == self@.with_temp_folder(temp@),
    {
        match self {
            Self::Predownload {
                current,
                latest,
                uri,
                edition,
                downloaded_size,
                unpacked_size,
                installation_path,
                version_file_path,
                ..
            } => Self::Predownload {
                current,
                latest,
                uri,
                edition,
                downloaded_size,
                unpacked_size,
                installation_path,
                version_file_path,
                temp_folder: Some(temp),
            },
            Self::Diff {
                current,
                latest,
                uri,
                edition,
                downloaded_size,
                unpacked_size,
                installation_path,
                version_file_path,
                ..
            } => Self::Diff {
                current,
                latest,
                uri,
                edition,
                downloaded_size,
                unpacked_size,
                installation_path,
                version_file_path,
                temp_folder: Some(temp),
            },
            Self::NotInstalled {
                latest,
                edition,
                downloaded_size,
                unpacked_size,
                segments_uris,
                installation_path,
                version_file_path,
                ..
            } => Self::NotInstalled {
                latest,
                edition,
                downloaded_size,
                unpacked_size,
                segments_uris,
                installation_path,
                version_file_path,
                temp_folder: Some(temp),
            },
            other => other,
        }
    }
}

impl<E> DiffModel<E> {
    /// Temp folder of a difference; nothing for one that cannot be installed
    pub open spec fn temp_folder(self) -> Option<Seq<char>> {
        match self {
            DiffModel::Predownload { temp_folder, .. } => temp_folder,
            DiffModel::Diff { temp_folder, .. } => temp_folder,
            DiffModel::NotInstalled { temp_folder, .. } => temp_folder,
            _ => None,
        }
    }

    /// The same difference with another temp folder; one that cannot be
    /// installed stays as it is
    pub open spec fn with_temp_folder(self, temp: Seq<char>) -> DiffModel<E> {
        match self {
            DiffModel::Predownload {
                current,
                latest,
                uri,
                edition,
                downloaded_size,
                unpacked_size,
                installation_path,
                version_file_path,
                ..
            } => DiffModel::Predownload {
                current,
                latest,
                uri,
                edition,
                downloaded_size,
                unpacked_size,
                installation_path,
                version_file_path,
                temp_folder: Some(temp),
            },
            DiffModel::Diff {
                current,
                latest,
                uri,
                edition,
                downloaded_size,
                unpacked_size,
                installation_path,
                version_file_path,
                ..
            } => DiffModel::Diff {
                current,
                latest,
                uri,
                edition,
                downloaded_size,
                unpacked_size,
                installation_path,
                version_file_path,
                temp_folder: Some(temp),
            },
            DiffModel::NotInstalled {
                latest,
                edition,
                downloaded_size,
                unpacked_size,
                segments_uris,
                installation_path,
                version_file_path,
                ..
            } => DiffModel::NotInstalled {
                latest,
                edition,
                downloaded_size,
                unpacked_size,
                segments_uris,
                installation_path,
                version_file_path,
                temp_folder: Some(temp),
            },
            m => m,
        }
    }

    pub open spec fn is_installable(self) -> bool {
        !(self is Latest || self is Outdated)
    }
}

/// Reading the temp folder back after selecting it gives the selected folder
/// for a difference that can be installed; selecting one for another
/// difference changes nothing
pub proof fn lemma_temp_folder_read_after_write<E>(d: DiffModel<E>, temp: Seq<char>)
    ensures
        d.is_installable() ==> d.with_temp_folder(temp).temp_folder() == Some(temp),
        !d.is_installable() ==> d.with_temp_folder(temp) == d,
{
}

/// Where the differences of a component come from in the package `p` of
/// the game API: a full download takes every archive of the latest version
/// (what is downloaded is the sum of their archive sizes, and unpacking adds
/// the rest of their unpacked sizes); a predownload takes the first archive
/// of a predownload patch listed for the installed version `c`, up to the
/// predownload's version; an update takes the first archive of a patch of
/// the main game info listed for `c`, up to the latest version. The
/// component's folder `path` is where it is installed
pub proof fn lemma_package_diff_sources<E>(
    p: GamePackage,
    edition: E,
    path: Seq<char>,
    installed: bool,
    current: Option<VersionParts>,
    folder_empty: bool,
)
    requires
        package_diff_defined(p, installed, current, folder_empty),
    ensures
        match spec_package_diff(p, edition, path, installed, current, folder_empty) {
            Some(DiffModel::NotInstalled { latest, edition: e, downloaded_size, unpacked_size, segments_uris, installation_path, .. }) => {
                let pkgs = p.main.major.game_pkgs@;
                &&& Some(latest) == parse_version(p.main.major.version@)
                &&& e == edition && installation_path == Some(path)
                &&& downloaded_size == sizes_sum(pkgs)
                &&& downloaded_size + unpacked_size == decompressed_sum(pkgs)
                &&& segments_uris.len() == pkgs.len()
                &&& forall|i: int| 0 <= i < pkgs.len() ==> segments_uris[i] == (#[trigger] pkgs[i]).url@
            },
            Some(DiffModel::Predownload { current: cur, latest, uri, edition: e, downloaded_size, installation_path, .. }) => {
                &&& current == Some(cur) && e == edition && installation_path == Some(path)
                &&& p.pre_download matches Some(pre) && pre.major matches Some(major) && {
                    &&& Some(latest) == parse_version(major.version@)
                    &&& exists|k: int| 0 <= k < pre.patches@.len() && (#[trigger] pre.patches@[k]).version@ == version_text(cur)
                        && uri == pre.patches@[k].game_pkgs@[0].url@ && downloaded_size == sizes_sum(pre.patches@[k].game_pkgs@)
                }
            },
            Some(DiffModel::Diff { current: cur, latest, uri, edition: e, downloaded_size, installation_path, .. }) => {
                &&& current == Some(cur) && e == edition && installation_path == Some(path)
                &&& Some(latest) == parse_version(p.main.major.version@)
                &&& exists|k: int| 0 <= k < p.main.patches@.len() && (#[trigger] p.main.patches@[k]).version@ == version_text(cur)
                    && uri == p.main.patches@[k].game_pkgs@[0].url@ && downloaded_size == sizes_sum(p.main.patches@[k].game_pkgs@)
            },
            Some(DiffModel::Latest { version, edition: e }) => current == Some(version) && e == edition,
            Some(DiffModel::Outdated { current: cur, latest, edition: e }) => current == Some(cur) && e == edition
                && Some(latest) == parse_version(p.main.major.version@),
            None => installed && current is None && !folder_empty,
        },
{
    if let Some(c) = current {
        if let Some(k) = first_match(p.main.patches@, c) {
            assert(is_first_match(p.main.patches@, c, choose|i: int| is_first_match(p.main.patches@, c, i)));
        }
        if let Some(pre) = p.pre_download {
            if let Some(k) = first_match(pre.patches@, c) {
                assert(is_first_match(pre.patches@, c, choose|i: int| is_first_match(pre.patches@, c, i)));
            }
        }
    }
}

} // verus!
