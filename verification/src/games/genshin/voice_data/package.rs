use vstd::prelude::*;
use crate::version::{Version, VersionParts, parse_version, opt_parts};
use crate::paths::{ancestor, path_ancestor, path_file_name, file_name, path_join, join, components, is_absolute, same_location, no_separator};
use crate::strings::{str_eq, parse_u64};
use crate::games::genshin::voice_data::locale::{VoiceLocale, parse_voice_locale};
use crate::games::genshin::consts::{GameEdition, get_voice_package_path, spec_voice_packages_path};
pub use crate::games::branch_diff::DownloadInfo;
use crate::games::branch_diff::{
    BranchDiffError, DiffInfo, DiffRequest, download_for, lemma_first_index, DiffStep, GameBranch, StepModel, DiffModel, diff_for, download_model,
    download_diff, find_diff, first_index, predownload_model, predownload_diff, predownload_offered, tags_contain, tags_name,
    update_model, update_diff, diff_result, step_result, offers_predownload, size_value,
};
use crate::games::genshin::version_diff::VersionDiff;
use crate::games::package_diff::opt_str;

verus! {

/// Acceptable error to select a version for the voiceover folder
pub const VOICE_PACKAGE_THRESHOLD: u64 = 400 * 1024 * 1024;

/// One row of the known voiceover sizes: the version, then the English,
/// Japanese, Korean and Chinese package sizes
pub type SizesRow = (Seq<char>, u64, u64, u64, u64);

/// Known voiceover sizes, newest version first
pub open spec fn sizes_table() -> Seq<SizesRow> {
    seq![
        ("5.7.0"@, 19512988499u64, 22222747101u64, 16908205123u64, 17127113750u64),
        ("5.6.0"@, 18981328917u64, 21627518083u64, 16446002370u64, 16665257451u64),
        ("5.5.0"@, 18412510172u64, 20933946124u64, 15886079840u64, 16128960332u64),
    ]
}

/// The size that a row gives for a locale
pub open spec fn row_size(row: SizesRow, locale: VoiceLocale) -> u64 {
    match locale {
        VoiceLocale::English => row.1,
        VoiceLocale::Japanese => row.2,
        VoiceLocale::Korean => row.3,
        VoiceLocale::Chinese => row.4,
    }
}

/// The known sizes of one locale, newest version first
pub open spec fn locale_sizes(locale: VoiceLocale) -> Seq<(Seq<char>, u64)> {
    sizes_table().map_values(|row: SizesRow| (row.0, row_size(row, locale)))
}

/// List of voiceover sizes
///
/// Format: `(version, english, japanese, korean, chinese)`
pub fn voice_packages_sizes() -> (r: &'static [(&'static str, u64, u64, u64, u64)])
    ensures
        r@.len() == sizes_table().len(),
        forall|i: int| 0 <= i < r@.len() ==> {
            let (v, a, b, c, d) = #[trigger] r@[i];
            (v@, a, b, c, d) == sizes_table()[i]
        },
{
    &[
        ("5.7.0", 19512988499, 22222747101, 16908205123, 17127113750),
        ("5.6.0", 18981328917, 21627518083, 16446002370, 16665257451),
        ("5.5.0", 18412510172, 20933946124, 15886079840, 16128960332),
    ]
}

/// Get specific voice package sizes from `voice_packages_sizes`
pub fn get_voice_pack_sizes(locale: VoiceLocale) -> (r: Vec<(&'static str, u64)>)
    ensures
        r@.map_values(|e: (&'static str, u64)| (e.0@, e.1)) == locale_sizes(locale),
{
    let table = voice_packages_sizes();
    let mut r: Vec<(&'static str, u64)> = Vec::new();
    let n = table.len();
    let mut i: usize = 0;
    while i < n
        invariant
            n == table@.len(),
            n == sizes_table().len(),
            forall|j: int| 0 <= j < n ==> {
                let (v, a, b, c, d) = #[trigger] table@[j];
                (v@, a, b, c, d) == sizes_table()[j]
            },
            i <= n,
            r@.len() == i,
            forall|j: int| 0 <= j < i ==> {
                let (v, s) = #[trigger] r@[j];
                v@ == sizes_table()[j].0 && s == row_size(sizes_table()[j], locale)
            },
        decreases n - i,
    {
        let row = table[i];
        let size = match locale {
            VoiceLocale::English => row.1,
            VoiceLocale::Japanese => row.2,
            VoiceLocale::Korean => row.3,
            VoiceLocale::Chinese => row.4,
        };
        r.push((row.0, size));
        proof {
            let (v, a, b, c, d) = table@[i as int];
            assert((v@, a, b, c, d) == sizes_table()[i as int]);
        }
        i += 1;
    }
    assert(r@.map_values(|e: (&'static str, u64)| (e.0@, e.1)) =~= locale_sizes(locale));
    r
}

/// Whether the known sizes list version `tag`
pub open spec fn table_has_tag(tag: Seq<char>) -> bool {
    exists|i: int| 0 <= i < sizes_table().len() && #[trigger] sizes_table()[i].0 == tag
}

/// The sizes that a voiceover's version is predicted from, newest first:
/// the known ones, behind the game API's size of the latest version `tag`
/// when the table does not list it (`api_size`, when the API has one), and
/// behind the predicted size of `tag` when the table does not start with it
pub open spec fn candidate_sizes(
    locale: VoiceLocale,
    tag: Seq<char>,
    api_size: Option<u64>,
    predicted_size: u64,
) -> Seq<(Seq<char>, u64)> {
    let with_api = if !table_has_tag(tag) && api_size is Some {
        seq![(tag, api_size->0)] + locale_sizes(locale)
    } else {
        locale_sizes(locale)
    };
    if sizes_table()[0].0 != tag {
        seq![(tag, predicted_size)] + with_api
    } else {
        with_api
    }
}

/// A version whose size, less the threshold, is below the folder's size
pub open spec fn size_fits(entry: (Seq<char>, u64), package_size: u64) -> bool {
    package_size > entry.1 - VOICE_PACKAGE_THRESHOLD
}

/// Index of the first candidate that fits
pub open spec fn first_fitting(c: Seq<(Seq<char>, u64)>, package_size: u64) -> Option<int>
    decreases c.len(),
{
    if c.len() == 0 {
        None
    } else if size_fits(c[0], package_size) {
        Some(0)
    } else {
        match first_fitting(c.drop_first(), package_size) {
            Some(k) => Some(k + 1),
            None => None,
        }
    }
}

proof fn lemma_first_fitting(c: Seq<(Seq<char>, u64)>, package_size: u64)
    ensures
        first_fitting(c, package_size) matches Some(k) ==> {
            &&& 0 <= k < c.len()
            &&& size_fits(c[k], package_size)
            &&& forall|j: int| 0 <= j < k ==> !size_fits(#[trigger] c[j], package_size)
        },
        first_fitting(c, package_size) is None ==> forall|j: int| 0 <= j < c.len() ==> !size_fits(#[trigger] c[j], package_size),
    decreases c.len(),
{
    if c.len() > 0 {
        lemma_first_fitting(c.drop_first(), package_size);
        assert forall|j: int| 1 <= j < c.len() implies #[trigger] c[j] == c.drop_first()[j - 1] by {}
    }
}

/// Installed voiceover version predicted from the size of its folder
pub open spec fn spec_predict_version(
    package_size: u64,
    locale: VoiceLocale,
    tag: Seq<char>,
    api_size: Option<u64>,
    predicted_size: u64,
) -> Option<VersionParts> {
    let c = candidate_sizes(locale, tag, api_size, predicted_size);
    match first_fitting(c, package_size) {
        Some(k) => parse_version(c[k].0),
        None => None,
    }
}

/// Whether the known sizes list version `tag`
pub fn table_lists(tag: &str) -> (r: bool)
    ensures
        r == table_has_tag(tag@),
{
    let table = voice_packages_sizes();
    let n = table.len();
    let mut i: usize = 0;
    while i < n
        invariant
            n == table@.len(),
            n == sizes_table().len(),
            forall|j: int| 0 <= j < n ==> {
                let (v, a, b, c, d) = #[trigger] table@[j];
                (v@, a, b, c, d) == sizes_table()[j]
            },
            i <= n,
            forall|j: int| 0 <= j < i ==> #[trigger] sizes_table()[j].0 != tag@,
        decreases n - i,
    {
        let row = table[i];
        proof {
            let (v, a, b, c, d) = table@[i as int];
            assert((v@, a, b, c, d) == sizes_table()[i as int]);
        }
        if str_eq(row.0, tag) {
            assert(sizes_table()[i as int].0 == tag@);
            return true;
        }
        i += 1;
    }
    false
}

/// The candidate sizes of a locale (see `candidate_sizes`)
fn candidates_of<'a>(locale: VoiceLocale, tag: &'a str, api_size: Option<u64>, predicted_size: u64) -> (r: Vec<(&'a str, u64)>)
    ensures
        r@.map_values(|e: (&str, u64)| (e.0@, e.1)) == candidate_sizes(locale, tag@, api_size, predicted_size),
{
    let ghost c = candidate_sizes(locale, tag@, api_size, predicted_size);
    let table = voice_packages_sizes();
    let mut candidates: Vec<(&str, u64)> = Vec::new();
    let first_listed = str_eq(table[0].0, tag);
    proof {
        let (v, a, b, cc, d) = table@[0];
        assert((v@, a, b, cc, d) == sizes_table()[0]);
    }
    if !first_listed {
        candidates.push((tag, predicted_size));
    }
    if !table_lists(tag) {
        if let Some(size) = api_size {
            candidates.push((tag, size));
        }
    }
    let known = get_voice_pack_sizes(locale);
    let ghost front = candidates@;
    let m = known.len();
    let mut j: usize = 0;
    while j < m
        invariant
            m == known@.len(),
            known@.map_values(|e: (&'static str, u64)| (e.0@, e.1)) == locale_sizes(locale),
            j <= m,
            candidates@ == front + known@.take(j as int),
        decreases m - j,
    {
        candidates.push(known[j]);
        assert(candidates@ =~= front + known@.take(j + 1));
        j += 1;
    }
    let ghost view = candidates@.map_values(|e: (&str, u64)| (e.0@, e.1));
    proof {
        assert(known@.take(m as int) =~= known@);
        let kv = known@.map_values(|e: (&'static str, u64)| (e.0@, e.1));
        assert(view =~= c) by {
            assert(locale_sizes(locale).len() == m);
            assert forall|i: int| 0 <= i < view.len() implies view[i] == c[i] by {
                let off = front.len() as int;
                if i >= off {
                    assert(candidates@[i] == known@[i - off]);
                    assert(kv[i - off] == view[i]);
                }
            }
        }
    }
    candidates
}

/// The candidates that the search reaches, up to the first that fits, are
/// not below the threshold (which is subtracted from them)
pub open spec fn reached_sizes_valid(c: Seq<(Seq<char>, u64)>, package_size: u64) -> bool {
    forall|j: int| 0 <= j < c.len() && (first_fitting(c, package_size) matches Some(k) ==> j <= k)
        ==> #[trigger] c[j].1 >= VOICE_PACKAGE_THRESHOLD
}

/// Index of the first candidate that fits (see `first_fitting`)
fn fitting_index(candidates: &[(&str, u64)], package_size: u64) -> (r: Option<usize>)
    requires
        reached_sizes_valid(candidates@.map_values(|e: (&str, u64)| (e.0@, e.1)), package_size),
    ensures
        match r {
            Some(i) => i < candidates@.len()
                && first_fitting(candidates@.map_values(|e: (&str, u64)| (e.0@, e.1)), package_size) == Some(i as int),
            None => first_fitting(candidates@.map_values(|e: (&str, u64)| (e.0@, e.1)), package_size) is None,
        },
{
    let ghost c = candidates@.map_values(|e: (&str, u64)| (e.0@, e.1));
    proof {
        lemma_first_fitting(c, package_size);
    }
    let n = candidates.len();
    let mut i: usize = 0;
    while i < n
        invariant
            n == candidates@.len(),
            c == candidates@.map_values(|e: (&str, u64)| (e.0@, e.1)),
            reached_sizes_valid(c, package_size),
            i <= n,
            forall|k: int| 0 <= k < i ==> !size_fits(#[trigger] c[k], package_size),
            first_fitting(c, package_size) matches Some(k) ==> {
                &&& 0 <= k < c.len()
                &&& size_fits(c[k], package_size)
                &&& forall|x: int| 0 <= x < k ==> !size_fits(#[trigger] c[x], package_size)
            },
            first_fitting(c, package_size) is None ==> forall|x: int| 0 <= x < c.len() ==> !size_fits(#[trigger] c[x], package_size),
        decreases n - i,
    {
        let size = candidates[i].1;
        assert(c[i as int].1 == size);
        proof {
            if let Some(k) = first_fitting(c, package_size) {
                if k < i {
                    assert(!size_fits(c[k], package_size));
                }
            }
            assert(c[i as int].1 >= VOICE_PACKAGE_THRESHOLD);
        }
        if package_size > size - VOICE_PACKAGE_THRESHOLD {
            assert(size_fits(c[i as int], package_size));
            return Some(i);
        }
        i += 1;
    }
    None
}

/// The sizes from which a version can be predicted: the candidates that the
/// search reaches are not below the threshold, and the candidate that fits,
/// if any, names a version
pub open spec fn prediction_defined(
    package_size: u64,
    locale: VoiceLocale,
    tag: Seq<char>,
    api_size: Option<u64>,
    predicted_size: u64,
) -> bool {
    let c = candidate_sizes(locale, tag, api_size, predicted_size);
    &&& reached_sizes_valid(c, package_size)
    &&& first_fitting(c, package_size) matches Some(k) ==> parse_version(c[k].0) is Some
}

/// Predicts the installed voiceover version from the size of its folder
/// (`package_size`): the newest candidate size that, less the threshold, is
/// below it gives the version. `tag` is the latest game version,
/// `api_size` the game API's size of the locale's package for it when the
/// table does not list it, and `predicted_size` the size that
/// `predict_new_voice_pack_size` predicts for it
pub fn predict_version(
    package_size: u64,
    locale: VoiceLocale,
    tag: &str,
    api_size: Option<u64>,
    predicted_size: u64,
) -> (r: Option<Version>)
    requires
        prediction_defined(package_size, locale, tag@, api_size, predicted_size),
    ensures
        opt_parts(r) == spec_predict_version(package_size, locale, tag@, api_size, predicted_size),
{
    let candidates = candidates_of(locale, tag, api_size, predicted_size);
    match fitting_index(candidates.as_slice(), package_size) {
        Some(i) => Version::from_str(candidates[i].0),
        None => None,
    }
}

/// Whether a version can be predicted from these sizes; see
/// `prediction_defined`
pub fn prediction_ready(package_size: u64, locale: VoiceLocale, tag: &str, api_size: Option<u64>, predicted_size: u64) -> (r: bool)
    ensures
        r == prediction_defined(package_size, locale, tag@, api_size, predicted_size),
{
    let candidates = candidates_of(locale, tag, api_size, predicted_size);
    let ghost c = candidates@.map_values(|e: (&str, u64)| (e.0@, e.1));
    proof {
        lemma_first_fitting(c, package_size);
    }
    let n = candidates.len();
    let mut i: usize = 0;
    while i < n
        invariant
            n == candidates@.len(),
            c == candidates@.map_values(|e: (&str, u64)| (e.0@, e.1)),
            c == candidate_sizes(locale, tag@, api_size, predicted_size),
            i <= n,
            forall|k: int| 0 <= k < i ==> !size_fits(#[trigger] c[k], package_size),
            forall|k: int| 0 <= k < i ==> #[trigger] c[k].1 >= VOICE_PACKAGE_THRESHOLD,
            first_fitting(c, package_size) matches Some(k) ==> {
                &&& 0 <= k < c.len()
                &&& size_fits(c[k], package_size)
                &&& forall|x: int| 0 <= x < k ==> !size_fits(#[trigger] c[x], package_size)
            },
            first_fitting(c, package_size) is None ==> forall|x: int| 0 <= x < c.len() ==> !size_fits(#[trigger] c[x], package_size),
        decreases n - i,
    {
        let size = candidates[i].1;
        assert(c[i as int].1 == size);
        proof {
            if let Some(k) = first_fitting(c, package_size) {
                if k < i {
                    assert(!size_fits(c[k], package_size));
                }
            }
        }
        if size < VOICE_PACKAGE_THRESHOLD {
            assert(!reached_sizes_valid(c, package_size));
            return false;
        }
        if package_size > size - VOICE_PACKAGE_THRESHOLD {
            assert(size_fits(c[i as int], package_size));
            assert(first_fitting(c, package_size) == Some(i as int));
            return Version::from_str(candidates[i].0).is_some();
        }
        i += 1;
    }
    true
}

/// Why a voice package could not be deleted
#[derive(Debug, Clone, Copy, PartialEq, Eq, Structural)]
pub enum VoicePackageError {
    /// "Failed to find game directory"
    GameDirectoryNotFound,
}

#[derive(Debug, Clone, PartialEq, Eq, Hash)]
pub enum VoicePackage {
    Installed {
        path: String,
        locale: VoiceLocale,
        game_edition: GameEdition,
    },
    NotInstalled {
        locale: VoiceLocale,
        version: Version,
        data: DownloadInfo,
        game_path: Option<String>,
        game_edition: GameEdition,
    },
}

/// Index of the first download entry whose matching field is `code`, or -1
pub open spec fn first_matching(list: Seq<DownloadInfo>, code: Seq<char>) -> int {
    first_index(list, download_for(code))
}

/// Find voice package with specified locale from list of packages
fn find_voice_pack(list: Vec<DownloadInfo>, locale: VoiceLocale) -> (r: DownloadInfo)
    requires
        first_matching(list@, locale.spec_code()) >= 0,
    ensures
        r == list@[first_matching(list@, locale.spec_code())],
{
    let mut pkgs = list;
    let ghost orig = pkgs@;
    let code = locale.to_code();
    let n = pkgs.len();
    let mut i: usize = 0;
    while i < n
        invariant
            pkgs@ == orig,
            orig == list@,
            n == orig.len(),
            i <= n,
            code@ == locale.spec_code(),
            first_matching(orig, locale.spec_code()) >= i,
            forall|j: int| 0 <= j < i ==> #[trigger] orig[j].matching_field@ != code@,
        decreases n - i,
    {
        let ghost first = first_matching(orig, locale.spec_code());
        proof {
            lemma_first_index(orig, download_for(locale.spec_code()));
        }
        if str_eq(pkgs[i].matching_field.as_str(), code) {
            assert(orig[i as int].matching_field@ == code@);
            assert(first == i);
            return pkgs.remove(i);
        }
        assert(orig[first].matching_field@ == code@);
        i += 1;
    }
    proof {
        lemma_first_index(orig, download_for(locale.spec_code()));
        assert(false);
    }
    pkgs.remove(0)
}

/// Find voice package with specified locale from list of patches
fn find_voice_pack_diff(list: Vec<DiffInfo>, locale: VoiceLocale) -> (r: DiffInfo)
    requires
        first_index(list@, diff_for(locale.spec_code())) >= 0,
    ensures
        r == list@[first_index(list@, diff_for(locale.spec_code()))],
{
    let mut list = list;
    match find_diff(list.as_slice(), locale.to_code()) {
        Some(k) => list.remove(k),
        None => {
            proof {
                assert(false);
            }
            list.remove(0)
        },
    }
}

/// The package that `list_latest` makes of a download entry whose matching field is
/// a voice locale
pub open spec fn latest_package(p: VoicePackage, info: DownloadInfo, version: VersionParts, game_edition: GameEdition) -> bool {
    &&& p matches VoicePackage::NotInstalled { locale, version: v, data, game_path, game_edition: e }
    &&& Some(locale) == parse_voice_locale(info.matching_field@)
    &&& v@ == version
    &&& data == info
    &&& game_path is None
    &&& e == game_edition
}

/// The downloads whose matching field is a voice locale, in order
pub open spec fn voice_downloads(list: Seq<DownloadInfo>) -> Seq<DownloadInfo> {
    list.filter(|d: DownloadInfo| parse_voice_locale(d.matching_field@) is Some)
}

impl VoicePackage {
    pub open spec fn spec_locale(&self) -> VoiceLocale {
        match self {
            VoicePackage::Installed { locale, .. } => *locale,
            VoicePackage::NotInstalled { locale, .. } => *locale,
        }
    }

    pub open spec fn spec_game_edition(&self) -> GameEdition {
        match self {
            VoicePackage::Installed { game_edition, .. } => *game_edition,
            VoicePackage::NotInstalled { game_edition, .. } => *game_edition,
        }
    }

    /// The folder of this package in a game installed at `game_path`
    pub open spec fn spec_folder_in(&self, game_path: Seq<char>) -> Seq<char> {
        path_join(spec_voice_packages_path(game_path, self.spec_game_edition()), self.spec_locale().spec_folder())
    }

    /// The `Audio_<folder>_pkg_version` file of this package in a game
    /// installed at `game_path`
    pub open spec fn spec_pkg_version_in(&self, game_path: Seq<char>) -> Seq<char> {
        path_join(game_path, "Audio_"@ + self.spec_locale().spec_folder() + "_pkg_version"@)
    }

    /// The game folder that `delete` works in
    pub open spec fn spec_game_folder(&self) -> Option<Seq<char>> {
        match self {
            VoicePackage::Installed { path, .. } => path_ancestor(path@, 4),
            VoicePackage::NotInstalled { game_path, .. } => match game_path {
                Some(g) => Some(g@),
                None => None,
            },
        }
    }

    /// Voice packages can't be installed wherever you want: `path` must be a
    /// directory (`is_dir`) named after a voice locale, else `None`
    pub fn new(path: &str, is_dir: bool, game_edition: GameEdition) -> (r: Option<Self>)
        ensures
            match r {
                Some(p) => {
                    &&& is_dir
                    &&& p matches VoicePackage::Installed { path: q, locale, game_edition: e }
                    &&& q@ == path@
                    &&& e == game_edition
                    &&& path_file_name(path@) matches Some(name)
                    &&& parse_voice_locale(name) == Some(locale)
                },
                None => !is_dir || path_file_name(path@) is None || parse_voice_locale(path_file_name(path@)->0) is None,
            },
    {
        if !is_dir {
            return None;
        }
        match file_name(path) {
            Some(name) => match VoiceLocale::from_str(name.as_str()) {
                Some(locale) => Some(Self::Installed { path: path.to_owned(), locale, game_edition }),
                None => None,
            },
            None => None,
        }
    }

    /// Get latest voice package with specified locale: `latest_version` is
    /// the latest game version and `downloads` are its download entries
    ///
    /// Note that returned object will be `VoicePackage::NotInstalled`, but
    /// technically it can be installed. This method just don't know the game's
    /// path
    pub fn with_locale(
        locale: VoiceLocale,
        game_edition: GameEdition,
        latest_version: Version,
        downloads: Vec<DownloadInfo>,
    ) -> (r: Self)
        requires
            first_matching(downloads@, locale.spec_code()) >= 0,
        ensures
            r matches VoicePackage::NotInstalled { locale: l, version, data, game_path, game_edition: e }
                && l == locale
                && version == latest_version
                && data == downloads@[first_matching(downloads@, locale.spec_code())]
                && game_path is None
                && e == game_edition,
    {
        let data = find_voice_pack(downloads, locale);
        Self::NotInstalled { locale, version: latest_version, data, game_path: None, game_edition }
    }

    #[inline]
    pub fn game_edition(&self) -> (r: GameEdition)
        ensures
            r == self.spec_game_edition(),
    {
        match self {
            Self::Installed { game_edition, .. } | Self::NotInstalled { game_edition, .. } => *game_edition,
        }
    }

    /// Get installation status of this package
    ///
    /// This method will return `false` if this package is
    /// `VoicePackage::NotInstalled` enum value
    ///
    /// If you want to check it's actually installed - you'd need to use
    /// `is_installed_in`
    #[inline]
    pub fn is_installed(&self) -> (r: bool)
        ensures
            r == self is Installed,
    {
        match self {
            Self::Installed { .. } => true,
            Self::NotInstalled { .. } => false,
        }
    }

    /// Calculate voice package size in bytes: (unpacked size, archive size).
    /// An installed package's unpacked size is the size of its folder
    /// (`folder_size`, read from the disk); for one that is not installed
    /// both sizes are those that the game API lists
    pub fn size(&self, folder_size: u64) -> (r: (u64, Option<u64>))
        requires
            self matches VoicePackage::NotInstalled { data, .. } ==> size_value(data.compressed_size@) is Some
                && size_value(data.uncompressed_size@) is Some,
        ensures
            match self {
                VoicePackage::Installed { .. } => r == (folder_size, None::<u64>),
                VoicePackage::NotInstalled { data, .. } => r == (size_value(data.uncompressed_size@)->0, Some(size_value(data.compressed_size@)->0)),
            },
    {
        match self {
            Self::Installed { .. } => (folder_size, None),
            Self::NotInstalled { data, .. } => (
                parse_u64(data.uncompressed_size.as_str()).unwrap(),
                Some(parse_u64(data.compressed_size.as_str()).unwrap()),
            ),
        }
    }

    /// The folder of this voice package in a game installed at `game_path`
    pub fn folder_in(&self, game_path: &str) -> (r: String)
        ensures
            r@ == self.spec_folder_in(game_path@),
    {
        get_voice_package_path(game_path, self.game_edition(), self.locale())
    }

    /// `true` if the package is `VoicePackage::Installed`; otherwise whether
    /// its folder in the game (`folder_in`) exists, which `folder_exists` says
    #[inline]
    pub fn is_installed_in(&self, folder_exists: bool) -> (r: bool)
        ensures
            r == (self is Installed || folder_exists),
    {
        match self {
            Self::Installed { .. } => true,
            Self::NotInstalled { .. } => folder_exists,
        }
    }

    /// Get list of latest voice packages: one for each download entry of
    /// the latest game version whose matching field is a voice locale
    pub fn list_latest(game_edition: GameEdition, latest_version: Version, downloads: Vec<DownloadInfo>) -> (r: Vec<VoicePackage>)
        ensures
            r@.len() == voice_downloads(downloads@).len(),
            forall|i: int| 0 <= i < r@.len() ==> latest_package(
                #[trigger] r@[i],
                voice_downloads(downloads@)[i],
                latest_version@,
                game_edition,
            ),
    {
        let ghost all = downloads@;
        let mut rest = downloads;
        let mut packages: Vec<VoicePackage> = Vec::new();
        let n = rest.len();
        let mut i: usize = 0;
        while i < n
            invariant
                n == all.len(),
                i <= n,
                rest@ == all.skip(i as int),
                all == downloads@,
                packages@.len() == voice_downloads(all.take(i as int)).len(),
                forall|j: int| 0 <= j < packages@.len() ==> latest_package(
                    #[trigger] packages@[j],
                    voice_downloads(all.take(i as int))[j],
                    latest_version@,
                    game_edition,
                ),
            decreases n - i,
        {
            let package = rest.remove(0);
            assert(package == all[i as int]);
            proof {
                assert(all.take(i + 1) =~= all.take(i as int).push(package));
                all.take(i as int).lemma_filter_push(package, |d: DownloadInfo| parse_voice_locale(d.matching_field@) is Some);
            }
            match VoiceLocale::from_str(package.matching_field.as_str()) {
                Some(locale) => {
                    packages.push(Self::NotInstalled { locale, version: latest_version, data: package, game_path: None, game_edition });
                },
                None => {},
            }
            assert(rest@ =~= all.skip(i + 1));
            i += 1;
        }
        assert(all.take(n as int) =~= all);
        packages
    }

    /// Get voice package locale
    #[inline]
    pub fn locale(&self) -> (r: VoiceLocale)
        ensures
            r == self.spec_locale(),
    {
        match self {
            Self::Installed { locale, .. } | Self::NotInstalled { locale, .. } => *locale,
        }
    }

    /// Version of this package: the one it was made with when it is not
    /// installed, else the first three bytes of its `.version` file. `None`
    /// for an installed package without that file: its version is then
    /// predicted from its size with `predict_version`
    pub fn try_get_version(&self, version_file: Option<&[u8]>) -> (r: Option<Version>)
        requires
            self is Installed ==> (version_file matches Some(b) ==> b@.len() >= 3),
        ensures
            match self {
                VoicePackage::NotInstalled { version, .. } => r == Some(*version),
                VoicePackage::Installed { .. } => match version_file {
                    Some(b) => r matches Some(v) && v@ == (b@[0], b@[1], b@[2]),
                    None => r is None,
                },
            },
    {
        match self {
            Self::NotInstalled { version, .. } => Some(*version),
            Self::Installed { .. } => match version_file {
                Some(curr) => Some(Version::new(curr[0], curr[1], curr[2])),
                None => None,
            },
        }
    }

    /// Version of this package: the one it was made with when it is not
    /// installed; else the first three bytes of its `.version` file, or,
    /// without that file, the version predicted from the size of its folder
    /// (`package_size`; see `predict_version`, whose other arguments these
    /// are). `None` when no candidate size fits
    pub fn installed_version(
        &self,
        version_file: Option<&[u8]>,
        package_size: u64,
        tag: &str,
        api_size: Option<u64>,
        predicted_size: u64,
    ) -> (r: Option<Version>)
        requires
            self is Installed ==> match version_file {
                Some(b) => b@.len() >= 3,
                None => prediction_defined(package_size, self.spec_locale(), tag@, api_size, predicted_size),
            },
        ensures
            match self {
                VoicePackage::NotInstalled { version, .. } => r == Some(*version),
                VoicePackage::Installed { .. } => match version_file {
                    Some(b) => r matches Some(v) && v@ == (b@[0], b@[1], b@[2]),
                    None => opt_parts(r) == spec_predict_version(package_size, self.spec_locale(), tag@, api_size, predicted_size),
                },
            },
    {
        match self.try_get_version(version_file) {
            Some(v) => Some(v),
            None => predict_version(package_size, self.locale(), tag, api_size, predicted_size),
        }
    }

    /// What to remove to delete this package: its folder and its
    /// `Audio_<folder>_pkg_version` file, in the game it belongs to (four
    /// levels above an installed package's own folder)
    pub fn delete(&self) -> (r: Result<(String, String), VoicePackageError>)
        ensures
            match self.spec_game_folder() {
                Some(g) => r matches Ok((folder, file)) && folder@ == self.spec_folder_in(g) && file@ == self.spec_pkg_version_in(g),
                None => r is Err,
            },
    {
        match self {
            VoicePackage::Installed { path, .. } => match ancestor(path.as_str(), 4) {
                Some(game_path) => Ok(self.delete_in(game_path.as_str())),
                None => Err(VoicePackageError::GameDirectoryNotFound),
            },
            VoicePackage::NotInstalled { game_path, .. } => match game_path {
                Some(game_path) => Ok(self.delete_in(game_path.as_str())),
                None => Err(VoicePackageError::GameDirectoryNotFound),
            },
        }
    }

    /// What to remove to delete this package from the game at `game_path`:
    /// its folder and its `Audio_<folder>_pkg_version` file
    pub fn delete_in(&self, game_path: &str) -> (r: (String, String))
        ensures
            r.0@ == self.spec_folder_in(game_path@),
            r.1@ == self.spec_pkg_version_in(game_path@),
    {
        let folder = self.folder_in(game_path);
        let mut name = String::new();
        crate::strings::push_str(&mut name, "Audio_");
        crate::strings::push_str(&mut name, self.locale().to_folder());
        crate::strings::push_str(&mut name, "_pkg_version");
        let file = join(game_path, name.as_str());
        assert(name@ =~= "Audio_"@ + self.spec_locale().spec_folder() + "_pkg_version"@);
        (folder, file)
    }

    /// The folder that a difference of this package is installed to: the
    /// game folder of a package that is not installed, when it is known
    pub open spec fn spec_diff_installation_path(&self) -> Option<Seq<char>> {
        match self {
            VoicePackage::Installed { .. } => None,
            VoicePackage::NotInstalled { game_path, .. } => opt_str(*game_path),
        }
    }

    /// The `.version` file of a difference of this package: in its folder
    pub open spec fn spec_diff_version_file(&self) -> Option<Seq<char>> {
        match self {
            VoicePackage::Installed { path, .. } => Some(path_join(path@, ".version"@)),
            VoicePackage::NotInstalled { game_path, .. } => match game_path {
                Some(g) => Some(path_join(self.spec_folder_in(g@), ".version"@)),
                None => None,
            },
        }
    }

    fn diff_paths(&self) -> (r: (Option<String>, Option<String>))
        ensures
            opt_str(r.0) == self.spec_diff_installation_path(),
            opt_str(r.1) == self.spec_diff_version_file(),
    {
        match self {
            Self::Installed { path, .. } => (None, Some(join(path.as_str(), ".version"))),
            Self::NotInstalled { game_path, .. } => match game_path {
                Some(g) => {
                    let folder = self.folder_in(g.as_str());
                    (Some(g.clone()), Some(join(folder.as_str(), ".version")))
                },
                None => (None, None),
            },
        }
    }

    /// First step of the search for the difference between this package and
    /// `latest`, the latest version of the game's branches `branch`, whose
    /// main branch downloads `downloads`; `current` is the version of an
    /// installed package. A package that is not installed is downloaded in
    /// full; an installed one of the latest version needs the predownload's
    /// patches when they update its version and is `Latest` when not; an
    /// installed one of another version needs the main branch's patches
    /// when they update its version and is `Outdated` when not.
    pub open spec fn spec_diff_step(
        &self,
        latest: VersionParts,
        branch: GameBranch,
        downloads: Seq<DownloadInfo>,
        current: Option<VersionParts>,
    ) -> Result<StepModel<GameEdition>, BranchDiffError> {
        let edition = self.spec_game_edition();
        if self is NotInstalled {
            let d = downloads[first_matching(downloads, self.spec_locale().spec_code())];
            match download_model(latest, edition, d, self.spec_diff_installation_path(), self.spec_diff_version_file()) {
                Ok(m) => Ok(StepModel::Done(m)),
                Err(e) => Err(e),
            }
        } else {
            let c = current->0;
            if c == latest {
                if predownload_offered(branch, c) {
                    Ok(StepModel::Fetch(DiffRequest::PredownloadDiffs))
                } else {
                    Ok(StepModel::Done(DiffModel::Latest { version: c, edition: edition }))
                }
            } else if tags_contain(branch.main.diff_tags@, c) {
                Ok(StepModel::Fetch(DiffRequest::MainDiffs))
            } else {
                Ok(StepModel::Done(DiffModel::Outdated { current: c, latest: latest, edition: edition }))
            }
        }
    }

    /// First step of the search for the difference between this package and
    /// `latest`; see `spec_diff_step`
    pub fn diff_step(
        &self,
        latest: Version,
        branch: &GameBranch,
        downloads: Vec<DownloadInfo>,
        current: Option<Version>,
    ) -> (r: Result<DiffStep<GameEdition>, BranchDiffError>)
        requires
            self is NotInstalled ==> first_matching(downloads@, self.spec_locale().spec_code()) >= 0,
            self is Installed ==> current is Some,
        ensures
            step_result(r) == self.spec_diff_step(latest@, *branch, downloads@, opt_parts(current)),
    {
        let edition = self.game_edition();
        match self {
            Self::NotInstalled { .. } => {
                let d = find_voice_pack(downloads, self.locale());
                let (installation_path, version_file_path) = self.diff_paths();
                match download_diff(latest, edition, d, installation_path, version_file_path) {
                    Ok(diff) => Ok(DiffStep::Done(diff)),
                    Err(e) => Err(e),
                }
            },
            Self::Installed { .. } => {
                let c = current.unwrap();
                if c.same(&latest) {
                    if offers_predownload(branch, &c) {
                        Ok(DiffStep::Fetch(DiffRequest::PredownloadDiffs))
                    } else {
                        Ok(DiffStep::Done(VersionDiff::Latest { version: c, edition }))
                    }
                } else if tags_name(branch.main.diff_tags.as_slice(), &c) {
                    Ok(DiffStep::Fetch(DiffRequest::MainDiffs))
                } else {
                    Ok(DiffStep::Done(VersionDiff::Outdated { current: c, latest, edition }))
                }
            },
        }
    }

    /// The predownload difference of this package, of version `current`,
    /// from the diff manifests of the predownload branch of `branch`: the
    /// one for its locale (see `predownload_model`)
    pub fn predownload_diff(&self, current: Version, branch: &GameBranch, diffs: Vec<DiffInfo>) -> (r: Result<VersionDiff, BranchDiffError>)
        requires
            branch.pre_download is Some,
            first_index(diffs@, diff_for(self.spec_locale().spec_code())) >= 0,
        ensures
            diff_result(r) == predownload_model(
                current@,
                self.spec_game_edition(),
                branch.pre_download->0,
                diffs@[first_index(diffs@, diff_for(self.spec_locale().spec_code()))],
                self.spec_diff_installation_path(),
                self.spec_diff_version_file(),
            ),
    {
        let d = find_voice_pack_diff(diffs, self.locale());
        let (installation_path, version_file_path) = self.diff_paths();
        match &branch.pre_download {
            Some(pre) => predownload_diff(current, self.game_edition(), pre, d, installation_path, version_file_path),
            None => {
                proof {
                    assert(false);
                }
                Err(BranchDiffError::NoPredownloadVersion)
            },
        }
    }

    /// The difference of this package, of version `current`, to `latest`,
    /// from the diff manifests of the main branch: the one for its locale
    /// (see `update_model`)
    pub fn update_diff(&self, current: Version, latest: Version, diffs: Vec<DiffInfo>) -> (r: Result<VersionDiff, BranchDiffError>)
        requires
            first_index(diffs@, diff_for(self.spec_locale().spec_code())) >= 0,
        ensures
            diff_result(r) == update_model(
                current@,
                latest@,
                self.spec_game_edition(),
                diffs@[first_index(diffs@, diff_for(self.spec_locale().spec_code()))],
                self.spec_diff_installation_path(),
                self.spec_diff_version_file(),
            ),
    {
        let d = find_voice_pack_diff(diffs, self.locale());
        let (installation_path, version_file_path) = self.diff_paths();
        update_diff(current, latest, self.game_edition(), d, installation_path, version_file_path)
    }
}

/// A voice package's folder in a game, read back with `new`, names the
/// package's locale: its file name is the locale's folder name, which
/// `VoiceLocale::from_str` reads as that locale
pub proof fn lemma_folder_reads_back(p: VoicePackage, game_path: Seq<char>)
    ensures
        path_file_name(p.spec_folder_in(game_path)) == Some(p.spec_locale().spec_folder()),
        parse_voice_locale(p.spec_locale().spec_folder()) == Some(p.spec_locale()),
{
    crate::games::genshin::voice_data::locale::lemma_folder_is_plain(p.spec_locale());
    crate::games::genshin::voice_data::locale::lemma_voice_locale_roundtrip(p.spec_locale());
    crate::paths::lemma_file_name_of_join(spec_voice_packages_path(game_path, p.spec_game_edition()), p.spec_locale().spec_folder());
}

/// The components of a game's voice packages folder: the game's, then the
/// data folder and the voice packages' folders
proof fn lemma_packages_components(g: Seq<char>, e: GameEdition)
    ensures
        components(spec_voice_packages_path(g, e)) == components(g) + seq![e.spec_data_folder(), "StreamingAssets"@, "AudioAssets"@],
        is_absolute(spec_voice_packages_path(g, e)) == is_absolute(g),
{
    reveal_strlit("GenshinImpact_Data");
    reveal_strlit("YuanShen_Data");
    reveal_strlit("StreamingAssets");
    reveal_strlit("AudioAssets");
    reveal_strlit("StreamingAssets/AudioAssets");
    reveal_with_fuel(no_separator, 20);
    let d = e.spec_data_folder();
    crate::paths::lemma_plain_name(d);
    let p0 = "StreamingAssets"@;
    crate::paths::lemma_plain_name(p0);
    let p1 = "AudioAssets"@;
    crate::paths::lemma_plain_name(p1);
    crate::paths::lemma_components_name(p0);
    let j1 = path_join(p0, p1);
    assert(j1 =~= p0 + seq!['/'] + p1);
    crate::paths::lemma_components_join(p0, p1);
    let rel = "StreamingAssets/AudioAssets"@;
    assert(rel =~= j1);
    crate::paths::lemma_components_name(d);
    crate::paths::lemma_components_join_rel(g, d);
    crate::paths::lemma_components_join_rel(path_join(g, d), rel);
    crate::paths::lemma_join_absolute(g, d);
    crate::paths::lemma_join_absolute(path_join(g, d), rel);
    assert(components(g) + seq![d] + seq![p0].push(p1) =~= components(g) + seq![d, p0, p1]);
}

/// The components of a locale's voice package folder in a game, and whether
/// it starts at the root
proof fn lemma_locale_folder_components(g: Seq<char>, e: GameEdition, l: VoiceLocale)
    ensures
        components(path_join(spec_voice_packages_path(g, e), l.spec_folder())) == components(spec_voice_packages_path(g, e)).push(l.spec_folder()),
        is_absolute(path_join(spec_voice_packages_path(g, e), l.spec_folder())) == is_absolute(g),
{
    crate::games::genshin::voice_data::locale::lemma_folder_is_plain(l);
    lemma_packages_components(g, e);
    crate::paths::lemma_components_join(spec_voice_packages_path(g, e), l.spec_folder());
    crate::paths::lemma_join_absolute(spec_voice_packages_path(g, e), l.spec_folder());
}

/// The components of a voice package's folder in a game, and whether it
/// starts at the root
proof fn lemma_folder_components(p: VoicePackage, g: Seq<char>)
    ensures
        components(p.spec_folder_in(g)) == components(spec_voice_packages_path(g, p.spec_game_edition())).push(p.spec_locale().spec_folder()),
        is_absolute(p.spec_folder_in(g)) == is_absolute(g),
{
    lemma_locale_folder_components(g, p.spec_game_edition(), p.spec_locale());
}

/// The game folder lies exactly four levels above the folder of a voice
/// package (`get_voice_package_path`), whose file name is the locale's
/// folder: its fourth ancestor names the same place as the game folder
pub proof fn lemma_package_path_root(g: Seq<char>, e: GameEdition, l: VoiceLocale)
    ensures
        path_file_name(path_join(spec_voice_packages_path(g, e), l.spec_folder())) == Some(l.spec_folder()),
        path_ancestor(path_join(spec_voice_packages_path(g, e), l.spec_folder()), 4) matches Some(a) && same_location(a, g),
{
    let own = path_join(spec_voice_packages_path(g, e), l.spec_folder());
    crate::games::genshin::voice_data::locale::lemma_folder_is_plain(l);
    crate::paths::lemma_file_name_of_join(spec_voice_packages_path(g, e), l.spec_folder());
    lemma_locale_folder_components(g, e, l);
    lemma_packages_components(g, e);
    let c = components(own);
    assert(c.len() == components(g).len() + 4);
    crate::paths::lemma_ancestor(own, 4);
    assert(c.take(c.len() - 4) =~= components(g));
    let gf = crate::paths::rebuilt(is_absolute(g), components(g));
    assert(path_ancestor(own, 4) == Some(gf));
    crate::paths::lemma_rebuilt_same_location(g);
    if !(components(g).len() > 0 || is_absolute(g)) {
        assert(gf =~= Seq::<char>::empty());
    }
}

/// The name of a locale's `Audio_<folder>_pkg_version` file is a plain name
proof fn lemma_pkg_version_name_plain(l: VoiceLocale)
    ensures
        crate::paths::is_plain_name("Audio_"@ + l.spec_folder() + "_pkg_version"@),
{
    reveal_strlit("Audio_");
    reveal_strlit("_pkg_version");
    crate::games::genshin::voice_data::locale::lemma_folder_is_plain(l);
    let f = l.spec_folder();
    let n = "Audio_"@ + f + "_pkg_version"@;
    assert forall|i: int| 0 <= i < n.len() implies n[i] != '/' by {
        if 6 <= i < 6 + f.len() {
            assert(n[i] == f[i - 6]);
        }
    }
    assert(n[0] == 'A');
    assert(n.len() > 2);
}

/// Deleting a voice package that is installed in a game's voice packages
/// folder removes what `delete_in` removes for that game: `delete` finds a
/// game folder that names the same place, the package's folder in it is
/// the same place as the package's own path, and its
/// `Audio_<folder>_pkg_version` file is the same place as the game's
pub proof fn lemma_delete_removes_own_folder(p: VoicePackage, g: Seq<char>)
    requires
        p matches VoicePackage::Installed { path, .. } && path@ == p.spec_folder_in(g),
    ensures
        p.spec_game_folder() matches Some(gf) && {
            &&& same_location(gf, g)
            &&& same_location(p.spec_folder_in(gf), p.spec_folder_in(g))
            &&& same_location(p.spec_pkg_version_in(gf), p.spec_pkg_version_in(g))
        },
{
    let own = p.spec_folder_in(g);
    lemma_package_path_root(g, p.spec_game_edition(), p.spec_locale());
    lemma_folder_components(p, g);
    lemma_packages_components(g, p.spec_game_edition());
    let c = components(own);
    crate::paths::lemma_ancestor(own, 4);
    assert(c.take(c.len() - 4) =~= components(g));
    let gf = crate::paths::rebuilt(is_absolute(g), components(g));
    assert(p.spec_game_folder() == Some(gf));
    crate::paths::lemma_rebuilt_same_location(g);
    lemma_folder_components(p, gf);
    lemma_packages_components(gf, p.spec_game_edition());
    if !(components(g).len() > 0 || is_absolute(g)) {
        assert(gf =~= Seq::<char>::empty());
    }
    assert(components(p.spec_folder_in(gf)) =~= c);
    let n = "Audio_"@ + p.spec_locale().spec_folder() + "_pkg_version"@;
    lemma_pkg_version_name_plain(p.spec_locale());
    crate::paths::lemma_components_join(gf, n);
    crate::paths::lemma_components_join(g, n);
    crate::paths::lemma_join_absolute(gf, n);
    crate::paths::lemma_join_absolute(g, n);
}

} // verus!
