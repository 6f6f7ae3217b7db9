use vstd::prelude::*;
use crate::version::{Version, VersionParts, parse_version, version_text, opt_parts};
use crate::paths::{ancestor, path_ancestor, path_file_name, file_name, path_join, join, components, is_absolute, same_location, no_separator};
use crate::strings::{str_eq, parse_u64, push_str};
use crate::installer::diff::{VersionDiff, ArchiveDiff, archive_read};
use crate::games::package_diff::{opt_str, found_parts};
use crate::genshin::consts::{GameEdition, get_voice_package_path, spec_voice_packages_path, spec_data_folder_name};
use crate::genshin::json_schemas::versions::{Response, VoicePack, Diff};
use crate::genshin::game::{first_diff, find_diff, size_value, size_known, size_readable, lemma_first_diff};
use super::locale::{VoiceLocale, parse_voice_locale};

verus! {

/// Acceptable error to select a version for the voiceover folder
pub const VOICE_PACKAGE_THRESHOLD: u64 = 512 * 1024 * 1024;

/// One row of the known voiceover sizes: the version, then the English,
/// Japanese, Korean and Chinese package sizes
pub type SizesRow = (Seq<char>, u64, u64, u64, u64);

/// Known voiceover sizes, newest version first (Korean and Chinese sizes
/// are predicted and can be incorrect)
pub open spec fn sizes_table() -> Seq<SizesRow> {
    seq![
        ("3.1.0"@, 10160526140u64, 11223463952u64, 10160526140u64, 10160526140u64),
        ("3.0.0"@, 9359645164u64, 10314955860u64, 9359645164u64, 9359645164u64),
    ]
}

/// The size that a row gives for a locale
pub open spec fn row_size(row: SizesRow, locale: VoiceLocale) -> u64 {
    match locale {
        VoiceLocale::English => row.1,
        VoiceLocale::Japanese => row.2,
        VoiceLocale::Korean => row.3,
        VoiceLocale::Chinese => row.4,
    }
}

/// The known sizes of one locale, newest version first
pub open spec fn locale_sizes(locale: VoiceLocale) -> Seq<(Seq<char>, u64)> {
    sizes_table().map_values(|row: SizesRow| (row.0, row_size(row, locale)))
}

/// List of voiceover sizes
///
/// Format: `(version, english, japanese, korean, chinese)`
pub fn voice_packages_sizes() -> (r: &'static [(&'static str, u64, u64, u64, u64)])
    ensures
        r@.len() == sizes_table().len(),
        forall|i: int| 0 <= i < r@.len() ==> {
            let (v, a, b, c, d) = #[trigger] r@[i];
            (v@, a, b, c, d) == sizes_table()[i]
        },
{
    &[
        ("3.1.0", 10160526140, 11223463952, 10160526140, 10160526140),
        ("3.0.0", 9359645164, 10314955860, 9359645164, 9359645164),
    ]
}

/// Get specific voice package sizes from `voice_packages_sizes`
pub fn get_voice_pack_sizes(locale: VoiceLocale) -> (r: Vec<(String, u64)>)
    ensures
        r@.map_values(|e: (String, u64)| (e.0@, e.1)) == locale_sizes(locale),
{
    let table = voice_packages_sizes();
    let mut r: Vec<(String, u64)> = Vec::new();
    let n = table.len();
    let mut i: usize = 0;
    while i < n
        invariant
            n == table@.len(),
            n == sizes_table().len(),
            forall|j: int| 0 <= j < n ==> {
                let (v, a, b, c, d) = #[trigger] table@[j];
                (v@, a, b, c, d) == sizes_table()[j]
            },
            i <= n,
            r@.len() == i,
            forall|j: int| 0 <= j < i ==> {
                let (v, s) = #[trigger] r@[j];
                v@ == sizes_table()[j].0 && s == row_size(sizes_table()[j], locale)
            },
        decreases n - i,
    {
        let row = table[i];
        let size = match locale {
            VoiceLocale::English => row.1,
            VoiceLocale::Japanese => row.2,
            VoiceLocale::Korean => row.3,
            VoiceLocale::Chinese => row.4,
        };
        r.push((row.0.to_owned(), size));
        proof {
            let (v, a, b, c, d) = table@[i as int];
            assert((v@, a, b, c, d) == sizes_table()[i as int]);
        }
        i += 1;
    }
    assert(r@.map_values(|e: (String, u64)| (e.0@, e.1)) =~= locale_sizes(locale));
    r
}

/// The sizes that a voiceover's version is predicted from, newest first:
/// the known ones, behind the predicted size of the latest version `latest`
/// when the table does not start with it
pub open spec fn candidate_sizes(locale: VoiceLocale, latest: Seq<char>, predicted_size: u64) -> Seq<(Seq<char>, u64)> {
    if sizes_table()[0].0 != latest {
        seq![(latest, predicted_size)] + locale_sizes(locale)
    } else {
        locale_sizes(locale)
    }
}

/// A version whose size, less the threshold, is below the folder's size
pub open spec fn size_fits(entry: (Seq<char>, u64), package_size: u64) -> bool {
    package_size > entry.1 - VOICE_PACKAGE_THRESHOLD
}

/// Index of the first candidate that fits, or -1
pub open spec fn first_fitting(c: Seq<(Seq<char>, u64)>, package_size: u64) -> int
    decreases c.len(),
{
    if c.len() == 0 {
        -1
    } else if size_fits(c[0], package_size) {
        0
    } else {
        let k = first_fitting(c.drop_first(), package_size);
        if k < 0 { -1 } else { k + 1 }
    }
}

proof fn lemma_first_fitting(c: Seq<(Seq<char>, u64)>, package_size: u64)
    ensures
        first_fitting(c, package_size) < c.len(),
        first_fitting(c, package_size) >= 0 ==> size_fits(c[first_fitting(c, package_size)], package_size),
        forall|j: int| 0 <= j < c.len() && (first_fitting(c, package_size) < 0 || j < first_fitting(c, package_size))
            ==> !size_fits(#[trigger] c[j], package_size),
    decreases c.len(),
{
    if c.len() > 0 {
        lemma_first_fitting(c.drop_first(), package_size);
        assert forall|j: int| 1 <= j < c.len() implies #[trigger] c[j] == c.drop_first()[j - 1] by {}
    }
}

/// Version of an installed voiceover predicted from the size of its folder
pub open spec fn spec_predicted_version(package_size: u64, locale: VoiceLocale, latest: Seq<char>, predicted_size: u64) -> VersionParts {
    let c = candidate_sizes(locale, latest, predicted_size);
    parse_version(c[first_fitting(c, package_size)].0)->0
}

/// Whether a version can be predicted: a candidate fits and names a version
pub open spec fn prediction_defined(package_size: u64, locale: VoiceLocale, latest: Seq<char>, predicted_size: u64) -> bool {
    let c = candidate_sizes(locale, latest, predicted_size);
    &&& first_fitting(c, package_size) >= 0
    &&& forall|j: int| 0 <= j <= first_fitting(c, package_size) ==> #[trigger] c[j].1 >= VOICE_PACKAGE_THRESHOLD
    &&& parse_version(c[first_fitting(c, package_size)].0) is Some
}

/// The predicted version of an installed voiceover is that of the newest
/// candidate whose listed size, less 512 MiB, is below the folder's size:
/// every newer candidate is at least 512 MiB larger than the folder. In
/// particular a folder less than 512 MiB smaller than the newest
/// candidate's size is predicted as that candidate's version
pub proof fn lemma_prediction_within_threshold(package_size: u64, locale: VoiceLocale, latest: Seq<char>, predicted_size: u64)
    requires
        prediction_defined(package_size, locale, latest, predicted_size),
    ensures
        exists|k: int|
            0 <= k < candidate_sizes(locale, latest, predicted_size).len()
            && package_size + 536870912 > (#[trigger] candidate_sizes(locale, latest, predicted_size)[k]).1
            && (forall|j: int| 0 <= j < k ==> package_size + 536870912 <= (#[trigger] candidate_sizes(locale, latest, predicted_size)[j]).1)
            && parse_version(candidate_sizes(locale, latest, predicted_size)[k].0)
                == Some(spec_predicted_version(package_size, locale, latest, predicted_size)),
        ({
            let c = candidate_sizes(locale, latest, predicted_size);
            c.len() > 0 && package_size + 536870912 > c[0].1
                ==> parse_version(c[0].0) == Some(spec_predicted_version(package_size, locale, latest, predicted_size))
        }),
{
    let c = candidate_sizes(locale, latest, predicted_size);
    lemma_first_fitting(c, package_size);
    let k = first_fitting(c, package_size);
    assert(VOICE_PACKAGE_THRESHOLD == 536870912);
    assert(package_size + 536870912 > c[k].1);
    assert forall|j: int| 0 <= j < k implies package_size + 536870912 <= (#[trigger] c[j]).1 by {
        assert(!size_fits(c[j], package_size));
    }
    if c.len() > 0 && package_size + 536870912 > c[0].1 && k > 0 {
        assert(package_size + 536870912 <= c[0].1);
    }
}

/// The candidate sizes of a locale (see `candidate_sizes`)
fn candidates_of(locale: VoiceLocale, latest: &str, predicted_size: u64) -> (r: Vec<(String, u64)>)
    ensures
        r@.map_values(|e: (String, u64)| (e.0@, e.1)) == candidate_sizes(locale, latest@, predicted_size),
{
    let ghost c = candidate_sizes(locale, latest@, predicted_size);
    let table = voice_packages_sizes();
    proof {
        let (v, a, b, cc, d) = table@[0];
        assert((v@, a, b, cc, d) == sizes_table()[0]);
    }
    let mut candidates: Vec<(String, u64)> = Vec::new();
    if !str_eq(table[0].0, latest) {
        candidates.push((latest.to_owned(), predicted_size));
    }
    let ghost front = candidates@;
    let known = get_voice_pack_sizes(locale);
    let mut known = known;
    let ghost kv = known@;
    let m = known.len();
    let mut j: usize = 0;
    while j < m
        invariant
            m == kv.len(),
            known@ == kv.skip(j as int),
            kv.map_values(|e: (String, u64)| (e.0@, e.1)) == locale_sizes(locale),
            j <= m,
            candidates@ == front + kv.take(j as int),
        decreases m - j,
    {
        let e = known.remove(0);
        candidates.push(e);
        assert(candidates@ =~= front + kv.take(j + 1));
        assert(known@ =~= kv.skip(j + 1));
        j += 1;
    }
    let ghost view = candidates@.map_values(|e: (String, u64)| (e.0@, e.1));
    proof {
        assert(kv.take(m as int) =~= kv);
        assert(view =~= c) by {
            let off = front.len() as int;
            assert forall|i: int| 0 <= i < view.len() implies view[i] == c[i] by {
                if i >= off {
                    assert(candidates@[i] == kv[i - off]);
                }
            }
        }
    }
    candidates
}

/// Index of the first candidate that fits (see `first_fitting`), found
/// when the candidates up to it are not below the threshold
fn fitting_index(candidates: &[(String, u64)], package_size: u64) -> (r: Option<usize>)
    ensures
        match r {
            Some(i) => {
                let c = candidates@.map_values(|e: (String, u64)| (e.0@, e.1));
                &&& i < candidates@.len()
                &&& i as int == first_fitting(c, package_size)
                &&& forall|j: int| 0 <= j <= i ==> #[trigger] c[j].1 >= VOICE_PACKAGE_THRESHOLD
            },
            None => {
                let c = candidates@.map_values(|e: (String, u64)| (e.0@, e.1));
                first_fitting(c, package_size) < 0
                    || exists|j: int| 0 <= j <= first_fitting(c, package_size) && #[trigger] c[j].1 < VOICE_PACKAGE_THRESHOLD
            },
        },
{
    let ghost c = candidates@.map_values(|e: (String, u64)| (e.0@, e.1));
    proof {
        lemma_first_fitting(c, package_size);
    }
    let n = candidates.len();
    let mut i: usize = 0;
    while i < n
        invariant
            n == candidates@.len(),
            c == candidates@.map_values(|e: (String, u64)| (e.0@, e.1)),
            i <= n,
            forall|k: int| 0 <= k < i ==> #[trigger] c[k].1 >= VOICE_PACKAGE_THRESHOLD,
            first_fitting(c, package_size) < c.len(),
            first_fitting(c, package_size) >= 0 ==> size_fits(c[first_fitting(c, package_size)], package_size),
            forall|x: int| 0 <= x < c.len() && (first_fitting(c, package_size) < 0 || x < first_fitting(c, package_size))
                ==> !size_fits(#[trigger] c[x], package_size),
            first_fitting(c, package_size) < 0 || first_fitting(c, package_size) >= i,
        decreases n - i,
    {
        let size = candidates[i].1;
        assert(c[i as int].1 == size);
        if size < VOICE_PACKAGE_THRESHOLD {
            proof {
                if first_fitting(c, package_size) >= 0 {
                    assert(c[i as int].1 < VOICE_PACKAGE_THRESHOLD);
                } else {
                    assert(size_fits(c[i as int], package_size));
                }
            }
            return None;
        }
        if package_size > size - VOICE_PACKAGE_THRESHOLD {
            assert(size_fits(c[i as int], package_size));
            return Some(i);
        }
        assert(!size_fits(c[i as int], package_size));
        i += 1;
    }
    None
}

/// Predicts the installed voiceover version from the size of its folder
/// (`package_size`): the newest candidate size that, less the threshold, is
/// below it gives the version. `latest` is the latest game version and
/// `predicted_size` the size that `predict_new_voice_pack_size` predicts for
/// it
pub fn predict_version(package_size: u64, locale: VoiceLocale, latest: &str, predicted_size: u64) -> (r: Version)
    requires
        prediction_defined(package_size, locale, latest@, predicted_size),
    ensures
        r@ == spec_predicted_version(package_size, locale, latest@, predicted_size),
{
    let candidates = candidates_of(locale, latest, predicted_size);
    match fitting_index(candidates.as_slice(), package_size) {
        Some(i) => Version::from_str(candidates[i].0.as_str()).unwrap(),
        None => {
            proof {
                assert(false);
            }
            Version::new(0, 0, 0)
        },
    }
}

/// Whether a version can be predicted from these sizes; see
/// `prediction_defined`
pub fn prediction_ready(package_size: u64, locale: VoiceLocale, latest: &str, predicted_size: u64) -> (r: bool)
    ensures
        r == prediction_defined(package_size, locale, latest@, predicted_size),
{
    let candidates = candidates_of(locale, latest, predicted_size);
    match fitting_index(candidates.as_slice(), package_size) {
        Some(i) => Version::from_str(candidates[i].0.as_str()).is_some(),
        None => false,
    }
}

/// Index of the first voice package of `list` with the code `code`, or -1
pub open spec fn first_with_language(list: Seq<VoicePack>, code: Seq<char>) -> int
    decreases list.len(),
{
    if list.len() == 0 {
        -1
    } else if list[0].language@ == code {
        0
    } else {
        let k = first_with_language(list.drop_first(), code);
        if k < 0 { -1 } else { k + 1 }
    }
}

proof fn lemma_first_with_language(list: Seq<VoicePack>, code: Seq<char>)
    ensures
        first_with_language(list, code) < list.len(),
        first_with_language(list, code) >= 0 ==> list[first_with_language(list, code)].language@ == code,
        forall|j: int| 0 <= j < list.len() && (first_with_language(list, code) < 0 || j < first_with_language(list, code))
            ==> #[trigger] list[j].language@ != code,
    decreases list.len(),
{
    if list.len() > 0 {
        lemma_first_with_language(list.drop_first(), code);
        assert forall|j: int| 1 <= j < list.len() implies #[trigger] list[j] == list.drop_first()[j - 1] by {}
    }
}

/// Find voice package with specified locale from list of packages
fn find_voice_pack(list: Vec<VoicePack>, locale: VoiceLocale) -> (r: VoicePack)
    requires
        first_with_language(list@, locale.spec_code()) >= 0,
    ensures
        r == list@[first_with_language(list@, locale.spec_code())],
{
    proof {
        lemma_first_with_language(list@, locale.spec_code());
    }
    let mut pkgs = list;
    let ghost orig = pkgs@;
    let code = locale.to_code();
    let n = pkgs.len();
    let mut i: usize = 0;
    while i < n
        invariant
            pkgs@ == orig,
            orig == list@,
            n == orig.len(),
            i <= n,
            code@ == locale.spec_code(),
            first_with_language(orig, code@) >= i,
            first_with_language(orig, code@) < orig.len(),
            orig[first_with_language(orig, code@)].language@ == code@,
            forall|j: int| 0 <= j < orig.len() && (first_with_language(orig, code@) < 0 || j < first_with_language(orig, code@))
                ==> #[trigger] orig[j].language@ != code@,
        decreases n - i,
    {
        if str_eq(pkgs[i].language.as_str(), code) {
            assert(orig[i as int].language@ == code@);
            return pkgs.remove(i);
        }
        i += 1;
    }
    proof {
        assert(false);
    }
    pkgs.remove(0)
}

/// Every voice package of a list has a language that `VoiceLocale::from_str`
/// reads
pub open spec fn all_languages_known(list: Seq<VoicePack>) -> bool {
    forall|i: int| 0 <= i < list.len() ==> (#[trigger] parse_voice_locale(list[i].language@)) is Some
}

#[derive(Debug, Clone, PartialEq, Eq, Hash)]
pub enum VoicePackage {
    Installed { path: String, locale: VoiceLocale },
    NotInstalled { locale: VoiceLocale, version: Version, data: VoicePack, game_path: Option<String> },
}

/// Why a voice package could not be deleted
#[derive(Debug, Clone, Copy, PartialEq, Eq, Structural)]
pub enum VoicePackageError {
    /// "Failed to find game directory"
    GameDirectoryNotFound,
}

impl VoicePackage {
    pub open spec fn spec_locale(&self) -> VoiceLocale {
        match self {
            VoicePackage::Installed { locale, .. } => *locale,
            VoicePackage::NotInstalled { locale, .. } => *locale,
        }
    }

    /// The folder of this package in a game of `edition` at `game_path`
    pub open spec fn spec_folder_in(&self, game_path: Seq<char>, edition: GameEdition) -> Seq<char> {
        path_join(spec_voice_packages_path(game_path, edition), self.spec_locale().spec_folder())
    }

    /// The `Audio_<folder>_pkg_version` file of this package in a game at
    /// `game_path`
    pub open spec fn spec_pkg_version_in(&self, game_path: Seq<char>) -> Seq<char> {
        path_join(game_path, "Audio_"@ + self.spec_locale().spec_folder() + "_pkg_version"@)
    }

    /// The game folder that `delete` works in
    pub open spec fn spec_game_folder(&self) -> Option<Seq<char>> {
        match self {
            VoicePackage::Installed { path, .. } => path_ancestor(path@, 6),
            VoicePackage::NotInstalled { game_path, .. } => opt_str(*game_path),
        }
    }

    /// Where an update of this package is unpacked: nowhere that it knows of
    /// when it is installed, else its game path
    pub open spec fn spec_unpacking_path(&self) -> Option<Seq<char>> {
        match self {
            VoicePackage::Installed { .. } => None,
            VoicePackage::NotInstalled { game_path, .. } => opt_str(*game_path),
        }
    }

    /// Voice packages can't be installed wherever you want: `path` must be an
    /// existing directory (`is_dir`) named after a voice locale, else `None`
    pub fn new(path: &str, is_dir: bool) -> (r: Option<Self>)
        ensures
            match r {
                Some(p) => {
                    &&& is_dir
                    &&& p matches VoicePackage::Installed { path: q, locale }
                    &&& q@ == path@
                    &&& path_file_name(path@) matches Some(name)
                    &&& parse_voice_locale(name) == Some(locale)
                },
                None => !is_dir || path_file_name(path@) is None || parse_voice_locale(path_file_name(path@)->0) is None,
            },
    {
        if !is_dir {
            return None;
        }
        match file_name(path) {
            Some(name) => match VoiceLocale::from_str(name.as_str()) {
                Some(locale) => Some(Self::Installed { path: path.to_owned(), locale }),
                None => None,
            },
            None => None,
        }
    }

    /// Get latest voice package with specified locale from the game API's
    /// answer
    ///
    /// Note that returned object will be `VoicePackage::NotInstalled`, but
    /// technically it can be installed. This method just don't know the game's path
    pub fn with_locale(locale: VoiceLocale, response: Response) -> (r: Self)
        requires
            parse_version(response.data.game.latest.version@) is Some,
            first_with_language(response.data.game.latest.voice_packs@, locale.spec_code()) >= 0,
        ensures
            r matches VoicePackage::NotInstalled { locale: l, version, data, game_path }
                && l == locale
                && version@ == parse_version(response.data.game.latest.version@)->0
                && data == response.data.game.latest.voice_packs@[first_with_language(response.data.game.latest.voice_packs@, locale.spec_code())]
                && game_path is None,
    {
        let latest = response.data.game.latest;
        let version = Version::from_str(latest.version.as_str()).unwrap();
        Self::NotInstalled { locale, version, data: find_voice_pack(latest.voice_packs, locale), game_path: None }
    }

    /// Get installation status of this package
    ///
    /// This method will return `false` if this package is `VoicePackage::NotInstalled` enum value
    ///
    /// If you want to check it's actually installed - you'd need to use `is_installed_in`
    pub fn is_installed(&self) -> (r: bool)
        ensures
            r == self is Installed,
    {
        match self {
            Self::Installed { .. } => true,
            Self::NotInstalled { .. } => false,
        }
    }

    /// Sizes of this package: the size of an installed package's folder
    /// (`folder_size`, read from the disk), or the unpacked and the download
    /// size that the game API lists for one that is not installed
    pub fn size(&self, folder_size: u64) -> (r: (u64, Option<u64>))
        requires
            self matches VoicePackage::NotInstalled { data, .. } ==> size_known(data.package_size@) && size_known(data.size@),
        ensures
            match self {
                VoicePackage::Installed { .. } => r == (folder_size, None::<u64>),
                VoicePackage::NotInstalled { data, .. } => r == (size_value(data.package_size@), Some(size_value(data.size@))),
            },
    {
        match self {
            Self::Installed { .. } => (folder_size, None),
            Self::NotInstalled { data, .. } => (
                parse_u64(data.package_size.as_str()).unwrap(),
                Some(parse_u64(data.size.as_str()).unwrap()),
            ),
        }
    }

    /// The folder of this voice package in a game of `edition` at `game_path`
    pub fn folder_in(&self, game_path: &str, edition: GameEdition) -> (r: String)
        ensures
            r@ == self.spec_folder_in(game_path@, edition),
    {
        let locale = self.locale();
        get_voice_package_path(game_path, edition, &locale)
    }

    /// `true` if the package has `VoicePackage::Installed` enum value;
    /// otherwise whether its folder in the game (`folder_in`) exists, which
    /// `folder_exists` says
    pub fn is_installed_in(&self, folder_exists: bool) -> (r: bool)
        ensures
            r == (self is Installed || folder_exists),
    {
        match self {
            Self::Installed { .. } => true,
            Self::NotInstalled { .. } => folder_exists,
        }
    }

    /// Get list of latest voice packages from the game API's answer
    pub fn list_latest(response: Response) -> (r: Vec<VoicePackage>)
        requires
            parse_version(response.data.game.latest.version@) is Some,
            all_languages_known(response.data.game.latest.voice_packs@),
        ensures
            r@.len() == response.data.game.latest.voice_packs@.len(),
            forall|i: int| 0 <= i < r@.len() ==> {
                let pack = response.data.game.latest.voice_packs@[i];
                &&& #[trigger] r@[i] matches VoicePackage::NotInstalled { locale, version, data, game_path }
                &&& Some(locale) == parse_voice_locale(pack.language@)
                &&& version@ == parse_version(response.data.game.latest.version@)->0
                &&& data == pack
                &&& game_path is None
            },
    {
        let latest = response.data.game.latest;
        let version = Version::from_str(latest.version.as_str()).unwrap();
        let ghost all = latest.voice_packs@;
        let mut rest = latest.voice_packs;
        let mut packages: Vec<VoicePackage> = Vec::new();
        let n = rest.len();
        let mut i: usize = 0;
        while i < n
            invariant
                n == all.len(),
                i <= n,
                rest@ == all.skip(i as int),
                all_languages_known(all),
                all == response.data.game.latest.voice_packs@,
                version@ == parse_version(response.data.game.latest.version@)->0,
                packages@.len() == i,
                forall|j: int| 0 <= j < i ==> {
                    let pack = all[j];
                    &&& #[trigger] packages@[j] matches VoicePackage::NotInstalled { locale, version: v, data, game_path }
                    &&& Some(locale) == parse_voice_locale(pack.language@)
                    &&& v@ == parse_version(response.data.game.latest.version@)->0
                    &&& data == pack
                    &&& game_path is None
                },
            decreases n - i,
        {
            let package = rest.remove(0);
            assert(package == all[i as int]);
            assert(parse_voice_locale(all[i as int].language@) is Some);
            let locale = VoiceLocale::from_str(package.language.as_str()).unwrap();
            packages.push(Self::NotInstalled { locale, version, data: package, game_path: None });
            assert(rest@ =~= all.skip(i + 1));
            i += 1;
        }
        packages
    }

    /// Get voice package locale
    pub fn locale(&self) -> (r: VoiceLocale)
        ensures
            r == self.spec_locale(),
    {
        match self {
            Self::Installed { locale, .. } | Self::NotInstalled { locale, .. } => *locale,
        }
    }

    /// Version of this package: the one it was made with when it is not
    /// installed, else the one predicted from its folder's size
    /// `package_size` (see `predict_version`); `latest` is the latest game
    /// version and `predicted_size` the predicted size of its voiceover
    pub fn try_get_version(&self, package_size: u64, latest: &str, predicted_size: u64) -> (r: Version)
        requires
            self is Installed ==> prediction_defined(package_size, self.spec_locale(), latest@, predicted_size),
        ensures
            match self {
                VoicePackage::NotInstalled { version, .. } => r == *version,
                VoicePackage::Installed { locale, .. } => r@ == spec_predicted_version(package_size, *locale, latest@, predicted_size),
            },
    {
        match self {
            Self::NotInstalled { version, .. } => *version,
            Self::Installed { locale, .. } => predict_version(package_size, *locale, latest, predicted_size),
        }
    }

    /// What to remove to delete this package: its folder and its
    /// `Audio_<folder>_pkg_version` file, in the game it belongs to (six
    /// levels above an installed package's own folder)
    pub fn delete(&self, edition: GameEdition) -> (r: Result<(String, String), VoicePackageError>)
        ensures
            match self.spec_game_folder() {
                Some(g) => r matches Ok((folder, file)) && folder@ == self.spec_folder_in(g, edition) && file@ == self.spec_pkg_version_in(g),
                None => r is Err,
            },
    {
        match self {
            VoicePackage::Installed { path, .. } => match ancestor(path.as_str(), 6) {
                Some(game_path) => Ok(self.delete_in(game_path.as_str(), edition)),
                None => Err(VoicePackageError::GameDirectoryNotFound),
            },
            VoicePackage::NotInstalled { game_path, .. } => match game_path {
                Some(game_path) => Ok(self.delete_in(game_path.as_str(), edition)),
                None => Err(VoicePackageError::GameDirectoryNotFound),
            },
        }
    }

    /// What to remove to delete this package from the game at `game_path`:
    /// its folder and its `Audio_<folder>_pkg_version` file
    pub fn delete_in(&self, game_path: &str, edition: GameEdition) -> (r: (String, String))
        ensures
            r.0@ == self.spec_folder_in(game_path@, edition),
            r.1@ == self.spec_pkg_version_in(game_path@),
    {
        let folder = self.folder_in(game_path, edition);
        let mut name = String::new();
        push_str(&mut name, "Audio_");
        push_str(&mut name, self.locale().to_folder());
        push_str(&mut name, "_pkg_version");
        assert(name@ =~= "Audio_"@ + self.spec_locale().spec_folder() + "_pkg_version"@);
        (folder, join(game_path, name.as_str()))
    }

    fn unpacking_path(&self) -> (r: Option<String>)
        ensures
            opt_str(r) == self.spec_unpacking_path(),
    {
        match self {
            VoicePackage::Installed { .. } => None,
            VoicePackage::NotInstalled { game_path, .. } => match game_path {
                Some(g) => Some(g.clone()),
                None => None,
            },
        }
    }
}

/// The voice package of `list` for locale `l` (the first one with its code)
pub open spec fn pack_for(list: Seq<VoicePack>, l: VoiceLocale) -> VoicePack {
    list[first_with_language(list, l.spec_code())]
}

/// `list` has a package for locale `l` whose sizes are `u64` values
pub open spec fn usable_pack(list: Seq<VoicePack>, l: VoiceLocale) -> bool {
    first_with_language(list, l.spec_code()) >= 0
        && size_known(pack_for(list, l).size@)
        && size_known(pack_for(list, l).package_size@)
}

/// Whether `list` has a package for locale `l` whose sizes are `u64` values
fn pack_usable(list: &[VoicePack], l: VoiceLocale) -> (r: bool)
    ensures
        r == usable_pack(list@, l),
{
    proof {
        lemma_first_with_language(list@, l.spec_code());
    }
    let code = l.to_code();
    let n = list.len();
    let mut i: usize = 0;
    while i < n
        invariant
            n == list@.len(),
            i <= n,
            code@ == l.spec_code(),
            forall|j: int| 0 <= j < i ==> #[trigger] list@[j].language@ != code@,
            first_with_language(list@, code@) < list@.len(),
            first_with_language(list@, code@) >= 0 ==> list@[first_with_language(list@, code@)].language@ == code@,
            forall|j: int| 0 <= j < list@.len() && (first_with_language(list@, code@) < 0 || j < first_with_language(list@, code@))
                ==> #[trigger] list@[j].language@ != code@,
        decreases n - i,
    {
        if str_eq(list[i].language.as_str(), code) {
            assert(first_with_language(list@, code@) == i);
            return size_readable(list[i].size.as_str()) && size_readable(list[i].package_size.as_str());
        }
        i += 1;
    }
    false
}

/// The difference between a voice package and the latest one that the
/// game API describes in `r`; `current` is the package's version when it
/// is installed (`None` when it is unknown)
pub open spec fn spec_voice_diff(p: VoicePackage, r: Response, current: Option<VersionParts>) -> Option<ArchiveDiff> {
    let l = p.spec_locale();
    let latest = r.data.game.latest;
    if p is Installed {
        match current {
            None => None,
            Some(c) => if latest.version@ == version_text(c) {
                match r.data.pre_download_game {
                    Some(pre) => {
                        let k = first_diff(pre.diffs@, c);
                        if k >= 0 {
                            let v = pack_for(pre.diffs@[k].voice_packs@, l);
                            Some(ArchiveDiff::Predownload {
                                current: c,
                                latest: parse_version(pre.latest.version@)->0,
                                url: v.path@,
                                download_size: size_value(v.size@),
                                unpacked_size: size_value(v.package_size@),
                                unpacking_path: p.spec_unpacking_path(),
                            })
                        } else {
                            Some(ArchiveDiff::Latest(c))
                        }
                    },
                    None => Some(ArchiveDiff::Latest(c)),
                }
            } else {
                let k = first_diff(r.data.game.diffs@, c);
                if k >= 0 {
                    let v = pack_for(r.data.game.diffs@[k].voice_packs@, l);
                    Some(ArchiveDiff::Diff {
                        current: c,
                        latest: parse_version(latest.version@)->0,
                        url: v.path@,
                        download_size: size_value(v.size@),
                        unpacked_size: size_value(v.package_size@),
                        unpacking_path: p.spec_unpacking_path(),
                    })
                } else {
                    Some(ArchiveDiff::Outdated { current: c, latest: parse_version(latest.version@)->0 })
                }
            },
        }
    } else {
        let v = pack_for(latest.voice_packs@, l);
        Some(ArchiveDiff::NotInstalled {
            latest: parse_version(latest.version@)->0,
            url: v.path@,
            download_size: size_value(v.size@),
            unpacked_size: size_value(v.package_size@),
            unpacking_path: p.spec_unpacking_path(),
        })
    }
}

/// The inputs on which the voice package difference is defined: the
/// versions that it names are valid and the archives that it uses list the
/// package's locale with sizes that are `u64` values
pub open spec fn voice_diff_defined(p: VoicePackage, r: Response, current: Option<VersionParts>) -> bool {
    let l = p.spec_locale();
    let latest = r.data.game.latest;
    if p is Installed {
        match current {
            None => true,
            Some(c) => if latest.version@ == version_text(c) {
                match r.data.pre_download_game {
                    Some(pre) => {
                        let k = first_diff(pre.diffs@, c);
                        k >= 0 ==> parse_version(pre.latest.version@) is Some && usable_pack(pre.diffs@[k].voice_packs@, l)
                    },
                    None => true,
                }
            } else {
                let k = first_diff(r.data.game.diffs@, c);
                &&& parse_version(latest.version@) is Some
                &&& k >= 0 ==> usable_pack(r.data.game.diffs@[k].voice_packs@, l)
            },
        }
    } else {
        parse_version(latest.version@) is Some && usable_pack(latest.voice_packs@, l)
    }
}

/// Whether the difference is defined on these inputs; see
/// `voice_diff_defined`
pub fn voice_diff_ready(p: &VoicePackage, r: &Response, current: Option<Version>) -> (b: bool)
    ensures
        b == voice_diff_defined(*p, *r, opt_parts(current)),
{
    let l = p.locale();
    let latest = &r.data.game.latest;
    if !p.is_installed() {
        return Version::from_str(latest.version.as_str()).is_some() && pack_usable(latest.voice_packs.as_slice(), l);
    }
    match current {
        None => true,
        Some(c) => {
            if c.eq_str(latest.version.as_str()) {
                match &r.data.pre_download_game {
                    Some(pre) => match find_diff(pre.diffs.as_slice(), &c) {
                        Some(k) => Version::from_str(pre.latest.version.as_str()).is_some()
                            && pack_usable(pre.diffs[k].voice_packs.as_slice(), l),
                        None => true,
                    },
                    None => true,
                }
            } else {
                Version::from_str(latest.version.as_str()).is_some() && match find_diff(r.data.game.diffs.as_slice(), &c) {
                    Some(k) => pack_usable(r.data.game.diffs[k].voice_packs.as_slice(), l),
                    None => true,
                }
            }
        },
    }
}

impl VoicePackage {
    /// Difference between this voice package and the latest one that the
    /// game API describes in `response`; `current` is the result of
    /// `try_get_version`, used when the package is installed, whose error is
    /// returned then
    pub fn try_get_diff<Er>(&self, response: Response, current: Result<Version, Er>) -> (r: Result<VersionDiff, Er>)
        requires
            voice_diff_defined(*self, response, found_parts(current)),
        ensures
            match spec_voice_diff(*self, response, found_parts(current)) {
                Some(m) => r matches Ok(d) && d@ == m,
                None => r is Err && current is Err && r->Err_0 == current->Err_0,
            },
    {
        let locale = self.locale();
        let Response { data, .. } = response;
        let latest = data.game.latest;
        if self.is_installed() {
            let current = match current {
                Ok(v) => v,
                Err(e) => return Err(e),
            };
            if current.eq_str(latest.version.as_str()) {
                if let Some(pre) = data.pre_download_game {
                    if let Some(k) = find_diff(pre.diffs.as_slice(), &current) {
                        let mut diffs = pre.diffs;
                        let d = diffs.remove(k);
                        let v = find_voice_pack(d.voice_packs, locale);
                        return Ok(VersionDiff::Predownload {
                            current,
                            latest: Version::from_str(pre.latest.version.as_str()).unwrap(),
                            url: v.path,
                            download_size: parse_u64(v.size.as_str()).unwrap(),
                            unpacked_size: parse_u64(v.package_size.as_str()).unwrap(),
                            unpacking_path: self.unpacking_path(),
                        });
                    }
                }
                Ok(VersionDiff::Latest(current))
            } else {
                let latest_version = Version::from_str(latest.version.as_str()).unwrap();
                match find_diff(data.game.diffs.as_slice(), &current) {
                    Some(k) => {
                        let mut diffs = data.game.diffs;
                        let d = diffs.remove(k);
                        let v = find_voice_pack(d.voice_packs, locale);
                        Ok(VersionDiff::Diff {
                            current,
                            latest: latest_version,
                            url: v.path,
                            download_size: parse_u64(v.size.as_str()).unwrap(),
                            unpacked_size: parse_u64(v.package_size.as_str()).unwrap(),
                            unpacking_path: self.unpacking_path(),
                        })
                    },
                    None => Ok(VersionDiff::Outdated { current, latest: latest_version }),
                }
            }
        } else {
            let latest_version = Version::from_str(latest.version.as_str()).unwrap();
            let v = find_voice_pack(latest.voice_packs, locale);
            Ok(VersionDiff::NotInstalled {
                latest: latest_version,
                url: v.path,
                download_size: parse_u64(v.size.as_str()).unwrap(),
                unpacked_size: parse_u64(v.package_size.as_str()).unwrap(),
                unpacking_path: self.unpacking_path(),
            })
        }
    }
}

/// A voice package's folder in a game, read back with `new`, names the
/// package's locale: its file name is the locale's folder name, which
/// `VoiceLocale::from_str` reads as that locale
pub proof fn lemma_folder_reads_back(p: VoicePackage, game_path: Seq<char>, edition: GameEdition)
    ensures
        path_file_name(p.spec_folder_in(game_path, edition)) == Some(p.spec_locale().spec_folder()),
        parse_voice_locale(p.spec_locale().spec_folder()) == Some(p.spec_locale()),
{
    super::locale::lemma_folder_is_plain(p.spec_locale());
    super::locale::lemma_voice_locale_roundtrip(p.spec_locale());
    crate::paths::lemma_file_name_of_join(spec_voice_packages_path(game_path, edition), p.spec_locale().spec_folder());
}

/// The components of a game's voice packages folder: the game's, then the
/// data folder and the voice packages' folders
#[verifier::rlimit(50)]
proof fn lemma_packages_components(g: Seq<char>, e: GameEdition)
    ensures
        components(spec_voice_packages_path(g, e)) == components(g) + seq![spec_data_folder_name(e), "StreamingAssets"@, "Audio"@, "GeneratedSoundBanks"@, "Windows"@],
        is_absolute(spec_voice_packages_path(g, e)) == is_absolute(g),
{
    reveal_strlit("GenshinImpact_Data");
    reveal_strlit("YuanShen_Data");
    reveal_strlit("StreamingAssets");
    reveal_strlit("Audio");
    reveal_strlit("GeneratedSoundBanks");
    reveal_strlit("Windows");
    reveal_strlit("StreamingAssets/Audio/GeneratedSoundBanks/Windows");
    reveal_with_fuel(no_separator, 22);
    let d = spec_data_folder_name(e);
    crate::paths::lemma_plain_name(d);
    let p0 = "StreamingAssets"@;
    crate::paths::lemma_plain_name(p0);
    let p1 = "Audio"@;
    crate::paths::lemma_plain_name(p1);
    let p2 = "GeneratedSoundBanks"@;
    crate::paths::lemma_plain_name(p2);
    let p3 = "Windows"@;
    crate::paths::lemma_plain_name(p3);
    crate::paths::lemma_components_name(p0);
    let j1 = path_join(p0, p1);
    assert(j1 =~= p0 + seq!['/'] + p1);
    crate::paths::lemma_components_join(p0, p1);
    let j2 = path_join(j1, p2);
    assert(j2 =~= j1 + seq!['/'] + p2);
    crate::paths::lemma_components_join(j1, p2);
    let j3 = path_join(j2, p3);
    assert(j3 =~= j2 + seq!['/'] + p3);
    crate::paths::lemma_components_join(j2, p3);
    let rel = "StreamingAssets/Audio/GeneratedSoundBanks/Windows"@;
    assert(rel =~= j3);
    crate::paths::lemma_components_name(d);
    crate::paths::lemma_components_join_rel(g, d);
    crate::paths::lemma_components_join_rel(path_join(g, d), rel);
    crate::paths::lemma_join_absolute(g, d);
    crate::paths::lemma_join_absolute(path_join(g, d), rel);
    assert(components(g) + seq![d] + seq![p0].push(p1).push(p2).push(p3) =~= components(g) + seq![d, p0, p1, p2, p3]);
}

/// The components of a voice package's folder in a game, and whether it
/// starts at the root
proof fn lemma_folder_components(p: VoicePackage, g: Seq<char>, e: GameEdition)
    ensures
        components(p.spec_folder_in(g, e)) == components(spec_voice_packages_path(g, e)).push(p.spec_locale().spec_folder()),
        is_absolute(p.spec_folder_in(g, e)) == is_absolute(g),
{
    super::locale::lemma_folder_is_plain(p.spec_locale());
    lemma_packages_components(g, e);
    crate::paths::lemma_components_join(spec_voice_packages_path(g, e), p.spec_locale().spec_folder());
    crate::paths::lemma_join_absolute(spec_voice_packages_path(g, e), p.spec_locale().spec_folder());
}

/// The name of a locale's `Audio_<folder>_pkg_version` file is a plain name
proof fn lemma_pkg_version_name_plain(l: VoiceLocale)
    ensures
        crate::paths::is_plain_name("Audio_"@ + l.spec_folder() + "_pkg_version"@),
{
    reveal_strlit("Audio_");
    reveal_strlit("_pkg_version");
    super::locale::lemma_folder_is_plain(l);
    let f = l.spec_folder();
    let n = "Audio_"@ + f + "_pkg_version"@;
    assert forall|i: int| 0 <= i < n.len() implies n[i] != '/' by {
        if 6 <= i < 6 + f.len() {
            assert(n[i] == f[i - 6]);
        }
    }
    assert(n[0] == 'A');
    assert(n.len() > 2);
}

/// Deleting a voice package that is installed in a game's voice packages
/// folder removes what `delete_in` removes for that game: `delete` finds a
/// game folder that names the same place, the package's folder in it is
/// the same place as the package's own path, and its
/// `Audio_<folder>_pkg_version` file is the same place as the game's
pub proof fn lemma_delete_removes_own_folder(p: VoicePackage, g: Seq<char>, e: GameEdition)
    requires
        p matches VoicePackage::Installed { path, .. } && path@ == p.spec_folder_in(g, e),
    ensures
        p.spec_game_folder() matches Some(gf) && {
            &&& same_location(gf, g)
            &&& same_location(p.spec_folder_in(gf, e), p.spec_folder_in(g, e))
            &&& same_location(p.spec_pkg_version_in(gf), p.spec_pkg_version_in(g))
        },
{
    let own = p.spec_folder_in(g, e);
    lemma_folder_components(p, g, e);
    lemma_packages_components(g, e);
    let c = components(own);
    assert(c.len() == components(g).len() + 6);
    crate::paths::lemma_ancestor(own, 6);
    assert(c.take(c.len() - 6) =~= components(g));
    let gf = crate::paths::rebuilt(is_absolute(g), components(g));
    assert(p.spec_game_folder() == Some(gf));
    crate::paths::lemma_rebuilt_same_location(g);
    lemma_folder_components(p, gf, e);
    lemma_packages_components(gf, e);
    if !(components(g).len() > 0 || is_absolute(g)) {
        assert(gf =~= Seq::<char>::empty());
    }
    assert(components(p.spec_folder_in(gf, e)) =~= c);
    let n = "Audio_"@ + p.spec_locale().spec_folder() + "_pkg_version"@;
    lemma_pkg_version_name_plain(p.spec_locale());
    crate::paths::lemma_components_join(gf, n);
    crate::paths::lemma_components_join(g, n);
    crate::paths::lemma_join_absolute(gf, n);
    crate::paths::lemma_join_absolute(g, n);
}

/// The voice pack of locale `l` in `list` that an archive was read from:
/// it is listed there under the locale's code, is downloaded from its
/// path, its `size` is what is downloaded and its `package_size` what
/// unpacking gives
pub open spec fn read_from_pack(list: Seq<VoicePack>, l: VoiceLocale, url: Seq<char>, download_size: u64, unpacked_size: u64) -> bool {
    exists|i: int| 0 <= i < list.len() && (#[trigger] list[i]).language@ == l.spec_code()
        && archive_read(url, download_size, unpacked_size, list[i].path@, list[i].size@, list[i].package_size@)
}

/// Where each difference of a voice package comes from in the game API's
/// answer `r`: a package that is not installed downloads its locale's pack
/// of the latest version; an installed one of version `c` behind the latest
/// one is patched by its locale's pack in an archive listed for `c`; an up
/// to date one predownloads its locale's pack in an archive that the
/// predownload lists for `c`, up to the predownload's version. Whichever
/// pack it is, its `size` is what is downloaded and its `package_size` what
/// unpacking gives
pub proof fn lemma_voice_diff_sources(p: VoicePackage, r: Response, current: Option<VersionParts>)
    requires
        voice_diff_defined(p, r, current),
    ensures
        match spec_voice_diff(p, r, current) {
            Some(ArchiveDiff::NotInstalled { latest, url, download_size, unpacked_size, .. }) => {
                &&& p is NotInstalled
                &&& Some(latest) == parse_version(r.data.game.latest.version@)
                &&& read_from_pack(r.data.game.latest.voice_packs@, p.spec_locale(), url, download_size, unpacked_size)
            },
            Some(ArchiveDiff::Diff { current: c, latest, url, download_size, unpacked_size, .. }) => {
                &&& p is Installed && current == Some(c)
                &&& r.data.game.latest.version@ != version_text(c)
                &&& Some(latest) == parse_version(r.data.game.latest.version@)
                &&& exists|k: int| 0 <= k < r.data.game.diffs@.len() && #[trigger] r.data.game.diffs@[k].version@ == version_text(c)
                    && read_from_pack(r.data.game.diffs@[k].voice_packs@, p.spec_locale(), url, download_size, unpacked_size)
            },
            Some(ArchiveDiff::Predownload { current: c, latest, url, download_size, unpacked_size, .. }) => {
                &&& p is Installed && current == Some(c)
                &&& r.data.game.latest.version@ == version_text(c)
                &&& r.data.pre_download_game matches Some(pre) && {
                    &&& Some(latest) == parse_version(pre.latest.version@)
                    &&& exists|k: int| 0 <= k < pre.diffs@.len() && #[trigger] pre.diffs@[k].version@ == version_text(c)
                        && read_from_pack(pre.diffs@[k].voice_packs@, p.spec_locale(), url, download_size, unpacked_size)
                }
            },
            Some(ArchiveDiff::Latest(c)) => p is Installed && current == Some(c),
            Some(ArchiveDiff::Outdated { current: c, latest }) => p is Installed && current == Some(c)
                && Some(latest) == parse_version(r.data.game.latest.version@),
            None => p is Installed && current is None,
        },
{
    let l = p.spec_locale();
    let latest = r.data.game.latest;
    if p is Installed {
        if let Some(c) = current {
            if latest.version@ == version_text(c) {
                if let Some(pre) = r.data.pre_download_game {
                    lemma_first_diff(pre.diffs@, c);
                    let k = first_diff(pre.diffs@, c);
                    if k >= 0 {
                        let list = pre.diffs@[k].voice_packs@;
                        lemma_first_with_language(list, l.spec_code());
                        let i = first_with_language(list, l.spec_code());
                        assert(list[i].language@ == l.spec_code());
                    }
                }
            } else {
                lemma_first_diff(r.data.game.diffs@, c);
                let k = first_diff(r.data.game.diffs@, c);
                if k >= 0 {
                    let list = r.data.game.diffs@[k].voice_packs@;
                    lemma_first_with_language(list, l.spec_code());
                    let i = first_with_language(list, l.spec_code());
                    assert(list[i].language@ == l.spec_code());
                }
            }
        }
    } else {
        let list = latest.voice_packs@;
        lemma_first_with_language(list, l.spec_code());
        let i = first_with_language(list, l.spec_code());
        assert(list[i].language@ == l.spec_code());
    }
}

} // verus!
