use vstd::prelude::*;
use crate::version::{Version, VersionParts, parse_version};
use crate::paths::{ancestor, path_ancestor, path_file_name, file_name, path_join};
use crate::strings::str_eq;
use crate::games::genshin::api::schema::{AudioPackage, GameLatestInfo, GamePackage};
use crate::games::package_diff::{VersionDiff, DiffModel, first_match, find_patch, opt_str};
use crate::strings::{parse_u64, parse_unsigned};
use crate::version::version_text;
use crate::paths::{join, components, is_absolute, same_location, no_separator};
use crate::games::genshin::voice_data::locale::{VoiceLocale, parse_voice_locale};
use crate::games::star_rail::consts::{GameEdition, get_voice_package_path, spec_voice_packages_path};

verus! {

/// Acceptable error to select a version for the voiceover folder
pub const VOICE_PACKAGE_THRESHOLD: u64 = 400 * 1024 * 1024;

/// One row of the known voiceover sizes: the version, then the English,
/// Japanese, Korean and Chinese package sizes
pub type SizesRow = (Seq<char>, u64, u64, u64, u64);

/// Known voiceover sizes, newest version first
pub open spec fn sizes_table() -> Seq<SizesRow> {
    seq![
        ("2.7.0"@, 7423102080u64, 7423102080u64, 6267094192u64, 6214943800u64),
        ("2.6.0"@, 6747272632u64, 7145614400u64, 5711985268u64, 5671922219u64),
        ("2.5.0"@, 6747272629u64, 7145614397u64, 5673877573u64, 5623718671u64),
        ("2.4.0"@, 6204752546u64, 6640826693u64, 5273057787u64, 5226442260u64),
        ("2.3.0"@, 5683360499u64, 6082790865u64, 4829957054u64, 4787258680u64),
        ("2.2.0"@, 5428937683u64, 5790872609u64, 4587944120u64, 4548320624u64),
        ("2.1.0"@, 4854287546u64, 5198137045u64, 4119835425u64, 4066642382u64),
    ]
}

/// The size that a row gives for a locale
pub open spec fn row_size(row: SizesRow, locale: VoiceLocale) -> u64 {
    match locale {
        VoiceLocale::English => row.1,
        VoiceLocale::Japanese => row.2,
        VoiceLocale::Korean => row.3,
        VoiceLocale::Chinese => row.4,
    }
}

/// List of voiceover sizes
///
/// Format: `(version, english, japanese, korean, chinese)`
pub fn voice_packages_sizes() -> (r: &'static [(&'static str, u64, u64, u64, u64)])
    ensures
        r@.len() == sizes_table().len(),
        forall|i: int| 0 <= i < r@.len() ==> {
            let (v, a, b, c, d) = #[trigger] r@[i];
            (v@, a, b, c, d) == sizes_table()[i]
        },
{
    &[
        ("2.7.0", 7423102080, 7423102080, 6267094192, 6214943800),
        ("2.6.0", 6747272632, 7145614400, 5711985268, 5671922219),
        ("2.5.0", 6747272629, 7145614397, 5673877573, 5623718671),
        ("2.4.0", 6204752546, 6640826693, 5273057787, 5226442260),
        ("2.3.0", 5683360499, 6082790865, 4829957054, 4787258680),
        ("2.2.0", 5428937683, 5790872609, 4587944120, 4548320624),
        ("2.1.0", 4854287546, 5198137045, 4119835425, 4066642382),
    ]
}

/// Get specific voice package sizes from `voice_packages_sizes`
pub fn get_voice_pack_sizes(locale: VoiceLocale) -> (r: Vec<(&'static str, u64)>)
    ensures
        r@.len() == sizes_table().len(),
        forall|i: int| 0 <= i < r@.len() ==> {
            let (v, s) = #[trigger] r@[i];
            v@ == sizes_table()[i].0 && s == row_size(sizes_table()[i], locale)
        },
{
    let table = voice_packages_sizes();
    let mut r: Vec<(&'static str, u64)> = Vec::new();
    let n = table.len();
    let mut i: usize = 0;
    while i < n
        invariant
            n == table@.len(),
            n == sizes_table().len(),
            forall|j: int| 0 <= j < n ==> {
                let (v, a, b, c, d) = #[trigger] table@[j];
                (v@, a, b, c, d) == sizes_table()[j]
            },
            i <= n,
            r@.len() == i,
            forall|j: int| 0 <= j < i ==> {
                let (v, s) = #[trigger] r@[j];
                v@ == sizes_table()[j].0 && s == row_size(sizes_table()[j], locale)
            },
        decreases n - i,
    {
        let row = table[i];
        let size = match locale {
            VoiceLocale::English => row.1,
            VoiceLocale::Japanese => row.2,
            VoiceLocale::Korean => row.3,
            VoiceLocale::Chinese => row.4,
        };
        r.push((row.0, size));
        proof {
            let (v, a, b, c, d) = table@[i as int];
            assert((v@, a, b, c, d) == sizes_table()[i as int]);
        }
        i += 1;
    }
    r
}

/// Index of the first package in `list` whose language is `code`
pub open spec fn first_with_language(list: Seq<AudioPackage>, code: Seq<char>) -> int
    decreases list.len(),
{
    if list.len() == 0 {
        -1
    } else if list[0].language@ == code {
        0
    } else {
        let k = first_with_language(list.drop_first(), code);
        if k < 0 { -1 } else { k + 1 }
    }
}

proof fn lemma_first_with_language(list: Seq<AudioPackage>, code: Seq<char>)
    ensures
        first_with_language(list, code) < list.len(),
        first_with_language(list, code) >= 0 ==> list[first_with_language(list, code)].language@ == code,
        first_with_language(list, code) >= 0 ==> forall|j: int| 0 <= j < first_with_language(list, code) ==> #[trigger] list[j].language@ != code,
        first_with_language(list, code) < 0 <==> forall|j: int| 0 <= j < list.len() ==> #[trigger] list[j].language@ != code,
    decreases list.len(),
{
    if list.len() > 0 {
        lemma_first_with_language(list.drop_first(), code);
        let k = first_with_language(list.drop_first(), code);
        if list[0].language@ != code {
            assert forall|j: int| 1 <= j < list.len() implies #[trigger] list[j].language@ == list.drop_first()[j - 1].language@ by {}
            if k < 0 {
                assert forall|j: int| 0 <= j < list.len() implies #[trigger] list[j].language@ != code by {
                    if j > 0 {
                        assert(list[j] == list.drop_first()[j - 1]);
                    }
                }
            } else {
                assert forall|j: int| 0 <= j < k + 1 implies #[trigger] list[j].language@ != code by {
                    if j > 0 {
                        assert(list[j] == list.drop_first()[j - 1]);
                    }
                }
                assert(list[k + 1] == list.drop_first()[k]);
            }
        }
    }
}

/// Find voice package with specified locale from list of packages
fn find_voice_pack(list: Vec<AudioPackage>, locale: VoiceLocale) -> (r: AudioPackage)
    requires
        first_with_language(list@, locale.spec_code()) >= 0,
    ensures
        r == list@[first_with_language(list@, locale.spec_code())],
{
    proof {
        lemma_first_with_language(list@, locale.spec_code());
    }
    let mut pkgs = list;
    let ghost orig = pkgs@;
    let code = locale.to_code();
    let n = pkgs.len();
    let mut i: usize = 0;
    while i < n
        invariant
            pkgs@ == orig,
            orig == list@,
            n == orig.len(),
            i <= n,
            code@ == locale.spec_code(),
            first_with_language(orig, locale.spec_code()) >= i,
            forall|j: int| 0 <= j < i ==> #[trigger] orig[j].language@ != code@,
        decreases n - i,
    {
        let ghost first = first_with_language(orig, locale.spec_code());
        proof {
            lemma_first_with_language(orig, locale.spec_code());
        }
        if str_eq(pkgs[i].language.as_str(), code) {
            assert(orig[i as int].language@ == code@);
            assert(first == i);
            let r = pkgs.remove(i);
            assert(r == orig[i as int]);
            return r;
        }
        assert(orig[first].language@ == code@);
        i += 1;
    }
    proof {
        assert(false);
    }
    pkgs.remove(0)
}

/// Why a voice package could not be deleted
#[derive(Debug, Clone, Copy, PartialEq, Eq, Structural)]
pub enum VoicePackageError {
    /// "Failed to find game directory"
    GameDirectoryNotFound,
}

#[derive(Debug, Clone, PartialEq, Eq, Hash)]
pub enum VoicePackage {
    Installed {
        path: String,
        locale: VoiceLocale,
        game_edition: GameEdition,
    },
    NotInstalled {
        locale: VoiceLocale,
        version: Version,
        data: AudioPackage,
        game_path: Option<String>,
        game_edition: GameEdition,
    },
}

/// Every package language of a list is one that `VoiceLocale::from_str` reads
pub open spec fn all_languages_known(list: Seq<AudioPackage>) -> bool {
    forall|i: int| 0 <= i < list.len() ==> (#[trigger] parse_voice_locale(list[i].language@)) is Some
}

/// The package that `list_latest` makes of an entry of the game API
pub open spec fn latest_package(
    p: VoicePackage,
    pkg: AudioPackage,
    version: VersionParts,
    game_edition: GameEdition,
) -> bool {
    &&& p matches VoicePackage::NotInstalled { locale, version: v, data, game_path, game_edition: e }
    &&& Some(locale) == parse_voice_locale(pkg.language@)
    &&& v@ == version
    &&& data == pkg
    &&& game_path is None
    &&& e == game_edition
}

impl VoicePackage {
    pub open spec fn spec_locale(&self) -> VoiceLocale {
        match self {
            VoicePackage::Installed { locale, .. } => *locale,
            VoicePackage::NotInstalled { locale, .. } => *locale,
        }
    }

    pub open spec fn spec_game_edition(&self) -> GameEdition {
        match self {
            VoicePackage::Installed { game_edition, .. } => *game_edition,
            VoicePackage::NotInstalled { game_edition, .. } => *game_edition,
        }
    }

    /// The folder that `delete_in` removes from a game at `game_path`
    pub open spec fn spec_folder_in(&self, game_path: Seq<char>) -> Seq<char> {
        path_join(spec_voice_packages_path(game_path), self.spec_locale().spec_folder())
    }

    /// The game folder that `delete` works in
    pub open spec fn spec_game_folder(&self) -> Option<Seq<char>> {
        match self {
            VoicePackage::Installed { path, .. } => path_ancestor(path@, 6),
            VoicePackage::NotInstalled { game_path, .. } => match game_path {
                Some(g) => Some(g@),
                None => None,
            },
        }
    }

    /// Voice packages can't be installed wherever you want: `path` must be a
    /// directory (`is_dir`) named after a voice locale, else `None`
    pub fn new(path: &str, is_dir: bool, game_edition: GameEdition) -> (r: Option<Self>)
        ensures
            match r {
                Some(p) => {
                    &&& is_dir
                    &&& p matches VoicePackage::Installed { path: q, locale, game_edition: e }
                    &&& q@ == path@
                    &&& e == game_edition
                    &&& path_file_name(path@) matches Some(name)
                    &&& parse_voice_locale(name) == Some(locale)
                },
                None => !is_dir || path_file_name(path@) is None || parse_voice_locale(path_file_name(path@)->0) is None,
            },
    {
        if !is_dir {
            return None;
        }
        match file_name(path) {
            Some(name) => match VoiceLocale::from_str(name.as_str()) {
                Some(locale) => Some(Self::Installed { path: path.to_owned(), locale, game_edition }),
                None => None,
            },
            None => None,
        }
    }

    /// Get latest voice package with specified locale from the latest game
    /// information of the game API
    ///
    /// Note that returned object will be `VoicePackage::NotInstalled`, but
    /// technically it can be installed. This method just don't know the game's
    /// path
    pub fn with_locale(locale: VoiceLocale, game_edition: GameEdition, latest: GameLatestInfo) -> (r: Self)
        requires
            parse_version(latest.version@) is Some,
            first_with_language(latest.audio_pkgs@, locale.spec_code()) >= 0,
        ensures
            r matches VoicePackage::NotInstalled { locale: l, version, data, game_path, game_edition: e }
                && l == locale
                && version@ == parse_version(latest.version@)->0
                && data == latest.audio_pkgs@[first_with_language(latest.audio_pkgs@, locale.spec_code())]
                && game_path is None
                && e == game_edition,
    {
        let version = Version::from_str(latest.version.as_str()).unwrap();
        let data = find_voice_pack(latest.audio_pkgs, locale);
        Self::NotInstalled { locale, version, data, game_path: None, game_edition }
    }

    #[inline]
    pub fn game_edition(&self) -> (r: GameEdition)
        ensures
            r == self.spec_game_edition(),
    {
        match self {
            Self::Installed { game_edition, .. } | Self::NotInstalled { game_edition, .. } => *game_edition,
        }
    }

    /// Get installation status of this package
    ///
    /// This method will return `false` if this package is
    /// `VoicePackage::NotInstalled` enum value
    ///
    /// If you want to check it's actually installed - you'd need to use
    /// `is_installed_in`
    #[inline]
    pub fn is_installed(&self) -> (r: bool)
        ensures
            r == self is Installed,
    {
        match self {
            Self::Installed { .. } => true,
            Self::NotInstalled { .. } => false,
        }
    }

    /// Sizes of this package: the size of an installed package's folder
    /// (`folder_size`, read from the disk), or the unpacked and the download
    /// size that the game API lists for one that is not installed
    pub fn size(&self, folder_size: u64) -> (r: (u64, Option<u64>))
        requires
            self matches VoicePackage::NotInstalled { data, .. } ==> sizes_known(*data),
        ensures
            match self {
                VoicePackage::Installed { .. } => r == (folder_size, None::<u64>),
                VoicePackage::NotInstalled { data, .. } => r == (size_value(data.decompressed_size@), Some(size_value(data.size@))),
            },
    {
        match self {
            Self::Installed { .. } => (folder_size, None),
            Self::NotInstalled { data, .. } => (
                parse_u64(data.decompressed_size.as_str()).unwrap(),
                Some(parse_u64(data.size.as_str()).unwrap()),
            ),
        }
    }

    /// The folder of this voice package in a game installed at `game_path`
    pub fn folder_in(&self, game_path: &str) -> (r: String)
        ensures
            r@ == self.spec_folder_in(game_path@),
    {
        get_voice_package_path(game_path, self.game_edition(), self.locale())
    }

    /// `true` if the package is `VoicePackage::Installed`; otherwise whether
    /// its folder in the game (`folder_in`) exists, which `folder_exists` says
    #[inline]
    pub fn is_installed_in(&self, folder_exists: bool) -> (r: bool)
        ensures
            r == (self is Installed || folder_exists),
    {
        match self {
            Self::Installed { .. } => true,
            Self::NotInstalled { .. } => folder_exists,
        }
    }

    /// Get list of latest voice packages from the latest game information of
    /// the game API
    pub fn list_latest(game_edition: GameEdition, latest: GameLatestInfo) -> (r: Vec<VoicePackage>)
        requires
            parse_version(latest.version@) is Some,
            all_languages_known(latest.audio_pkgs@),
        ensures
            r@.len() == latest.audio_pkgs@.len(),
            forall|i: int| 0 <= i < r@.len() ==> latest_package(
                #[trigger] r@[i],
                latest.audio_pkgs@[i],
                parse_version(latest.version@)->0,
                game_edition,
            ),
    {
        let version = Version::from_str(latest.version.as_str()).unwrap();
        let ghost all = latest.audio_pkgs@;
        let mut rest = latest.audio_pkgs;
        let mut packages: Vec<VoicePackage> = Vec::new();
        let n = rest.len();
        let mut i: usize = 0;
        while i < n
            invariant
                n == all.len(),
                i <= n,
                rest@ == all.skip(i as int),
                all_languages_known(all),
                version@ == parse_version(latest.version@)->0,
                all == latest.audio_pkgs@,
                packages@.len() == i,
                forall|j: int| 0 <= j < i ==> latest_package(
                    #[trigger] packages@[j],
                    all[j],
                    parse_version(latest.version@)->0,
                    game_edition,
                ),
            decreases n - i,
        {
            let package = rest.remove(0);
            assert(package == all[i as int]);
            assert(parse_voice_locale(all[i as int].language@) is Some);
            let locale = VoiceLocale::from_str(package.language.as_str()).unwrap();
            packages.push(Self::NotInstalled { locale, version, data: package, game_path: None, game_edition });
            assert(rest@ =~= all.skip(i + 1));
            i += 1;
        }
        packages
    }

    /// Get voice package locale
    #[inline]
    pub fn locale(&self) -> (r: VoiceLocale)
        ensures
            r == self.spec_locale(),
    {
        match self {
            Self::Installed { locale, .. } | Self::NotInstalled { locale, .. } => *locale,
        }
    }

    /// Version of this package: the one it was made with when it is not
    /// installed; otherwise the first three bytes of its `.version` file, or
    /// `latest_version` (the game API's) when there is no such file
    pub fn try_get_version(&self, version_file: Option<&[u8]>, latest_version: &str) -> (r: Version)
        requires
            self is Installed ==> match version_file {
                Some(b) => b@.len() >= 3,
                None => parse_version(latest_version@) is Some,
            },
        ensures
            match self {
                VoicePackage::NotInstalled { version, .. } => r == *version,
                VoicePackage::Installed { .. } => match version_file {
                    Some(b) => r@ == (b@[0], b@[1], b@[2]),
                    None => r@ == parse_version(latest_version@)->0,
                },
            },
    {
        match self {
            Self::NotInstalled { version, .. } => *version,
            Self::Installed { .. } => match version_file {
                Some(curr) => Version::new(curr[0], curr[1], curr[2]),
                None => Version::from_str(latest_version).unwrap(),
            },
        }
    }

    /// The folder to remove to delete this package: its folder in the game
    /// that it belongs to, six levels above an installed package's own
    /// folder
    pub fn delete(&self) -> (r: Result<String, VoicePackageError>)
        ensures
            match self.spec_game_folder() {
                Some(g) => r matches Ok(f) && f@ == self.spec_folder_in(g),
                None => r == Err::<String, VoicePackageError>(VoicePackageError::GameDirectoryNotFound),
            },
    {
        match self {
            VoicePackage::Installed { path, .. } => match ancestor(path.as_str(), 6) {
                Some(game_path) => Ok(self.delete_in(game_path.as_str())),
                None => Err(VoicePackageError::GameDirectoryNotFound),
            },
            VoicePackage::NotInstalled { game_path, .. } => match game_path {
                Some(game_path) => Ok(self.delete_in(game_path.as_str())),
                None => Err(VoicePackageError::GameDirectoryNotFound),
            },
        }
    }

    /// The folder to remove to delete this package from the game at
    /// `game_path`
    pub fn delete_in(&self, game_path: &str) -> (r: String)
        ensures
            r@ == self.spec_folder_in(game_path@),
    {
        self.folder_in(game_path)
    }
}

/// A size field's value
pub open spec fn size_value(s: Seq<char>) -> u64 {
    parse_unsigned(s, u64::MAX as nat)->0 as u64
}

/// Both size fields of a package are `u64` values
pub open spec fn sizes_known(a: AudioPackage) -> bool {
    parse_unsigned(a.size@, u64::MAX as nat) is Some && parse_unsigned(a.decompressed_size@, u64::MAX as nat) is Some
}

/// The package of `list` for locale `l` (the first one with its code)
pub open spec fn audio_for(list: Seq<AudioPackage>, l: VoiceLocale) -> AudioPackage {
    list[first_with_language(list, l.spec_code())]
}

/// `list` has a usable package for locale `l`
pub open spec fn usable_audio(list: Seq<AudioPackage>, l: VoiceLocale) -> bool {
    first_with_language(list, l.spec_code()) >= 0 && sizes_known(audio_for(list, l))
}

/// The bytes of an optional file
pub open spec fn opt_bytes(f: Option<&[u8]>) -> Option<Seq<u8>> {
    match f {
        Some(b) => Some(b@),
        None => None,
    }
}

impl VoicePackage {
    /// Where an update of this package is installed: nowhere that it knows
    /// of when it is installed (its own folder is used), else its game path
    pub open spec fn spec_installation_path(&self) -> Option<Seq<char>> {
        match self {
            VoicePackage::Installed { .. } => None,
            VoicePackage::NotInstalled { game_path, .. } => opt_str(*game_path),
        }
    }

    /// Path of this package's `.version` file, if known
    pub open spec fn spec_version_file_path(&self) -> Option<Seq<char>> {
        match self {
            VoicePackage::Installed { path, .. } => Some(path_join(path@, ".version"@)),
            VoicePackage::NotInstalled { game_path, .. } => match game_path {
                Some(g) => Some(path_join(self.spec_folder_in(g@), ".version"@)),
                None => None,
            },
        }
    }

    /// Version of this package as `try_get_version` finds it
    pub open spec fn spec_version(&self, version_file: Option<Seq<u8>>, latest: Seq<char>) -> VersionParts {
        match self {
            VoicePackage::NotInstalled { version, .. } => version@,
            VoicePackage::Installed { .. } => match version_file {
                Some(b) => (b[0], b[1], b[2]),
                None => parse_version(latest)->0,
            },
        }
    }

    /// Whether `try_get_version` can find a version
    pub open spec fn version_known(&self, version_file: Option<Seq<u8>>, latest: Seq<char>) -> bool {
        self is Installed ==> match version_file {
            Some(b) => b.len() >= 3,
            None => parse_version(latest) is Some,
        }
    }
}

/// The predownload patch that an up to date package of version `c` uses
pub open spec fn voice_predownload(r: GamePackage, c: VersionParts) -> Option<int> {
    match r.pre_download {
        Some(pre) => match pre.major {
            Some(_) => first_match(pre.patches@, c),
            None => None,
        },
        None => None,
    }
}

/// The difference between a voice package and the packages that the game
/// API lists in `r`; `version_file` holds the package's `.version` file, if
/// there is one
pub open spec fn spec_voice_diff(
    p: VoicePackage,
    r: GamePackage,
    version_file: Option<Seq<u8>>,
) -> DiffModel<GameEdition> {
    let edition = p.spec_game_edition();
    let l = p.spec_locale();
    let latest_text = r.main.major.version@;
    if p is Installed {
        let c = p.spec_version(version_file, latest_text);
        if latest_text == version_text(c) {
            match voice_predownload(r, c) {
                Some(k) => {
                    let pre = r.pre_download->0;
                    let a = audio_for(pre.patches@[k].audio_pkgs@, l);
                    DiffModel::Predownload {
                        current: c,
                        latest: parse_version(pre.major->0.version@)->0,
                        uri: a.url@,
                        edition: edition,
                        downloaded_size: size_value(a.size@),
                        unpacked_size: size_value(a.decompressed_size@),
                        installation_path: p.spec_installation_path(),
                        version_file_path: p.spec_version_file_path(),
                        temp_folder: None,
                    }
                },
                None => DiffModel::Latest { version: c, edition: edition },
            }
        } else {
            match first_match(r.main.patches@, c) {
                Some(k) => {
                    let a = audio_for(r.main.patches@[k].audio_pkgs@, l);
                    DiffModel::Diff {
                        current: c,
                        latest: parse_version(latest_text)->0,
                        uri: a.url@,
                        edition: edition,
                        downloaded_size: size_value(a.size@),
                        unpacked_size: size_value(a.decompressed_size@),
                        installation_path: p.spec_installation_path(),
                        version_file_path: p.spec_version_file_path(),
                        temp_folder: None,
                    }
                },
                None => DiffModel::Outdated { current: c, latest: parse_version(latest_text)->0, edition: edition },
            }
        }
    } else {
        let a = audio_for(r.main.major.audio_pkgs@, l);
        DiffModel::NotInstalled {
            latest: parse_version(latest_text)->0,
            edition: edition,
            downloaded_size: size_value(a.size@),
            unpacked_size: size_value(a.decompressed_size@),
            segments_uris: seq![a.url@],
            installation_path: p.spec_installation_path(),
            version_file_path: p.spec_version_file_path(),
            temp_folder: None,
        }
    }
}

/// The inputs on which the difference is defined: the versions it names are
/// valid, the game API lists the package's locale where it is looked for,
/// with sizes that are `u64` values
pub open spec fn voice_diff_defined(p: VoicePackage, r: GamePackage, version_file: Option<Seq<u8>>) -> bool {
    let l = p.spec_locale();
    let latest_text = r.main.major.version@;
    if p is Installed {
        &&& p.version_known(version_file, latest_text)
        &&& {
            let c = p.spec_version(version_file, latest_text);
            if latest_text == version_text(c) {
                match voice_predownload(r, c) {
                    Some(k) => {
                        let pre = r.pre_download->0;
                        parse_version(pre.major->0.version@) is Some && usable_audio(pre.patches@[k].audio_pkgs@, l)
                    },
                    None => true,
                }
            } else {
                &&& parse_version(latest_text) is Some
                &&& match first_match(r.main.patches@, c) {
                    Some(k) => usable_audio(r.main.patches@[k].audio_pkgs@, l),
                    None => true,
                }
            }
        }
    } else {
        parse_version(latest_text) is Some && usable_audio(r.main.major.audio_pkgs@, l)
    }
}

/// Whether `list` has a usable package for locale `l`
fn audio_usable(list: &[AudioPackage], l: VoiceLocale) -> (r: bool)
    ensures
        r == usable_audio(list@, l),
{
    proof {
        lemma_first_with_language(list@, l.spec_code());
    }
    let code = l.to_code();
    let n = list.len();
    let mut i: usize = 0;
    while i < n
        invariant
            n == list@.len(),
            i <= n,
            code@ == l.spec_code(),
            forall|j: int| 0 <= j < i ==> #[trigger] list@[j].language@ != code@,
            first_with_language(list@, code@) < list@.len(),
            first_with_language(list@, code@) >= 0 ==> list@[first_with_language(list@, code@)].language@ == code@,
            first_with_language(list@, code@) >= 0 ==> forall|j: int| 0 <= j < first_with_language(list@, code@) ==> #[trigger] list@[j].language@ != code@,
            first_with_language(list@, code@) < 0 <==> forall|j: int| 0 <= j < list@.len() ==> #[trigger] list@[j].language@ != code@,
        decreases n - i,
    {
        if str_eq(list[i].language.as_str(), code) {
            assert(first_with_language(list@, code@) == i);
            return parse_u64(list[i].size.as_str()).is_some() && parse_u64(list[i].decompressed_size.as_str()).is_some();
        }
        i += 1;
    }
    false
}

/// Whether the difference is defined on these inputs; see
/// `voice_diff_defined`
pub fn voice_diff_ready(p: &VoicePackage, r: &GamePackage, version_file: Option<&[u8]>) -> (b: bool)
    ensures
        b == voice_diff_defined(*p, *r, opt_bytes(version_file)),
{
    let l = p.locale();
    let latest_text = r.main.major.version.as_str();
    let latest_valid = Version::from_str(latest_text).is_some();
    match p {
        VoicePackage::NotInstalled { .. } => latest_valid && audio_usable(r.main.major.audio_pkgs.as_slice(), l),
        VoicePackage::Installed { .. } => {
            let known = match version_file {
                Some(b) => b.len() >= 3,
                None => latest_valid,
            };
            if !known {
                return false;
            }
            let c = p.try_get_version(version_file, latest_text);
            if c.eq_str(latest_text) {
                match &r.pre_download {
                    Some(pre) => match &pre.major {
                        Some(major) => match find_patch(pre.patches.as_slice(), &c) {
                            Some(k) => Version::from_str(major.version.as_str()).is_some()
                                && audio_usable(pre.patches[k].audio_pkgs.as_slice(), l),
                            None => true,
                        },
                        None => true,
                    },
                    None => true,
                }
            } else {
                latest_valid && match find_patch(r.main.patches.as_slice(), &c) {
                    Some(k) => audio_usable(r.main.patches[k].audio_pkgs.as_slice(), l),
                    None => true,
                }
            }
        },
    }
}

impl VoicePackage {
    fn installation_path(&self) -> (r: Option<String>)
        ensures
            opt_str(r) == self.spec_installation_path(),
    {
        match self {
            VoicePackage::Installed { .. } => None,
            VoicePackage::NotInstalled { game_path, .. } => match game_path {
                Some(g) => Some(g.clone()),
                None => None,
            },
        }
    }

    fn version_file_path(&self) -> (r: Option<String>)
        ensures
            opt_str(r) == self.spec_version_file_path(),
    {
        match self {
            VoicePackage::Installed { path, .. } => Some(join(path.as_str(), ".version")),
            VoicePackage::NotInstalled { game_path, .. } => match game_path {
                Some(g) => {
                    let folder = self.folder_in(g.as_str());
                    Some(join(folder.as_str(), ".version"))
                },
                None => None,
            },
        }
    }

    /// Difference between this voice package and the latest one that the
    /// game API lists in `response`; `version_file` is the content of the
    /// package's `.version` file, if there is one
    pub fn try_get_diff(&self, response: GamePackage, version_file: Option<&[u8]>) -> (r: VersionDiff<GameEdition>)
        requires
            voice_diff_defined(*self, response, opt_bytes(version_file)),
        ensures
            r@ == spec_voice_diff(*self, response, opt_bytes(version_file)),
    {
        let edition = self.game_edition();
        let locale = self.locale();
        let ghost l = locale;
        let ghost rr = response;
        let GamePackage { main, pre_download, .. } = response;
        if self.is_installed() {
            let current = self.try_get_version(version_file, main.major.version.as_str());
            if current.eq_str(main.major.version.as_str()) {
                if let Some(pre) = pre_download {
                    if let Some(pre_major) = pre.major {
                        if let Some(k) = find_patch(pre.patches.as_slice(), &current) {
                            let mut patches = pre.patches;
                            let patch = patches.remove(k);
                            let diff = find_voice_pack(patch.audio_pkgs, locale);
                            let downloaded_size = parse_u64(diff.size.as_str()).unwrap();
                            let unpacked_size = parse_u64(diff.decompressed_size.as_str()).unwrap();
                            let latest = Version::from_str(pre_major.version.as_str()).unwrap();
                            return VersionDiff::Predownload {
                                current,
                                latest,
                                uri: diff.url,
                                edition,
                                downloaded_size,
                                unpacked_size,
                                installation_path: self.installation_path(),
                                version_file_path: self.version_file_path(),
                                temp_folder: None,
                            };
                        }
                    }
                }
                VersionDiff::Latest { version: current, edition }
            } else {
                let latest = Version::from_str(main.major.version.as_str()).unwrap();
                match find_patch(main.patches.as_slice(), &current) {
                    Some(k) => {
                        let mut patches = main.patches;
                        let patch = patches.remove(k);
                        let diff = find_voice_pack(patch.audio_pkgs, locale);
                        let downloaded_size = parse_u64(diff.size.as_str()).unwrap();
                        let unpacked_size = parse_u64(diff.decompressed_size.as_str()).unwrap();
                        VersionDiff::Diff {
                            current,
                            latest,
                            uri: diff.url,
                            edition,
                            downloaded_size,
                            unpacked_size,
                            installation_path: self.installation_path(),
                            version_file_path: self.version_file_path(),
                            temp_folder: None,
                        }
                    },
                    None => VersionDiff::Outdated { current, latest, edition },
                }
            }
        } else {
            let latest = Version::from_str(main.major.version.as_str()).unwrap();
            let package = find_voice_pack(main.major.audio_pkgs, locale);
            let downloaded_size = parse_u64(package.size.as_str()).unwrap();
            let unpacked_size = parse_u64(package.decompressed_size.as_str()).unwrap();
            let mut segments_uris: Vec<String> = Vec::new();
            segments_uris.push(package.url);
            assert(segments_uris@.map_values(|s: String| s@) =~= seq![audio_for(rr.main.major.audio_pkgs@, l).url@]);
            VersionDiff::NotInstalled {
                latest,
                edition,
                downloaded_size,
                unpacked_size,
                segments_uris,
                installation_path: self.installation_path(),
                version_file_path: self.version_file_path(),
                temp_folder: None,
            }
        }
    }
}

/// A voice package's folder in a game, read back with `new`, names the
/// package's locale: its file name is the locale's folder name, which
/// `VoiceLocale::from_str` reads as that locale
pub proof fn lemma_folder_reads_back(p: VoicePackage, game_path: Seq<char>)
    ensures
        path_file_name(p.spec_folder_in(game_path)) == Some(p.spec_locale().spec_folder()),
        parse_voice_locale(p.spec_locale().spec_folder()) == Some(p.spec_locale()),
{
    crate::games::genshin::voice_data::locale::lemma_folder_is_plain(p.spec_locale());
    crate::games::genshin::voice_data::locale::lemma_voice_locale_roundtrip(p.spec_locale());
    crate::paths::lemma_file_name_of_join(spec_voice_packages_path(game_path), p.spec_locale().spec_folder());
}

/// The components of a game's voice packages folder: the game's, then the
/// data folder and `Persistent/Audio/AudioPackage/Windows`
proof fn lemma_packages_components(g: Seq<char>)
    ensures
        components(spec_voice_packages_path(g)) == components(g) + seq![
            "StarRail_Data"@,
            "Persistent"@,
            "Audio"@,
            "AudioPackage"@,
            "Windows"@,
        ],
        is_absolute(spec_voice_packages_path(g)) == is_absolute(g),
{
    reveal_strlit("StarRail_Data");
    reveal_strlit("Persistent");
    reveal_strlit("Audio");
    reveal_strlit("AudioPackage");
    reveal_strlit("Windows");
    reveal_strlit("Persistent/Audio/AudioPackage/Windows");
    reveal_with_fuel(no_separator, 14);
    let d = "StarRail_Data"@;
    let a = "Persistent"@;
    let b = "Audio"@;
    let c = "AudioPackage"@;
    let w = "Windows"@;
    crate::paths::lemma_plain_name(d);
    crate::paths::lemma_plain_name(a);
    crate::paths::lemma_plain_name(b);
    crate::paths::lemma_plain_name(c);
    crate::paths::lemma_plain_name(w);
    let rel = "Persistent/Audio/AudioPackage/Windows"@;
    let ab = path_join(a, b);
    let abc = path_join(ab, c);
    assert(ab =~= a + seq!['/'] + b);
    assert(abc =~= ab + seq!['/'] + c);
    assert(rel =~= path_join(abc, w));
    crate::paths::lemma_components_name(a);
    crate::paths::lemma_components_join(a, b);
    crate::paths::lemma_components_join(ab, c);
    crate::paths::lemma_components_join(abc, w);
    crate::paths::lemma_components_name(d);
    crate::paths::lemma_components_join_rel(g, d);
    crate::paths::lemma_components_join_rel(path_join(g, d), rel);
    crate::paths::lemma_join_absolute(g, d);
    crate::paths::lemma_join_absolute(path_join(g, d), rel);
    assert(components(g) + seq![d] + seq![a].push(b).push(c).push(w) =~= components(g) + seq![d, a, b, c, w]);
}

/// The components of a voice package's folder in a game, and whether it
/// starts at the root
proof fn lemma_folder_components(p: VoicePackage, g: Seq<char>)
    ensures
        components(p.spec_folder_in(g)) == components(spec_voice_packages_path(g)).push(p.spec_locale().spec_folder()),
        is_absolute(p.spec_folder_in(g)) == is_absolute(g),
{
    crate::games::genshin::voice_data::locale::lemma_folder_is_plain(p.spec_locale());
    lemma_packages_components(g);
    crate::paths::lemma_components_join(spec_voice_packages_path(g), p.spec_locale().spec_folder());
    crate::paths::lemma_join_absolute(spec_voice_packages_path(g), p.spec_locale().spec_folder());
}

/// Deleting a voice package that is installed in a game's voice packages
/// folder removes that very folder: `delete` finds a game folder, and the
/// package's folder in it is the same place as the package's own path
pub proof fn lemma_delete_removes_own_folder(p: VoicePackage, g: Seq<char>)
    requires
        p matches VoicePackage::Installed { path, .. } && path@ == p.spec_folder_in(g),
    ensures
        p.spec_game_folder() matches Some(gf) && same_location(p.spec_folder_in(gf), p.spec_folder_in(g)),
{
    let own = p.spec_folder_in(g);
    lemma_folder_components(p, g);
    lemma_packages_components(g);
    let c = components(own);
    assert(c.len() == components(g).len() + 6);
    crate::paths::lemma_ancestor(own, 6);
    assert(c.take(c.len() - 6) =~= components(g));
    let gf = crate::paths::rebuilt(is_absolute(g), components(g));
    assert(p.spec_game_folder() == Some(gf));
    crate::paths::lemma_rebuilt_same_location(g);
    lemma_folder_components(p, gf);
    lemma_packages_components(gf);
    if !(components(g).len() > 0 || is_absolute(g)) {
        assert(gf =~= Seq::<char>::empty());
    }
    assert(components(p.spec_folder_in(gf)) =~= c);
}

} // verus!
