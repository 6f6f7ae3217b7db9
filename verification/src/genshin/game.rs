use vstd::prelude::*;
use crate::paths::{join, path_join};
use crate::strings::{parse_u64, parse_unsigned};
use crate::version::{Version, VersionParts, parse_version, version_text, opt_parts};
use crate::version_scan::{VersionNotFound, underscore_scan, scan_start, scan_window, window, find_underscore_version};
use crate::installer::diff::{VersionDiff, ArchiveDiff, archive_read};
use crate::games::package_diff::found_parts;
use super::consts::{GameEdition, get_data_folder_name, spec_data_folder_name};
use super::json_schemas::versions::{Response, Diff};

verus! {

/// A size field's value
pub open spec fn size_value(s: Seq<char>) -> u64 {
    parse_unsigned(s, u64::MAX as nat)->0 as u64
}

/// A size field that holds a `u64` value
pub open spec fn size_known(s: Seq<char>) -> bool {
    parse_unsigned(s, u64::MAX as nat) is Some
}

/// Index of the first difference archive made for version `c`, or -1
pub open spec fn first_diff(diffs: Seq<Diff>, c: VersionParts) -> int
    decreases diffs.len(),
{
    if diffs.len() == 0 {
        -1
    } else if diffs[0].version@ == version_text(c) {
        0
    } else {
        let k = first_diff(diffs.drop_first(), c);
        if k < 0 { -1 } else { k + 1 }
    }
}

pub(crate) proof fn lemma_first_diff(diffs: Seq<Diff>, c: VersionParts)
    ensures
        first_diff(diffs, c) < diffs.len(),
        first_diff(diffs, c) >= 0 ==> diffs[first_diff(diffs, c)].version@ == version_text(c),
        forall|j: int| 0 <= j < diffs.len() && (first_diff(diffs, c) < 0 || j < first_diff(diffs, c))
            ==> #[trigger] diffs[j].version@ != version_text(c),
    decreases diffs.len(),
{
    if diffs.len() > 0 {
        lemma_first_diff(diffs.drop_first(), c);
        assert forall|j: int| 1 <= j < diffs.len() implies #[trigger] diffs[j] == diffs.drop_first()[j - 1] by {}
    }
}

/// Finds the first difference archive made for version `c`
pub fn find_diff(diffs: &[Diff], c: &Version) -> (r: Option<usize>)
    ensures
        match r {
            Some(i) => first_diff(diffs@, c@) == i as int && i < diffs@.len(),
            None => first_diff(diffs@, c@) < 0,
        },
{
    proof {
        lemma_first_diff(diffs@, c@);
    }
    let n = diffs.len();
    let mut i: usize = 0;
    while i < n
        invariant
            n == diffs@.len(),
            i <= n,
            forall|j: int| 0 <= j < i ==> #[trigger] diffs@[j].version@ != version_text(c@),
            first_diff(diffs@, c@) < 0 || first_diff(diffs@, c@) >= i,
            first_diff(diffs@, c@) < diffs@.len(),
            first_diff(diffs@, c@) >= 0 ==> diffs@[first_diff(diffs@, c@)].version@ == version_text(c@),
            forall|j: int| 0 <= j < diffs@.len() && (first_diff(diffs@, c@) < 0 || j < first_diff(diffs@, c@))
                ==> #[trigger] diffs@[j].version@ != version_text(c@),
        decreases n - i,
    {
        if c.eq_str(diffs[i].version.as_str()) {
            assert(diffs@[i as int].version@ == version_text(c@));
            return Some(i);
        }
        i += 1;
    }
    None
}

/// The difference between the game at `path` and the latest one that the
/// game API describes in `r`. `installed` says whether the game is
/// installed and `current` is its version; `None` when it is installed and
/// its version is unknown.
///
/// A game of the latest version is `Latest`, unless the API offers a
/// predownload archive for its version; an older one is `Diff` when an
/// archive is listed for its version and `Outdated` when not
pub open spec fn spec_game_diff(
    path: Seq<char>,
    r: Response,
    installed: bool,
    current: Option<VersionParts>,
) -> Option<ArchiveDiff> {
    let latest = r.data.game.latest;
    if installed {
        match current {
            None => None,
            Some(c) => if latest.version@ == version_text(c) {
                match r.data.pre_download_game {
                    Some(pre) => {
                        let k = first_diff(pre.diffs@, c);
                        if k >= 0 {
                            let d = pre.diffs@[k];
                            Some(ArchiveDiff::Predownload {
                                current: c,
                                latest: parse_version(pre.latest.version@)->0,
                                url: d.path@,
                                download_size: size_value(d.size@),
                                unpacked_size: size_value(d.package_size@),
                                unpacking_path: Some(path),
                            })
                        } else {
                            Some(ArchiveDiff::Latest(c))
                        }
                    },
                    None => Some(ArchiveDiff::Latest(c)),
                }
            } else {
                let k = first_diff(r.data.game.diffs@, c);
                if k >= 0 {
                    let d = r.data.game.diffs@[k];
                    Some(ArchiveDiff::Diff {
                        current: c,
                        latest: parse_version(latest.version@)->0,
                        url: d.path@,
                        download_size: size_value(d.size@),
                        unpacked_size: size_value(d.package_size@),
                        unpacking_path: Some(path),
                    })
                } else {
                    Some(ArchiveDiff::Outdated { current: c, latest: parse_version(latest.version@)->0 })
                }
            },
        }
    } else {
        Some(ArchiveDiff::NotInstalled {
            latest: parse_version(latest.version@)->0,
            url: latest.path@,
            download_size: size_value(latest.size@),
            unpacked_size: size_value(latest.package_size@),
            unpacking_path: Some(path),
        })
    }
}

/// The inputs on which the difference is defined: the versions that it
/// names are valid and the sizes that it reads are `u64` values
pub open spec fn game_diff_defined(r: Response, installed: bool, current: Option<VersionParts>) -> bool {
    let latest = r.data.game.latest;
    if installed {
        match current {
            None => true,
            Some(c) => if latest.version@ == version_text(c) {
                match r.data.pre_download_game {
                    Some(pre) => {
                        let k = first_diff(pre.diffs@, c);
                        k >= 0 ==> {
                            &&& parse_version(pre.latest.version@) is Some
                            &&& size_known(pre.diffs@[k].size@)
                            &&& size_known(pre.diffs@[k].package_size@)
                        }
                    },
                    None => true,
                }
            } else {
                let k = first_diff(r.data.game.diffs@, c);
                &&& parse_version(latest.version@) is Some
                &&& k >= 0 ==> size_known(r.data.game.diffs@[k].size@) && size_known(r.data.game.diffs@[k].package_size@)
            },
        }
    } else {
        parse_version(latest.version@) is Some && size_known(latest.size@) && size_known(latest.package_size@)
    }
}

/// Whether a size field holds a `u64` value
pub fn size_readable(s: &str) -> (r: bool)
    ensures
        r == size_known(s@),
{
    parse_u64(s).is_some()
}

/// Whether the difference is defined on these inputs; see
/// `game_diff_defined`
pub fn game_diff_ready(r: &Response, installed: bool, current: Option<Version>) -> (b: bool)
    ensures
        b == game_diff_defined(*r, installed, opt_parts(current)),
{
    let latest = &r.data.game.latest;
    if !installed {
        return Version::from_str(latest.version.as_str()).is_some() && size_readable(latest.size.as_str())
            && size_readable(latest.package_size.as_str());
    }
    match current {
        None => true,
        Some(c) => {
            if c.eq_str(latest.version.as_str()) {
                match &r.data.pre_download_game {
                    Some(pre) => match find_diff(pre.diffs.as_slice(), &c) {
                        Some(k) => Version::from_str(pre.latest.version.as_str()).is_some()
                            && size_readable(pre.diffs[k].size.as_str()) && size_readable(pre.diffs[k].package_size.as_str()),
                        None => true,
                    },
                    None => true,
                }
            } else {
                Version::from_str(latest.version.as_str()).is_some() && match find_diff(r.data.game.diffs.as_slice(), &c) {
                    Some(k) => size_readable(r.data.game.diffs[k].size.as_str()) && size_readable(r.data.game.diffs[k].package_size.as_str()),
                    None => true,
                }
            }
        },
    }
}

#[derive(Debug, Clone, PartialEq, Eq)]
pub struct Game {
    path: String,
}

impl Game {
    pub closed spec fn spec_path(&self) -> Seq<char> {
        self.path@
    }

    pub fn new(path: &str) -> (r: Self)
        ensures
            r.spec_path() == path@,
    {
        Self { path: path.to_owned() }
    }

    pub fn path(&self) -> (r: &str)
        ensures
            r@ == self.spec_path(),
    {
        self.path.as_str()
    }

    /// Latest game version that the game API names
    pub fn try_get_latest_version(response: &Response) -> (r: Version)
        requires
            parse_version(response.data.game.latest.version@) is Some,
        ensures
            r@ == parse_version(response.data.game.latest.version@)->0,
    {
        Version::from_str(response.data.game.latest.version.as_str()).unwrap()
    }

    /// Path of the game data file whose bytes name the installed version
    pub fn version_data_file(&self, edition: GameEdition) -> (r: String)
        ensures
            r@ == path_join(path_join(self.spec_path(), spec_data_folder_name(edition)), "globalgamemanagers"@),
    {
        let data = join(self.path.as_str(), get_data_folder_name(edition));
        join(data.as_str(), "globalgamemanagers")
    }

    /// Installed game version, from the content of the game data file: the
    /// first `major.minor.patch` sequence that a `_` ends, searched in the
    /// bytes after the first 4000
    pub fn try_get_version(&self, data: &[u8]) -> (r: Result<Version, VersionNotFound>)
        ensures
            match underscore_scan(scan_start(), scan_window(data@)) {
                Some(v) => r matches Ok(x) && x@ == v,
                None => r is Err,
            },
    {
        match find_underscore_version(window(data)) {
            Some(v) => Ok(v),
            None => Err(VersionNotFound),
        }
    }

    /// Folder whose existence shows that the game is of `edition`
    pub fn edition_data_folder(&self, edition: GameEdition) -> (r: String)
        ensures
            r@ == path_join(self.spec_path(), spec_data_folder_name(edition)),
    {
        join(self.path.as_str(), get_data_folder_name(edition))
    }

    /// Game's edition: `None` when the game folder does not exist
    /// (`path_exists`), else the first edition whose data folder exists
    /// (`global_exists`, `china_exists`)
    pub fn get_edition(&self, path_exists: bool, global_exists: bool, china_exists: bool) -> (r: Option<GameEdition>)
        requires
            path_exists ==> global_exists || china_exists,
        ensures
            r == if !path_exists {
                None
            } else if global_exists {
                Some(GameEdition::Global)
            } else {
                Some(GameEdition::China)
            },
    {
        if !path_exists {
            return None;
        }
        if global_exists {
            Some(GameEdition::Global)
        } else {
            Some(GameEdition::China)
        }
    }

    /// Difference between this installation and the latest game that the
    /// game API describes in `response`; see `spec_game_diff`. `installed`
    /// says whether the game is installed, `current` is the result of
    /// `try_get_version`, whose error is returned when the game is installed
    pub fn try_get_diff<Er>(&self, response: Response, installed: bool, current: Result<Version, Er>) -> (r: Result<VersionDiff, Er>)
        requires
            game_diff_defined(response, installed, found_parts(current)),
        ensures
            match spec_game_diff(self.spec_path(), response, installed, found_parts(current)) {
                Some(m) => r matches Ok(d) && d@ == m,
                None => r is Err && current is Err && r->Err_0 == current->Err_0,
            },
    {
        let Response { data, .. } = response;
        let latest = data.game.latest;
        if installed {
            let current = match current {
                Ok(v) => v,
                Err(e) => return Err(e),
            };
            proof {
                lemma_first_diff(data.game.diffs@, current@);
            }
            if current.eq_str(latest.version.as_str()) {
                if let Some(pre) = data.pre_download_game {
                    proof {
                        lemma_first_diff(pre.diffs@, current@);
                    }
                    if let Some(k) = find_diff(pre.diffs.as_slice(), &current) {
                        let d = &pre.diffs[k];
                        return Ok(VersionDiff::Predownload {
                            current,
                            latest: Version::from_str(pre.latest.version.as_str()).unwrap(),
                            url: d.path.clone(),
                            download_size: parse_u64(d.size.as_str()).unwrap(),
                            unpacked_size: parse_u64(d.package_size.as_str()).unwrap(),
                            unpacking_path: Some(self.path.clone()),
                        });
                    }
                }
                Ok(VersionDiff::Latest(current))
            } else {
                let latest_version = Version::from_str(latest.version.as_str()).unwrap();
                match find_diff(data.game.diffs.as_slice(), &current) {
                    Some(k) => {
                        let d = &data.game.diffs[k];
                        Ok(VersionDiff::Diff {
                            current,
                            latest: latest_version,
                            url: d.path.clone(),
                            download_size: parse_u64(d.size.as_str()).unwrap(),
                            unpacked_size: parse_u64(d.package_size.as_str()).unwrap(),
                            unpacking_path: Some(self.path.clone()),
                        })
                    },
                    None => Ok(VersionDiff::Outdated { current, latest: latest_version }),
                }
            }
        } else {
            Ok(VersionDiff::NotInstalled {
                latest: Version::from_str(latest.version.as_str()).unwrap(),
                url: latest.path.clone(),
                download_size: parse_u64(latest.size.as_str()).unwrap(),
                unpacked_size: parse_u64(latest.package_size.as_str()).unwrap(),
                unpacking_path: Some(self.path.clone()),
            })
        }
    }
}

/// Where each difference comes from in the game API's answer `r`: a game
/// that is not installed downloads the latest archive; an installed game
/// of version `c` that is behind the latest one is patched by an archive
/// listed for `c` up to the latest version; an up to date one predownloads
/// an archive that the predownload lists for `c`, up to the predownload's
/// version. Each archive's `size` is what is downloaded and its
/// `package_size` what unpacking gives, and its contents go to the game
/// folder `path`
pub proof fn lemma_game_diff_sources(path: Seq<char>, r: Response, installed: bool, current: Option<VersionParts>)
    requires
        game_diff_defined(r, installed, current),
    ensures
        match spec_game_diff(path, r, installed, current) {
            Some(ArchiveDiff::NotInstalled { latest, url, download_size, unpacked_size, unpacking_path }) => {
                let l = r.data.game.latest;
                &&& !installed
                &&& Some(latest) == parse_version(l.version@)
                &&& archive_read(url, download_size, unpacked_size, l.path@, l.size@, l.package_size@)
                &&& unpacking_path == Some(path)
            },
            Some(ArchiveDiff::Diff { current: c, latest, url, download_size, unpacked_size, unpacking_path }) => {
                &&& installed && current == Some(c)
                &&& Some(latest) == parse_version(r.data.game.latest.version@)
                &&& r.data.game.latest.version@ != version_text(c)
                &&& exists|k: int| 0 <= k < r.data.game.diffs@.len() && #[trigger] r.data.game.diffs@[k].version@ == version_text(c)
                    && archive_read(url, download_size, unpacked_size, r.data.game.diffs@[k].path@, r.data.game.diffs@[k].size@,
                        r.data.game.diffs@[k].package_size@)
                &&& unpacking_path == Some(path)
            },
            Some(ArchiveDiff::Predownload { current: c, latest, url, download_size, unpacked_size, unpacking_path }) => {
                &&& installed && current == Some(c)
                &&& r.data.game.latest.version@ == version_text(c)
                &&& r.data.pre_download_game matches Some(pre) && {
                    &&& Some(latest) == parse_version(pre.latest.version@)
                    &&& exists|k: int| 0 <= k < pre.diffs@.len() && #[trigger] pre.diffs@[k].version@ == version_text(c)
                        && archive_read(url, download_size, unpacked_size, pre.diffs@[k].path@, pre.diffs@[k].size@,
                            pre.diffs@[k].package_size@)
                }
                &&& unpacking_path == Some(path)
            },
            Some(ArchiveDiff::Latest(c)) => installed && current == Some(c),
            Some(ArchiveDiff::Outdated { current: c, latest }) => installed && current == Some(c)
                && Some(latest) == parse_version(r.data.game.latest.version@),
            None => installed && current is None,
        },
{
    if installed {
        if let Some(c) = current {
            if r.data.game.latest.version@ == version_text(c) {
                if let Some(pre) = r.data.pre_download_game {
                    lemma_first_diff(pre.diffs@, c);
                }
            } else {
                lemma_first_diff(r.data.game.diffs@, c);
            }
        }
    }
}

} // verus!
