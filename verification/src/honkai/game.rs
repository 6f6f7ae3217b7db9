use vstd::prelude::*;
use crate::paths::{join, path_join};
use crate::strings::parse_u64;
use crate::version::{Version, VersionParts, parse_version, version_text, opt_parts};
use crate::version_scan::{VersionNotFound, nul_scan, scan_start, scan_window, window, find_nul_version};
use crate::installer::diff::{VersionDiff, ArchiveDiff, archive_read};
use crate::games::package_diff::found_parts;
use crate::genshin::game::{size_value, size_known, size_readable};
use super::consts::DATA_FOLDER_NAME;
use super::json_schemas::versions::Response;

verus! {

/// The difference between the game at `path` and the latest one that the
/// game API describes in `r`; `installed` says whether the game is
/// installed and `current` is its version (`None` when it is unknown). The
/// game has no predownloads: an installed game that is not of the latest
/// version is updated with the full archive
pub open spec fn spec_game_diff(path: Seq<char>, r: Response, installed: bool, current: Option<VersionParts>) -> Option<ArchiveDiff> {
    let latest = r.data.game.latest;
    if installed {
        match current {
            None => None,
            Some(c) => if latest.version@ == version_text(c) {
                Some(ArchiveDiff::Latest(c))
            } else {
                Some(ArchiveDiff::Diff {
                    current: c,
                    latest: parse_version(latest.version@)->0,
                    url: latest.path@,
                    download_size: size_value(latest.size@),
                    unpacked_size: size_value(latest.package_size@),
                    unpacking_path: Some(path),
                })
            },
        }
    } else {
        Some(ArchiveDiff::NotInstalled {
            latest: parse_version(latest.version@)->0,
            url: latest.path@,
            download_size: size_value(latest.size@),
            unpacked_size: size_value(latest.package_size@),
            unpacking_path: Some(path),
        })
    }
}

/// The inputs on which the difference is defined: a version and sizes that
/// it reads are valid
pub open spec fn game_diff_defined(r: Response, installed: bool, current: Option<VersionParts>) -> bool {
    let latest = r.data.game.latest;
    let full = parse_version(latest.version@) is Some && size_known(latest.size@) && size_known(latest.package_size@);
    if installed {
        match current {
            None => true,
            Some(c) => latest.version@ != version_text(c) ==> full,
        }
    } else {
        full
    }
}

/// Whether the difference is defined on these inputs; see
/// `game_diff_defined`
pub fn game_diff_ready(r: &Response, installed: bool, current: Option<Version>) -> (b: bool)
    ensures
        b == game_diff_defined(*r, installed, opt_parts(current)),
{
    let latest = &r.data.game.latest;
    let full = Version::from_str(latest.version.as_str()).is_some() && size_readable(latest.size.as_str())
        && size_readable(latest.package_size.as_str());
    if !installed {
        return full;
    }
    match current {
        None => true,
        Some(c) => c.eq_str(latest.version.as_str()) || full,
    }
}

#[derive(Debug, Clone, PartialEq, Eq)]
pub struct Game {
    path: String,
}

impl Game {
    pub closed spec fn spec_path(&self) -> Seq<char> {
        self.path@
    }

    pub fn new(path: &str) -> (r: Self)
        ensures
            r.spec_path() == path@,
    {
        Self { path: path.to_owned() }
    }

    pub fn path(&self) -> (r: &str)
        ensures
            r@ == self.spec_path(),
    {
        self.path.as_str()
    }

    /// Latest game version that the game API names
    pub fn try_get_latest_version(response: &Response) -> (r: Version)
        requires
            parse_version(response.data.game.latest.version@) is Some,
        ensures
            r@ == parse_version(response.data.game.latest.version@)->0,
    {
        Version::from_str(response.data.game.latest.version.as_str()).unwrap()
    }

    /// Path of the game data file whose bytes name the installed version
    pub fn version_data_file(&self) -> (r: String)
        ensures
            r@ == path_join(path_join(self.spec_path(), "BH3_Data"@), "globalgamemanagers"@),
    {
        let data = join(self.path.as_str(), DATA_FOLDER_NAME);
        join(data.as_str(), "globalgamemanagers")
    }

    /// Installed game version, from the content of the game data file: the
    /// first `major.minor.patch` sequence that a NUL byte ends, searched in
    /// the bytes after the first 4000
    pub fn try_get_version(&self, data: &[u8]) -> (r: Result<Version, VersionNotFound>)
        ensures
            match nul_scan(scan_start(), scan_window(data@)) {
                Some(v) => r matches Ok(x) && x@ == v,
                None => r is Err,
            },
    {
        match find_nul_version(window(data)) {
            Some(v) => Ok(v),
            None => Err(VersionNotFound),
        }
    }

    /// Difference between this installation and the latest game that the
    /// game API describes in `response`; see `spec_game_diff`. `installed`
    /// says whether the game is installed, `current` is the result of
    /// `try_get_version`, whose error is returned when the game is installed
    pub fn try_get_diff<Er>(&self, response: Response, installed: bool, current: Result<Version, Er>) -> (r: Result<VersionDiff, Er>)
        requires
            game_diff_defined(response, installed, found_parts(current)),
        ensures
            match spec_game_diff(self.spec_path(), response, installed, found_parts(current)) {
                Some(m) => r matches Ok(d) && d@ == m,
                None => r is Err && current is Err && r->Err_0 == current->Err_0,
            },
    {
        let latest = response.data.game.latest;
        if installed {
            let current = match current {
                Ok(v) => v,
                Err(e) => return Err(e),
            };
            if current.eq_str(latest.version.as_str()) {
                Ok(VersionDiff::Latest(current))
            } else {
                Ok(VersionDiff::Diff {
                    current,
                    latest: Version::from_str(latest.version.as_str()).unwrap(),
                    url: latest.path,
                    download_size: parse_u64(latest.size.as_str()).unwrap(),
                    unpacked_size: parse_u64(latest.package_size.as_str()).unwrap(),
                    unpacking_path: Some(self.path.clone()),
                })
            }
        } else {
            Ok(VersionDiff::NotInstalled {
                latest: Version::from_str(latest.version.as_str()).unwrap(),
                url: latest.path,
                download_size: parse_u64(latest.size.as_str()).unwrap(),
                unpacked_size: parse_u64(latest.package_size.as_str()).unwrap(),
                unpacking_path: Some(self.path.clone()),
            })
        }
    }
}

/// Where each difference comes from in the game API's answer `r`, which
/// lists one archive, that of the latest version: a game that is not
/// installed downloads it, and an installed game of another version `c` is
/// updated with it. The archive's `size` is what is downloaded and its
/// `package_size` what unpacking gives, and its contents go to the game
/// folder `path`
pub proof fn lemma_game_diff_sources(path: Seq<char>, r: Response, installed: bool, current: Option<VersionParts>)
    requires
        game_diff_defined(r, installed, current),
    ensures
        match spec_game_diff(path, r, installed, current) {
            Some(ArchiveDiff::NotInstalled { latest, url, download_size, unpacked_size, unpacking_path }) => {
                let l = r.data.game.latest;
                &&& !installed
                &&& Some(latest) == parse_version(l.version@)
                &&& archive_read(url, download_size, unpacked_size, l.path@, l.size@, l.package_size@)
                &&& unpacking_path == Some(path)
            },
            Some(ArchiveDiff::Diff { current: c, latest, url, download_size, unpacked_size, unpacking_path }) => {
                let l = r.data.game.latest;
                &&& installed && current == Some(c)
                &&& l.version@ != version_text(c)
                &&& Some(latest) == parse_version(l.version@)
                &&& archive_read(url, download_size, unpacked_size, l.path@, l.size@, l.package_size@)
                &&& unpacking_path == Some(path)
            },
            Some(ArchiveDiff::Latest(c)) => installed && current == Some(c) && r.data.game.latest.version@ == version_text(c),
            Some(_) => false,
            None => installed && current is None,
        },
{
}

} // verus!
