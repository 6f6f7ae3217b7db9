use vstd::prelude::*;
use crate::games::pgr::api::resource::schema::Resource;
use crate::games::pgr::version_diff::FilesDiffModel;
use crate::paths::{join, path_join};
use crate::strings::{push_str, push_char, from_chars, to_chars};
use crate::version::{Version, VersionParts, parse_version, parts_lt};
use crate::version_scan::{VersionNotFound, parse_version_file};
use super::api::game::schema::Data;
use super::consts::{GameEdition, DEFAULT_DOWNLOADER_THREADS};
use super::version_diff::VersionDiff;

verus! {

/// A resource path relative to the game folder: its leading `/` removed
pub open spec fn relative_dest(dest: Seq<char>) -> Seq<char> {
    if dest.len() > 0 && dest[0] == '/' {
        dest.drop_first()
    } else {
        dest
    }
}

/// Files to download, relative to the game folder
pub open spec fn resource_files(res: Seq<Resource>) -> Seq<Seq<char>> {
    res.map_values(|r: Resource| relative_dest(r.dest@))
}

/// Total size of some resources
pub open spec fn resources_size(res: Seq<Resource>) -> nat
    decreases res.len(),
{
    if res.len() == 0 {
        0
    } else {
        (resources_size(res.drop_last()) + res.last().size) as nat
    }
}

/// URL of the unpacked game files: the CDN followed by the files' base path
pub open spec fn unpacked_url(cdn: Seq<char>, base_path: Seq<char>) -> Seq<char> {
    cdn + seq!['/'] + base_path
}

/// Difference between the game at `path` and the latest one that the game
/// API describes; `installed` says whether the game folder exists,
/// `current` is the installed version and `folder_empty` whether the folder
/// is empty. `None` when the version is unknown in a folder that is not
/// empty.
pub open spec fn spec_files_diff(
    data: Data,
    cdn: Seq<char>,
    res: Seq<Resource>,
    path: Seq<char>,
    installed: bool,
    current: Option<VersionParts>,
    folder_empty: bool,
) -> Option<FilesDiffModel> {
    let latest = parse_version(data.version@)->0;
    let url = unpacked_url(cdn, data.resourcesBasePath@);
    let files = resource_files(res);
    let total = resources_size(res) as u64;
    if !installed || (current is None && folder_empty) {
        Some(FilesDiffModel::NotInstalled {
            latest,
            unpacked_url: url,
            files,
            total_size: total,
            installation_path: Some(path),
            version_file_path: None,
            threads: DEFAULT_DOWNLOADER_THREADS,
        })
    } else if current is None {
        None
    } else if !parts_lt(current->0, latest) {
        Some(FilesDiffModel::Latest(current->0))
    } else {
        Some(FilesDiffModel::Outdated {
            current: current->0,
            latest,
            unpacked_url: url,
            files,
            total_size: total,
            installation_path: Some(path),
            version_file_path: None,
            threads: DEFAULT_DOWNLOADER_THREADS,
        })
    }
}

/// Paths of resources relative to the game folder
pub fn relative_files(res: &[Resource]) -> (r: Vec<String>)
    ensures
        r@.map_values(|s: String| s@) == resource_files(res@),
{
    let mut r: Vec<String> = Vec::new();
    let n = res.len();
    let mut i: usize = 0;
    while i < n
        invariant
            n == res@.len(),
            i <= n,
            r@.len() == i,
            forall|j: int| 0 <= j < i ==> #[trigger] r@[j]@ == relative_dest(res@[j].dest@),
        decreases n - i,
    {
        let d = to_chars(res[i].dest.as_str());
        if d.len() > 0 && d[0] == '/' {
            let rest = &d.as_slice()[1..d.len()];
            assert(rest@ =~= d@.drop_first());
            r.push(from_chars(rest));
        } else {
            r.push(from_chars(d.as_slice()));
        }
        i += 1;
    }
    assert(r@.map_values(|s: String| s@) =~= resource_files(res@));
    r
}

/// Total size of some resources
pub fn total_size(res: &[Resource]) -> (r: u64)
    requires
        resources_size(res@) <= u64::MAX,
    ensures
        r == resources_size(res@),
{
    let n = res.len();
    let mut sum: u64 = 0;
    let mut i: usize = 0;
    while i < n
        invariant
            n == res@.len(),
            i <= n,
            resources_size(res@) <= u64::MAX,
            sum == resources_size(res@.take(i as int)),
        decreases n - i,
    {
        proof {
            lemma_resources_size_prefix(res@, i + 1, n as int);
            assert(res@.take(n as int) =~= res@);
            assert(res@.take(i + 1).drop_last() =~= res@.take(i as int));
        }
        sum = sum + res[i].size;
        i += 1;
    }
    assert(res@.take(n as int) =~= res@);
    sum
}

/// Whether the total size of some resources fits in `u64`
pub fn total_size_fits(res: &[Resource]) -> (r: bool)
    ensures
        r == (resources_size(res@) <= u64::MAX),
{
    let n = res.len();
    let mut sum: u64 = 0;
    let mut i: usize = 0;
    while i < n
        invariant
            n == res@.len(),
            i <= n,
            sum == resources_size(res@.take(i as int)),
        decreases n - i,
    {
        proof {
            lemma_resources_size_prefix(res@, i + 1, n as int);
            assert(res@.take(n as int) =~= res@);
            assert(res@.take(i + 1).drop_last() =~= res@.take(i as int));
        }
        if res[i].size > u64::MAX - sum {
            return false;
        }
        sum = sum + res[i].size;
        i += 1;
    }
    assert(res@.take(n as int) =~= res@);
    true
}

proof fn lemma_resources_size_prefix(res: Seq<Resource>, i: int, j: int)
    requires
        0 <= i <= j <= res.len(),
    ensures
        resources_size(res.take(i)) <= resources_size(res.take(j)),
    decreases j - i,
{
    if i < j {
        lemma_resources_size_prefix(res, i, j - 1);
        assert(res.take(j).drop_last() =~= res.take(j - 1));
    }
}

#[derive(Debug, Clone, PartialEq, Eq)]
pub struct Game {
    path: String,
    edition: GameEdition,
    /// Compare files sizes instead of computing md5 hashes. `false` by default
    pub fast_verify: bool,
}

impl Game {
    pub closed spec fn spec_path(&self) -> Seq<char> {
        self.path@
    }

    pub closed spec fn spec_edition(&self) -> GameEdition {
        self.edition
    }

    pub closed spec fn spec_fast_verify(&self) -> bool {
        self.fast_verify
    }

    #[inline]
    pub fn new(path: &str, edition: GameEdition) -> (r: Self)
        ensures
            r.spec_path() == path@,
            r.spec_edition() == edition,
            !r.spec_fast_verify(),
    {
        Self { path: path.to_owned(), edition, fast_verify: false }
    }

    #[inline]
    pub fn path(&self) -> (r: &str)
        ensures
            r@ == self.spec_path(),
    {
        self.path.as_str()
    }

    #[inline]
    pub fn edition(&self) -> (r: GameEdition)
        ensures
            r == self.spec_edition(),
    {
        self.edition
    }

    #[inline]
    pub fn with_fast_verify(self, fast_verify: bool) -> (r: Self)
        ensures
            r.spec_path() == self.spec_path(),
            r.spec_edition() == self.spec_edition(),
            r.spec_fast_verify() == fast_verify,
    {
        Self { fast_verify, ..self }
    }

    /// Path of the `.version` file of this installation
    pub fn version_file(&self) -> (r: String)
        ensures
            r@ == path_join(self.spec_path(), ".version"@),
    {
        join(self.path.as_str(), ".version")
    }

    /// Installed version: the one stored in the `.version` file (its first
    /// three bytes), if that file exists
    pub fn get_version(&self, version_file: Option<&[u8]>) -> (r: Result<Version, VersionNotFound>)
        requires
            version_file matches Some(b) ==> b@.len() >= 3,
        ensures
            match version_file {
                Some(b) => r matches Ok(v) && v@ == (b@[0], b@[1], b@[2]),
                None => r is Err,
            },
    {
        match version_file {
            Some(bytes) => Ok(parse_version_file(bytes)),
            None => Err(VersionNotFound),
        }
    }

    /// Difference between this installation and the latest game files: `data`
    /// is the game API's answer, `cdn` the CDN URL that `find_cdn_uri` chose
    /// and `resources` the files the resource API lists
    pub fn try_get_diff<Er>(
        &self,
        data: &Data,
        cdn: &str,
        resources: &[Resource],
        installed: bool,
        current: Result<Version, Er>,
        folder_empty: bool,
    ) -> (r: Result<VersionDiff, Er>)
        requires
            parse_version(data.version@) is Some,
            resources_size(resources@) <= u64::MAX,
        ensures
            match spec_files_diff(*data, cdn@, resources@, self.spec_path(), installed, crate::games::package_diff::found_parts(current), folder_empty) {
                Some(m) => r matches Ok(d) && d@ == m,
                None => r is Err && current is Err && r->Err_0 == current->Err_0,
            },
    {
        let latest = Version::from_str(data.version.as_str()).unwrap();
        let mut url = String::new();
        push_str(&mut url, cdn);
        push_char(&mut url, '/');
        push_str(&mut url, data.resourcesBasePath.as_str());
        let total = total_size(resources);
        let files = relative_files(resources);
        assert(url@ =~= unpacked_url(cdn@, data.resourcesBasePath@));
        assert(files@.map_values(|f: String| f@) =~= resource_files(resources@));
        let not_installed = VersionDiff::NotInstalled {
            latest,
            unpacked_url: url,
            files,
            total_size: total,
            installation_path: Some(self.path.clone()),
            version_file_path: None,
            threads: DEFAULT_DOWNLOADER_THREADS,
        };
        if !installed {
            return Ok(not_installed);
        }
        match current {
            Err(err) => {
                if folder_empty {
                    Ok(not_installed)
                } else {
                    Err(err)
                }
            },
            Ok(current) => {
                if !current.lt(&latest) {
                    Ok(VersionDiff::Latest(current))
                } else {
                    match not_installed {
                        VersionDiff::NotInstalled { latest, unpacked_url, files, total_size, installation_path, version_file_path, threads } => Ok(VersionDiff::Outdated {
                            current,
                            latest,
                            unpacked_url,
                            files,
                            total_size,
                            installation_path,
                            version_file_path,
                            threads,
                        }),
                        other => Ok(other),
                    }
                }
            },
        }
    }
}

} // verus!
