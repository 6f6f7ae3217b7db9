use vstd::prelude::*;
use crate::version::{Version, VersionParts, opt_parts};
use crate::games::package_diff::opt_str;

verus! {

/// Why a difference could not be downloaded
#[derive(Debug, Clone, PartialEq, Eq)]
pub enum DiffDownloadingError {
    /// Your installation is already up to date and not needed to be updated
    AlreadyLatest,
    /// The path is not on a mounted disk
    PathNotMounted(String),
    /// Not enough free space: path, required and available bytes
    NoSpaceAvailable(String, u64, u64),
    /// Installation path wasn't specified
    PathNotSpecified,
}

/// Difference between the installed game and the latest one; updates are
/// made by downloading files one by one
#[derive(Debug, Clone, PartialEq, Eq)]
pub enum VersionDiff {
    /// Latest version
    Latest(Version),
    /// Update available
    Outdated {
        current: Version,
        latest: Version,
        unpacked_url: String,
        files: Vec<String>,
        total_size: u64,
        /// Path to the folder this difference should be installed by the `install` method
        installation_path: Option<String>,
        /// Optional path to the `.version` file
        version_file_path: Option<String>,
        /// Amount of threads to use during downloading
        threads: usize,
    },
    /// Component is not yet installed
    NotInstalled {
        latest: Version,
        unpacked_url: String,
        files: Vec<String>,
        total_size: u64,
        installation_path: Option<String>,
        version_file_path: Option<String>,
        threads: usize,
    },
}

/// Mathematical value of a `VersionDiff`
pub enum FilesDiffModel {
    Latest(VersionParts),
    Outdated {
        current: VersionParts,
        latest: VersionParts,
        unpacked_url: Seq<char>,
        files: Seq<Seq<char>>,
        total_size: u64,
        installation_path: Option<Seq<char>>,
        version_file_path: Option<Seq<char>>,
        threads: usize,
    },
    NotInstalled {
        latest: VersionParts,
        unpacked_url: Seq<char>,
        files: Seq<Seq<char>>,
        total_size: u64,
        installation_path: Option<Seq<char>>,
        version_file_path: Option<Seq<char>>,
        threads: usize,
    },
}

impl View for VersionDiff {
    type V = FilesDiffModel;

    open spec fn view(&self) -> FilesDiffModel {
        match self {
            VersionDiff::Latest(v) => FilesDiffModel::Latest(v@),
            VersionDiff::Outdated {
                current,
                latest,
                unpacked_url,
                files,
                total_size,
                installation_path,
                version_file_path,
                threads,
            } => FilesDiffModel::Outdated {
                current: current@,
                latest: latest@,
                unpacked_url: unpacked_url@,
                files: files@.map_values(|f: String| f@),
                total_size: *total_size,
                installation_path: opt_str(*installation_path),
                version_file_path: opt_str(*version_file_path),
                threads: *threads,
            },
            VersionDiff::NotInstalled {
                latest,
                unpacked_url,
                files,
                total_size,
                installation_path,
                version_file_path,
                threads,
            } => FilesDiffModel::NotInstalled {
                latest: latest@,
                unpacked_url: unpacked_url@,
                files: files@.map_values(|f: String| f@),
                total_size: *total_size,
                installation_path: opt_str(*installation_path),
                version_file_path: opt_str(*version_file_path),
                threads: *threads,
            },
        }
    }
}

impl VersionDiff {
    /// Get `.version` file path
    pub fn version_file_path(&self) -> (r: Option<String>)
        ensures
            opt_str(r) == match self@ {
                FilesDiffModel::Latest(_) => None,
                FilesDiffModel::Outdated { version_file_path, .. } => version_file_path,
                FilesDiffModel::NotInstalled { version_file_path, .. } => version_file_path,
            },
    {
        match self {
            Self::Latest(_) => None,
            Self::Outdated { version_file_path, .. } | Self::NotInstalled { version_file_path, .. } => version_file_path.clone(),
        }
    }

    /// Files to download
    pub fn files(&self) -> (r: Option<Vec<String>>)
        ensures
            match r {
                Some(fs) => match self@ {
                    FilesDiffModel::Latest(_) => false,
                    FilesDiffModel::Outdated { files, .. } => fs@.map_values(|f: String| f@) == files,
                    FilesDiffModel::NotInstalled { files, .. } => fs@.map_values(|f: String| f@) == files,
                },
                None => self@ is Latest,
            },
    {
        match self {
            Self::Latest(_) => None,
            Self::Outdated { files, .. } | Self::NotInstalled { files, .. } => Some(clone_strings(files)),
        }
    }

    /// Amount of threads to download with
    pub fn threads(&self) -> (r: Option<usize>)
        ensures
            r == match self@ {
                FilesDiffModel::Latest(_) => None,
                FilesDiffModel::Outdated { threads, .. } => Some(threads),
                FilesDiffModel::NotInstalled { threads, .. } => Some(threads),
            },
    {
        match self {
            Self::Latest(_) => None,
            Self::Outdated { threads, .. } | Self::NotInstalled { threads, .. } => Some(*threads),
        }
    }

    pub fn current(&self) -> (r: Option<Version>)
        ensures
            opt_parts(r) == match self@ {
                FilesDiffModel::Latest(v) => Some(v),
                FilesDiffModel::Outdated { current, .. } => Some(current),
                FilesDiffModel::NotInstalled { .. } => None,
            },
    {
        match self {
            Self::Latest(current) | Self::Outdated { current, .. } => Some(*current),
            Self::NotInstalled { .. } => None,
        }
    }

    pub fn latest(&self) -> (r: Version)
        ensures
            r@ == match self@ {
                FilesDiffModel::Latest(v) => v,
                FilesDiffModel::Outdated { latest, .. } => latest,
                FilesDiffModel::NotInstalled { latest, .. } => latest,
            },
    {
        match self {
            Self::Latest(latest) | Self::Outdated { latest, .. } | Self::NotInstalled { latest, .. } => *latest,
        }
    }

    /// Bytes to download; files are not archived, so this is also the
    /// unpacked size
    pub fn downloaded_size(&self) -> (r: Option<u64>)
        ensures
            r == match self@ {
                FilesDiffModel::Latest(_) => None,
                FilesDiffModel::Outdated { total_size, .. } => Some(total_size),
                FilesDiffModel::NotInstalled { total_size, .. } => Some(total_size),
            },
    {
        match self {
            Self::Latest(_) => None,
            Self::Outdated { total_size, .. } | Self::NotInstalled { total_size, .. } => Some(*total_size),
        }
    }

    pub fn unpacked_size(&self) -> (r: Option<u64>)
        ensures
            r == match self@ {
                FilesDiffModel::Latest(_) => None,
                FilesDiffModel::Outdated { total_size, .. } => Some(total_size),
                FilesDiffModel::NotInstalled { total_size, .. } => Some(total_size),
            },
    {
        self.downloaded_size()
    }

    pub fn installation_path(&self) -> (r: Option<&str>)
        ensures
            opt_str_ref(r) == match self@ {
                FilesDiffModel::Latest(_) => None,
                FilesDiffModel::Outdated { installation_path, .. } => installation_path,
                FilesDiffModel::NotInstalled { installation_path, .. } => installation_path,
            },
    {
        match self {
            Self::Latest(_) => None,
            Self::Outdated { installation_path, .. } | Self::NotInstalled { installation_path, .. } => match installation_path {
                Some(path) => Some(path.as_str()),
                None => None,
            },
        }
    }

    /// Base url of the unpacked game folder
    pub fn downloading_uri(&self) -> (r: Option<String>)
        ensures
            opt_str(r) == match self@ {
                FilesDiffModel::Latest(_) => None,
                FilesDiffModel::Outdated { unpacked_url, .. } => Some(unpacked_url),
                FilesDiffModel::NotInstalled { unpacked_url, .. } => Some(unpacked_url),
            },
    {
        match self {
            Self::Latest(_) => None,
            Self::Outdated { unpacked_url, .. } | Self::NotInstalled { unpacked_url, .. } => Some(unpacked_url.clone()),
        }
    }

    /// The free space check made before installing: the installation folder
    /// must be on a mounted disk (`available_space` is its free space) with
    /// room for every file
    pub fn check_free_space(&self, path: &str, available_space: Option<u64>) -> (r: Result<(), DiffDownloadingError>)
        requires
            !(self@ is Latest),
        ensures
            match available_space {
                None => r matches Err(DiffDownloadingError::PathNotMounted(p)) && p@ == path@,
                Some(space) => {
                    let required = match self@ {
                        FilesDiffModel::Outdated { total_size, .. } => total_size,
                        FilesDiffModel::NotInstalled { total_size, .. } => total_size,
                        _ => 0,
                    };
                    if space < required {
                        r matches Err(DiffDownloadingError::NoSpaceAvailable(p, req, avail)) && p@ == path@ && req == required && avail == space
                    } else {
                        r is Ok
                    }
                },
            },
    {
        let required = match self {
            Self::Outdated { total_size, .. } | Self::NotInstalled { total_size, .. } => *total_size,
            Self::Latest(_) => 0,
        };
        match available_space {
            None => Err(DiffDownloadingError::PathNotMounted(path.to_owned())),
            Some(space) => if space < required {
                Err(DiffDownloadingError::NoSpaceAvailable(path.to_owned(), required, space))
            } else {
                Ok(())
            },
        }
    }
}

pub open spec fn opt_str_ref(o: Option<&str>) -> Option<Seq<char>> {
    match o {
        Some(s) => Some(s@),
        None => None,
    }
}

/// A copy of a list of strings
pub fn clone_strings(v: &Vec<String>) -> (r: Vec<String>)
    ensures
        r@.map_values(|s: String| s@) == v@.map_values(|s: String| s@),
{
    let mut r: Vec<String> = Vec::new();
    let n = v.len();
    let mut i: usize = 0;
    while i < n
        invariant
            n == v@.len(),
            i <= n,
            r@.len() == i,
            forall|j: int| 0 <= j < i ==> #[trigger] r@[j]@ == v@[j]@,
        decreases n - i,
    {
        r.push(v[i].clone());
        i += 1;
    }
    assert(r@.map_values(|s: String| s@) =~= v@.map_values(|s: String| s@));
    r
}

} // verus!
