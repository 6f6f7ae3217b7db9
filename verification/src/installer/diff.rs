use vstd::prelude::*;
use crate::strings::parse_unsigned;
use crate::version::{Version, VersionParts};
use crate::games::package_diff::opt_str;

verus! {

/// Difference between an installed component and the latest one, where
/// updates are downloaded as one archive
#[derive(Debug, Clone, PartialEq, Eq)]
pub enum VersionDiff {
    /// Latest version
    Latest(Version),
    /// Component's update can be predownloaded, but you still can use it
    Predownload {
        current: Version,
        latest: Version,
        url: String,
        download_size: u64,
        unpacked_size: u64,
        /// Path to the folder this difference should be installed to
        unpacking_path: Option<String>,
    },
    /// Component should be updated before using it
    Diff {
        current: Version,
        latest: Version,
        url: String,
        download_size: u64,
        unpacked_size: u64,
        unpacking_path: Option<String>,
    },
    /// Difference can't be calculated because installed version is too old
    Outdated { current: Version, latest: Version },
    /// Component is not yet installed
    NotInstalled {
        latest: Version,
        url: String,
        download_size: u64,
        unpacked_size: u64,
        unpacking_path: Option<String>,
    },
}

/// Mathematical value of a `VersionDiff`
pub enum ArchiveDiff {
    Latest(VersionParts),
    Predownload {
        current: VersionParts,
        latest: VersionParts,
        url: Seq<char>,
        download_size: u64,
        unpacked_size: u64,
        unpacking_path: Option<Seq<char>>,
    },
    Diff {
        current: VersionParts,
        latest: VersionParts,
        url: Seq<char>,
        download_size: u64,
        unpacked_size: u64,
        unpacking_path: Option<Seq<char>>,
    },
    Outdated { current: VersionParts, latest: VersionParts },
    NotInstalled {
        latest: VersionParts,
        url: Seq<char>,
        download_size: u64,
        unpacked_size: u64,
        unpacking_path: Option<Seq<char>>,
    },
}

impl View for VersionDiff {
    type V = ArchiveDiff;

    open spec fn view(&self) -> ArchiveDiff {
        match self {
            VersionDiff::Latest(v) => ArchiveDiff::Latest(v@),
            VersionDiff::Predownload { current, latest, url, download_size, unpacked_size, unpacking_path } => ArchiveDiff::Predownload {
                current: current@,
                latest: latest@,
                url: url@,
                download_size: *download_size,
                unpacked_size: *unpacked_size,
                unpacking_path: opt_str(*unpacking_path),
            },
            VersionDiff::Diff { current, latest, url, download_size, unpacked_size, unpacking_path } => ArchiveDiff::Diff {
                current: current@,
                latest: latest@,
                url: url@,
                download_size: *download_size,
                unpacked_size: *unpacked_size,
                unpacking_path: opt_str(*unpacking_path),
            },
            VersionDiff::Outdated { current, latest } => ArchiveDiff::Outdated { current: current@, latest: latest@ },
            VersionDiff::NotInstalled { latest, url, download_size, unpacked_size, unpacking_path } => ArchiveDiff::NotInstalled {
                latest: latest@,
                url: url@,
                download_size: *download_size,
                unpacked_size: *unpacked_size,
                unpacking_path: opt_str(*unpacking_path),
            },
        }
    }
}

/// The archive of a difference was read from an API entry at `path`: it is
/// downloaded from there, the entry's `size` (read as std reads a `u64`) is
/// what is downloaded and its `package_size` what unpacking gives
pub open spec fn archive_read(
    url: Seq<char>,
    download_size: u64,
    unpacked_size: u64,
    path: Seq<char>,
    size: Seq<char>,
    package_size: Seq<char>,
) -> bool {
    &&& url == path
    &&& parse_unsigned(size, u64::MAX as nat) == Some(download_size as nat)
    &&& parse_unsigned(package_size, u64::MAX as nat) == Some(unpacked_size as nat)
}

} // verus!
