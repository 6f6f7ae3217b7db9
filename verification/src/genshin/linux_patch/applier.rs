use vstd::prelude::*;
use crate::version::{Version, parse_version, version_plain_text};
use crate::paths::{join, path_join};

verus! {

/// Why the patch could not be applied or reverted
#[derive(Debug, Clone, Copy, PartialEq, Eq, Structural)]
pub enum ApplierError {
    /// "Failed to get patch version"
    NoPatchVersion,
}

#[derive(Debug, Clone)]
pub struct PatchApplier {
    folder: String,
}

impl PatchApplier {
    pub closed spec fn spec_folder(&self) -> Seq<char> {
        self.folder@
    }

    #[inline]
    pub fn new(folder: &str) -> (r: Self)
        ensures
            r.spec_folder() == folder@,
    {
        Self { folder: folder.to_owned() }
    }

    /// Local patch repository folder
    pub fn folder(&self) -> (r: &str)
        ensures
            r@ == self.spec_folder(),
    {
        self.folder.as_str()
    }

    /// The folder of the patch for `patch_version` in the repository, like
    /// `<folder>/310` for version `3.1.0`; an error when `patch_version`
    /// names no version
    pub fn patch_folder(&self, patch_version: &str) -> (r: Result<String, ApplierError>)
        ensures
            match parse_version(patch_version@) {
                Some(v) => r matches Ok(f) && f@ == path_join(self.spec_folder(), version_plain_text(v)),
                None => r == Err::<String, ApplierError>(ApplierError::NoPatchVersion),
            },
    {
        match Version::from_str(patch_version) {
            Some(version) => {
                let plain = version.to_plain_string();
                Ok(join(self.folder.as_str(), plain.as_str()))
            },
            None => Err(ApplierError::NoPatchVersion),
        }
    }
}

/// What a check of the repository's sync state does next
#[derive(Debug, Clone, PartialEq, Eq)]
pub enum SyncCheck {
    /// Point the repository at this remote and read the remote's head
    Check(String),
    /// The local head is the head of a remote
    Synced,
    /// The folder does not exist, or no remote holds the local head
    NotSynced,
}

/// Mathematical value of a `SyncCheck`
pub enum SyncModel {
    Check(Seq<char>),
    Synced,
    NotSynced,
}

impl View for SyncCheck {
    type V = SyncModel;

    open spec fn view(&self) -> SyncModel {
        match self {
            SyncCheck::Check(s) => SyncModel::Check(s@),
            SyncCheck::Synced => SyncModel::Synced,
            SyncCheck::NotSynced => SyncModel::NotSynced,
        }
    }
}

/// One of the remotes probed so far has the local head
pub open spec fn head_found(remote_heads: Seq<Seq<u8>>, remotes: nat, head: Seq<u8>) -> bool {
    exists|j: int| 0 <= j < remote_heads.len() && j < remotes && #[trigger] remote_heads[j] == head
}

/// The remotes are probed in order until one has the local head `head`;
/// `remote_heads` holds the heads read so far. A repository whose folder
/// does not exist is not in sync
pub open spec fn next_sync_check(folder_exists: bool, remotes: Seq<Seq<char>>, head: Seq<u8>, remote_heads: Seq<Seq<u8>>) -> SyncModel {
    if !folder_exists {
        SyncModel::NotSynced
    } else if head_found(remote_heads, remotes.len(), head) {
        SyncModel::Synced
    } else if remote_heads.len() < remotes.len() {
        SyncModel::Check(remotes[remote_heads.len() as int])
    } else {
        SyncModel::NotSynced
    }
}

/// Next step of the check that the repository holds the latest patch of
/// one of `remotes`: `folder_exists` says whether its folder exists, `head`
/// is its head and `remote_heads` the heads of the remotes probed so far
/// (see `next_sync_check`)
pub fn sync_step(folder_exists: bool, remotes: &[&str], head: &[u8], remote_heads: &[Vec<u8>]) -> (r: SyncCheck)
    ensures
        r@ == next_sync_check(folder_exists, remotes@.map_values(|s: &str| s@), head@, remote_heads@.map_values(|v: Vec<u8>| v@)),
{
    let ghost rh = remote_heads@.map_values(|v: Vec<u8>| v@);
    if !folder_exists {
        return SyncCheck::NotSynced;
    }
    let n = if remotes.len() < remote_heads.len() { remotes.len() } else { remote_heads.len() };
    let mut i: usize = 0;
    while i < n
        invariant
            folder_exists,
            n <= remotes@.len(),
            n <= remote_heads@.len(),
            n == remotes@.len() || n == remote_heads@.len(),
            rh == remote_heads@.map_values(|v: Vec<u8>| v@),
            i <= n,
            forall|j: int| 0 <= j < i ==> #[trigger] rh[j] != head@,
        decreases n - i,
    {
        if bytes_equal(remote_heads[i].as_slice(), head) {
            assert(rh[i as int] == head@);
            assert(remotes@.map_values(|s: &str| s@).len() == remotes@.len());
            assert(head_found(rh, remotes@.map_values(|s: &str| s@).len(), head@));
            return SyncCheck::Synced;
        }
        i += 1;
    }
    assert(remotes@.map_values(|s: &str| s@).len() == remotes@.len());
    assert(!head_found(rh, remotes@.len(), head@));
    if remote_heads.len() < remotes.len() {
        SyncCheck::Check(remotes[remote_heads.len()].to_owned())
    } else {
        SyncCheck::NotSynced
    }
}

/// Whether two byte strings are equal
fn bytes_equal(a: &[u8], b: &[u8]) -> (r: bool)
    ensures
        r == (a@ == b@),
{
    if a.len() != b.len() {
        return false;
    }
    let mut i: usize = 0;
    while i < a.len()
        invariant
            a@.len() == b@.len(),
            i <= a@.len(),
            forall|j: int| 0 <= j < i ==> a@[j] == b@[j],
        decreases a@.len() - i,
    {
        if a[i] != b[i] {
            return false;
        }
        i += 1;
    }
    assert(a@ =~= b@);
    true
}

} // verus!
