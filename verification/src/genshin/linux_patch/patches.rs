use vstd::prelude::*;
use vstd::string::StringSliceAdditionalSpecFns;
use vstd::utf8::{encode_utf8, is_ascii_chars, is_ascii_chars_encode_utf8};
use crate::strings::{digit_char, lemma_digit_char};
use crate::paths::{path_file_name, no_separator, lemma_plain_name, lemma_file_name_of_join};
use crate::version::{Version, VersionParts, parts_lt, version_plain_text};
use crate::strings::{to_chars, from_chars, contains, str_contains};
use crate::text::{chars_lt, first_greatest};
use crate::text::{checked_byte_len, byte_len, is_byte_boundary, char_at_byte, char_index_at_byte, chars_byte_len, text_lines, split_lines, lemma_ascii_prefix};
use crate::paths::{join, path_join};
use crate::digest::{md5_hex, md5_hex_of};
use super::patch::{Regions, RegionsModel, PatchStatus, spec_is_applied};
use crate::games::package_diff::opt_str;

verus! {

/// If this line is commented in the `patch.sh` or `patch_anti_logincrash.sh` file,
/// then it's stable version. Otherwise it's in testing phase
pub open spec fn stability_mark() -> Seq<char> {
    "#echo \"If you would like to test this patch, modify this script and remove the line below this one.\""@
}

/// How a patch script's line that checks a library's hash starts
pub open spec fn sum_prefix() -> Seq<char> {
    "if [ \"${sum}\" == \""@
}

/// A line that checks the hash of the patched library: more than 20 bytes
/// long, starting with `if [ "${sum}" == "`
pub open spec fn is_hash_line(line: Seq<char>) -> bool {
    byte_len(line) > 20 && line.len() >= 18 && line.take(18) == sum_prefix()
}

/// The lines that the hash search can slice: a line longer than 20 bytes
/// has a character starting at byte 18, and a hash line is at least 27
/// bytes long with a character starting 9 bytes before its end
pub open spec fn line_safe(line: Seq<char>) -> bool {
    &&& byte_len(line) <= usize::MAX
    &&& byte_len(line) <= 20 || {
        &&& is_byte_boundary(line, 18)
        &&& is_hash_line(line) ==> byte_len(line) >= 27 && is_byte_boundary(line, byte_len(line) - 9)
    }
}

/// What a hash line holds: the text from byte 18 to 9 bytes before its end
/// when that is 32 bytes long
pub open spec fn line_hash(line: Seq<char>) -> Option<Seq<char>> {
    let h = line.subrange(18, char_at_byte(line, byte_len(line) - 9));
    if byte_len(h) == 32 {
        Some(h)
    } else {
        None
    }
}

/// The hashes of the hash lines, in order
pub open spec fn lines_hashes(lines: Seq<Seq<char>>) -> Seq<Option<Seq<char>>>
    decreases lines.len(),
{
    if lines.len() == 0 {
        seq![]
    } else {
        let prev = lines_hashes(lines.drop_last());
        if is_hash_line(lines.last()) {
            prev.push(line_hash(lines.last()))
        } else {
            prev
        }
    }
}

/// Every line of a script can be searched for hashes
pub open spec fn script_safe(script: Seq<char>) -> bool {
    forall|i: int| 0 <= i < text_lines(script).len() ==> line_safe(#[trigger] text_lines(script)[i])
}

/// The unpatched library hashes that a script lists
pub open spec fn script_hashes(script: Seq<char>) -> Seq<Option<Seq<char>>> {
    lines_hashes(text_lines(script))
}

/// The hashes make up the regions of a patch: at most two, and not two
/// unknown ones
pub open spec fn hashes_usable(h: Seq<Option<Seq<char>>>) -> bool {
    h.len() <= 2 && (h.len() == 2 && h[0] is None ==> h[1] is Some)
}

/// The regions that some hashes describe: one known hash is the global
/// one; of two, the first is the global one and the second the Chinese one
pub open spec fn regions_of(h: Seq<Option<Seq<char>>>) -> Option<RegionsModel> {
    if h.len() == 1 {
        match h[0] {
            Some(g) => Some(RegionsModel::Global(g)),
            None => None,
        }
    } else if h.len() == 2 {
        match (h[0], h[1]) {
            (None, c) => Some(RegionsModel::China(c->0)),
            (Some(g), None) => Some(RegionsModel::Global(g)),
            (Some(g), Some(c)) => Some(RegionsModel::Both { global: g, china: c }),
        }
    } else {
        None
    }
}

/// Mathematical value of `PatchStatus`
pub enum StatusModel {
    NotAvailable,
    Outdated { current: VersionParts, latest: VersionParts },
    Preparation { version: VersionParts },
    Testing { version: VersionParts, player_hash: RegionsModel },
    Available { version: VersionParts, player_hash: RegionsModel },
}

impl View for PatchStatus {
    type V = StatusModel;

    open spec fn view(&self) -> StatusModel {
        match self {
            PatchStatus::NotAvailable => StatusModel::NotAvailable,
            PatchStatus::Outdated { current, latest } => StatusModel::Outdated { current: current@, latest: latest@ },
            PatchStatus::Preparation { version } => StatusModel::Preparation { version: version@ },
            PatchStatus::Testing { version, player_hash } => StatusModel::Testing { version: version@, player_hash: player_hash@ },
            PatchStatus::Available { version, player_hash } => StatusModel::Available { version: version@, player_hash: player_hash@ },
        }
    }
}

/// The status of the newest patch, of version `version`, when the latest
/// game version is `latest` and the patch script is `script`: outdated when
/// older than the game; else available when the script's stability mark is
/// commented out, in testing when not, and in preparation when the script
/// lists no usable library hash
pub open spec fn spec_status(version: VersionParts, latest: VersionParts, script: Seq<char>) -> StatusModel {
    if parts_lt(version, latest) {
        StatusModel::Outdated { current: version, latest: latest }
    } else {
        match regions_of(script_hashes(script)) {
            Some(h) => if contains(script, stability_mark()) {
                StatusModel::Available { version: version, player_hash: h }
            } else {
                StatusModel::Testing { version: version, player_hash: h }
            },
            None => StatusModel::Preparation { version: version },
        }
    }
}

/// The scripts whose status can be read
pub open spec fn status_defined(version: VersionParts, latest: VersionParts, script: Seq<char>) -> bool {
    parts_lt(version, latest) || (script_safe(script) && hashes_usable(script_hashes(script)))
}

/// Whether a line starts with `if [ "${sum}" == "`
fn starts_with_sum(line: &[char]) -> (r: bool)
    ensures
        r == (line@.len() >= 18 && line@.take(18) == sum_prefix()),
{
    proof {
        reveal_strlit("if [ \"${sum}\" == \"");
    }
    if line.len() < 18 {
        return false;
    }
    let prefix = to_chars("if [ \"${sum}\" == \"");
    let mut k: usize = 0;
    while k < 18
        invariant
            k <= 18,
            18 <= line@.len(),
            prefix@ == sum_prefix(),
            prefix@.len() == 18,
            forall|j: int| 0 <= j < k ==> line@[j] == prefix@[j],
        decreases 18 - k,
    {
        if line[k] != prefix[k] {
            assert(line@.take(18)[k as int] != sum_prefix()[k as int]);
            return false;
        }
        k += 1;
    }
    assert(line@.take(18) =~= sum_prefix());
    true
}

/// Whether the hash search can slice a line
fn line_readable(line: &[char]) -> (r: bool)
    ensures
        r == line_safe(line@),
{
    let total = match checked_byte_len(line) {
        Some(n) => n,
        None => return false,
    };
    if total <= 20 {
        return true;
    }
    if char_index_at_byte(line, 18).is_none() {
        return false;
    }
    if starts_with_sum(line) {
        total >= 27 && char_index_at_byte(line, total - 9).is_some()
    } else {
        true
    }
}

/// Whether the status of a patch script can be read: every line can be
/// searched for hashes, and the hashes make up the regions of a patch
pub fn script_readable(script: &str) -> (r: bool)
    ensures
        r == (script_safe(script@) && hashes_usable(script_hashes(script@))),
{
    let chars = to_chars(script);
    let lines = split_lines(chars.as_slice());
    let ghost lv = lines@.map_values(|v: Vec<char>| v@);
    assert(lv == text_lines(script@));
    let n = lines.len();
    let mut i: usize = 0;
    while i < n
        invariant
            n == lines@.len(),
            lv == lines@.map_values(|v: Vec<char>| v@),
            lv == text_lines(script@),
            i <= n,
            forall|j: int| 0 <= j < i ==> line_safe(#[trigger] lv[j]),
        decreases n - i,
    {
        assert(lv[i as int] == lines@[i as int]@);
        if !line_readable(lines[i].as_slice()) {
            return false;
        }
        i += 1;
    }
    let hashes = player_hashes(script);
    let ghost hv = hashes@.map_values(|o: Option<String>| opt_str(o));
    assert(hv == script_hashes(script@));
    if hashes.len() > 2 {
        return false;
    }
    if hashes.len() == 2 {
        assert(hv[0] == opt_str(hashes@[0]) && hv[1] == opt_str(hashes@[1]));
        return !(hashes[0].is_none() && hashes[1].is_none());
    }
    true
}

/// The hash that a hash line holds, if any
fn hash_in_line(line: &[char]) -> (r: Option<Option<String>>)
    requires
        line_safe(line@),
    ensures
        match r {
            Some(h) => is_hash_line(line@) && match line_hash(line@) {
                Some(x) => h matches Some(s) && s@ == x,
                None => h is None,
            },
            None => !is_hash_line(line@),
        },
{
    let total = chars_byte_len(line);
    if total <= 20 || !starts_with_sum(line) {
        return None;
    }
    assert(is_hash_line(line@));
    proof {
        reveal_strlit("if [ \"${sum}\" == \"");
        assert forall|i: int| 0 <= i < 18 implies (#[trigger] line@[i] as u32) < 0x80 by {
            assert(line@[i] == line@.take(18)[i]);
            assert(line@[i] == sum_prefix()[i]);
        }
        lemma_ascii_prefix(line@, 18);
    }
    let end = char_index_at_byte(line, total - 9).unwrap();
    proof {
        if end < 18 {
            crate::text::lemma_byte_len_strict(line@, end as int, 18);
        }
        assert(line@.take(end as int) =~= line@.take(18) + line@.subrange(18, end as int));
        crate::text::lemma_byte_len_concat(line@.take(18), line@.subrange(18, end as int));
    }
    let hash = &line[18..end];
    assert(hash@ =~= line@.subrange(18, end as int));
    if total - 27 == 32 {
        Some(Some(from_chars(hash)))
    } else {
        Some(None)
    }
}

/// The unpatched library hashes that a patch script lists, in order: one
/// entry for each hash line, with its hash when that is 32 bytes long
pub fn player_hashes(script: &str) -> (r: Vec<Option<String>>)
    requires
        script_safe(script@),
    ensures
        r@.map_values(|o: Option<String>| opt_str(o)) == script_hashes(script@),
{
    let chars = to_chars(script);
    let lines = split_lines(chars.as_slice());
    let ghost lv = lines@.map_values(|v: Vec<char>| v@);
    assert(lv == text_lines(script@));
    let mut out: Vec<Option<String>> = Vec::new();
    let n = lines.len();
    let mut i: usize = 0;
    while i < n
        invariant
            n == lines@.len(),
            lv == lines@.map_values(|v: Vec<char>| v@),
            lv == text_lines(script@),
            script_safe(script@),
            i <= n,
            out@.map_values(|o: Option<String>| opt_str(o)) == lines_hashes(lv.take(i as int)),
        decreases n - i,
    {
        assert(lv[i as int] == lines@[i as int]@);
        assert(line_safe(text_lines(script@)[i as int]));
        assert(lv.take(i + 1).drop_last() =~= lv.take(i as int));
        let ghost before = out@;
        match hash_in_line(lines[i].as_slice()) {
            Some(h) => {
                out.push(h);
                assert(out@.map_values(|o: Option<String>| opt_str(o)) =~= before.map_values(|o: Option<String>| opt_str(o)).push(line_hash(lv[i as int])));
            },
            None => {},
        }
        i += 1;
    }
    assert(lv.take(n as int) =~= lv);
    out
}

/// The regions that the hashes of a patch script describe
pub fn player_hash(hashes: Vec<Option<String>>) -> (r: Option<Regions>)
    requires
        hashes_usable(hashes@.map_values(|o: Option<String>| opt_str(o))),
    ensures
        match regions_of(hashes@.map_values(|o: Option<String>| opt_str(o))) {
            Some(m) => r matches Some(x) && x@ == m,
            None => r is None,
        },
{
    let ghost hv = hashes@.map_values(|o: Option<String>| opt_str(o));
    let mut hashes = hashes;
    if hashes.len() == 1 {
        let h0 = hashes.remove(0);
        match h0 {
            Some(g) => Some(Regions::Global(g)),
            None => None,
        }
    } else if hashes.len() == 2 {
        let h1 = hashes.remove(1);
        let h0 = hashes.remove(0);
        assert(hv[0] == opt_str(h0) && hv[1] == opt_str(h1));
        match h0 {
            None => Some(Regions::China(h1.unwrap())),
            Some(g) => match h1 {
                None => Some(Regions::Global(g)),
                Some(c) => Some(Regions::Both { global: g, china: c }),
            },
        }
    } else {
        None
    }
}

/// The version of a patch from the name of its folder: its first three
/// bytes are decimal digits
pub fn folder_version(name: &str) -> (r: Version)
    requires
        name.spec_bytes().len() >= 3,
        name.spec_bytes()[0] >= 48 && name.spec_bytes()[1] >= 48 && name.spec_bytes()[2] >= 48,
    ensures
        r@ == ((name.spec_bytes()[0] - 48) as u8, (name.spec_bytes()[1] - 48) as u8, (name.spec_bytes()[2] - 48) as u8),
{
    let b = name.as_bytes();
    Version::new(b[0] - 48, b[1] - 48, b[2] - 48)
}

/// Status of the newest patch, of version `version`, whose script is
/// `script`, when the latest game version is `latest` (the script is not
/// read when the patch is outdated); see `spec_status`
pub fn status_for(version: Version, latest: Version, script: &str) -> (r: PatchStatus)
    requires
        status_defined(version@, latest@, script@),
    ensures
        r@ == spec_status(version@, latest@, script@),
{
    if version.lt(&latest) {
        return PatchStatus::Outdated { current: version, latest };
    }
    let hashes = player_hashes(script);
    match player_hash(hashes) {
        Some(player_hash) => {
            proof {
                reveal_strlit("#echo \"If you would like to test this patch, modify this script and remove the line below this one.\"");
            }
            if str_contains(script, "#echo \"If you would like to test this patch, modify this script and remove the line below this one.\"") {
                PatchStatus::Available { version, player_hash }
            } else {
                PatchStatus::Testing { version, player_hash }
            }
        },
        None => PatchStatus::Preparation { version },
    }
}

/// Whether a library with the hash `hash` is patched, for a patch of some
/// status: only a testing or an available patch can be applied
pub open spec fn status_applied(status: StatusModel, hash: Seq<char>) -> bool {
    match status {
        StatusModel::Testing { player_hash, .. } => spec_is_applied(player_hash, hash),
        StatusModel::Available { player_hash, .. } => spec_is_applied(player_hash, hash),
        _ => false,
    }
}

/// The version of a patch that can be applied or reverted
pub open spec fn usable_version(status: StatusModel) -> Option<VersionParts> {
    match status {
        StatusModel::Testing { version, .. } => Some(version),
        StatusModel::Available { version, .. } => Some(version),
        _ => None,
    }
}

/// Why a patch could not be applied or reverted: it is not available
#[derive(Debug, Clone, Copy, PartialEq, Eq, Structural)]
pub enum PatchError {
    NotAvailable,
}

pub trait PatchExt {
    /// Current patch repository folder
    spec fn spec_patch_folder(&self) -> Seq<char>;

    /// Latest available patch status
    spec fn spec_status(&self) -> PatchStatus;

    /// The game library that the patch changes, relative to the game folder
    spec fn spec_library(&self) -> Seq<char>;

    /// The patch script, relative to the patch version's folder
    spec fn spec_script(&self) -> Seq<char>;

    /// Get current patch repository folder
    fn folder(&self) -> (r: &str)
        ensures
            r@ == self.spec_patch_folder(),
    ;

    /// Get latest available patch status
    fn status(&self) -> (r: &PatchStatus)
        ensures
            *r == self.spec_status(),
    ;

    /// The game library that the patch changes, relative to the game folder
    fn patching_library(&self) -> (r: &'static str)
        ensures
            r@ == self.spec_library(),
    ;

    /// The patch script, relative to the patch version's folder
    fn patch_script(&self) -> (r: &'static str)
        ensures
            r@ == self.spec_script(),
    ;

    /// Check if the patch is applied to the game, given the content of the
    /// patched library
    fn is_applied(&self, library: &[u8]) -> (r: bool)
        ensures
            r == status_applied(self.spec_status()@, md5_hex(library@)),
    ;

    /// The version whose folder applies or reverts the patch: only a testing
    /// or an available patch has one
    fn usable_version(&self) -> (r: Result<Version, PatchError>)
        ensures
            match usable_version(self.spec_status()@) {
                Some(v) => r matches Ok(x) && x@ == v,
                None => r == Err::<Version, PatchError>(PatchError::NotAvailable),
            },
    ;

    /// The folder of the patch for `version` in the patch repository
    fn version_folder(&self, version: &Version) -> (r: String)
        ensures
            r@ == path_join(self.spec_patch_folder(), version_plain_text(version@)),
    ;
}

#[derive(Debug, Clone, PartialEq, Eq)]
pub struct UnityPlayerPatch {
    pub patch_folder: String,
    pub status: PatchStatus,
}

impl PatchExt for UnityPlayerPatch {
    open spec fn spec_patch_folder(&self) -> Seq<char> {
        self.patch_folder@
    }

    open spec fn spec_status(&self) -> PatchStatus {
        self.status
    }

    open spec fn spec_library(&self) -> Seq<char> {
        "UnityPlayer.dll"@
    }

    open spec fn spec_script(&self) -> Seq<char> {
        "patch.sh"@
    }

    fn folder(&self) -> (r: &str) {
        self.patch_folder.as_str()
    }

    fn status(&self) -> (r: &PatchStatus) {
        &self.status
    }

    fn patching_library(&self) -> (r: &'static str) {
        "UnityPlayer.dll"
    }

    fn patch_script(&self) -> (r: &'static str) {
        "patch.sh"
    }

    fn is_applied(&self, library: &[u8]) -> (r: bool) {
        match &self.status {
            PatchStatus::Testing { player_hash, .. } | PatchStatus::Available { player_hash, .. } => {
                let hash = md5_hex_of(library);
                player_hash.is_applied(hash.as_str())
            },
            _ => false,
        }
    }

    fn usable_version(&self) -> (r: Result<Version, PatchError>) {
        match &self.status {
            PatchStatus::Testing { version, .. } | PatchStatus::Available { version, .. } => Ok(*version),
            _ => Err(PatchError::NotAvailable),
        }
    }

    fn version_folder(&self, version: &Version) -> (r: String) {
        let plain = version.to_plain_string();
        join(self.patch_folder.as_str(), plain.as_str())
    }
}

#[derive(Debug, Clone, PartialEq, Eq)]
pub struct XluaPatch {
    pub patch_folder: String,
    pub status: PatchStatus,
}

impl PatchExt for XluaPatch {
    open spec fn spec_patch_folder(&self) -> Seq<char> {
        self.patch_folder@
    }

    open spec fn spec_status(&self) -> PatchStatus {
        self.status
    }

    open spec fn spec_library(&self) -> Seq<char> {
        "Plugins/xlua.dll"@
    }

    open spec fn spec_script(&self) -> Seq<char> {
        "patch_anti_logincrash.sh"@
    }

    fn folder(&self) -> (r: &str) {
        self.patch_folder.as_str()
    }

    fn status(&self) -> (r: &PatchStatus) {
        &self.status
    }

    fn patching_library(&self) -> (r: &'static str) {
        "Plugins/xlua.dll"
    }

    fn patch_script(&self) -> (r: &'static str) {
        "patch_anti_logincrash.sh"
    }

    fn is_applied(&self, library: &[u8]) -> (r: bool) {
        match &self.status {
            PatchStatus::Testing { player_hash, .. } | PatchStatus::Available { player_hash, .. } => {
                let hash = md5_hex_of(library);
                player_hash.is_applied(hash.as_str())
            },
            _ => false,
        }
    }

    fn usable_version(&self) -> (r: Result<Version, PatchError>) {
        match &self.status {
            PatchStatus::Testing { version, .. } | PatchStatus::Available { version, .. } => Ok(*version),
            _ => Err(PatchError::NotAvailable),
        }
    }

    fn version_folder(&self, version: &Version) -> (r: String) {
        let plain = version.to_plain_string();
        join(self.patch_folder.as_str(), plain.as_str())
    }
}

/// The folder of the newest patch among the candidate folders' names (the
/// first greatest name, as a stable sort in descending order puts first)
pub fn newest_patch_folder(names: &[String]) -> (r: Option<usize>)
    ensures
        match r {
            Some(i) => {
                &&& i < names@.len()
                &&& forall|j: int| 0 <= j < names@.len() ==> !chars_lt(names@[i as int]@, #[trigger] names@[j]@)
                &&& forall|j: int| 0 <= j < i ==> chars_lt(#[trigger] names@[j]@, names@[i as int]@)
            },
            None => names@.len() == 0,
        },
{
    first_greatest(names)
}

/// Whether `i` is the position of the newest of the version folders' names
/// `names`: the first of the greatest
pub open spec fn is_newest(names: Seq<String>, i: int) -> bool {
    &&& 0 <= i < names.len()
    &&& forall|j: int| 0 <= j < names.len() ==> !chars_lt(names[i]@, #[trigger] names[j]@)
    &&& forall|j: int| 0 <= j < i ==> chars_lt(#[trigger] names[j]@, names[i]@)
}

/// The position of the newest of the version folders' names `names`
pub open spec fn newest_of(names: Seq<String>) -> int {
    choose|i: int| is_newest(names, i)
}

/// Whether the name of a version folder starts with three bytes that are
/// at least the digit zero, as the version is read from them
pub open spec fn version_name(name: Seq<char>) -> bool {
    let b = encode_utf8(name);
    b.len() >= 3 && b[0] >= 48 && b[1] >= 48 && b[2] >= 48
}

/// The version that the name of a version folder gives
pub open spec fn name_version(name: Seq<char>) -> VersionParts {
    let b = encode_utf8(name);
    ((b[0] - 48) as u8, (b[1] - 48) as u8, (b[2] - 48) as u8)
}

/// There is only one newest name
pub proof fn lemma_newest_unique(names: Seq<String>, i: int, k: int)
    requires
        is_newest(names, i),
        is_newest(names, k),
    ensures
        i == k,
{
    if i < k {
        assert(chars_lt(names[i]@, names[k]@));
    } else if k < i {
        assert(chars_lt(names[k]@, names[i]@));
    }
}

/// The inputs whose patch status can be read: the newest version folder's
/// name gives a version, and the newest script can be read
pub open spec fn listing_defined(names: Seq<String>, latest: VersionParts, script: Seq<char>) -> bool {
    names.len() > 0 ==> {
        &&& version_name(names[newest_of(names)]@)
        &&& status_defined(name_version(names[newest_of(names)]@), latest, script)
    }
}

/// The status of the patch whose version folders (those that hold a patch
/// script) are named `names`, when the latest game version is `latest`
/// and the script of the newest is `script`
pub open spec fn listing_status(names: Seq<String>, latest: VersionParts, script: Seq<char>) -> StatusModel {
    if names.len() == 0 {
        StatusModel::NotAvailable
    } else {
        spec_status(name_version(names[newest_of(names)]@), latest, script)
    }
}

/// Status of the patch whose version folders (those that hold a patch
/// script) are named `names`, when the latest game version is `latest`
/// and `script` is the script of the newest of them (see
/// `newest_patch_folder`): not available without a version folder
pub fn patch_status(names: &[String], latest: Version, script: &str) -> (r: PatchStatus)
    requires
        listing_defined(names@, latest@, script@),
    ensures
        r@ == listing_status(names@, latest@, script@),
{
    match newest_patch_folder(names) {
        None => PatchStatus::NotAvailable,
        Some(i) => {
            proof {
                assert(is_newest(names@, i as int));
                lemma_newest_unique(names@, i as int, newest_of(names@));
            }
            let name = names[i].as_str();
            let version = folder_version(name);
            status_for(version, latest, script)
        },
    }
}

/// Whether the status of the patch whose version folders are named `names`
/// can be read, when the latest game version is `latest` and `script` is
/// the script of the newest of them (see `listing_defined`)
pub fn listing_readable(names: &[String], latest: Version, script: &str) -> (r: bool)
    ensures
        r == listing_defined(names@, latest@, script@),
{
    match newest_patch_folder(names) {
        None => true,
        Some(i) => {
            proof {
                assert(is_newest(names@, i as int));
                lemma_newest_unique(names@, i as int, newest_of(names@));
            }
            let name = names[i].as_str();
            let b = name.as_bytes();
            if b.len() < 3 || b[0] < 48 || b[1] < 48 || b[2] < 48 {
                return false;
            }
            let version = folder_version(name);
            version.lt(&latest) || script_readable(script)
        },
    }
}

/// The folder in which a patch keeps its files for a version whose numbers
/// are single digits is named after that version, and the patch status
/// reads that name back as the same version
pub proof fn lemma_version_folder_reads_back(patch_folder: Seq<char>, v: VersionParts)
    requires
        v.0 < 10,
        v.1 < 10,
        v.2 < 10,
    ensures
        path_file_name(path_join(patch_folder, version_plain_text(v))) == Some(version_plain_text(v)),
        version_name(version_plain_text(v)),
        name_version(version_plain_text(v)) == v,
{
    let t = version_plain_text(v);
    let (a, b, c) = (digit_char(v.0 as nat), digit_char(v.1 as nat), digit_char(v.2 as nat));
    assert(t =~= seq![a, b, c]);
    assert(a as u8 == 48 + v.0 && b as u8 == 48 + v.1 && c as u8 == 48 + v.2);
    assert(is_ascii_chars(t));
    is_ascii_chars_encode_utf8(t);
    lemma_digit_char(v.0 as nat);
    lemma_digit_char(v.1 as nat);
    lemma_digit_char(v.2 as nat);
    assert(t.drop_first() =~= seq![b, c]);
    assert(t.drop_first().drop_first() =~= seq![c]);
    assert(t.drop_first().drop_first().drop_first() =~= Seq::<char>::empty());
    assert(no_separator(t.drop_first().drop_first().drop_first()));
    assert(no_separator(t.drop_first().drop_first()));
    assert(no_separator(t.drop_first()));
    assert(no_separator(t));
    lemma_plain_name(t);
    lemma_file_name_of_join(patch_folder, t);
}

} // verus!
