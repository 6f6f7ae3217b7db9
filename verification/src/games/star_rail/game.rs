use vstd::prelude::*;
use crate::games::genshin::api::schema::GamePackage;
use crate::games::package_diff::{package_diff, spec_package_diff, package_diff_defined, found_parts};
use crate::paths::{join, path_join};
use crate::strings::{is_digit, digit_value, parse_u8, unsigned_digits, digits_value, all_digits};
use crate::version::{Version, VersionParts, opt_parts};
use crate::version_scan::{VersionNotFound, pick, pick_version};
use super::consts::GameEdition;
use super::version_diff::VersionDiff;

verus! {

/// A line that starts with `d.d.d`, each `d` an ASCII digit
pub open spec fn version_prefix(line: Seq<char>) -> bool {
    line.len() >= 5 && is_digit(line[0]) && line[1] == '.' && is_digit(line[2]) && line[3] == '.'
        && is_digit(line[4])
}

/// Version that a line starting with `d.d.d` names
pub open spec fn prefix_version(line: Seq<char>) -> VersionParts {
    (digit_value(line[0]) as u8, digit_value(line[2]) as u8, digit_value(line[4]) as u8)
}

pub open spec fn is_first_version_line(lines: Seq<Seq<char>>, i: int) -> bool {
    0 <= i < lines.len() && version_prefix(lines[i]) && forall|j: int| 0 <= j < i ==> !version_prefix(lines[j])
}

/// Version named by the first line that starts with `d.d.d`
pub open spec fn first_version_line(lines: Seq<Seq<char>>) -> Option<VersionParts> {
    if exists|i: int| is_first_version_line(lines, i) {
        Some(prefix_version(lines[choose|i: int| is_first_version_line(lines, i)]))
    } else {
        None
    }
}

/// The three digits at the start of a line, captured by the regular
/// expression `^([0-9])\.([0-9])\.([0-9])`.
///
/// Trusted: `regex::Regex::new` compiles this pattern, and
/// `regex::Regex::captures` matches when the line starts with an ASCII digit,
/// a dot, a digit, a dot and a digit; its three groups are those digits.
#[verifier::external_body]
fn capture_version_prefix(line: &str) -> (r: Option<(String, String, String)>)
    ensures
        r is Some <==> version_prefix(line@),
        r matches Some(t) ==> t.0@ == seq![line@[0]] && t.1@ == seq![line@[2]] && t.2@ == seq![line@[4]],
{
    let re = regex::Regex::new(r"^([0-9])\.([0-9])\.([0-9])").ok()?;
    let caps = re.captures(line)?;
    Some((caps.get(1)?.as_str().to_string(), caps.get(2)?.as_str().to_string(), caps.get(3)?.as_str().to_string()))
}

/// Value of a one digit string
fn digit_string_value(s: &str) -> (r: u8)
    requires
        s@.len() == 1,
        is_digit(s@[0]),
    ensures
        r == digit_value(s@[0]),
{
    proof {
        assert(s@[0] != '+');
        assert(unsigned_digits(s@) == s@);
        assert(s@.drop_last() =~= Seq::<char>::empty());
        assert(digits_value(Seq::<char>::empty()) == 0);
        assert(s@.last() == s@[0]);
        assert(digits_value(s@) == digit_value(s@[0]));
        assert(all_digits(s@));
    }
    match parse_u8(s) {
        Some(v) => v,
        None => 0,
    }
}

/// Version named by the first line that starts with `d.d.d`
pub fn find_version_line(lines: &[String]) -> (r: Option<Version>)
    ensures
        opt_parts(r) == first_version_line(lines@.map_values(|l: String| l@)),
{
    let ghost ls = lines@.map_values(|l: String| l@);
    let n = lines.len();
    let mut i: usize = 0;
    while i < n
        invariant
            n == lines@.len(),
            ls == lines@.map_values(|l: String| l@),
            i <= n,
            forall|j: int| 0 <= j < i ==> !version_prefix(ls[j]),
        decreases n - i,
    {
        assert(ls[i as int] == lines@[i as int]@);
        if let Some((a, b, c)) = capture_version_prefix(lines[i].as_str()) {
            let major = digit_string_value(a.as_str());
            let minor = digit_string_value(b.as_str());
            let patch = digit_string_value(c.as_str());
            proof {
                assert(is_first_version_line(ls, i as int));
                let k = choose|k: int| is_first_version_line(ls, k);
                if k < i {
                    assert(!version_prefix(ls[k]));
                } else if i < k {
                    assert(!version_prefix(ls[i as int]));
                }
            }
            return Some(Version::new(major, minor, patch));
        }
        i += 1;
    }
    None
}

#[derive(Debug, Clone, PartialEq, Eq)]
pub struct Game {
    path: String,
    edition: GameEdition,
}

impl Game {
    pub closed spec fn spec_path(&self) -> Seq<char> {
        self.path@
    }

    pub closed spec fn spec_edition(&self) -> GameEdition {
        self.edition
    }

    #[inline]
    pub fn new(path: &str, edition: GameEdition) -> (r: Self)
        ensures
            r.spec_path() == path@,
            r.spec_edition() == edition,
    {
        Self { path: path.to_owned(), edition }
    }

    #[inline]
    pub fn path(&self) -> (r: &str)
        ensures
            r@ == self.spec_path(),
    {
        self.path.as_str()
    }

    #[inline]
    pub fn edition(&self) -> (r: GameEdition)
        ensures
            r == self.spec_edition(),
    {
        self.edition
    }

    /// Path of the `.version` file of this installation
    pub fn version_file(&self) -> (r: String)
        ensures
            r@ == path_join(self.spec_path(), ".version"@),
    {
        join(self.path.as_str(), ".version")
    }

    /// Path of the game data file that names the installed version
    pub fn version_data_file(&self) -> (r: String)
        ensures
            r@ == path_join(path_join(self.spec_path(), "StarRail_Data"@), "data.unity3d"@),
    {
        let data = join(self.path.as_str(), self.edition.data_folder());
        join(data.as_str(), "data.unity3d")
    }

    /// Installed game version, from the strings of the game data file (the
    /// first one that starts with `d.d.d`) and the version stored in the
    /// `.version` file; the stored one wins when it is newer
    pub fn get_version(&self, stored_version: Option<Version>, data_strings: &[String]) -> (r: Result<Version, VersionNotFound>)
        ensures
            match pick_version(first_version_line(data_strings@.map_values(|l: String| l@)), opt_parts(stored_version)) {
                Some(v) => r matches Ok(x) && x@ == v,
                None => r is Err,
            },
    {
        let found = find_version_line(data_strings);
        pick(found, stored_version)
    }

    /// Difference between this installation and the package that the game
    /// API lists; `installed` says whether the game folder exists, `current`
    /// is what `get_version` gave and `folder_empty` whether the game folder
    /// is empty
    pub fn try_get_diff<Er>(&self, package: &GamePackage, installed: bool, current: Result<Version, Er>, folder_empty: bool) -> (r: Result<VersionDiff, Er>)
        requires
            package_diff_defined(*package, installed, found_parts(current), folder_empty),
        ensures
            match spec_package_diff(*package, self.spec_edition(), self.spec_path(), installed, found_parts(current), folder_empty) {
                Some(m) => r matches Ok(d) && d@ == m,
                None => r is Err && current is Err && r->Err_0 == current->Err_0,
            },
    {
        package_diff(package, self.edition, self.path.as_str(), installed, current, folder_empty)
    }
}

} // verus!
