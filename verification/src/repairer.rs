use vstd::prelude::*;
use crate::paths::{components, path_components, is_absolute};
use crate::strings::{to_chars, from_chars};
use crate::text::{text_lines, split_lines};

verus! {

/// A file of a game as its integrity list describes it
#[derive(Debug, Clone, PartialEq, Eq)]
pub struct IntegrityFile {
    /// Path relative to the game folder
    pub path: String,
    /// MD5 hash of the file's content
    pub md5: String,
    /// Size of the file in bytes
    pub size: u64,
    /// URL that the file's path is relative to
    pub base_url: String,
}

/// Whether the first segment of a path is `.`
pub open spec fn starts_at_current_dir(p: Seq<char>) -> bool {
    !is_absolute(p) && p.len() > 0 && p[0] == '.' && (p.len() == 1 || p[1] == '/')
}

/// Whether two Unix paths are equal as std's `Path` compares them: the
/// same start (the root, the current folder or neither) and the same
/// components
pub open spec fn path_eq(a: Seq<char>, b: Seq<char>) -> bool {
    &&& is_absolute(a) == is_absolute(b)
    &&& starts_at_current_dir(a) == starts_at_current_dir(b)
    &&& components(a) == components(b)
}

fn starts_with_current_dir(p: &[char]) -> (r: bool)
    ensures
        r == starts_at_current_dir(p@),
{
    p.len() > 0 && p[0] == '.' && (p.len() == 1 || p[1] == '/')
}

fn segments_equal(a: &Vec<Vec<char>>, b: &Vec<Vec<char>>) -> (r: bool)
    ensures
        r == (a@.map_values(|v: Vec<char>| v@) == b@.map_values(|v: Vec<char>| v@)),
{
    let ghost av = a@.map_values(|v: Vec<char>| v@);
    let ghost bv = b@.map_values(|v: Vec<char>| v@);
    if a.len() != b.len() {
        assert(av.len() != bv.len());
        return false;
    }
    let n = a.len();
    let mut i: usize = 0;
    while i < n
        invariant
            n == a@.len(),
            n == b@.len(),
            av == a@.map_values(|v: Vec<char>| v@),
            bv == b@.map_values(|v: Vec<char>| v@),
            i <= n,
            forall|j: int| 0 <= j < i ==> av[j] == bv[j],
        decreases n - i,
    {
        if !crate::strings::chars_eq(a[i].as_slice(), b[i].as_slice()) {
            assert(av[i as int] != bv[i as int]);
            return false;
        }
        i += 1;
    }
    assert(av =~= bv);
    true
}

/// Whether two paths are equal (see `path_eq`)
pub fn paths_equal(a: &str, b: &str) -> (r: bool)
    ensures
        r == path_eq(a@, b@),
{
    let ac = to_chars(a);
    let bc = to_chars(b);
    let a_abs = ac.len() > 0 && ac[0] == '/';
    let b_abs = bc.len() > 0 && bc[0] == '/';
    if a_abs != b_abs {
        return false;
    }
    if starts_with_current_dir(ac.as_slice()) != starts_with_current_dir(bc.as_slice()) {
        return false;
    }
    let a_comps = path_components(a);
    let b_comps = path_components(b);
    segments_equal(&a_comps, &b_comps)
}

/// Index of the first file whose path is `relative_path`, or -1
pub open spec fn first_file_at(files: Seq<IntegrityFile>, relative_path: Seq<char>) -> int
    decreases files.len(),
{
    if files.len() == 0 {
        -1
    } else if path_eq(files[0].path@, relative_path) {
        0
    } else {
        let k = first_file_at(files.drop_first(), relative_path);
        if k < 0 { -1 } else { k + 1 }
    }
}

proof fn lemma_first_file_at(files: Seq<IntegrityFile>, relative_path: Seq<char>)
    ensures
        first_file_at(files, relative_path) < files.len(),
        first_file_at(files, relative_path) >= 0 ==> path_eq(files[first_file_at(files, relative_path)].path@, relative_path),
        forall|j: int| 0 <= j < files.len() && (first_file_at(files, relative_path) < 0 || j < first_file_at(files, relative_path))
            ==> !path_eq(#[trigger] files[j].path@, relative_path),
    decreases files.len(),
{
    if files.len() > 0 {
        lemma_first_file_at(files.drop_first(), relative_path);
        assert forall|j: int| 1 <= j < files.len() implies #[trigger] files[j] == files.drop_first()[j - 1] by {}
    }
}

/// The first file of a list whose path is `relative_path`
pub open spec fn file_at(files: Seq<IntegrityFile>, relative_path: Seq<char>) -> Option<IntegrityFile> {
    let k = first_file_at(files, relative_path);
    if k >= 0 {
        Some(files[k])
    } else {
        None
    }
}

/// Finds the first file of `files` whose path is `relative_path`
pub fn find_integrity_file(files: Vec<IntegrityFile>, relative_path: &str) -> (r: Option<IntegrityFile>)
    ensures
        r == file_at(files@, relative_path@),
{
    proof {
        lemma_first_file_at(files@, relative_path@);
    }
    let ghost all = files@;
    let mut rest = files;
    let n = rest.len();
    let mut i: usize = 0;
    while i < n
        invariant
            rest@ == all,
            all == files@,
            n == all.len(),
            i <= n,
            first_file_at(all, relative_path@) < 0 || first_file_at(all, relative_path@) >= i,
            first_file_at(all, relative_path@) < all.len(),
            first_file_at(all, relative_path@) >= 0 ==> path_eq(all[first_file_at(all, relative_path@)].path@, relative_path@),
            forall|j: int| 0 <= j < all.len() && (first_file_at(all, relative_path@) < 0 || j < first_file_at(all, relative_path@))
                ==> !path_eq(#[trigger] all[j].path@, relative_path@),
        decreases n - i,
    {
        if paths_equal(rest[i].path.as_str(), relative_path) {
            assert(path_eq(all[i as int].path@, relative_path@));
            return Some(rest.remove(i));
        }
        i += 1;
    }
    None
}

/// The file at `relative_path` in the first list that has one, among the
/// lists that could be fetched (`None` for one that could not)
pub open spec fn file_in_lists(lists: Seq<Option<Seq<IntegrityFile>>>, relative_path: Seq<char>) -> Option<IntegrityFile>
    decreases lists.len(),
{
    if lists.len() == 0 {
        None
    } else {
        match lists[0] {
            Some(files) => match file_at(files, relative_path) {
                Some(f) => Some(f),
                None => file_in_lists(lists.drop_first(), relative_path),
            },
            None => file_in_lists(lists.drop_first(), relative_path),
        }
    }
}

/// The view of lists of files that could or could not be fetched
pub open spec fn lists_view(lists: Seq<Option<Vec<IntegrityFile>>>) -> Seq<Option<Seq<IntegrityFile>>> {
    lists.map_values(|o: Option<Vec<IntegrityFile>>| match o {
        Some(v) => Some(v@),
        None => None,
    })
}

/// Finds the file at `relative_path` in the first list that has one; a list
/// that could not be fetched is `None` and skipped
pub fn find_in_lists(lists: Vec<Option<Vec<IntegrityFile>>>, relative_path: &str) -> (r: Option<IntegrityFile>)
    ensures
        r == file_in_lists(lists_view(lists@), relative_path@),
{
    let ghost all = lists_view(lists@);
    let mut rest = lists;
    let n = rest.len();
    let mut i: usize = 0;
    assert(all.skip(0) =~= all);
    while i < n
        invariant
            n == all.len(),
            all == lists_view(lists@),
            i <= n,
            rest@.len() == n - i,
            lists_view(rest@) == all.skip(i as int),
            file_in_lists(all, relative_path@) == file_in_lists(all.skip(i as int), relative_path@),
        decreases n - i,
    {
        let ghost before = rest@;
        let list = rest.remove(0);
        proof {
            assert(lists_view(before)[0] == all.skip(i as int)[0]);
            assert(all.skip(i as int).drop_first() =~= all.skip(i + 1));
            assert(lists_view(rest@) =~= all.skip(i + 1));
        }
        match list {
            Some(files) => {
                assert(all.skip(i as int)[0] == Some(files@));
                match find_integrity_file(files, relative_path) {
                    Some(f) => {
                        return Some(f);
                    },
                    None => {},
                }
            },
            None => {
                assert(all.skip(i as int)[0] is None);
            },
        }
        i += 1;
    }
    None
}

/// What serde_json reads of a line of a `pkg_version` file: `None` when the
/// line is no JSON value; else its `remoteName` and `md5` strings and its
/// `fileSize` number, each `None` where it is missing or of another type
pub uninterp spec fn json_entry(line: Seq<char>) -> Option<(Option<Seq<char>>, Option<Seq<char>>, Option<u64>)>;

/// Fields of a `pkg_version` entry as sequences of characters
pub open spec fn entry_view(e: Option<(Option<String>, Option<String>, Option<u64>)>) -> Option<(Option<Seq<char>>, Option<Seq<char>>, Option<u64>)> {
    match e {
        Some((a, b, c)) => Some((crate::games::package_diff::opt_str(a), crate::games::package_diff::opt_str(b), c)),
        None => None,
    }
}

/// Parses a line with serde_json (`serde_json::from_str::<Value>`) and reads
/// its `remoteName`, `md5` and `fileSize` fields; the result is named
/// `json_entry(line)`
#[verifier::external_body]
fn read_json_entry(line: &str) -> (r: Option<(Option<String>, Option<String>, Option<u64>)>)
    ensures
        entry_view(r) == json_entry(line@),
{
    match serde_json::from_str::<serde_json::Value>(line) {
        Ok(value) => Some((
            value["remoteName"].as_str().map(String::from),
            value["md5"].as_str().map(String::from),
            value["fileSize"].as_u64(),
        )),
        Err(_) => None,
    }
}

/// An entry that describes a file has all three fields
pub open spec fn entry_complete(e: Option<(Option<Seq<char>>, Option<Seq<char>>, Option<u64>)>) -> bool {
    e matches Some((a, b, c)) ==> a is Some && b is Some && c is Some
}

/// The files that entries describe, in order: one for each JSON line, with
/// the `base_url` that their paths are relative to
pub open spec fn entries_files(
    es: Seq<Option<(Option<Seq<char>>, Option<Seq<char>>, Option<u64>)>>,
    base_url: Seq<char>,
) -> Seq<(Seq<char>, Seq<char>, u64, Seq<char>)>
    decreases es.len(),
{
    if es.len() == 0 {
        seq![]
    } else {
        let prev = entries_files(es.drop_last(), base_url);
        match es.last() {
            Some((a, b, c)) => prev.push((a->0, b->0, c->0, base_url)),
            None => prev,
        }
    }
}

/// A file as the values of its fields
pub open spec fn file_view(f: IntegrityFile) -> (Seq<char>, Seq<char>, u64, Seq<char>) {
    (f.path@, f.md5@, f.size, f.base_url@)
}

/// The files that the entries read from a `pkg_version` file describe,
/// relative to `base_url`
pub fn integrity_files_of(
    entries: Vec<Option<(Option<String>, Option<String>, Option<u64>)>>,
    base_url: &str,
) -> (r: Vec<IntegrityFile>)
    requires
        forall|i: int| 0 <= i < entries@.len() ==> entry_complete(#[trigger] entry_view(entries@[i])),
    ensures
        r@.map_values(|f: IntegrityFile| file_view(f)) == entries_files(entries@.map_values(|e| entry_view(e)), base_url@),
{
    let ghost all = entries@;
    let ghost ev = all.map_values(|e| entry_view(e));
    let mut rest = entries;
    let mut files: Vec<IntegrityFile> = Vec::new();
    let n = rest.len();
    let mut i: usize = 0;
    while i < n
        invariant
            n == all.len(),
            ev == all.map_values(|e| entry_view(e)),
            forall|k: int| 0 <= k < all.len() ==> entry_complete(#[trigger] entry_view(all[k])),
            i <= n,
            rest@ == all.skip(i as int),
            files@.map_values(|f: IntegrityFile| file_view(f)) == entries_files(ev.take(i as int), base_url@),
        decreases n - i,
    {
        let e = rest.remove(0);
        assert(e == all[i as int]);
        assert(entry_complete(entry_view(all[i as int])));
        assert(ev.take(i + 1).drop_last() =~= ev.take(i as int));
        assert(ev.take(i + 1).last() == entry_view(e));
        let ghost before = files@;
        match e {
            Some((path, md5, size)) => {
                let file = IntegrityFile {
                    path: path.unwrap(),
                    md5: md5.unwrap(),
                    size: size.unwrap(),
                    base_url: base_url.to_owned(),
                };
                files.push(file);
                assert(files@.map_values(|f: IntegrityFile| file_view(f)) =~= before.map_values(|f: IntegrityFile| file_view(f)).push(file_view(file)));
            },
            None => {},
        }
        assert(rest@ =~= all.skip(i + 1));
        i += 1;
    }
    assert(ev.take(n as int) =~= ev);
    files
}

/// The entries of a `pkg_version` file: what serde_json reads of each line
pub open spec fn pkg_version_entries(text: Seq<char>) -> Seq<Option<(Option<Seq<char>>, Option<Seq<char>>, Option<u64>)>> {
    text_lines(text).map_values(|l: Seq<char>| json_entry(l))
}

/// The files that a `pkg_version` file lists (one JSON object per line),
/// relative to `base_url`; `None` when a JSON line lacks one of the
/// `remoteName`, `md5` and `fileSize` fields
pub fn parse_pkg_version(text: &str, base_url: &str) -> (r: Option<Vec<IntegrityFile>>)
    ensures
        match r {
            Some(files) => {
                &&& forall|i: int| 0 <= i < pkg_version_entries(text@).len() ==> entry_complete(#[trigger] pkg_version_entries(text@)[i])
                &&& files@.map_values(|f: IntegrityFile| file_view(f)) == entries_files(pkg_version_entries(text@), base_url@)
            },
            None => exists|i: int| 0 <= i < pkg_version_entries(text@).len() && !entry_complete(#[trigger] pkg_version_entries(text@)[i]),
        },
{
    let chars = to_chars(text);
    let lines = split_lines(chars.as_slice());
    let ghost lv = lines@.map_values(|v: Vec<char>| v@);
    let ghost want = pkg_version_entries(text@);
    let mut entries: Vec<Option<(Option<String>, Option<String>, Option<u64>)>> = Vec::new();
    let n = lines.len();
    let mut i: usize = 0;
    while i < n
        invariant
            n == lines@.len(),
            lv == lines@.map_values(|v: Vec<char>| v@),
            lv == text_lines(text@),
            want == pkg_version_entries(text@),
            i <= n,
            entries@.len() == i,
            forall|k: int| 0 <= k < i ==> #[trigger] entry_view(entries@[k]) == want[k],
            forall|k: int| 0 <= k < i ==> entry_complete(#[trigger] want[k]),
        decreases n - i,
    {
        let line = from_chars(lines[i].as_slice());
        let e = read_json_entry(line.as_str());
        assert(want[i as int] == json_entry(lv[i as int]));
        let complete = match &e {
            Some((a, b, c)) => a.is_some() && b.is_some() && c.is_some(),
            None => true,
        };
        if !complete {
            assert(!entry_complete(want[i as int]));
            return None;
        }
        entries.push(e);
        i += 1;
    }
    assert(entries@.map_values(|e| entry_view(e)) =~= want);
    Some(integrity_files_of(entries, base_url))
}

/// The paths of some files
pub open spec fn paths_of(files: Seq<IntegrityFile>) -> Seq<Seq<char>> {
    files.map_values(|f: IntegrityFile| f.path@)
}

/// The paths of the files that the game uses
pub fn used_paths(files: &[IntegrityFile]) -> (r: Vec<String>)
    ensures
        r@.map_values(|s: String| s@) == paths_of(files@),
{
    let mut r: Vec<String> = Vec::new();
    let n = files.len();
    let mut i: usize = 0;
    while i < n
        invariant
            n == files@.len(),
            i <= n,
            r@.len() == i,
            forall|k: int| 0 <= k < i ==> #[trigger] r@[k]@ == files@[k].path@,
        decreases n - i,
    {
        r.push(files[i].path.clone());
        i += 1;
    }
    assert(r@.map_values(|s: String| s@) =~= paths_of(files@));
    r
}

/// Texts as owned strings
pub fn owned_strings(names: &[&str]) -> (r: Vec<String>)
    ensures
        r@.map_values(|s: String| s@) == names@.map_values(|s: &str| s@),
{
    let mut r: Vec<String> = Vec::new();
    let n = names.len();
    let mut i: usize = 0;
    while i < n
        invariant
            n == names@.len(),
            i <= n,
            r@.len() == i,
            forall|k: int| 0 <= k < i ==> #[trigger] r@[k]@ == names@[k]@,
        decreases n - i,
    {
        r.push(names[i].to_owned());
        i += 1;
    }
    assert(r@.map_values(|s: String| s@) =~= names@.map_values(|s: &str| s@));
    r
}

} // verus!
