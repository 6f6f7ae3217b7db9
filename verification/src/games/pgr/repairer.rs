use vstd::prelude::*;
use crate::repairer::{IntegrityFile, find_in_lists, file_in_lists, lists_view, file_view};
use crate::strings::{to_chars, from_chars, push_str, push_char};
use crate::games::pgr::api::resource::schema::Resource;

verus! {

/// A resource's path relative to the game folder: its destination without
/// the leading `/`
pub open spec fn resource_path(dest: Seq<char>) -> Seq<char> {
    if dest.len() > 0 && dest[0] == '/' {
        dest.drop_first()
    } else {
        dest
    }
}

/// The integrity file that a resource describes
pub open spec fn resource_file(r: Resource, base_url: Seq<char>) -> (Seq<char>, Seq<char>, u64, Seq<char>) {
    (resource_path(r.dest@), r.md5@, r.size, base_url)
}

/// List latest game files: the resources that the resource API lists, whose
/// URLs are relative to `<api_base_uri>/<resources_base_path>` (the game
/// API's `resourcesBasePath`)
pub fn try_get_integrity_files(api_base_uri: &str, resources_base_path: &str, resources: Vec<Resource>) -> (r: Vec<IntegrityFile>)
    ensures
        r@.len() == resources@.len(),
        forall|i: int| 0 <= i < r@.len() ==> file_view(#[trigger] r@[i]) == resource_file(
            resources@[i],
            api_base_uri@ + seq!['/'] + resources_base_path@,
        ),
{
    let mut base = String::new();
    push_str(&mut base, api_base_uri);
    push_char(&mut base, '/');
    push_str(&mut base, resources_base_path);
    let ghost b = base@;
    assert(b =~= api_base_uri@ + seq!['/'] + resources_base_path@);
    let ghost all = resources@;
    let mut rest = resources;
    let mut files: Vec<IntegrityFile> = Vec::new();
    let n = rest.len();
    let mut i: usize = 0;
    while i < n
        invariant
            n == all.len(),
            all == resources@,
            i <= n,
            rest@ == all.skip(i as int),
            base@ == b,
            files@.len() == i,
            forall|k: int| 0 <= k < i ==> file_view(#[trigger] files@[k]) == resource_file(all[k], b),
        decreases n - i,
    {
        let res = rest.remove(0);
        assert(res == all[i as int]);
        let d = to_chars(res.dest.as_str());
        let path = if d.len() > 0 && d[0] == '/' {
            let tail = &d.as_slice()[1..d.len()];
            assert(tail@ =~= d@.drop_first());
            from_chars(tail)
        } else {
            from_chars(d.as_slice())
        };
        files.push(IntegrityFile { path, md5: res.md5, size: res.size, base_url: base.clone() });
        assert(rest@ =~= all.skip(i + 1));
        i += 1;
    }
    files
}

/// Try to get specific integrity file
///
/// `relative_path` must be relative to the game's root folder, so
/// if your file is e.g. `/path/to/[AnimeGame]/[AnimeGame_Data]/level0`, then root folder is `/path/to/[AnimeGame]`,
/// and `relative_path` must be `[AnimeGame_Data]/level0`. `files` are the
/// latest game files, `None` when they could not be fetched
pub fn try_get_integrity_file(relative_path: &str, files: Option<Vec<IntegrityFile>>) -> (r: Option<IntegrityFile>)
    ensures
        r == file_in_lists(lists_view(seq![files]), relative_path@),
{
    let mut lists: Vec<Option<Vec<IntegrityFile>>> = Vec::new();
    lists.push(files);
    find_in_lists(lists, relative_path)
}

} // verus!
