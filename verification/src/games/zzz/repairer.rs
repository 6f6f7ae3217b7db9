use vstd::prelude::*;
use crate::repairer::{IntegrityFile, find_in_lists, file_in_lists, lists_view, used_paths, paths_of, owned_strings, parse_pkg_version, pkg_version_entries, entries_files, entry_complete, file_view};

verus! {

/// The latest game files that a `pkg_version` file lists, relative to the
/// game API's `res_list_url`; `None` when a JSON line of it lacks a field
pub fn try_get_integrity_files(res_list_url: &str, pkg_version: &str) -> (r: Option<Vec<IntegrityFile>>)
    ensures
        match r {
            Some(files) => files@.map_values(|f: IntegrityFile| file_view(f)) == entries_files(pkg_version_entries(pkg_version@), res_list_url@),
            None => exists|i: int| 0 <= i < pkg_version_entries(pkg_version@).len() && !entry_complete(#[trigger] pkg_version_entries(pkg_version@)[i]),
        },
{
    parse_pkg_version(pkg_version, res_list_url)
}

/// Try to get specific integrity file
///
/// `relative_path` must be relative to the game's root folder, so
/// if your file is e.g. `/path/to/[AnimeGame]/[AnimeGame_Data]/level0`, then root folder is `/path/to/[AnimeGame]`,
/// and `relative_path` must be `[AnimeGame_Data]/level0`. `files` are the
/// latest game files, `None` when they could not be fetched
pub fn try_get_integrity_file(relative_path: &str, files: Option<Vec<IntegrityFile>>) -> (r: Option<IntegrityFile>)
    ensures
        r == file_in_lists(lists_view(seq![files]), relative_path@),
{
    let mut lists: Vec<Option<Vec<IntegrityFile>>> = Vec::new();
    lists.push(files);
    find_in_lists(lists, relative_path)
}

/// What the search for files that the game no more uses needs: the paths of
/// the latest game files (the used ones) and the names of the folders to
/// skip
pub fn try_get_unused_files(files: &[IntegrityFile]) -> (r: (Vec<String>, Vec<String>))
    ensures
        r.0@.map_values(|s: String| s@) == paths_of(files@),
        r.1@.map_values(|s: String| s@) == seq!["webCaches"@, "SDKCaches"@, "GeneratedSoundBanks"@, "ScreenShot"@],
{
    let skip = owned_strings(&["webCaches", "SDKCaches", "GeneratedSoundBanks", "ScreenShot"]);
    (used_paths(files), skip)
}

} // verus!
