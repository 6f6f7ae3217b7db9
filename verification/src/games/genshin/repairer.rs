use vstd::prelude::*;
use crate::repairer::{IntegrityFile, find_in_lists, file_in_lists, lists_view, used_paths, paths_of, owned_strings};

verus! {

/// Try to get specific integrity file.
///
/// `relative_path` must be relative to the game's root folder, so if your file
/// is e.g. `/path/to/[AnimeGame]/[AnimeGame_Data]/level0`, then root folder is
/// `/path/to/[AnimeGame]`, and `relative_path` must be `[AnimeGame_Data]/level0`.
///
/// `game_files` is the list of the latest game files and `voice_files` the
/// lists of the latest voice package files, in the order of
/// `VoiceLocale::list`; a list that could not be fetched is `None`. The
/// game files are searched first
pub fn try_get_integrity_file(
    relative_path: &str,
    game_files: Option<Vec<IntegrityFile>>,
    voice_files: Vec<Option<Vec<IntegrityFile>>>,
) -> (r: Option<IntegrityFile>)
    ensures
        r == file_in_lists(lists_view(seq![game_files] + voice_files@), relative_path@),
{
    let mut lists: Vec<Option<Vec<IntegrityFile>>> = Vec::new();
    lists.push(game_files);
    let mut voice_files = voice_files;
    lists.append(&mut voice_files);
    find_in_lists(lists, relative_path)
}

/// What the search for files that the game no more uses needs: the paths of
/// the latest game files (the used ones) and the names of the folders to
/// skip
pub fn try_get_unused_files(files: &[IntegrityFile]) -> (r: (Vec<String>, Vec<String>))
    ensures
        r.0@.map_values(|s: String| s@) == paths_of(files@),
        r.1@.map_values(|s: String| s@) == seq!["webCaches"@, "SDKCaches"@, "GeneratedSoundBanks"@, "ScreenShot"@],
{
    let skip = owned_strings(&["webCaches", "SDKCaches", "GeneratedSoundBanks", "ScreenShot"]);
    (used_paths(files), skip)
}

/// What the search for voice package files that the game no more uses
/// needs: the paths of the latest voice package files, and no folder to skip
pub fn try_get_unused_voice_files(files: &[IntegrityFile]) -> (r: (Vec<String>, Vec<String>))
    ensures
        r.0@.map_values(|s: String| s@) == paths_of(files@),
        r.1@.len() == 0,
{
    (used_paths(files), Vec::new())
}

} // verus!
