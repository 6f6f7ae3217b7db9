use anime_game_core::games::genshin::repairer as genshin_repairer;
use anime_game_core::games::pgr::api::resource::schema::Resource;
use anime_game_core::games::pgr::repairer as pgr_repairer;
use anime_game_core::games::zzz::repairer as zzz_repairer;
use anime_game_core::honkai::repairer as honkai_repairer;
use anime_game_core::repairer::{find_integrity_file, parse_pkg_version, IntegrityFile};

const PKG_VERSION: &str = "{\"remoteName\": \"GameData/level0\", \"md5\": \"abc\", \"fileSize\": 10}\nnot json\n{\"remoteName\": \"Game.exe\", \"md5\": \"def\", \"fileSize\": 20}\n";

fn file(path: &str) -> IntegrityFile {
    IntegrityFile { path: String::from(path), md5: String::from("m"), size: 1, base_url: String::from("https://base") }
}

#[test]
fn pkg_version_lists_files() {
    let files = parse_pkg_version(PKG_VERSION, "https://res").unwrap();
    assert_eq!(files.len(), 2);
    assert_eq!(files[0], IntegrityFile {
        path: String::from("GameData/level0"),
        md5: String::from("abc"),
        size: 10,
        base_url: String::from("https://res"),
    });
    assert_eq!(files[1].path, "Game.exe");
    assert_eq!(zzz_repairer::try_get_integrity_files("https://res", PKG_VERSION).unwrap().len(), 2);
    assert_eq!(honkai_repairer::try_get_integrity_files("https://res", PKG_VERSION).unwrap()[1].size, 20);
}

#[test]
fn pkg_version_entry_without_a_field() {
    assert_eq!(parse_pkg_version("{\"remoteName\": \"a\", \"md5\": \"b\"}\n", "x"), None);
    assert_eq!(parse_pkg_version("", "x"), Some(vec![]));
}

#[test]
fn files_are_found_by_path() {
    let files = vec![file("a/b"), file("c")];
    assert_eq!(find_integrity_file(files.clone(), "a//b/"), Some(file("a/b")));
    assert_eq!(find_integrity_file(files.clone(), "b"), None);
    assert_eq!(zzz_repairer::try_get_integrity_file("c", Some(files.clone())), Some(file("c")));
    assert_eq!(zzz_repairer::try_get_integrity_file("c", None), None);
    assert_eq!(
        genshin_repairer::try_get_integrity_file("v/1", None, vec![Some(vec![file("v/2")]), None, Some(vec![file("v/1")])]),
        Some(file("v/1"))
    );
    assert_eq!(honkai_repairer::try_get_integrity_file("a/b", Some(files)), Some(file("a/b")));
}

#[test]
fn unused_files_queries() {
    let files = vec![file("a"), file("b")];
    let (used, skip) = genshin_repairer::try_get_unused_files(&files);
    assert_eq!(used, vec!["a", "b"]);
    assert_eq!(skip, vec!["webCaches", "SDKCaches", "GeneratedSoundBanks", "ScreenShot"]);
    let (_, honkai_skip) = honkai_repairer::try_get_unused_files(&files);
    assert_eq!(honkai_skip, vec!["webCaches", "SDKCaches"]);
    let (voice_used, voice_skip) = genshin_repairer::try_get_unused_voice_files(&files);
    assert_eq!(voice_used.len(), 2);
    assert!(voice_skip.is_empty());
    assert_eq!(zzz_repairer::try_get_unused_files(&files).1.len(), 4);
}

#[test]
fn pgr_resources_become_files() {
    let resources = vec![
        Resource { dest: String::from("/Game/a.pak"), md5: String::from("m1"), size: 5 },
        Resource { dest: String::from("b.txt"), md5: String::from("m2"), size: 6 },
    ];
    let files = pgr_repairer::try_get_integrity_files("https://api", "res/base", resources);
    assert_eq!(files[0].path, "Game/a.pak");
    assert_eq!(files[0].base_url, "https://api/res/base");
    assert_eq!(files[1].path, "b.txt");
    assert_eq!(pgr_repairer::try_get_integrity_file("Game/a.pak", Some(files)).map(|f| f.size), Some(5));
}
