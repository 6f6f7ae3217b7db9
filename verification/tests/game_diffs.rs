use anime_game_core::games::genshin::api::schema::{GameId, GameInfo, GameLatestInfo, GamePackage, GamePatch, Segment};
use anime_game_core::games::package_diff::{package_diff_ready, segments_fit, VersionDiff};
use anime_game_core::games::pgr::api::resource::schema::Resource;
use anime_game_core::games::star_rail::consts::GameEdition;
use anime_game_core::games::star_rail::game::{find_version_line, Game};
use anime_game_core::games::wuwa::api::cdn::{find_cdn_uri, NoCdn};
use anime_game_core::games::wuwa::api::game::schema::{CdnInfo, Data as WuwaData};
use anime_game_core::games::wuwa::consts::GameEdition as WuwaEdition;
use anime_game_core::games::wuwa::game::{total_size_fits, Game as WuwaGame};
use anime_game_core::games::pgr::version_diff::VersionDiff as FilesDiff;
use anime_game_core::genshin::game::{game_diff_ready as older_genshin_ready, Game as OlderGame};
use anime_game_core::genshin::json_schemas::versions::{Data, Diff, Game as ApiGame, Latest, Response};
use anime_game_core::honkai::game::{game_diff_ready as older_honkai_ready, Game as HonkaiGame};
use anime_game_core::honkai::json_schemas::versions as honkai_api;
use anime_game_core::installer::diff::VersionDiff as ArchiveDiff;
use anime_game_core::version::Version;
use anime_game_core::version_scan::VersionNotFound;

fn segment(url: &str, size: &str, unpacked: &str) -> Segment {
    Segment { url: String::from(url), md5: String::new(), size: String::from(size), decompressed_size: String::from(unpacked) }
}

fn game_package(version: &str, patches: Vec<GamePatch>) -> GamePackage {
    GamePackage {
        game: GameId { id: String::from("id"), biz: String::from("biz") },
        main: GameInfo {
            major: GameLatestInfo {
                version: String::from(version),
                game_pkgs: vec![segment("https://cdn/a.7z", "100", "250"), segment("https://cdn/b.7z", "50", "150")],
                audio_pkgs: vec![],
                res_list_url: String::new(),
            },
            patches,
        },
        pre_download: None,
    }
}

#[test]
fn star_rail_game_not_installed() {
    let game = Game::new("/g", GameEdition::Global);
    let diff = game.try_get_diff(&game_package("2.7.0", vec![]), false, Err::<Version, ()>(()), false).unwrap();
    match &diff {
        VersionDiff::NotInstalled { latest, downloaded_size, unpacked_size, segments_uris, installation_path, .. } => {
            assert_eq!(*latest, Version::new(2, 7, 0));
            assert_eq!(*downloaded_size, 150);
            assert_eq!(*unpacked_size, 250);
            assert_eq!(segments_uris.len(), 2);
            assert_eq!(installation_path.as_deref(), Some("/g"));
        }
        other => panic!("unexpected {other:?}"),
    }
    let moved = diff.with_temp_folder(String::from("/tmp/x"));
    assert_eq!(moved.temp_folder(), Some(String::from("/tmp/x")));
}

#[test]
fn star_rail_game_versions() {
    let game = Game::new("/g", GameEdition::Global);
    let patch = GamePatch { version: String::from("2.6.0"), game_pkgs: vec![segment("https://cdn/p.7z", "10", "30")], audio_pkgs: vec![] };
    let diff = game.try_get_diff(&game_package("2.7.0", vec![patch]), true, Ok::<Version, ()>(Version::new(2, 6, 0)), false).unwrap();
    assert_eq!(diff.current(), Some(Version::new(2, 6, 0)));
    assert_eq!(diff.downloaded_size(), Some(10));
    let latest = game.try_get_diff(&game_package("2.7.0", vec![]), true, Ok::<Version, ()>(Version::new(2, 7, 0)), false).unwrap();
    assert!(matches!(latest, VersionDiff::Latest { .. }));
    assert_eq!(game.try_get_diff(&game_package("2.7.0", vec![]), true, Err::<Version, &str>("no version"), false), Err("no version"));
    assert!(matches!(
        game.try_get_diff(&game_package("2.7.0", vec![]), true, Err::<Version, &str>("no version"), true),
        Ok(VersionDiff::NotInstalled { .. })
    ));
}

#[test]
fn star_rail_version_from_data_strings() {
    let lines = vec![String::from("x"), String::from("2.3.0_8253322_8286339"), String::from("3.0.0")];
    assert_eq!(find_version_line(&lines), Some(Version::new(2, 3, 0)));
    assert_eq!(find_version_line(&[String::from("1.2")]), None);
    let game = Game::new("/g", GameEdition::Global);
    assert_eq!(game.get_version(Some(Version::new(2, 3, 1)), &lines), Ok(Version::new(2, 3, 1)));
    assert_eq!(game.get_version(None, &[]), Err(VersionNotFound));
}

fn latest(version: &str) -> Latest {
    Latest {
        name: String::new(),
        version: String::from(version),
        path: format!("https://cdn/{version}.zip"),
        size: String::from("700"),
        md5: String::new(),
        entry: String::new(),
        package_size: String::from("900"),
        decompressed_path: String::new(),
        voice_packs: vec![],
    }
}

fn diff(version: &str) -> Diff {
    Diff {
        name: String::new(),
        version: String::from(version),
        path: format!("https://cdn/from-{version}.zip"),
        size: String::from("70"),
        md5: String::new(),
        is_recommended_update: true,
        package_size: String::from("90"),
        voice_packs: vec![],
    }
}

fn response(pre: Option<ApiGame>) -> Response {
    Response {
        retcode: 0,
        message: String::from("OK"),
        data: Data { web_url: String::new(), game: ApiGame { latest: latest("3.1.0"), diffs: vec![diff("3.0.0")] }, pre_download_game: pre },
    }
}

#[test]
fn older_game_diffs() {
    let game = OlderGame::new("/g");
    assert_eq!(
        game.try_get_diff(response(None), false, Err::<Version, ()>(())),
        Ok(ArchiveDiff::NotInstalled {
            latest: Version::new(3, 1, 0),
            url: String::from("https://cdn/3.1.0.zip"),
            download_size: 700,
            unpacked_size: 900,
            unpacking_path: Some(String::from("/g")),
        })
    );
    assert_eq!(
        game.try_get_diff(response(None), true, Ok::<Version, ()>(Version::new(3, 0, 0))),
        Ok(ArchiveDiff::Diff {
            current: Version::new(3, 0, 0),
            latest: Version::new(3, 1, 0),
            url: String::from("https://cdn/from-3.0.0.zip"),
            download_size: 70,
            unpacked_size: 90,
            unpacking_path: Some(String::from("/g")),
        })
    );
    assert_eq!(
        game.try_get_diff(response(None), true, Ok::<Version, ()>(Version::new(2, 8, 0))),
        Ok(ArchiveDiff::Outdated { current: Version::new(2, 8, 0), latest: Version::new(3, 1, 0) })
    );
    assert_eq!(game.try_get_diff(response(None), true, Ok::<Version, ()>(Version::new(3, 1, 0))), Ok(ArchiveDiff::Latest(Version::new(3, 1, 0))));
    let pre = ApiGame { latest: latest("3.2.0"), diffs: vec![diff("3.1.0")] };
    assert!(matches!(
        game.try_get_diff(response(Some(pre)), true, Ok::<Version, ()>(Version::new(3, 1, 0))),
        Ok(ArchiveDiff::Predownload { .. })
    ));
    assert_eq!(game.get_edition(false, true, true), None);
    assert_eq!(game.get_edition(true, false, true), Some(anime_game_core::genshin::consts::GameEdition::China));
}

#[test]
fn honkai_game_diffs() {
    let game = HonkaiGame::new("/bh3");
    let api = honkai_api::Response {
        retcode: 0,
        message: String::new(),
        data: honkai_api::Data {
            web_url: String::new(),
            game: honkai_api::Game {
                latest: honkai_api::Latest {
                    name: String::new(),
                    version: String::from("7.0.0"),
                    path: String::from("https://cdn/bh3.7z"),
                    size: String::from("10"),
                    md5: String::new(),
                    entry: String::new(),
                    package_size: String::from("20"),
                    decompressed_path: String::new(),
                },
            },
        },
    };
    assert_eq!(game.try_get_diff(api.clone(), true, Ok::<Version, ()>(Version::new(7, 0, 0))), Ok(ArchiveDiff::Latest(Version::new(7, 0, 0))));
    assert!(matches!(
        game.try_get_diff(api, true, Ok::<Version, ()>(Version::new(6, 9, 0))),
        Ok(ArchiveDiff::Diff { download_size: 10, unpacked_size: 20, .. })
    ));
    let mut data = vec![b'x'; 4000];
    data.extend_from_slice(b"\x007.0.0\x00");
    assert_eq!(game.try_get_version(&data), Ok(Version::new(7, 0, 0)));
}

#[test]
fn wuwa_cdn_and_diff() {
    let data = WuwaData {
        cdnList: vec![
            CdnInfo { K1: 0, K2: 0, P: 5, url: String::from("https://slow/") },
            CdnInfo { K1: 0, K2: 0, P: 1, url: String::from("https://fast/") },
        ],
        resources: String::new(),
        resourcesBasePath: String::from("base"),
        version: String::from("1.2.0"),
    };
    assert_eq!(find_cdn_uri(&data), Ok(String::from("https://fast")));
    let empty = WuwaData { cdnList: vec![], ..data.clone() };
    assert_eq!(find_cdn_uri(&empty), Err(NoCdn));
    let resources = vec![Resource { dest: String::from("/a"), md5: String::new(), size: 3 }, Resource { dest: String::from("b"), md5: String::new(), size: 4 }];
    let game = WuwaGame::new("/ww", WuwaEdition::Global).with_fast_verify(true);
    let diff = game.try_get_diff(&data, "https://fast", &resources, true, Ok::<Version, ()>(Version::new(1, 1, 0)), false).unwrap();
    match &diff {
        FilesDiff::Outdated { unpacked_url, files, total_size, .. } => {
            assert_eq!(unpacked_url, "https://fast/base");
            assert_eq!(files, &vec![String::from("a"), String::from("b")]);
            assert_eq!(*total_size, 7);
        }
        other => panic!("unexpected {other:?}"),
    }
    assert_eq!(diff.latest(), Version::new(1, 2, 0));
    assert_eq!(diff.files(), Some(vec![String::from("a"), String::from("b")]));
    assert_eq!(game.get_version(Some(&[1, 1, 0])), Ok(Version::new(1, 1, 0)));
}

#[test]
fn star_rail_diff_readiness() {
    let ok = game_package("2.7.0", vec![]);
    assert!(package_diff_ready(&ok, false, &Err::<Version, ()>(()), false));
    assert!(!package_diff_ready(&game_package("2.7", vec![]), false, &Err::<Version, ()>(()), false));
    let mut huge = game_package("2.7.0", vec![]);
    huge.main.major.game_pkgs = vec![segment("a", "18446744073709551615", "18446744073709551615"), segment("b", "1", "1")];
    assert!(!package_diff_ready(&huge, false, &Err::<Version, ()>(()), false));
    let mut shrinking = game_package("2.7.0", vec![]);
    shrinking.main.major.game_pkgs = vec![segment("a", "10", "5")];
    assert!(!package_diff_ready(&shrinking, false, &Err::<Version, ()>(()), false));
    assert!(segments_fit(&[segment("a", "10", "15"), segment("b", "x", "1")]));
    let empty_patch = GamePatch { version: String::from("2.6.0"), game_pkgs: vec![], audio_pkgs: vec![] };
    assert!(!package_diff_ready(&game_package("2.7.0", vec![empty_patch]), true, &Ok::<Version, ()>(Version::new(2, 6, 0)), false));
    assert!(package_diff_ready(&game_package("2.7", vec![]), true, &Err::<Version, ()>(()), false));
    assert!(!package_diff_ready(&game_package("2.7", vec![]), true, &Ok::<Version, ()>(Version::new(2, 7, 0)), false));
}

#[test]
fn older_game_diff_readiness() {
    assert!(older_genshin_ready(&response(None), false, None));
    let mut bad = response(None);
    bad.data.game.latest.size = String::from("big");
    assert!(!older_genshin_ready(&bad, false, None));
    assert!(older_genshin_ready(&bad, true, Some(Version::new(3, 1, 0))));
    bad.data.game.diffs[0].package_size = String::from("?");
    assert!(!older_genshin_ready(&bad, true, Some(Version::new(3, 0, 0))));
    assert!(older_genshin_ready(&bad, true, Some(Version::new(2, 9, 0))));
    assert!(older_genshin_ready(&bad, true, None));
    let honkai = honkai_api::Response {
        retcode: 0,
        message: String::from("OK"),
        data: honkai_api::Data {
            web_url: String::new(),
            game: honkai_api::Game {
                latest: honkai_api::Latest {
                    name: String::new(),
                    version: String::from("7.1.0"),
                    path: String::new(),
                    size: String::from("1"),
                    md5: String::new(),
                    entry: String::new(),
                    package_size: String::from("-2"),
                    decompressed_path: String::new(),
                },
            },
        },
    };
    assert!(!older_honkai_ready(&honkai, false, None));
    assert!(older_honkai_ready(&honkai, true, Some(Version::new(7, 1, 0))));
    assert!(!older_honkai_ready(&honkai, true, Some(Version::new(7, 0, 0))));
}

#[test]
fn wuwa_sizes_fit() {
    let small = vec![Resource { dest: String::from("a"), md5: String::new(), size: 3 }];
    assert!(total_size_fits(&small));
    let big = vec![
        Resource { dest: String::from("a"), md5: String::new(), size: u64::MAX },
        Resource { dest: String::from("b"), md5: String::new(), size: 1 },
    ];
    assert!(!total_size_fits(&big));
}
