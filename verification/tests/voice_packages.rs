use anime_game_core::genshin::json_schemas::versions::VoicePack;
use anime_game_core::genshin::voice_data::locale::VoiceLocale as OlderLocale;
use anime_game_core::genshin::voice_data::package::VoicePackage as OlderPackage;
use anime_game_core::games::genshin::api::schema::{AudioPackage, GameId, GameInfo, GameLatestInfo, GamePackage, GamePatch, GamePredownloadInfo};
use anime_game_core::games::genshin::consts::GameEdition as GenshinEdition;
use anime_game_core::games::genshin::voice_data::locale::VoiceLocale;
use anime_game_core::games::genshin::voice_data::package as genshin_package;
use anime_game_core::games::package_diff::VersionDiff;
use anime_game_core::games::star_rail::consts::GameEdition;
use anime_game_core::games::star_rail::voice_data::package::{get_voice_pack_sizes, voice_diff_ready, VoicePackage, VoicePackageError};
use anime_game_core::version::Version;

const SR_FOLDER: &str = "/g/StarRail_Data/Persistent/Audio/AudioPackage/Windows/English(US)";

fn audio(language: &str, size: &str) -> AudioPackage {
    AudioPackage {
        language: String::from(language),
        url: format!("https://cdn/{language}.7z"),
        md5: String::from("0"),
        size: String::from(size),
        decompressed_size: String::from("2000"),
    }
}

fn latest(version: &str) -> GameLatestInfo {
    GameLatestInfo {
        version: String::from(version),
        game_pkgs: vec![],
        audio_pkgs: vec![audio("en-us", "1000"), audio("ja-jp", "1100")],
        res_list_url: String::new(),
    }
}

fn package(version: &str, patches: Vec<GamePatch>, pre_download: Option<GamePredownloadInfo>) -> GamePackage {
    GamePackage {
        game: GameId { id: String::from("id"), biz: String::from("hkrpg_global") },
        main: GameInfo { major: latest(version), patches },
        pre_download,
    }
}

#[test]
fn installed_package_from_its_folder() {
    let p = VoicePackage::new(SR_FOLDER, true, GameEdition::Global).unwrap();
    assert!(p.is_installed());
    assert_eq!(p.locale(), VoiceLocale::English);
    assert_eq!(p.game_edition(), GameEdition::Global);
    assert!(VoicePackage::new(SR_FOLDER, false, GameEdition::Global).is_none());
    assert!(VoicePackage::new("/g/French", true, GameEdition::Global).is_none());
}

#[test]
fn delete_targets_own_folder() {
    let p = VoicePackage::new(SR_FOLDER, true, GameEdition::Global).unwrap();
    assert_eq!(p.delete(), Ok(String::from(SR_FOLDER)));
    assert_eq!(p.folder_in("/g"), SR_FOLDER);
    let shallow = VoicePackage::new("/English(US)", true, GameEdition::Global).unwrap();
    assert_eq!(shallow.delete(), Err(VoicePackageError::GameDirectoryNotFound));
}

#[test]
fn known_sizes() {
    let sizes = get_voice_pack_sizes(VoiceLocale::English);
    assert_eq!(sizes.len(), 7);
    assert_eq!(sizes[0], ("2.7.0", 7423102080));
    assert_eq!(get_voice_pack_sizes(VoiceLocale::Chinese)[6], ("2.1.0", 4066642382));
}

#[test]
fn installed_version() {
    let p = VoicePackage::new(SR_FOLDER, true, GameEdition::Global).unwrap();
    assert_eq!(p.try_get_version(Some(&[2, 6, 0]), "2.7.0"), Version::new(2, 6, 0));
    assert_eq!(p.try_get_version(None, "2.7.0"), Version::new(2, 7, 0));
}

#[test]
fn latest_packages() {
    let p = VoicePackage::with_locale(VoiceLocale::Japanese, GameEdition::China, latest("2.7.0"));
    assert!(!p.is_installed());
    assert_eq!(p.try_get_version(None, "ignored"), Version::new(2, 7, 0));
    assert!(!p.is_installed_in(false));
    assert!(p.is_installed_in(true));
    let all = VoicePackage::list_latest(GameEdition::Global, latest("2.7.0"));
    assert_eq!(all.len(), 2);
    assert_eq!(all[1].locale(), VoiceLocale::Japanese);
    assert_eq!(p.delete(), Err(VoicePackageError::GameDirectoryNotFound));
}

#[test]
fn diff_of_missing_package() {
    let p = VoicePackage::with_locale(VoiceLocale::English, GameEdition::Global, latest("2.7.0"));
    match p.try_get_diff(package("2.7.0", vec![], None), None) {
        VersionDiff::NotInstalled { latest, downloaded_size, unpacked_size, segments_uris, .. } => {
            assert_eq!(latest, Version::new(2, 7, 0));
            assert_eq!(downloaded_size, 1000);
            assert_eq!(unpacked_size, 2000);
            assert_eq!(segments_uris, vec![String::from("https://cdn/en-us.7z")]);
        }
        other => panic!("unexpected {other:?}"),
    }
}

#[test]
fn diff_of_outdated_package() {
    let p = VoicePackage::new(SR_FOLDER, true, GameEdition::Global).unwrap();
    let patch = GamePatch { version: String::from("2.6.0"), game_pkgs: vec![], audio_pkgs: vec![audio("en-us", "300")] };
    match p.try_get_diff(package("2.7.0", vec![patch], None), Some(&[2, 6, 0])) {
        VersionDiff::Diff { current, latest, uri, downloaded_size, version_file_path, installation_path, .. } => {
            assert_eq!(current, Version::new(2, 6, 0));
            assert_eq!(latest, Version::new(2, 7, 0));
            assert_eq!(uri, "https://cdn/en-us.7z");
            assert_eq!(downloaded_size, 300);
            assert_eq!(version_file_path, Some(format!("{SR_FOLDER}/.version")));
            assert_eq!(installation_path, None);
        }
        other => panic!("unexpected {other:?}"),
    }
    match p.try_get_diff(package("2.7.0", vec![], None), Some(&[2, 5, 0])) {
        VersionDiff::Outdated { current, latest, .. } => {
            assert_eq!(current, Version::new(2, 5, 0));
            assert_eq!(latest, Version::new(2, 7, 0));
        }
        other => panic!("unexpected {other:?}"),
    }
}

#[test]
fn diff_of_latest_package() {
    let p = VoicePackage::new(SR_FOLDER, true, GameEdition::Global).unwrap();
    match p.try_get_diff(package("2.7.0", vec![], None), None) {
        VersionDiff::Latest { version, edition } => {
            assert_eq!(version, Version::new(2, 7, 0));
            assert_eq!(edition, GameEdition::Global);
        }
        other => panic!("unexpected {other:?}"),
    }
    let pre = GamePredownloadInfo {
        major: Some(latest("2.8.0")),
        patches: vec![GamePatch { version: String::from("2.7.0"), game_pkgs: vec![], audio_pkgs: vec![audio("en-us", "50")] }],
    };
    match p.try_get_diff(package("2.7.0", vec![], Some(pre)), None) {
        VersionDiff::Predownload { current, latest, downloaded_size, .. } => {
            assert_eq!(current, Version::new(2, 7, 0));
            assert_eq!(latest, Version::new(2, 8, 0));
            assert_eq!(downloaded_size, 50);
        }
        other => panic!("unexpected {other:?}"),
    }
}

#[test]
fn genshin_package_delete_and_prediction() {
    let folder = "/g/GenshinImpact_Data/StreamingAssets/AudioAssets/English(US)";
    let p = genshin_package::VoicePackage::new(folder, true, GenshinEdition::Global).unwrap();
    assert_eq!(p.locale(), VoiceLocale::English);
    assert_eq!(
        p.delete(),
        Ok((String::from(folder), String::from("/g/Audio_English(US)_pkg_version")))
    );
    assert_eq!(p.delete(), Ok(p.delete_in("/g")));
    assert_eq!(p.try_get_version(Some(&[5, 6, 0])), Some(Version::new(5, 6, 0)));
    assert_eq!(p.try_get_version(None), None);
    assert_eq!(
        genshin_package::predict_version(19512988499, VoiceLocale::English, "5.8.0", None, 20000000000),
        Some(Version::new(5, 7, 0))
    );
    assert_eq!(
        genshin_package::predict_version(30000000000, VoiceLocale::English, "5.8.0", None, 20000000000),
        Some(Version::new(5, 8, 0))
    );
    assert_eq!(genshin_package::predict_version(1, VoiceLocale::English, "5.7.0", None, 20000000000), None);
    assert!(genshin_package::table_lists("5.6.0"));
    assert!(!genshin_package::table_lists("5.8.0"));
}

#[test]
fn genshin_latest_packages_skip_other_downloads() {
    let entry = |field: &str| genshin_package::DownloadInfo {
        matching_field: String::from(field),
        compressed_size: String::from("1"),
        uncompressed_size: String::from("2"),
    };
    let list = genshin_package::VoicePackage::list_latest(
        GenshinEdition::Global,
        Version::new(5, 7, 0),
        vec![entry("game"), entry("ko-kr"), entry("zh-cn")],
    );
    assert_eq!(list.len(), 2);
    assert_eq!(list[0].locale(), VoiceLocale::Korean);
    let one = genshin_package::VoicePackage::with_locale(VoiceLocale::Chinese, GenshinEdition::China, Version::new(5, 7, 0), vec![entry("zh-cn")]);
    assert_eq!(one.game_edition(), GenshinEdition::China);
}

#[test]
fn voice_diff_readiness() {
    let missing = VoicePackage::with_locale(VoiceLocale::English, GameEdition::Global, latest("2.7.0"));
    assert!(voice_diff_ready(&missing, &package("2.7.0", vec![], None), None));
    assert!(!voice_diff_ready(&missing, &package("2.7", vec![], None), None));
    let p = VoicePackage::new(SR_FOLDER, true, GameEdition::Global).unwrap();
    assert!(voice_diff_ready(&p, &package("2.7.0", vec![], None), None));
    assert!(!voice_diff_ready(&p, &package("2.7.0", vec![], None), Some(&[2, 6])));
    let no_english = GamePatch { version: String::from("2.6.0"), game_pkgs: vec![], audio_pkgs: vec![audio("ko-kr", "1")] };
    assert!(!voice_diff_ready(&p, &package("2.7.0", vec![no_english], None), Some(&[2, 6, 0])));
    let bad_size = GamePatch { version: String::from("2.6.0"), game_pkgs: vec![], audio_pkgs: vec![audio("en-us", "1.5")] };
    assert!(!voice_diff_ready(&p, &package("2.7.0", vec![bad_size], None), Some(&[2, 6, 0])));
    assert!(voice_diff_ready(&p, &package("2.7.0", vec![], None), Some(&[2, 6, 0])));
}

#[test]
fn prediction_readiness() {
    assert!(genshin_package::prediction_ready(19512988499, VoiceLocale::English, "5.8.0", None, 20000000000));
    assert!(!genshin_package::prediction_ready(19512988499, VoiceLocale::English, "5.8.0", None, 1));
    assert!(!genshin_package::prediction_ready(19512988499, VoiceLocale::English, "5.8.0", Some(1), 20000000000));
    assert!(!genshin_package::prediction_ready(30000000000, VoiceLocale::English, "next", None, 20000000000));
    assert!(genshin_package::prediction_ready(1, VoiceLocale::English, "next", None, 20000000000));
    assert!(genshin_package::prediction_ready(30000000000, VoiceLocale::English, "5.8.0", Some(1), 20000000000));
    assert_eq!(
        genshin_package::predict_version(30000000000, VoiceLocale::English, "5.8.0", Some(1), 20000000000),
        Some(Version::new(5, 8, 0))
    );
}

#[test]
fn voice_package_sizes() {
    let missing = VoicePackage::with_locale(VoiceLocale::English, GameEdition::Global, latest("2.7.0"));
    assert_eq!(missing.size(0), (2000, Some(1000)));
    let installed = VoicePackage::new(SR_FOLDER, true, GameEdition::Global).unwrap();
    assert_eq!(installed.size(77), (77, None));
    let genshin = genshin_package::VoicePackage::NotInstalled {
        locale: VoiceLocale::Korean,
        version: Version::new(5, 7, 0),
        data: genshin_package::DownloadInfo {
            matching_field: String::from("ko-kr"),
            compressed_size: String::from("10"),
            uncompressed_size: String::from("25"),
        },
        game_path: None,
        game_edition: GenshinEdition::Global,
    };
    assert_eq!(genshin.size(5), (25, Some(10)));
}

#[test]
fn older_voice_package_sizes() {
    let data = VoicePack {
        language: String::from("ja-jp"),
        name: String::new(),
        path: String::new(),
        size: String::from("300"),
        md5: String::new(),
        package_size: String::from("700"),
    };
    let p = OlderPackage::NotInstalled { locale: OlderLocale::Japanese, version: Version::new(3, 1, 0), data, game_path: None };
    assert_eq!(p.size(1), (700, Some(300)));
}
