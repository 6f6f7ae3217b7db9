use anime_game_core::games::branch_diff::{
    BranchDiffError, BranchInfo, DiffDownloadingError, DiffInfo, DiffRequest, DiffStep, DownloadInfo, DownloadOrDiff, GameBranch,
    InstallAction, PatchStats, VersionDiff,
};
use anime_game_core::games::genshin::consts::GameEdition as GenshinEdition;
use anime_game_core::games::genshin::game::Game as GenshinGame;
use anime_game_core::games::genshin::voice_data::locale::VoiceLocale;
use anime_game_core::games::genshin::voice_data::package::VoicePackage;
use anime_game_core::games::honkai::consts::GameEdition as HonkaiEdition;
use anime_game_core::games::honkai::game::Game as HonkaiGame;
use anime_game_core::version::Version;

fn download(field: &str, size: &str, unpacked: &str) -> DownloadInfo {
    DownloadInfo { matching_field: String::from(field), compressed_size: String::from(size), uncompressed_size: String::from(unpacked) }
}

fn stats(tag: &str, size: &str, unpacked: &str) -> PatchStats {
    PatchStats { tag: String::from(tag), compressed_size: String::from(size), uncompressed_size: String::from(unpacked) }
}

fn patch(field: &str, stats: Vec<PatchStats>) -> DiffInfo {
    DiffInfo { matching_field: String::from(field), stats }
}

fn branch(tag: &str, diff_tags: &[&str]) -> BranchInfo {
    BranchInfo { tag: String::from(tag), diff_tags: diff_tags.iter().map(|t| String::from(*t)).collect() }
}

fn branches(pre: Option<BranchInfo>) -> GameBranch {
    GameBranch { main: branch("5.7.0", &["5.6.0", "5.5.0"]), pre_download: pre }
}

#[test]
fn game_steps() {
    let game = GenshinGame::new("/g", GenshinEdition::Global);
    let latest = Version::new(5, 7, 0);
    let b = branches(None);
    assert_eq!(game.diff_step::<()>(&b, latest, false, Ok(latest), false), Ok(DiffStep::Fetch(DiffRequest::MainDownloads)));
    assert_eq!(game.diff_step(&b, latest, true, Err(()), true), Ok(DiffStep::Fetch(DiffRequest::MainDownloads)));
    assert_eq!(game.diff_step(&b, latest, true, Err("unknown"), false), Err("unknown"));
    assert_eq!(
        game.diff_step::<()>(&b, latest, true, Ok(latest), false),
        Ok(DiffStep::Done(VersionDiff::Latest { version: latest, edition: GenshinEdition::Global }))
    );
    assert_eq!(game.diff_step::<()>(&b, latest, true, Ok(Version::new(5, 5, 0)), false), Ok(DiffStep::Fetch(DiffRequest::MainDiffs)));
    let with_pre = branches(Some(branch("5.8.0", &["5.7.0"])));
    assert_eq!(game.diff_step::<()>(&with_pre, latest, true, Ok(latest), false), Ok(DiffStep::Fetch(DiffRequest::PredownloadDiffs)));
    let other_pre = branches(Some(branch("5.8.0", &["5.6.0"])));
    assert_eq!(
        game.diff_step::<()>(&other_pre, latest, true, Ok(Version::new(5, 8, 0)), false),
        Ok(DiffStep::Done(VersionDiff::Latest { version: Version::new(5, 8, 0), edition: GenshinEdition::Global }))
    );
}

#[test]
fn game_downloads_diff() {
    let game = HonkaiGame::new("/h", HonkaiEdition::Global);
    let latest = Version::new(8, 2, 0);
    let list = vec![download("en-us", "1", "2"), download("game", "100", "250")];
    let diff = game.downloads_diff(latest, list).unwrap();
    assert_eq!(
        diff,
        VersionDiff::NotInstalled {
            latest,
            download_info: download("game", "100", "250"),
            edition: HonkaiEdition::Global,
            downloaded_size: 100,
            unpacked_size: 250,
            installation_path: Some(String::from("/h")),
            version_file_path: None,
            temp_folder: None,
        }
    );
    assert_eq!(diff.downloaded_size(), Some(100));
    assert_eq!(diff.unpacked_size(), Some(250));
    assert_eq!(diff.installation_path(), Some("/h"));
    assert_eq!(diff.current(), None);
    assert_eq!(diff.downloading_uri(), None);
    assert_eq!(game.downloads_diff(latest, vec![download("en-us", "1", "2")]), Err(BranchDiffError::NoGameManifest));
    assert_eq!(game.downloads_diff(latest, vec![download("game", "-1", "2")]), Err(BranchDiffError::InvalidSize));
    let genshin = GenshinGame::new("/g", GenshinEdition::China);
    assert_eq!(genshin.downloads_diff(latest, vec![download("game", "+7", "9")]).downloaded_size(), Some(7));
}

#[test]
fn game_predownload_and_update() {
    let game = GenshinGame::new("/g", GenshinEdition::Global);
    let current = Version::new(5, 7, 0);
    let with_pre = branches(Some(branch("5.8.0", &["5.7.0"])));
    let game_patch = patch("game", vec![stats("5.6.0", "5", "6"), stats("5.7.0", "10", "30")]);
    let diffs = vec![patch("en-us", vec![]), game_patch.clone()];
    assert_eq!(
        game.predownload_diff(current, &with_pre, diffs),
        VersionDiff::Predownload {
            current,
            latest: Version::new(5, 8, 0),
            download_info: DownloadOrDiff::Patch(game_patch.clone()),
            edition: GenshinEdition::Global,
            downloaded_size: 10,
            unpacked_size: 30,
            installation_path: Some(String::from("/g")),
            version_file_path: None,
            temp_folder: None,
        }
    );
    let old = Version::new(5, 6, 0);
    let latest = Version::new(5, 7, 0);
    let b = branches(None);
    let updated = game.update_diff(old, latest, &b, vec![patch("game", vec![stats("5.5.0", "1", "1")]), game_patch.clone()]);
    assert_eq!(updated.downloaded_size(), Some(5));
    assert_eq!(updated.current(), Some(old));
    assert_eq!(updated.latest(), latest);
    let too_old = Version::new(5, 4, 0);
    assert_eq!(
        game.update_diff(too_old, latest, &b, vec![game_patch.clone()]),
        VersionDiff::Outdated { current: too_old, latest, edition: GenshinEdition::Global }
    );
    let honkai = HonkaiGame::new("/h", HonkaiEdition::Sea);
    assert_eq!(
        honkai.update_diff(Version::new(5, 5, 0), latest, &b, vec![game_patch.clone()]),
        Ok(VersionDiff::Outdated { current: Version::new(5, 5, 0), latest, edition: HonkaiEdition::Sea })
    );
    assert_eq!(
        honkai.update_diff(old, latest, &b, vec![patch("game", vec![stats("5.6.0", "x", "1")])]),
        Err(BranchDiffError::InvalidSize)
    );
}

#[test]
fn temp_folder_of_a_branch_diff() {
    let game = GenshinGame::new("/g", GenshinEdition::Global);
    let latest = Version::new(5, 7, 0);
    let diff = game.downloads_diff(latest, vec![download("game", "1", "2")]);
    assert_eq!(diff.temp_folder(), None);
    let moved = diff.with_temp_folder(String::from("/tmp/x"));
    assert_eq!(moved.temp_folder(), Some(String::from("/tmp/x")));
    let latest_diff: VersionDiff<GenshinEdition> = VersionDiff::Latest { version: latest, edition: GenshinEdition::Global };
    assert_eq!(latest_diff.clone().with_temp_folder(String::from("/tmp/x")), latest_diff);
}

#[test]
fn voice_package_diffs() {
    let latest = Version::new(5, 7, 0);
    let b = branches(Some(branch("5.8.0", &["5.7.0"])));
    let not_installed = VoicePackage::NotInstalled {
        locale: VoiceLocale::Japanese,
        version: latest,
        data: download("ja-jp", "1", "2"),
        game_path: Some(String::from("/g")),
        game_edition: GenshinEdition::Global,
    };
    let list = vec![download("game", "1", "2"), download("ja-jp", "40", "90")];
    let step = not_installed.diff_step(latest, &b, list, None).unwrap();
    let DiffStep::Done(diff) = step else { panic!("a package that is not installed is downloaded") };
    assert_eq!(diff.downloaded_size(), Some(40));
    assert_eq!(diff.installation_path(), Some("/g"));
    assert_eq!(
        diff.version_file_path(),
        Some(String::from("/g/GenshinImpact_Data/StreamingAssets/AudioAssets/Japanese/.version"))
    );

    let folder = "/g/GenshinImpact_Data/StreamingAssets/AudioAssets/Japanese";
    let installed = VoicePackage::new(folder, true, GenshinEdition::Global).unwrap();
    assert_eq!(installed.diff_step(latest, &b, vec![], Some(latest)), Ok(DiffStep::Fetch(DiffRequest::PredownloadDiffs)));
    assert_eq!(
        installed.diff_step(latest, &branches(None), vec![], Some(latest)),
        Ok(DiffStep::Done(VersionDiff::Latest { version: latest, edition: GenshinEdition::Global }))
    );
    let old = Version::new(5, 6, 0);
    assert_eq!(installed.diff_step(latest, &b, vec![], Some(old)), Ok(DiffStep::Fetch(DiffRequest::MainDiffs)));
    let ancient = Version::new(4, 0, 0);
    assert_eq!(
        installed.diff_step(latest, &b, vec![], Some(ancient)),
        Ok(DiffStep::Done(VersionDiff::Outdated { current: ancient, latest, edition: GenshinEdition::Global }))
    );

    let voice_patch = patch("ja-jp", vec![stats("5.7.0", "3", "4"), stats("5.6.0", "7", "8")]);
    let pre = installed.predownload_diff(latest, &b, vec![patch("game", vec![]), voice_patch.clone()]).unwrap();
    assert_eq!(pre.downloaded_size(), Some(3));
    assert_eq!(pre.latest(), Version::new(5, 8, 0));
    assert_eq!(pre.installation_path(), None);
    assert_eq!(pre.version_file_path(), Some(format!("{folder}/.version")));
    let update = installed.update_diff(old, latest, vec![voice_patch.clone()]).unwrap();
    assert_eq!(update.unpacked_size(), Some(8));
    assert_eq!(installed.update_diff(ancient, latest, vec![voice_patch.clone()]), Err(BranchDiffError::NoDiffStats));
    let unnamed = branches(Some(branch("next", &["5.7.0"])));
    assert_eq!(installed.predownload_diff(latest, &unnamed, vec![voice_patch]), Err(BranchDiffError::NoPredownloadVersion));
}

#[test]
fn install_actions_and_single_file_downloads() {
    let latest = Version::new(5, 7, 0);
    let old = Version::new(5, 6, 0);
    let up_to_date: VersionDiff<GenshinEdition> = VersionDiff::Latest { version: latest, edition: GenshinEdition::Global };
    let too_old: VersionDiff<GenshinEdition> = VersionDiff::Outdated { current: old, latest, edition: GenshinEdition::Global };
    assert_eq!(up_to_date.install_action(), Err(DiffDownloadingError::AlreadyLatest));
    assert_eq!(too_old.install_action(), Err(DiffDownloadingError::Outdated));
    let game = GenshinGame::new("/g", GenshinEdition::Global);
    let full = game.downloads_diff(latest, vec![download("game", "1", "2")]);
    assert_eq!(full.install_action(), Ok(InstallAction::Download));
    let b = branches(None);
    let update = game.update_diff(old, latest, &b, vec![patch("game", vec![stats("5.6.0", "1", "2")])]);
    assert_eq!(update.install_action(), Ok(InstallAction::Patch(old)));
    let with_pre = branches(Some(branch("5.8.0", &["5.7.0"])));
    let pre = game.predownload_diff(latest, &with_pre, vec![patch("game", vec![stats("5.7.0", "1", "2")])]);
    assert_eq!(pre.install_action(), Ok(InstallAction::Predownload(latest)));

    assert_eq!(up_to_date.download_as(), Err(DiffDownloadingError::AlreadyLatest));
    assert_eq!(too_old.download_as(), Err(DiffDownloadingError::Outdated));
    assert_eq!(full.download_as(), Err(DiffDownloadingError::MultipleSegments));
    let honkai_old: VersionDiff<HonkaiEdition> = VersionDiff::Outdated { current: old, latest, edition: HonkaiEdition::Global };
    assert_eq!(honkai_old.download_as(), Err(DiffDownloadingError::MultipleSegments));
    let honkai_latest: VersionDiff<HonkaiEdition> = VersionDiff::Latest { version: latest, edition: HonkaiEdition::Global };
    assert_eq!(honkai_latest.download_as(), Err(DiffDownloadingError::AlreadyLatest));
}

#[test]
fn voice_version_stored_or_predicted() {
    let folder = "/g/GenshinImpact_Data/StreamingAssets/AudioAssets/English(US)";
    let installed = VoicePackage::new(folder, true, GenshinEdition::Global).unwrap();
    assert_eq!(installed.installed_version(Some(&[5, 5, 0]), 0, "5.8.0", None, 0), Some(Version::new(5, 5, 0)));
    assert_eq!(
        installed.installed_version(None, 19512988499, "5.8.0", None, 20000000000),
        Some(Version::new(5, 7, 0))
    );
    let missing = VoicePackage::NotInstalled {
        locale: VoiceLocale::English,
        version: Version::new(5, 7, 0),
        data: download("en-us", "1", "2"),
        game_path: None,
        game_edition: GenshinEdition::Global,
    };
    assert_eq!(missing.installed_version(None, 0, "", None, 0), Some(Version::new(5, 7, 0)));
}
