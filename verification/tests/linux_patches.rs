use anime_game_core::genshin::linux_patch::applier::{sync_step, ApplierError, PatchApplier, SyncCheck};
use anime_game_core::genshin::linux_patch::patch::{Patch, PatchStatus, Regions};
use anime_game_core::genshin::linux_patch::patches::{
    folder_version, listing_readable, newest_patch_folder, patch_status, player_hash, player_hashes, script_readable, status_for, PatchError, PatchExt, UnityPlayerPatch, XluaPatch,
};
use anime_game_core::genshin::linux_patch::script::{patch_applied, patch_reverted, remove_timestamp_checks, root_command, strip_test_guards};
use anime_game_core::games::star_rail::linux_patch::main_patch::{MainPatch, PatchError as MainPatchError, PatchHashes, PatchMetadata, RegionHashes};
use anime_game_core::games::star_rail::linux_patch::status::{Patch as StarRailPatch, PatchStatus as StarRailStatus};
use anime_game_core::games::star_rail::consts::GameEdition;
use anime_game_core::version::Version;

const ABC_MD5: &str = "900150983cd24fb0d6963f7d28e17f72";
const MARK: &str = "#echo \"If you would like to test this patch, modify this script and remove the line below this one.\"";

fn hash_line(hash: &str) -> String {
    format!("if [ \"${{sum}}\" == \"{hash}\" ]; then")
}

#[test]
fn hashes_of_a_script() {
    let script = format!("#!/bin/bash\n{}\n  echo\n{}\n", hash_line(ABC_MD5), hash_line("<TODO>"));
    assert_eq!(player_hashes(&script), vec![Some(String::from(ABC_MD5)), None]);
    assert_eq!(player_hashes("no hashes here\n"), Vec::<Option<String>>::new());
}

#[test]
fn regions_from_hashes() {
    let a = String::from(ABC_MD5);
    let b = String::from("8c8c3d845b957e4cb84c662bed44d072");
    assert_eq!(player_hash(vec![]), None);
    assert_eq!(player_hash(vec![None]), None);
    assert_eq!(player_hash(vec![Some(a.clone())]), Some(Regions::Global(a.clone())));
    assert_eq!(player_hash(vec![None, Some(b.clone())]), Some(Regions::China(b.clone())));
    assert_eq!(player_hash(vec![Some(a.clone()), None]), Some(Regions::Global(a.clone())));
    assert_eq!(player_hash(vec![Some(a.clone()), Some(b.clone())]), Some(Regions::Both { global: a, china: b }));
}

#[test]
fn patch_status_from_script() {
    let v = Version::new(3, 1, 0);
    let stable = format!("{}\n{}\n", hash_line(ABC_MD5), MARK);
    let testing = format!("{}\n", hash_line(ABC_MD5));
    assert_eq!(status_for(v, v, &stable), PatchStatus::Available { version: v, player_hash: Regions::Global(String::from(ABC_MD5)) });
    assert_eq!(status_for(v, v, &testing), PatchStatus::Testing { version: v, player_hash: Regions::Global(String::from(ABC_MD5)) });
    assert_eq!(status_for(v, v, "echo preparing\n"), PatchStatus::Preparation { version: v });
    let newer = Version::new(3, 2, 0);
    assert_eq!(status_for(v, newer, ""), PatchStatus::Outdated { current: v, latest: newer });
}

#[test]
fn applied_patch_changes_the_library_hash() {
    let patch = UnityPlayerPatch {
        patch_folder: String::from("/patch"),
        status: PatchStatus::Available { version: Version::new(3, 1, 0), player_hash: Regions::Global(String::from(ABC_MD5)) },
    };
    assert!(!patch.is_applied(b"abc"));
    assert!(patch.is_applied(b"abd"));
    assert_eq!(patch.patching_library(), "UnityPlayer.dll");
    assert_eq!(patch.patch_script(), "patch.sh");
    assert_eq!(patch.usable_version(), Ok(Version::new(3, 1, 0)));
    assert_eq!(patch.version_folder(&Version::new(3, 1, 0)), "/patch/310");
    let preparing = XluaPatch { patch_folder: String::from("/patch"), status: PatchStatus::Preparation { version: Version::new(3, 2, 0) } };
    assert!(!preparing.is_applied(b"abd"));
    assert_eq!(preparing.usable_version(), Err(PatchError::NotAvailable));
    assert_eq!(preparing.patching_library(), "Plugins/xlua.dll");
    assert!(Regions::Both { global: String::from("a"), china: String::from("b") }.is_applied("c"));
    assert!(!Regions::China(String::from("c")).is_applied("c"));
}

#[test]
fn script_edits() {
    let mut script = String::from("exit 1\nread -p ok\n");
    script.push_str(&"#".repeat(650 - script.len()));
    script.push_str("\nexit 0\n");
    let unguarded = strip_test_guards(&script);
    assert!(unguarded.starts_with("#exit 1\n#read -p ok\n"));
    assert!(unguarded.ends_with("\nexit 0\n"));
    assert_eq!(remove_timestamp_checks("difftime=$(date)\n"), "difftime=0 #difftime=$(date)\n");
    assert_eq!(root_command("/g", "/tmp/p.sh"), "cd '/g' ; bash '/tmp/p.sh'");
    assert!(patch_applied("... Patch applied! ..."));
    assert!(!patch_reverted("ERROR: no backup"));
    assert!(patch_reverted("Done"));
}

#[test]
fn patch_folders() {
    assert_eq!(folder_version("310"), Version::new(3, 1, 0));
    let names = vec![String::from("300"), String::from("320"), String::from("310")];
    assert_eq!(newest_patch_folder(&names), Some(1));
    let applier = PatchApplier::new("/patches");
    assert_eq!(applier.patch_folder("3.1.0"), Ok(String::from("/patches/310")));
    assert_eq!(applier.patch_folder("3.1"), Err(ApplierError::NoPatchVersion));
    assert_eq!(Patch::new("/patches").folder(), "/patches");
}

#[test]
fn star_rail_main_patch() {
    let latest = Version::new(2, 7, 0);
    let metadata = |version: &str, testing: bool, global: bool| PatchMetadata {
        version: String::from(version),
        testing,
        hashes: PatchHashes {
            global: if global { Some(RegionHashes { srbase: String::from("s"), player: String::from("p") }) } else { None },
            china: None,
        },
    };
    let repo = StarRailPatch::new("/sr-patch");
    let patch = repo.main_patch(GameEdition::Global, metadata("2.7.0", false, false), latest);
    assert_eq!(patch.folder(), "/sr-patch");
    assert_eq!(patch.status(), &StarRailStatus::NotAvailable);
    assert_eq!(
        repo.main_patch(GameEdition::Global, metadata("2.6.0", false, true), latest).status,
        StarRailStatus::Outdated { current: Version::new(2, 6, 0), latest }
    );
    assert_eq!(
        repo.main_patch(GameEdition::Global, metadata("2.7.0", true, true), latest).status,
        StarRailStatus::Testing { version: latest, srbase_hash: String::from("s"), player_hash: String::from("p") }
    );
    assert_eq!(
        MainPatch::from_folder("/sr", GameEdition::Global, metadata("2.8.0", false, true), latest).status,
        StarRailStatus::Available { version: Version::new(2, 8, 0), srbase_hash: String::from("s"), player_hash: String::from("p") }
    );
    assert_eq!(repo.main_patch(GameEdition::China, metadata("2.7.0", false, true), latest).status, StarRailStatus::NotAvailable);
    assert!(!patch.is_applied(b"abc", b"abc"));
    assert_eq!(patch.check_usable(), Err(MainPatchError::NotAvailable));
    let testing = MainPatch {
        folder: String::from("/sr-patch"),
        status: StarRailStatus::Testing { version: Version::new(2, 7, 0), srbase_hash: String::from(ABC_MD5), player_hash: String::from("x") },
    };
    assert!(!testing.is_applied(b"abc", b"other"));
    assert!(testing.is_applied(b"abd", b"other"));
    assert_eq!(testing.check_usable(), Ok(()));
    assert_eq!(MainPatch::install_args("/tmp/t", false), vec!["/tmp/t/install.sh", "--yes-to-all", "--no-root"]);
    assert_eq!(MainPatch::install_args("/tmp/t", true).len(), 2);
    assert!(MainPatch::script_succeeded("... Done"));
    assert!(!MainPatch::script_succeeded("failed"));
}

#[test]
fn patch_status_from_listing() {
    let latest = Version::new(3, 2, 0);
    let stable = format!("{}\n{}\n", hash_line(ABC_MD5), MARK);
    let names = vec![String::from("310"), String::from("320")];
    assert_eq!(patch_status(&[], latest, ""), PatchStatus::NotAvailable);
    assert_eq!(
        patch_status(&names, latest, &stable),
        PatchStatus::Available { version: latest, player_hash: Regions::Global(String::from(ABC_MD5)) }
    );
    let old = vec![String::from("300")];
    assert_eq!(patch_status(&old, latest, ""), PatchStatus::Outdated { current: Version::new(3, 0, 0), latest });
    let patch = Patch::new("/patches");
    let unity = patch.unity_player_patch(&names, latest, &stable);
    assert_eq!(unity.patch_folder, "/patches");
    assert_eq!(unity.status, PatchStatus::Available { version: latest, player_hash: Regions::Global(String::from(ABC_MD5)) });
    let xlua = patch.xlua_patch(&names, latest, "echo preparing\n");
    assert_eq!(xlua.status, PatchStatus::Preparation { version: latest });
}

#[test]
fn unreadable_patch_listings() {
    let latest = Version::new(3, 2, 0);
    let three = format!("{}\n{}\n{}\n", hash_line(ABC_MD5), hash_line(ABC_MD5), hash_line(ABC_MD5));
    let unknown = format!("{}\n{}\n", hash_line("<TODO>"), hash_line("<TODO>"));
    assert!(script_readable(&format!("{}\n", hash_line(ABC_MD5))));
    assert!(!script_readable(&three));
    assert!(!script_readable(&unknown));
    assert!(script_readable("if [ \"${sum}\" == \"é\" ]; then"));
    assert!(!script_readable("if [ \"${sum}\" == \"abé12345678"));
    assert!(script_readable("0123456789012345678é"));
    assert!(!script_readable("01234567890123456é890123"));
    let names = vec![String::from("320")];
    assert!(listing_readable(&[], latest, &three));
    assert!(!listing_readable(&names, latest, &three));
    assert!(listing_readable(&[String::from("310")], latest, &three));
    assert!(!listing_readable(&[String::from("3/0")], latest, ""));
}

#[test]
fn version_folder_reads_back() {
    let patch = UnityPlayerPatch { patch_folder: String::from("/patch"), status: PatchStatus::NotAvailable };
    for v in [Version::new(3, 1, 0), Version::new(0, 0, 9), Version::new(9, 9, 9)] {
        let folder = patch.version_folder(&v);
        let name = folder.rsplit('/').next().unwrap();
        assert_eq!(folder_version(name), v);
    }
}

#[test]
fn sync_checks_probe_remotes_in_order() {
    let head = b"abc\n".to_vec();
    assert_eq!(sync_step(false, &["r1"], &head, &[]), SyncCheck::NotSynced);
    assert_eq!(sync_step(true, &["r1", "r2"], &head, &[]), SyncCheck::Check(String::from("r1")));
    assert_eq!(sync_step(true, &["r1", "r2"], &head, &[b"old\n".to_vec()]), SyncCheck::Check(String::from("r2")));
    assert_eq!(sync_step(true, &["r1", "r2"], &head, &[b"old\n".to_vec(), head.clone()]), SyncCheck::Synced);
    assert_eq!(sync_step(true, &["r1", "r2"], &head, &[b"old\n".to_vec(), b"x".to_vec()]), SyncCheck::NotSynced);
    assert_eq!(sync_step(true, &[], &head, &[]), SyncCheck::NotSynced);
}
