use anime_game_core::games::star_rail::consts::GameEdition;
use anime_game_core::games::star_rail::telemetry::is_disabled;
use anime_game_core::genshin::consts::GameEdition as GenshinEdition;
use anime_game_core::genshin::telemetry::is_disabled as genshin_is_disabled;
use anime_game_core::honkai::telemetry::is_disabled as honkai_is_disabled;
use anime_game_core::telemetry::{check_probes, check_servers, ProbeFailed, TelemetryCheck};

#[test]
fn servers_are_probed_in_order() {
    assert_eq!(is_disabled(GameEdition::Global, &[]), Ok(TelemetryCheck::Check(String::from("log-upload-os.hoyoverse.com"))));
    assert_eq!(
        is_disabled(GameEdition::Global, &[Some(false)]),
        Ok(TelemetryCheck::Check(String::from("sg-public-data-api.hoyoverse.com")))
    );
    assert_eq!(is_disabled(GameEdition::Global, &[Some(false), Some(false), Some(false)]), Ok(TelemetryCheck::Disabled));
    assert_eq!(
        is_disabled(GameEdition::China, &[Some(false), Some(true)]),
        Ok(TelemetryCheck::Enabled(String::from("public-data-api.mihoyo.com")))
    );
}

#[test]
fn failed_probe_fails_the_check() {
    assert_eq!(is_disabled(GameEdition::Global, &[Some(false), None]), Err(ProbeFailed));
    assert_eq!(is_disabled(GameEdition::Global, &[None]), Err(ProbeFailed));
    assert_eq!(check_probes(&["a", "b"], &[Some(true), None]), Ok(TelemetryCheck::Enabled(String::from("a"))));
    assert_eq!(check_probes(&["a"], &[Some(false), None]), Ok(TelemetryCheck::Disabled));
}

#[test]
fn first_answering_server_is_reported() {
    assert_eq!(check_servers(&["a", "b"], &[true, true]), TelemetryCheck::Enabled(String::from("a")));
    assert_eq!(check_servers(&[], &[]), TelemetryCheck::Disabled);
    assert_eq!(check_servers(&["a"], &[false, true]), TelemetryCheck::Disabled);
    assert_eq!(genshin_is_disabled(GenshinEdition::China, &[false]), TelemetryCheck::Check(String::from("uspider.yuanshen.com")));
    assert_eq!(honkai_is_disabled(&[false, false]), TelemetryCheck::Disabled);
}
