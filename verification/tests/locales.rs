use anime_game_core::games::zzz::consts::GameEdition as ZzzEdition;
use anime_game_core::games::genshin::voice_data::locale::VoiceLocale;
use anime_game_core::genshin::voice_data::locale::VoiceLocale as OlderVoiceLocale;

#[test]
fn locale_names_codes_and_folders() {
    assert_eq!(VoiceLocale::English.to_name(), "English");
    assert_eq!(VoiceLocale::English.to_code(), "en-us");
    assert_eq!(VoiceLocale::English.to_folder(), "English(US)");
    assert_eq!(VoiceLocale::Japanese.to_code(), "ja-jp");
    assert_eq!(VoiceLocale::Korean.to_code(), "ko-kr");
    assert_eq!(VoiceLocale::Chinese.to_code(), "zh-cn");
    assert_eq!(VoiceLocale::list().len(), 4);
}

#[test]
fn locale_reads_back() {
    for l in VoiceLocale::list() {
        assert_eq!(VoiceLocale::from_str(l.to_name()), Some(*l));
        assert_eq!(VoiceLocale::from_str(l.to_code()), Some(*l));
        assert_eq!(VoiceLocale::from_str(l.to_folder()), Some(*l));
        assert_eq!(VoiceLocale::from_str(&l.to_name().to_lowercase()), Some(*l));
    }
    for l in OlderVoiceLocale::list() {
        assert_eq!(OlderVoiceLocale::from_str(l.to_code()), Some(*l));
        assert_eq!(OlderVoiceLocale::from_str(l.to_folder()), Some(*l));
    }
}

#[test]
fn unknown_locales() {
    assert_eq!(VoiceLocale::from_str("French"), None);
    assert_eq!(VoiceLocale::from_str("EN-US"), None);
    assert_eq!(OlderVoiceLocale::from_str(""), None);
}

#[test]
fn zzz_scan_url_is_the_api_with_scan_info() {
    for e in [ZzzEdition::Global, ZzzEdition::China] {
        assert_eq!(e.game_scan_url(), e.api_uri().replace("getGamePackages", "getGameScanInfo"));
    }
}
