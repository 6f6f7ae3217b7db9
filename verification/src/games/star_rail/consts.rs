use vstd::prelude::*;
use crate::paths::{join, path_join};
use crate::strings::{to_ascii_lowercase, chars_start_with, starts_with, ascii_lowercase};
use crate::games::genshin::voice_data::locale::VoiceLocale;

verus! {

#[derive(Debug, Clone, Copy, PartialEq, Eq, Hash, Structural)]
pub enum GameEdition {
    Global,
    China,
}

impl Default for GameEdition {
    #[inline]
    fn default() -> (r: Self)
        ensures
            r == GameEdition::Global,
    {
        Self::Global
    }
}

impl GameEdition {
    pub open spec fn spec_api_uri(self) -> Seq<char> {
        match self {
            GameEdition::Global => "https://sg-hyp-api.hoyoverse.com/hyp/hyp-connect/api/getGamePackages?launcher_id=VYTpXlbWo8"@,
            GameEdition::China => "https://hyp-api.mihoyo.com/hyp/hyp-connect/api/getGamePackages?launcher_id=jGHBHlcOq1"@,
        }
    }

    pub open spec fn spec_api_game_id(self) -> Seq<char> {
        match self {
            GameEdition::Global => "4ziysqXOQ8"@,
            GameEdition::China => "64kMb5iAWu"@,
        }
    }

    pub open spec fn spec_telemetry_servers(self) -> Seq<Seq<char>> {
        match self {
            GameEdition::Global => seq![
                "log-upload-os.hoyoverse.com"@,
                "sg-public-data-api.hoyoverse.com"@,
                "hkrpg-log-upload-os.hoyoverse.com"@,
            ],
            GameEdition::China => seq!["log-upload.mihoyo.com"@, "public-data-api.mihoyo.com"@],
        }
    }

    /// China for locales that start with `zh_cn`, ignoring ASCII case, Global
    /// for every other
    pub open spec fn spec_from_locale(locale: Seq<char>) -> GameEdition {
        if starts_with(ascii_lowercase(locale), "zh_cn"@) {
            GameEdition::China
        } else {
            GameEdition::Global
        }
    }

    #[inline]
    pub fn list() -> (r: &'static [GameEdition])
        ensures
            r@ == seq![GameEdition::Global, GameEdition::China],
    {
        &[Self::Global, Self::China]
    }

    #[inline]
    pub fn api_uri(&self) -> (r: &'static str)
        ensures
            r@ == self.spec_api_uri(),
    {
        match self {
            GameEdition::Global => "https://sg-hyp-api.hoyoverse.com/hyp/hyp-connect/api/getGamePackages?launcher_id=VYTpXlbWo8",
            GameEdition::China => "https://hyp-api.mihoyo.com/hyp/hyp-connect/api/getGamePackages?launcher_id=jGHBHlcOq1",
        }
    }

    /// Same data folder name for every region
    #[inline]
    pub fn data_folder(&self) -> (r: &'static str)
        ensures
            r@ == "StarRail_Data"@,
    {
        "StarRail_Data"
    }

    /// API IDs used by Sophon
    #[inline]
    pub fn api_game_id(&self) -> (r: &'static str)
        ensures
            r@ == self.spec_api_game_id(),
    {
        match self {
            Self::Global => "4ziysqXOQ8",
            Self::China => "64kMb5iAWu",
        }
    }

    #[inline]
    pub fn telemetry_servers(&self) -> (r: &'static [&'static str])
        ensures
            r@.map_values(|s: &str| s@) == self.spec_telemetry_servers(),
    {
        match self {
            GameEdition::Global => &[
                "log-upload-os.hoyoverse.com",
                "sg-public-data-api.hoyoverse.com",
                "hkrpg-log-upload-os.hoyoverse.com",
            ],
            GameEdition::China => &["log-upload.mihoyo.com", "public-data-api.mihoyo.com"],
        }
    }

    /// Edition selected by a system locale string (the value of `LC_ALL`,
    /// `LC_MESSAGES` or `LANG`)
    pub fn from_locale(locale: &str) -> (r: Self)
        ensures
            r == Self::spec_from_locale(locale@),
    {
        let lower = to_ascii_lowercase(locale);
        if chars_start_with(lower.as_slice(), "zh_cn") {
            Self::China
        } else {
            Self::Global
        }
    }
}

/// Path of the folder that holds the voice packages of a game installed at
/// `game_path`
pub open spec fn spec_voice_packages_path(game_path: Seq<char>) -> Seq<char> {
    path_join(path_join(game_path, "StarRail_Data"@), "Persistent/Audio/AudioPackage/Windows"@)
}

#[inline]
pub fn get_voice_packages_path(game_path: &str, game_edition: GameEdition) -> (r: String)
    ensures
        r@ == spec_voice_packages_path(game_path@),
{
    let data = join(game_path, game_edition.data_folder());
    join(data.as_str(), "Persistent/Audio/AudioPackage/Windows")
}

#[inline]
pub fn get_voice_package_path(game_path: &str, game_edition: GameEdition, locale: VoiceLocale) -> (r: String)
    ensures
        r@ == path_join(spec_voice_packages_path(game_path@), locale.spec_folder()),
{
    let packages = get_voice_packages_path(game_path, game_edition);
    join(packages.as_str(), locale.to_folder())
}

} // verus!
