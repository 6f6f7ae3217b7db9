use vstd::prelude::*;
use crate::paths::{join, path_join};
use crate::strings::{to_ascii_lowercase, chars_start_with, starts_with, ascii_lowercase};
use super::voice_data::locale::VoiceLocale;

verus! {

#[derive(Debug, Clone, Copy, PartialEq, Eq, Hash, Structural)]
pub enum GameEdition {
    Global,
    China,
}

impl Default for GameEdition {
    #[inline]
    fn default() -> (r: Self)
        ensures
            r == GameEdition::Global,
    {
        Self::Global
    }
}

impl GameEdition {
    pub open spec fn spec_api_uri(self) -> Seq<char> {
        match self {
            GameEdition::Global => "https://sdk-os-static.hoyoverse.com/hk4e_global/mdk/launcher/api/resource?key=gcStgarh&launcher_id=10"@,
            GameEdition::China => "https://sdk-static.mihoyo.com/hk4e_cn/mdk/launcher/api/resource?key=eYd89JmJ&launcher_id=18"@,
        }
    }

    pub open spec fn spec_data_folder(self) -> Seq<char> {
        match self {
            GameEdition::Global => "GenshinImpact_Data"@,
            GameEdition::China => "YuanShen_Data"@,
        }
    }

    pub open spec fn spec_telemetry_servers(self) -> Seq<Seq<char>> {
        match self {
            GameEdition::Global => seq!["log-upload-os.hoyoverse.com"@, "overseauspider.yuanshen.com"@],
            GameEdition::China => seq!["log-upload.mihoyo.com"@, "uspider.yuanshen.com"@],
        }
    }

    /// The edition that a system locale selects: China for locales that start
    /// with `zh_cn`, ignoring ASCII case, Global for every other
    pub open spec fn spec_from_locale(locale: Seq<char>) -> GameEdition {
        if starts_with(ascii_lowercase(locale), "zh_cn"@) {
            GameEdition::China
        } else {
            GameEdition::Global
        }
    }

    #[inline]
    pub fn list() -> (r: &'static [GameEdition])
        ensures
            r@ == seq![GameEdition::Global, GameEdition::China],
    {
        &[Self::Global, Self::China]
    }

    #[inline]
    pub fn api_uri(&self) -> (r: &'static str)
        ensures
            r@ == self.spec_api_uri(),
    {
        match self {
            GameEdition::Global => "https://sdk-os-static.hoyoverse.com/hk4e_global/mdk/launcher/api/resource?key=gcStgarh&launcher_id=10",
            GameEdition::China => "https://sdk-static.mihoyo.com/hk4e_cn/mdk/launcher/api/resource?key=eYd89JmJ&launcher_id=18",
        }
    }

    #[inline]
    pub fn data_folder(&self) -> (r: &'static str)
        ensures
            r@ == self.spec_data_folder(),
    {
        match self {
            GameEdition::Global => "GenshinImpact_Data",
            GameEdition::China => "YuanShen_Data",
        }
    }

    #[inline]
    pub fn telemetry_servers(&self) -> (r: &'static [&'static str])
        ensures
            r@.map_values(|s: &str| s@) == self.spec_telemetry_servers(),
    {
        match self {
            GameEdition::Global => &["log-upload-os.hoyoverse.com", "overseauspider.yuanshen.com"],
            GameEdition::China => &["log-upload.mihoyo.com", "uspider.yuanshen.com"],
        }
    }

    /// Edition selected by a system locale string (the value of `LC_ALL`,
    /// `LC_MESSAGES` or `LANG`)
    pub fn from_locale(locale: &str) -> (r: Self)
        ensures
            r == Self::spec_from_locale(locale@),
    {
        let lower = to_ascii_lowercase(locale);
        if chars_start_with(lower.as_slice(), "zh_cn") {
            Self::China
        } else {
            Self::Global
        }
    }
}

/// Path of the folder that holds the voice packages of a game installed at
/// `game_path`
pub open spec fn spec_voice_packages_path(game_path: Seq<char>, game_edition: GameEdition) -> Seq<char> {
    path_join(path_join(game_path, game_edition.spec_data_folder()), "StreamingAssets/AudioAssets"@)
}

#[inline]
pub fn get_voice_packages_path(game_path: &str, game_edition: GameEdition) -> (r: String)
    ensures
        r@ == spec_voice_packages_path(game_path@, game_edition),
{
    let data = join(game_path, game_edition.data_folder());
    join(data.as_str(), "StreamingAssets/AudioAssets")
}

#[inline]
pub fn get_voice_package_path(game_path: &str, game_edition: GameEdition, locale: VoiceLocale) -> (r: String)
    ensures
        r@ == path_join(spec_voice_packages_path(game_path@, game_edition), locale.spec_folder()),
{
    let packages = get_voice_packages_path(game_path, game_edition);
    join(packages.as_str(), locale.to_folder())
}

} // verus!
