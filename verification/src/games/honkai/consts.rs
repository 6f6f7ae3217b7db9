use vstd::prelude::*;
use crate::strings::{to_ascii_lowercase, chars_start_with, starts_with, ascii_lowercase};

verus! {

#[derive(Debug, Clone, Copy, PartialEq, Eq, Hash, Structural)]
pub enum GameEdition {
    Global,
    Sea,
    China,
    Taiwan,
    Korea,
    Japan,
}

impl Default for GameEdition {
    #[inline]
    fn default() -> (r: Self)
        ensures
            r == GameEdition::Global,
    {
        Self::Global
    }
}

impl GameEdition {
    pub open spec fn spec_api_uri(self) -> Seq<char> {
        match self {
            GameEdition::China => "https://hyp-api.mihoyo.com/hyp/hyp-connect/api/getGamePackages?launcher_id=jGHBHlcOq1"@,
            _ => "https://sg-hyp-api.hoyoverse.com/hyp/hyp-connect/api/getGamePackages?launcher_id=VYTpXlbWo8"@,
        }
    }

    pub open spec fn spec_api_game_id(self) -> Seq<char> {
        match self {
            GameEdition::Global => "5TIVvvcwtM"@,
            GameEdition::Sea => "bxPTXSET5t"@,
            GameEdition::China => "osvnlOc0S8"@,
            GameEdition::Taiwan => "wkE5P5WsIf"@,
            GameEdition::Korea => "uxB4MC7nzC"@,
            GameEdition::Japan => "g0mMIvshDb"@,
        }
    }

    pub open spec fn spec_telemetry_servers(self) -> Seq<Seq<char>> {
        match self {
            GameEdition::China => seq![
                "log-upload.mihoyo.com"@,
                "public-data-api.mihoyo.com"@,
                "dump.gamesafe.qq.com"@,
            ],
            _ => seq![
                "log-upload-os.hoyoverse.com"@,
                "sg-public-data-api.hoyoverse.com"@,
                "dump.gamesafe.qq.com"@,
            ],
        }
    }

    /// The edition that a system locale selects, ignoring ASCII case: `zh_cn`
    /// China, `zh_tw` Taiwan, `ja` Japan, `ko` Korea, anything else Global
    pub open spec fn spec_from_locale(locale: Seq<char>) -> GameEdition {
        let l = ascii_lowercase(locale);
        if starts_with(l, "zh_cn"@) {
            GameEdition::China
        } else if starts_with(l, "zh_tw"@) {
            GameEdition::Taiwan
        } else if starts_with(l, "ja"@) {
            GameEdition::Japan
        } else if starts_with(l, "ko"@) {
            GameEdition::Korea
        } else {
            GameEdition::Global
        }
    }

    #[inline]
    pub fn list() -> (r: &'static [GameEdition])
        ensures
            r@ == seq![
                GameEdition::Global,
                GameEdition::Sea,
                GameEdition::China,
                GameEdition::Taiwan,
                GameEdition::Korea,
                GameEdition::Japan,
            ],
    {
        &[Self::Global, Self::Sea, Self::China, Self::Taiwan, Self::Korea, Self::Japan]
    }

    #[inline]
    pub fn api_uri(&self) -> (r: &'static str)
        ensures
            r@ == self.spec_api_uri(),
    {
        match self {
            GameEdition::China => "https://hyp-api.mihoyo.com/hyp/hyp-connect/api/getGamePackages?launcher_id=jGHBHlcOq1",
            _ => "https://sg-hyp-api.hoyoverse.com/hyp/hyp-connect/api/getGamePackages?launcher_id=VYTpXlbWo8",
        }
    }

    pub fn api_game_id(&self) -> (r: &'static str)
        ensures
            r@ == self.spec_api_game_id(),
    {
        match self {
            Self::Global => "5TIVvvcwtM",
            Self::Sea => "bxPTXSET5t",
            Self::China => "osvnlOc0S8",
            Self::Taiwan => "wkE5P5WsIf",
            Self::Korea => "uxB4MC7nzC",
            Self::Japan => "g0mMIvshDb",
        }
    }

    #[inline]
    pub fn data_folder(&self) -> (r: &'static str)
        ensures
            r@ == "BH3_Data"@,
    {
        "BH3_Data"
    }

    #[inline]
    pub fn telemetry_servers(&self) -> (r: &'static [&'static str])
        ensures
            r@.map_values(|s: &str| s@) == self.spec_telemetry_servers(),
    {
        match self {
            Self::China => &["log-upload.mihoyo.com", "public-data-api.mihoyo.com", "dump.gamesafe.qq.com"],
            _ => &["log-upload-os.hoyoverse.com", "sg-public-data-api.hoyoverse.com", "dump.gamesafe.qq.com"],
        }
    }

    /// Edition selected by a system locale string (the value of `LC_ALL`,
    /// `LC_MESSAGES` or `LANG`)
    pub fn from_locale(locale: &str) -> (r: Self)
        ensures
            r == Self::spec_from_locale(locale@),
    {
        let lower = to_ascii_lowercase(locale);
        if chars_start_with(lower.as_slice(), "zh_cn") {
            Self::China
        } else if chars_start_with(lower.as_slice(), "zh_tw") {
            Self::Taiwan
        } else if chars_start_with(lower.as_slice(), "ja") {
            Self::Japan
        } else if chars_start_with(lower.as_slice(), "ko") {
            Self::Korea
        } else {
            Self::Global
        }
    }
}

} // verus!
