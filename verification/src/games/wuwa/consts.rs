use vstd::prelude::*;
use crate::strings::{to_ascii_lowercase, chars_start_with, starts_with, ascii_lowercase};

verus! {

/// Default amount of threads `VersionDiff` will use to download stuff
pub const DEFAULT_DOWNLOADER_THREADS: usize = 8;

#[derive(Debug, Clone, Copy, PartialEq, Eq, Hash, Structural)]
pub enum GameEdition {
    Global,
    China,
}

impl Default for GameEdition {
    #[inline]
    fn default() -> (r: Self)
        ensures
            r == GameEdition::Global,
    {
        Self::Global
    }
}

impl GameEdition {
    pub open spec fn spec_api_uri(self) -> Seq<char> {
        match self {
            GameEdition::Global => "https://prod-awscdn-gamestarter.kurogame.net/pcstarter/prod/game/G143/4/index.json"@,
            GameEdition::China => "https://prod-cn-alicdn-gamestarter.kurogame.com/pcstarter/prod/game/G152/10003_Y8xXrXk65DqFHEDgApn3cpK5lfczpFx5/index.json"@,
        }
    }

    pub open spec fn spec_cdn_uri(self) -> Seq<char> {
        match self {
            GameEdition::Global => "https://prod-awscdn-gamestarter.kurogame.net"@,
            GameEdition::China => "https://pcdownload-huoshan.aki-game.com"@,
        }
    }

    /// China for locales that start with `zh_cn`, ignoring ASCII case, Global
    /// for every other
    pub open spec fn spec_from_locale(locale: Seq<char>) -> GameEdition {
        if starts_with(ascii_lowercase(locale), "zh_cn"@) {
            GameEdition::China
        } else {
            GameEdition::Global
        }
    }

    #[inline]
    pub fn list() -> (r: &'static [GameEdition])
        ensures
            r@ == seq![GameEdition::Global, GameEdition::China],
    {
        &[Self::Global, Self::China]
    }

    #[inline]
    pub fn api_uri(&self) -> (r: &'static str)
        ensures
            r@ == self.spec_api_uri(),
    {
        match self {
            GameEdition::Global => "https://prod-awscdn-gamestarter.kurogame.net/pcstarter/prod/game/G143/4/index.json",
            GameEdition::China => "https://prod-cn-alicdn-gamestarter.kurogame.com/pcstarter/prod/game/G152/10003_Y8xXrXk65DqFHEDgApn3cpK5lfczpFx5/index.json",
        }
    }

    #[inline]
    pub fn cdn_uri(&self) -> (r: &'static str)
        ensures
            r@ == self.spec_cdn_uri(),
    {
        match self {
            GameEdition::Global => "https://prod-awscdn-gamestarter.kurogame.net",
            GameEdition::China => "https://pcdownload-huoshan.aki-game.com",
        }
    }

    #[inline]
    pub fn telemetry_servers(&self) -> (r: &'static [&'static str])
        ensures
            r@.map_values(|s: &str| s@) == seq!["pc.crashsight.wetest.net"@],
    {
        match self {
            GameEdition::Global => &["pc.crashsight.wetest.net"],
            GameEdition::China => &["pc.crashsight.wetest.net"],
        }
    }

    /// Edition selected by a system locale string (the value of `LC_ALL`,
    /// `LC_MESSAGES` or `LANG`)
    pub fn from_locale(locale: &str) -> (r: Self)
        ensures
            r == Self::spec_from_locale(locale@),
    {
        let lower = to_ascii_lowercase(locale);
        if chars_start_with(lower.as_slice(), "zh_cn") {
            Self::China
        } else {
            Self::Global
        }
    }
}

} // verus!
