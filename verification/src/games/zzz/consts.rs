use vstd::prelude::*;
use crate::strings::{to_ascii_lowercase, chars_start_with, starts_with, ascii_lowercase, occurs_at};
use crate::text::{replace_all, lemma_replace_once};

verus! {

#[derive(Debug, Clone, Copy, PartialEq, Eq, Hash, Structural)]
pub enum GameEdition {
    Global,
    China,
}

impl Default for GameEdition {
    #[inline]
    fn default() -> (r: Self)
        ensures
            r == GameEdition::Global,
    {
        Self::Global
    }
}

impl GameEdition {
    pub open spec fn spec_api_uri(self) -> Seq<char> {
        match self {
            GameEdition::Global => "https://sg-hyp-api.hoyoverse.com/hyp/hyp-connect/api/getGamePackages?launcher_id=VYTpXlbWo8"@,
            GameEdition::China => "https://hyp-api.mihoyo.com/hyp/hyp-connect/api/getGamePackages?launcher_id=jGHBHlcOq1"@,
        }
    }

    pub open spec fn spec_game_scan_url(self) -> Seq<char> {
        match self {
            GameEdition::Global => "https://sg-hyp-api.hoyoverse.com/hyp/hyp-connect/api/getGameScanInfo?launcher_id=VYTpXlbWo8"@,
            GameEdition::China => "https://hyp-api.mihoyo.com/hyp/hyp-connect/api/getGameScanInfo?launcher_id=jGHBHlcOq1"@,
        }
    }

    pub open spec fn spec_api_game_id(self) -> Seq<char> {
        match self {
            GameEdition::Global => "U5hbdsT9W7"@,
            GameEdition::China => "x6znKlJ0xK"@,
        }
    }

    pub open spec fn spec_telemetry_servers(self) -> Seq<Seq<char>> {
        match self {
            GameEdition::Global => seq![
                "log-upload-os.hoyoverse.com"@,
                "overseauspider.yuanshen.com"@,
                "apm-log-upload-os.hoyoverse.com"@,
                "zzz-log-upload-os.hoyoverse.com"@,
            ],
            GameEdition::China => seq![
                "log-upload.mihoyo.com"@,
                "uspider.yuanshen.com"@,
                "apm-log-upload-os.hoyoverse.com"@,
                "zzz-log-upload-os.hoyoverse.com"@,
            ],
        }
    }

    /// China for locales that start with `zh_cn`, ignoring ASCII case, Global
    /// for every other
    pub open spec fn spec_from_locale(locale: Seq<char>) -> GameEdition {
        if starts_with(ascii_lowercase(locale), "zh_cn"@) {
            GameEdition::China
        } else {
            GameEdition::Global
        }
    }

    #[inline]
    pub fn list() -> (r: &'static [GameEdition])
        ensures
            r@ == seq![GameEdition::Global, GameEdition::China],
    {
        &[Self::Global, Self::China]
    }

    #[inline]
    pub fn api_uri(&self) -> (r: &'static str)
        ensures
            r@ == self.spec_api_uri(),
    {
        match self {
            GameEdition::Global => "https://sg-hyp-api.hoyoverse.com/hyp/hyp-connect/api/getGamePackages?launcher_id=VYTpXlbWo8",
            GameEdition::China => "https://hyp-api.mihoyo.com/hyp/hyp-connect/api/getGamePackages?launcher_id=jGHBHlcOq1",
        }
    }

    #[inline]
    pub fn game_scan_url(&self) -> (r: &'static str)
        ensures
            r@ == self.spec_game_scan_url(),
    {
        match self {
            GameEdition::Global => "https://sg-hyp-api.hoyoverse.com/hyp/hyp-connect/api/getGameScanInfo?launcher_id=VYTpXlbWo8",
            GameEdition::China => "https://hyp-api.mihoyo.com/hyp/hyp-connect/api/getGameScanInfo?launcher_id=jGHBHlcOq1",
        }
    }

    #[inline]
    pub fn data_folder(&self) -> (r: &'static str)
        ensures
            r@ == "ZenlessZoneZero_Data"@,
    {
        "ZenlessZoneZero_Data"
    }

    #[inline]
    pub fn exe_name(&self) -> (r: &'static str)
        ensures
            r@ == "ZenlessZoneZero.exe"@,
    {
        "ZenlessZoneZero.exe"
    }

    #[inline]
    pub fn api_game_id(&self) -> (r: &'static str)
        ensures
            r@ == self.spec_api_game_id(),
    {
        match self {
            Self::Global => "U5hbdsT9W7",
            Self::China => "x6znKlJ0xK",
        }
    }

    #[inline]
    pub fn telemetry_servers(&self) -> (r: &'static [&'static str])
        ensures
            r@.map_values(|s: &str| s@) == self.spec_telemetry_servers(),
    {
        match self {
            GameEdition::Global => &[
                "log-upload-os.hoyoverse.com",
                "overseauspider.yuanshen.com",
                "apm-log-upload-os.hoyoverse.com",
                "zzz-log-upload-os.hoyoverse.com",
            ],
            GameEdition::China => &[
                "log-upload.mihoyo.com",
                "uspider.yuanshen.com",
                "apm-log-upload-os.hoyoverse.com",
                "zzz-log-upload-os.hoyoverse.com",
            ],
        }
    }

    /// Edition selected by a system locale string (the value of `LC_ALL`,
    /// `LC_MESSAGES` or `LANG`)
    pub fn from_locale(locale: &str) -> (r: Self)
        ensures
            r == Self::spec_from_locale(locale@),
    {
        let lower = to_ascii_lowercase(locale);
        if chars_start_with(lower.as_slice(), "zh_cn") {
            Self::China
        } else {
            Self::Global
        }
    }
}

/// `s` holds no `c`
pub open spec fn lacks(s: Seq<char>, c: char) -> bool
    decreases s.len(),
{
    s.len() == 0 || (s[0] != c && lacks(s.drop_first(), c))
}

proof fn lemma_lacks(s: Seq<char>, c: char)
    requires
        lacks(s, c),
    ensures
        forall|i: int| 0 <= i < s.len() ==> s[i] != c,
    decreases s.len(),
{
    if s.len() > 0 {
        lemma_lacks(s.drop_first(), c);
        assert forall|i: int| 0 <= i < s.len() implies s[i] != c by {
            if i > 0 {
                assert(s[i] == s.drop_first()[i - 1]);
            }
        }
    }
}

proof fn lemma_lacks_concat(a: Seq<char>, b: Seq<char>, c: char)
    requires
        lacks(a, c),
        lacks(b, c),
    ensures
        lacks(a + b, c),
    decreases a.len(),
{
    if a.len() > 0 {
        lemma_lacks_concat(a.drop_first(), b, c);
        assert((a + b).drop_first() =~= a.drop_first() + b);
    } else {
        assert(a + b =~= b);
    }
}

/// `getGamePackages` occurs once in `p + "getGamePackages" + q` when neither
/// `p` nor `q` holds a `P`: every occurrence has a `P` seven places on
proof fn lemma_single_packages(p: Seq<char>, q: Seq<char>)
    requires
        lacks(p, 'P'),
        lacks(q, 'P'),
    ensures
        replace_all(p + "getGamePackages"@ + q, "getGamePackages"@, "getGameScanInfo"@) == p + "getGameScanInfo"@ + q,
{
    reveal_strlit("getGamePackages");
    let from = "getGamePackages"@;
    let s = p + from + q;
    lemma_lacks(p, 'P');
    lemma_lacks(q, 'P');
    assert forall|i: int| 0 <= i < p.len() implies !occurs_at(s, from, i) by {
        if occurs_at(s, from, i) {
            assert(s.subrange(i, i + from.len())[7] == from[7]);
            if i + 7 < p.len() {
                assert(s[i + 7] == p[i + 7]);
            } else {
                assert(s[i + 7] == from[i + 7 - p.len()]);
            }
        }
    }
    assert forall|i: int| 0 <= i < q.len() implies !occurs_at(q, from, i) by {
        if occurs_at(q, from, i) {
            assert(q.subrange(i, i + from.len())[7] == from[7]);
        }
    }
    lemma_replace_once(p, q, from, "getGameScanInfo"@);
}

/// The game scan API is the game API with `getGamePackages` replaced by
/// `getGameScanInfo`
pub proof fn lemma_game_scan_url(e: GameEdition)
    ensures
        e.spec_game_scan_url() == replace_all(e.spec_api_uri(), "getGamePackages"@, "getGameScanInfo"@),
{
    reveal_strlit("getGamePackages");
    reveal_strlit("getGameScanInfo");
    reveal_with_fuel(lacks, 60);
    match e {
        GameEdition::Global => {
            let p = "https://sg-hyp-api.hoyoverse.com/hyp/hyp-connect/api/"@;
            let q = "?launcher_id=VYTpXlbWo8"@;
            reveal_strlit("https://sg-hyp-api.hoyoverse.com/hyp/hyp-connect/api/");
            reveal_strlit("?launcher_id=VYTpXlbWo8");
            reveal_strlit("https://sg-hyp-api.hoyoverse.com/hyp/hyp-connect/api/getGamePackages?launcher_id=VYTpXlbWo8");
            reveal_strlit("https://sg-hyp-api.hoyoverse.com/hyp/hyp-connect/api/getGameScanInfo?launcher_id=VYTpXlbWo8");
            assert(e.spec_api_uri() =~= p + "getGamePackages"@ + q);
            assert(e.spec_game_scan_url() =~= p + "getGameScanInfo"@ + q);
            let p1 = "https://sg-hyp-api.hoyoverse.com/"@;
            let p2 = "hyp/hyp-connect/api/"@;
            reveal_strlit("https://sg-hyp-api.hoyoverse.com/");
            reveal_strlit("hyp/hyp-connect/api/");
            assert(p =~= p1 + p2);
            assert(lacks(p1, 'P'));
            assert(lacks(p2, 'P'));
            lemma_lacks_concat(p1, p2, 'P');
            assert(lacks(q, 'P'));
            lemma_single_packages(p, q);
        },
        GameEdition::China => {
            let p = "https://hyp-api.mihoyo.com/hyp/hyp-connect/api/"@;
            let q = "?launcher_id=jGHBHlcOq1"@;
            reveal_strlit("https://hyp-api.mihoyo.com/hyp/hyp-connect/api/");
            reveal_strlit("?launcher_id=jGHBHlcOq1");
            reveal_strlit("https://hyp-api.mihoyo.com/hyp/hyp-connect/api/getGamePackages?launcher_id=jGHBHlcOq1");
            reveal_strlit("https://hyp-api.mihoyo.com/hyp/hyp-connect/api/getGameScanInfo?launcher_id=jGHBHlcOq1");
            assert(e.spec_api_uri() =~= p + "getGamePackages"@ + q);
            assert(e.spec_game_scan_url() =~= p + "getGameScanInfo"@ + q);
            assert(lacks(p, 'P'));
            assert(lacks(q, 'P'));
            lemma_single_packages(p, q);
        },
    }
}

} // verus!
