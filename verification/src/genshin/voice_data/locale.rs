use vstd::prelude::*;
use crate::strings::str_eq;

verus! {

#[derive(Debug, Clone, Copy, PartialEq, Eq, Hash, Structural)]
pub enum VoiceLocale {
    English,
    Japanese,
    Korean,
    Chinese,
}

/// What `VoiceLocale::from_str` reads: names, lower case names, the English
/// folder name and locale codes
pub open spec fn parse_voice_locale(s: Seq<char>) -> Option<VoiceLocale> {
    if s == "English"@ {
        Some(VoiceLocale::English)
    } else if s == "Japanese"@ {
        Some(VoiceLocale::Japanese)
    } else if s == "Korean"@ {
        Some(VoiceLocale::Korean)
    } else if s == "Chinese"@ {
        Some(VoiceLocale::Chinese)
    } else if s == "english"@ {
        Some(VoiceLocale::English)
    } else if s == "japanese"@ {
        Some(VoiceLocale::Japanese)
    } else if s == "korean"@ {
        Some(VoiceLocale::Korean)
    } else if s == "chinese"@ {
        Some(VoiceLocale::Chinese)
    } else if s == "English(US)"@ {
        Some(VoiceLocale::English)
    } else if s == "en-us"@ {
        Some(VoiceLocale::English)
    } else if s == "ja-jp"@ {
        Some(VoiceLocale::Japanese)
    } else if s == "ko-kr"@ {
        Some(VoiceLocale::Korean)
    } else if s == "zh-cn"@ {
        Some(VoiceLocale::Chinese)
    } else {
        None
    }
}

impl VoiceLocale {
    pub open spec fn spec_name(self) -> Seq<char> {
        match self {
            VoiceLocale::English => "English"@,
            VoiceLocale::Japanese => "Japanese"@,
            VoiceLocale::Korean => "Korean"@,
            VoiceLocale::Chinese => "Chinese"@,
        }
    }

    pub open spec fn spec_code(self) -> Seq<char> {
        match self {
            VoiceLocale::English => "en-us"@,
            VoiceLocale::Japanese => "ja-jp"@,
            VoiceLocale::Korean => "ko-kr"@,
            VoiceLocale::Chinese => "zh-cn"@,
        }
    }

    pub open spec fn spec_folder(self) -> Seq<char> {
        match self {
            VoiceLocale::English => "English(US)"@,
            VoiceLocale::Japanese => "Japanese"@,
            VoiceLocale::Korean => "Korean"@,
            VoiceLocale::Chinese => "Chinese"@,
        }
    }

    pub open spec fn spec_lower_name(self) -> Seq<char> {
        match self {
            VoiceLocale::English => "english"@,
            VoiceLocale::Japanese => "japanese"@,
            VoiceLocale::Korean => "korean"@,
            VoiceLocale::Chinese => "chinese"@,
        }
    }

    #[inline]
    pub fn list() -> (r: &'static [VoiceLocale])
        ensures
            r@ == seq![
                VoiceLocale::English,
                VoiceLocale::Japanese,
                VoiceLocale::Korean,
                VoiceLocale::Chinese,
            ],
    {
        &[Self::English, Self::Japanese, Self::Korean, Self::Chinese]
    }

    /// Convert enum value to its name
    ///
    /// `VoiceLocale::English` -> `English`
    #[inline]
    pub fn to_name(&self) -> (r: &'static str)
        ensures
            r@ == self.spec_name(),
    {
        match self {
            Self::English => "English",
            Self::Japanese => "Japanese",
            Self::Korean => "Korean",
            Self::Chinese => "Chinese",
        }
    }

    /// Convert enum value to its code
    ///
    /// `VoiceLocale::English` -> `en-us`
    #[inline]
    pub fn to_code(&self) -> (r: &'static str)
        ensures
            r@ == self.spec_code(),
    {
        match self {
            Self::English => "en-us",
            Self::Japanese => "ja-jp",
            Self::Korean => "ko-kr",
            Self::Chinese => "zh-cn",
        }
    }

    /// Convert enum value to its folder name
    ///
    /// `VoiceLocale::English` -> `English(US)`
    #[inline]
    pub fn to_folder(&self) -> (r: &'static str)
        ensures
            r@ == self.spec_folder(),
    {
        match self {
            Self::English => "English(US)",
            Self::Japanese => "Japanese",
            Self::Korean => "Korean",
            Self::Chinese => "Chinese",
        }
    }

    /// Try to convert string to enum
    ///
    /// - `English` -> `VoiceLocale::English`
    /// - `English(US)` -> `VoiceLocale::English`
    /// - `en-us` -> `VoiceLocale::English`
    pub fn from_str(str: &str) -> (r: Option<VoiceLocale>)
        ensures
            r == parse_voice_locale(str@),
    {
        if str_eq(str, "English") {
            Some(Self::English)
        } else if str_eq(str, "Japanese") {
            Some(Self::Japanese)
        } else if str_eq(str, "Korean") {
            Some(Self::Korean)
        } else if str_eq(str, "Chinese") {
            Some(Self::Chinese)
        } else if str_eq(str, "english") {
            Some(Self::English)
        } else if str_eq(str, "japanese") {
            Some(Self::Japanese)
        } else if str_eq(str, "korean") {
            Some(Self::Korean)
        } else if str_eq(str, "chinese") {
            Some(Self::Chinese)
        } else if str_eq(str, "English(US)") {
            Some(Self::English)
        } else if str_eq(str, "en-us") {
            Some(Self::English)
        } else if str_eq(str, "ja-jp") {
            Some(Self::Japanese)
        } else if str_eq(str, "ko-kr") {
            Some(Self::Korean)
        } else if str_eq(str, "zh-cn") {
            Some(Self::Chinese)
        } else {
            None
        }
    }
}

/// Every locale reads back from its name, its lower case name, its code and
/// its folder name
pub proof fn lemma_voice_locale_roundtrip(l: VoiceLocale)
    ensures
        parse_voice_locale(l.spec_name()) == Some(l),
        parse_voice_locale(l.spec_lower_name()) == Some(l),
        parse_voice_locale(l.spec_code()) == Some(l),
        parse_voice_locale(l.spec_folder()) == Some(l),
{
    reveal_strlit("English");
    reveal_strlit("Japanese");
    reveal_strlit("Korean");
    reveal_strlit("Chinese");
    reveal_strlit("english");
    reveal_strlit("japanese");
    reveal_strlit("korean");
    reveal_strlit("chinese");
    reveal_strlit("English(US)");
    reveal_strlit("en-us");
    reveal_strlit("ja-jp");
    reveal_strlit("ko-kr");
    reveal_strlit("zh-cn");
    assert("Chinese"@[0] != "English"@[0]);
    assert("english"@[0] != "English"@[0]);
    assert("english"@[0] != "Chinese"@[0]);
    assert("japanese"@[0] != "Japanese"@[0]);
    assert("korean"@[0] != "Korean"@[0]);
    assert("chinese"@[0] != "English"@[0]);
    assert("chinese"@[0] != "Chinese"@[0]);
    assert("chinese"@[0] != "english"@[0]);
    assert("ja-jp"@[0] != "en-us"@[0]);
    assert("ko-kr"@[0] != "en-us"@[0]);
    assert("ko-kr"@[0] != "ja-jp"@[0]);
    assert("zh-cn"@[0] != "en-us"@[0]);
    assert("zh-cn"@[0] != "ja-jp"@[0]);
    assert("zh-cn"@[0] != "ko-kr"@[0]);
}

/// A locale's folder name is a plain file name
pub proof fn lemma_folder_is_plain(l: VoiceLocale)
    ensures
        crate::paths::is_plain_name(l.spec_folder()),
{
    reveal_strlit("English(US)");
    reveal_strlit("Japanese");
    reveal_strlit("Korean");
    reveal_strlit("Chinese");
    let f = l.spec_folder();
    assert(f.len() > 2);
    assert(f != seq!['.']);
    assert(f != seq!['.', '.']);
}

} // verus!
