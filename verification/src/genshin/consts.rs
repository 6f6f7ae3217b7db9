use vstd::prelude::*;
use crate::paths::{join, path_join};
use super::voice_data::locale::VoiceLocale;

verus! {

/// Edition of the game. The edition that a launcher works with is passed to
/// the functions that depend on it
#[derive(Debug, Clone, Copy, PartialEq, Eq, Structural)]
pub enum GameEdition {
    Global,
    China,
}

impl Default for GameEdition {
    fn default() -> (r: Self)
        ensures
            r == GameEdition::Global,
    {
        Self::Global
    }
}

pub open spec fn spec_api_uri(edition: GameEdition) -> Seq<char> {
    match edition {
        GameEdition::Global => "https://sdk-os-static.hoyoverse.com/hk4e_global/mdk/launcher/api/resource?key=gcStgarh&launcher_id=10"@,
        GameEdition::China => "https://sdk-static.mihoyo.com/hk4e_cn/mdk/launcher/api/resource?key=eYd89JmJ&launcher_id=18"@,
    }
}

pub open spec fn spec_data_folder_name(edition: GameEdition) -> Seq<char> {
    match edition {
        GameEdition::Global => "GenshinImpact_Data"@,
        GameEdition::China => "YuanShen_Data"@,
    }
}

pub open spec fn spec_telemetry_servers(edition: GameEdition) -> Seq<Seq<char>> {
    match edition {
        GameEdition::Global => seq!["log-upload-os.hoyoverse.com"@, "overseauspider.yuanshen.com"@],
        GameEdition::China => seq!["log-upload.mihoyo.com"@, "uspider.yuanshen.com"@],
    }
}

pub fn get_api_uri(edition: GameEdition) -> (r: &'static str)
    ensures
        r@ == spec_api_uri(edition),
{
    match edition {
        GameEdition::Global => "https://sdk-os-static.hoyoverse.com/hk4e_global/mdk/launcher/api/resource?key=gcStgarh&launcher_id=10",
        GameEdition::China => "https://sdk-static.mihoyo.com/hk4e_cn/mdk/launcher/api/resource?key=eYd89JmJ&launcher_id=18",
    }
}

/// Name of the game's data folder
pub fn get_data_folder_name(edition: GameEdition) -> (r: &'static str)
    ensures
        r@ == spec_data_folder_name(edition),
{
    match edition {
        GameEdition::Global => "GenshinImpact_Data",
        GameEdition::China => "YuanShen_Data",
    }
}

pub fn get_telemetry_servers(edition: GameEdition) -> (r: &'static [&'static str])
    ensures
        r@.map_values(|s: &str| s@) == spec_telemetry_servers(edition),
{
    let r: &'static [&'static str] = match edition {
        GameEdition::Global => &["log-upload-os.hoyoverse.com", "overseauspider.yuanshen.com"],
        GameEdition::China => &["log-upload.mihoyo.com", "uspider.yuanshen.com"],
    };
    assert(r@.map_values(|s: &str| s@) =~= spec_telemetry_servers(edition));
    r
}

/// Something that names a voice package folder
pub trait ToFolder {
    spec fn folder_name(&self) -> Seq<char>;

    fn to_folder(&self) -> (r: String)
        ensures
            r@ == self.folder_name(),
    ;
}

impl ToFolder for VoiceLocale {
    open spec fn folder_name(&self) -> Seq<char> {
        self.spec_folder()
    }

    fn to_folder(&self) -> (r: String) {
        VoiceLocale::to_folder(self).to_owned()
    }
}

impl ToFolder for String {
    open spec fn folder_name(&self) -> Seq<char> {
        self@
    }

    fn to_folder(&self) -> (r: String) {
        self.clone()
    }
}

impl<'a> ToFolder for &'a str {
    open spec fn folder_name(&self) -> Seq<char> {
        (*self)@
    }

    fn to_folder(&self) -> (r: String) {
        (*self).to_owned()
    }
}

/// Folder of the voice packages of the game at `game_path`
pub open spec fn spec_voice_packages_path(game_path: Seq<char>, edition: GameEdition) -> Seq<char> {
    path_join(path_join(game_path, spec_data_folder_name(edition)), "StreamingAssets/Audio/GeneratedSoundBanks/Windows"@)
}

pub fn get_voice_packages_path(game_path: &str, edition: GameEdition) -> (r: String)
    ensures
        r@ == spec_voice_packages_path(game_path@, edition),
{
    let data = join(game_path, get_data_folder_name(edition));
    join(data.as_str(), "StreamingAssets/Audio/GeneratedSoundBanks/Windows")
}

pub fn get_voice_package_path<F: ToFolder>(game_path: &str, edition: GameEdition, locale: &F) -> (r: String)
    ensures
        r@ == path_join(spec_voice_packages_path(game_path@, edition), locale.folder_name()),
{
    let packages = get_voice_packages_path(game_path, edition);
    let folder = locale.to_folder();
    join(packages.as_str(), folder.as_str())
}

} // verus!
