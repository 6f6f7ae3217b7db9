use vstd::prelude::*;
use crate::strings::{from_chars, to_chars};
use crate::honkai::json_schemas::versions as older;

verus! {

#[derive(Debug, Clone, PartialEq, Eq, Hash)]
pub struct Response {
    pub retcode: u16,
    pub message: String,
    pub data: Data,
}

#[derive(Debug, Clone, PartialEq, Eq, Hash)]
pub struct Data {
    pub game_packages: Vec<GamePackage>,
}

#[derive(Debug, Clone, PartialEq, Eq, Hash)]
pub struct GamePackage {
    pub game: GameId,
    pub main: GameInfo,
}

#[derive(Debug, Clone, PartialEq, Eq, Hash)]
pub struct GameId {
    pub id: String,
    pub biz: String,
}

#[derive(Debug, Clone, PartialEq, Eq, Hash)]
pub struct GameInfo {
    pub major: GameLatestInfo,
}

#[derive(Debug, Clone, PartialEq, Eq, Hash)]
pub struct GameLatestInfo {
    pub version: String,
    pub game_pkgs: Vec<Segment>,
    pub res_list_url: String,
}

#[derive(Debug, Clone, PartialEq, Eq, Hash)]
pub struct Segment {
    pub url: String,
    pub md5: String,
    pub size: String,
    pub decompressed_size: String,
}

/// The latest game as the older API describes it: one archive, whose
/// `package_size` is the archive's size and `size` the unpacked one
pub open spec fn latest_from_old(info: GameLatestInfo, value: older::Latest) -> bool {
    &&& info.version == value.version
    &&& info.res_list_url == value.decompressed_path
    &&& info.game_pkgs@.len() == 1
    &&& info.game_pkgs@[0] == Segment { url: value.path, md5: value.md5, size: value.package_size, decompressed_size: value.size }
}

impl GameLatestInfo {
    /// The latest game from the older API's answer
    pub fn from_old(value: older::Latest) -> (r: Self)
        ensures
            latest_from_old(r, value),
    {
        let mut game_pkgs: Vec<Segment> = Vec::new();
        game_pkgs.push(Segment { url: value.path, md5: value.md5, size: value.package_size, decompressed_size: value.size });
        GameLatestInfo { version: value.version, game_pkgs, res_list_url: value.decompressed_path }
    }
}

impl GameInfo {
    /// The game from the older API's answer
    pub fn from_old(value: older::Game) -> (r: Self)
        ensures
            latest_from_old(r.major, value.latest),
    {
        GameInfo { major: GameLatestInfo::from_old(value.latest) }
    }
}

impl Data {
    /// The data of the older API's answer: one package, for the game of id
    /// `osvnlOc0S8` and business `bh3_cn`
    pub fn from_old(value: older::Data) -> (r: Self)
        ensures
            r.game_packages@.len() == 1,
            r.game_packages@[0].game.id@ == "osvnlOc0S8"@,
            r.game_packages@[0].game.biz@ == "bh3_cn"@,
            latest_from_old(r.game_packages@[0].main.major, value.game.latest),
    {
        let mut game_packages: Vec<GamePackage> = Vec::new();
        game_packages.push(GamePackage {
            game: GameId { id: from_chars(to_chars("osvnlOc0S8").as_slice()), biz: from_chars(to_chars("bh3_cn").as_slice()) },
            main: GameInfo::from_old(value.game),
        });
        Data { game_packages }
    }
}

impl Response {
    /// The older API's answer in this form
    pub fn from_old(value: older::Response) -> (r: Self)
        ensures
            r.retcode == value.retcode,
            r.message == value.message,
            r.data.game_packages@.len() == 1,
            r.data.game_packages@[0].game.id@ == "osvnlOc0S8"@,
            r.data.game_packages@[0].game.biz@ == "bh3_cn"@,
            latest_from_old(r.data.game_packages@[0].main.major, value.data.game.latest),
    {
        Response { retcode: value.retcode, message: value.message, data: Data::from_old(value.data) }
    }
}

} // verus!
