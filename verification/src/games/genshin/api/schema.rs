use vstd::prelude::*;

verus! {

#[derive(Debug, Clone, PartialEq, Eq, Hash)]
pub struct Response {
    pub retcode: u16,
    pub message: String,
    pub data: Data,
}

#[derive(Debug, Clone, PartialEq, Eq, Hash)]
pub struct Data {
    pub game_packages: Vec<GamePackage>,
}

#[derive(Debug, Clone, PartialEq, Eq, Hash)]
pub struct GamePackage {
    pub game: GameId,
    pub main: GameInfo,
    pub pre_download: Option<GamePredownloadInfo>,
}

#[derive(Debug, Clone, PartialEq, Eq, Hash)]
pub struct GameId {
    pub id: String,
    pub biz: String,
}

#[derive(Debug, Clone, PartialEq, Eq, Hash)]
pub struct GameInfo {
    pub major: GameLatestInfo,
    pub patches: Vec<GamePatch>,
}

#[derive(Debug, Clone, PartialEq, Eq, Hash)]
pub struct GameLatestInfo {
    pub version: String,
    pub game_pkgs: Vec<Segment>,
    pub audio_pkgs: Vec<AudioPackage>,
    pub res_list_url: String,
}

#[derive(Debug, Clone, PartialEq, Eq, Hash)]
pub struct Segment {
    pub url: String,
    pub md5: String,
    pub size: String,
    pub decompressed_size: String,
}

#[derive(Debug, Clone, PartialEq, Eq, Hash)]
pub struct AudioPackage {
    pub language: String,
    pub url: String,
    pub md5: String,
    pub size: String,
    pub decompressed_size: String,
}

#[derive(Debug, Clone, PartialEq, Eq, Hash)]
pub struct GamePatch {
    pub version: String,
    pub game_pkgs: Vec<Segment>,
    pub audio_pkgs: Vec<AudioPackage>,
}

#[derive(Debug, Clone, PartialEq, Eq, Hash)]
pub struct GamePredownloadInfo {
    pub major: Option<GameLatestInfo>,
    pub patches: Vec<GamePatch>,
}

} // verus!
