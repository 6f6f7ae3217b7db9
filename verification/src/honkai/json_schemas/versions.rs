use vstd::prelude::*;

verus! {

// In theory this can not contain data field
// and has some actual error, but I never had it in practice

#[derive(Clone, Debug, PartialEq, Eq, Hash)]
pub struct Response {
    pub retcode: u16,
    pub message: String,
    pub data: Data,
}

#[derive(Clone, Debug, PartialEq, Eq, Hash)]
pub struct Data {
    pub web_url: String,
    pub game: Game,
}

#[derive(Clone, Debug, PartialEq, Eq, Hash)]
pub struct Game {
    pub latest: Latest,
}

#[derive(Clone, Debug, PartialEq, Eq, Hash)]
pub struct Latest {
    pub name: String,
    pub version: String,
    pub path: String,
    pub size: String,
    pub md5: String,
    pub entry: String,
    pub package_size: String,
    pub decompressed_path: String,
}

} // verus!
