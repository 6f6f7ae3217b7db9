use vstd::prelude::*;

verus! {

#[derive(Debug, Clone, PartialEq, Eq, Hash)]
pub struct Response {
    pub default: Data,
}

#[allow(non_snake_case)]
#[derive(Debug, Clone, PartialEq, Eq, Hash)]
pub struct Data {
    /// Relative path to the game files list
    pub resources: String,
    /// Relative path to the unpacked game files
    pub resourcesBasePath: String,
    pub version: String,
}

} // verus!
