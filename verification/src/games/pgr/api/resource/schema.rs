use vstd::prelude::*;

verus! {

/// List of the game files
#[derive(Debug, Clone, PartialEq, Eq, Hash)]
pub struct Response {
    pub resource: Vec<Resource>,
}

/// One game file: its path relative to the game folder (with a leading `/`),
/// md5 hash and size
#[derive(Debug, Clone, PartialEq, Eq, Hash)]
pub struct Resource {
    pub dest: String,
    pub md5: String,
    pub size: u64,
}

} // verus!
