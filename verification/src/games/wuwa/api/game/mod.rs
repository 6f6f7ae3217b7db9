pub mod schema;

use vstd::prelude::*;
use std::io::Read;

verus! {

/// The data that a gzip stream unpacks to, `None` when it is no valid gzip
/// stream
pub uninterp spec fn gunzip(data: Seq<u8>) -> Option<Seq<u8>>;

/// Unpacks a gzip stream with flate2's `read::GzDecoder`, reading it to its
/// end; the result is named `gunzip(data)`
#[verifier::external_body]
fn gz_decode(data: &[u8]) -> (r: Option<Vec<u8>>)
    ensures
        match r {
            Some(v) => gunzip(data@) == Some(v@),
            None => gunzip(data@) is None,
        },
{
    let mut out = Vec::new();
    match flate2::read::GzDecoder::new(data).read_to_end(&mut out) {
        Ok(_) => Some(out),
        Err(_) => None,
    }
}

/// The JSON document of a game API answer: the answer's body is a gzip
/// stream; `None` when it cannot be unpacked
pub fn response_json(body: &[u8]) -> (r: Option<Vec<u8>>)
    ensures
        match r {
            Some(v) => gunzip(body@) == Some(v@),
            None => gunzip(body@) is None,
        },
{
    gz_decode(body)
}

} // verus!
