use vstd::prelude::*;
use md5::Digest;

verus! {

/// The MD5 digest of some bytes, in lower case hexadecimal
pub uninterp spec fn md5_hex(data: Seq<u8>) -> Seq<char>;

/// MD5 digest of `data` (md-5's `Md5::digest`), formatted in lower case
/// hexadecimal; the result is named `md5_hex(data)`
#[verifier::external_body]
pub(crate) fn md5_hex_of(data: &[u8]) -> (r: String)
    ensures
        r@ == md5_hex(data@),
{
    format!("{:x}", md5::Md5::digest(data))
}

} // verus!
