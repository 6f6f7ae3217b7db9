use vstd::prelude::*;
use super::game::schema::{CdnInfo, Data};

verus! {

/// The game API lists no CDN
#[derive(Debug, Clone, Copy, PartialEq, Eq)]
pub struct NoCdn;

pub open spec fn is_first_min(cdns: Seq<CdnInfo>, i: int) -> bool {
    &&& 0 <= i < cdns.len()
    &&& forall|j: int| 0 <= j < cdns.len() ==> cdns[i].P <= cdns[j].P
    &&& forall|j: int| 0 <= j < i ==> cdns[i].P < cdns[j].P
}

/// Index of the CDN with the lowest `P`, the first of them on a tie
pub open spec fn preferred_cdn(cdns: Seq<CdnInfo>) -> Option<int> {
    if cdns.len() == 0 {
        None
    } else {
        Some(choose|i: int| is_first_min(cdns, i))
    }
}

proof fn lemma_first_min_unique(cdns: Seq<CdnInfo>, i: int)
    requires
        is_first_min(cdns, i),
    ensures
        preferred_cdn(cdns) == Some(i),
{
    let k = choose|k: int| is_first_min(cdns, k);
    assert(is_first_min(cdns, k));
    if k < i {
        assert(cdns[i].P < cdns[k].P);
    } else if i < k {
        assert(cdns[k].P < cdns[i].P);
    }
}

/// The preferred CDN's URL without its trailing `/`
pub open spec fn cdn_uri_of(data: Data) -> Option<Seq<char>> {
    match preferred_cdn(data.cdnList@) {
        Some(i) => Some(data.cdnList@[i].url@.drop_last()),
        None => None,
    }
}

/// Find CDN link from the API response: the URL of the CDN with the lowest
/// priority value `P` (the first one on a tie), without its trailing `/`
pub fn find_cdn_uri(data: &Data) -> (r: Result<String, NoCdn>)
    requires
        preferred_cdn(data.cdnList@) matches Some(i) ==> data.cdnList@[i].url@.len() > 0
            && data.cdnList@[i].url@.last() == '/',
    ensures
        match cdn_uri_of(*data) {
            Some(u) => r matches Ok(s) && s@ == u,
            None => r is Err,
        },
{
    let cdns = &data.cdnList;
    let n = cdns.len();
    if n == 0 {
        return Err(NoCdn);
    }
    let mut best: usize = 0;
    let mut i: usize = 1;
    while i < n
        invariant
            n == cdns@.len(),
            1 <= i <= n,
            best < i,
            forall|j: int| 0 <= j < i ==> cdns@[best as int].P <= cdns@[j].P,
            forall|j: int| 0 <= j < best ==> cdns@[best as int].P < cdns@[j].P,
        decreases n - i,
    {
        if cdns[i].P < cdns[best].P {
            best = i;
        }
        i += 1;
    }
    proof {
        lemma_first_min_unique(cdns@, best as int);
    }
    let url = crate::strings::to_chars(cdns[best].url.as_str());
    let trimmed = &url.as_slice()[0..url.len() - 1];
    assert(trimmed@ =~= url@.drop_last());
    Ok(crate::strings::from_chars(trimmed))
}

} // verus!
