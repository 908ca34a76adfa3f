use crate::lookup::WhoisResponse;
use crate::text::{chars_of, lowercase, lowered, slice_of, string_of, trim, trimmed};
use vstd::prelude::*;

verus! {

/// The key under which the response for `domain` is cached: the domain trimmed
/// and in lower case, without one dot at its end.
pub open spec fn cache_key_of(domain: Seq<char>) -> Seq<char> {
    let n = lowercase(trim(domain));
    if n.len() > 0 && n.last() == '.' {
        n.drop_last()
    } else {
        n
    }
}

/// The key under which the response for `domain` is cached.
pub fn normalize_domain(domain: &str) -> (key: String)
    ensures
        key@ == cache_key_of(domain@),
{
    let n = lowered(&trimmed(&chars_of(domain)));
    if n.len() > 0 && n[n.len() - 1] == '.' {
        let cut = slice_of(&n, 0, n.len() - 1);
        proof {
            assert(n@.subrange(0, n@.len() - 1) =~= n@.drop_last());
        }
        string_of(&cut)
    } else {
        string_of(&n)
    }
}

/// A response as it leaves the cache: marked as cached, and else as it went in.
pub fn mark_cached(response: WhoisResponse) -> (r: WhoisResponse)
    ensures
        r == (WhoisResponse { cached: true, ..response }),
{
    let mut r = response;
    r.cached = true;
    r
}

} // verus!
