use crate::errors::WhoisError;
use crate::text::{after_last, chars_of, joined, string_of, tail_after_last};
use publicsuffix::{List, Psl};
use vstd::prelude::*;
use vstd::utf8::{decode_utf8, encode_utf8, valid_utf8};

verus! {

#[verifier::external_type_specification]
#[verifier::external_body]
pub struct ExList(List);

#[verifier::external_type_specification]
#[verifier::external_body]
pub struct ExUtf8Error(core::str::Utf8Error);

/// The rules that a public-suffix list holds: each rule as its text, without the
/// mark of an exception, and whether it is an exception.
pub uninterp spec fn list_rules(list: List) -> Map<Seq<u8>, bool>;

/// The public suffix that a list with the rules `rules` finds in the name `name`,
/// as `publicsuffix` cuts it off a name that has a registrable part before it;
/// `None` where the name has none.
pub uninterp spec fn public_suffix(rules: Map<Seq<u8>, bool>, name: Seq<u8>) -> Option<Seq<u8>>;

/// The view of bytes that may be absent.
pub open spec fn opt_bytes(o: Option<Vec<u8>>) -> Option<Seq<u8>> {
    match o {
        Some(b) => Some(b@),
        None => None,
    }
}

/// Calls `Psl::domain` of `publicsuffix` on `list` and hands out the bytes of the
/// suffix of the domain found. The result depends on the rules of the list and on
/// the name alone; the contract gives it its name and claims nothing else.
#[verifier::external_body]
pub(crate) fn registrable_suffix(list: &List, name: &[u8]) -> (r: Option<Vec<u8>>)
    ensures
        opt_bytes(r) == public_suffix(list_rules(*list), name@),
{
    match list.domain(name) {
        Some(domain) => Some(domain.suffix().as_bytes().to_vec()),
        None => None,
    }
}

/// `core::str::from_utf8` of std accepts the bytes that are valid UTF-8, and then
/// hands out the text that they encode.
pub assume_specification[ core::str::from_utf8 ](v: &[u8]) -> (r: Result<
    &str,
    core::str::Utf8Error,
>)
    ensures
        r is Ok <==> valid_utf8(v@),
        r is Ok ==> r->Ok_0@ == decode_utf8(v@),
;

/// The effective top-level domain of `domain` under a list with the rules `rules`:
/// the public suffix where the list finds one, else what follows the last dot.
/// `None` where the suffix found is no text.
pub open spec fn tld_of(rules: Map<Seq<u8>, bool>, domain: Seq<char>) -> Option<Seq<char>> {
    match public_suffix(rules, encode_utf8(domain)) {
        Some(suffix) => if valid_utf8(suffix) {
            Some(decode_utf8(suffix))
        } else {
            None
        },
        None => Some(after_last(domain, '.')),
    }
}

/// What follows the last dot of `domain`: all of it where it has no dot.
pub fn last_label(domain: &str) -> (tld: String)
    ensures
        tld@ == after_last(domain@, '.'),
{
    string_of(&tail_after_last(&chars_of(domain), '.'))
}

/// The effective top-level domain for a suffix that the list found, or for none.
pub fn tld_from_suffix(suffix: &Option<Vec<u8>>, domain: &str) -> (r: Result<String, WhoisError>)
    ensures
        match *suffix {
            Some(bytes) => if valid_utf8(bytes@) {
                r is Ok && r->Ok_0@ == decode_utf8(bytes@)
            } else {
                r matches Err(WhoisError::InvalidDomain(m)) && m@
                    == "Invalid UTF-8 in TLD for domain: "@ + domain@
            },
            None => r is Ok && r->Ok_0@ == after_last(domain@, '.'),
        },
{
    match suffix {
        Some(bytes) => match core::str::from_utf8(bytes.as_slice()) {
            Ok(tld) => Ok(tld.to_owned()),
            Err(_) => Err(
                WhoisError::InvalidDomain(joined("Invalid UTF-8 in TLD for domain: ", domain)),
            ),
        },
        None => Ok(last_label(domain)),
    }
}

/// The effective top-level domain of `domain`, by which its servers are looked up.
/// Where the list finds no suffix, what follows the last dot is taken.
pub fn extract_tld(psl: &List, domain: &str) -> (r: Result<String, WhoisError>)
    ensures
        match tld_of(list_rules(*psl), domain@) {
            Some(tld) => r is Ok && r->Ok_0@ == tld,
            None => r matches Err(WhoisError::InvalidDomain(m)) && m@
                == "Invalid UTF-8 in TLD for domain: "@ + domain@,
        },
{
    let suffix = registrable_suffix(psl, domain.as_bytes());
    tld_from_suffix(&suffix, domain)
}

} // verus!
