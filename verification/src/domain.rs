use crate::errors::WhoisError;
use crate::text::{
    begins_with, chars_of, contains, ends_with, find_char, finishes_with, has_text, lowercase,
    lowered, position_of, slice_of, starts_with, string_of, trim, trimmed,
};
use vstd::prelude::*;
use vstd::utf8::encode_utf8;

verus! {

/// The longest domain name, in bytes.
pub const MAX_DOMAIN_LENGTH: usize = 253;

/// A domain name that passed validation: trimmed, in lower case, with a dot.
#[derive(Debug, Clone)]
pub struct ValidatedDomain(pub String);

/// What is wrong with a domain name that is trimmed and in lower case.
#[derive(Clone, Copy, Debug, PartialEq, Eq, Structural)]
pub enum DomainFault {
    /// It is empty.
    Empty,
    /// It is longer than 253 bytes.
    TooLong,
    /// It holds no dot.
    NoDot,
    /// It holds two dots in a row, or begins or ends with a dot.
    Malformed,
}

/// `s` holds the character `c`.
pub open spec fn has_char(s: Seq<char>, c: char) -> bool {
    find_char(s, c) < s.len()
}

/// What is wrong with the name `d`, which is trimmed and in lower case; `None`
/// where nothing is. The faults are looked for in this order.
pub open spec fn fault_of(d: Seq<char>) -> Option<DomainFault> {
    if d.len() == 0 {
        Some(DomainFault::Empty)
    } else if encode_utf8(d).len() > MAX_DOMAIN_LENGTH {
        Some(DomainFault::TooLong)
    } else if !has_char(d, '.') {
        Some(DomainFault::NoDot)
    } else if contains(d, ".."@) || starts_with(d, "."@) || ends_with(d, "."@) {
        Some(DomainFault::Malformed)
    } else {
        None
    }
}

/// What the error for a fault says.
pub open spec fn fault_message(fault: DomainFault) -> Seq<char> {
    match fault {
        DomainFault::Empty => "Empty domain"@,
        DomainFault::TooLong => "Domain name too long"@,
        DomainFault::NoDot => "Invalid domain format"@,
        DomainFault::Malformed => "Invalid domain format"@,
    }
}

/// The kind of error under which a fault is counted.
pub open spec fn fault_label(fault: DomainFault) -> Seq<char> {
    match fault {
        DomainFault::Empty => "invalid_domain"@,
        DomainFault::TooLong => "domain_too_long"@,
        DomainFault::NoDot => "invalid_domain_format"@,
        DomainFault::Malformed => "invalid_domain_format"@,
    }
}

/// The name that is validated for the input `domain`: `None` where nothing is left
/// of the input once it is trimmed.
pub open spec fn normalized(domain: Seq<char>) -> Option<Seq<char>> {
    if trim(domain).len() == 0 {
        None
    } else {
        Some(lowercase(trim(domain)))
    }
}

/// The fault of the input `domain`, if it has one.
pub open spec fn input_fault(domain: Seq<char>) -> Option<DomainFault> {
    match normalized(domain) {
        None => Some(DomainFault::Empty),
        Some(d) => fault_of(d),
    }
}

/// `r` is what validation gives for a name `d` with the fault `fault`, or with none.
pub open spec fn is_verdict(
    r: Result<ValidatedDomain, WhoisError>,
    d: Seq<char>,
    fault: Option<DomainFault>,
) -> bool {
    match fault {
        Some(f) => r matches Err(WhoisError::InvalidDomain(m)) && m@ == fault_message(f),
        None => r matches Ok(v) && v.0@ == d,
    }
}

impl DomainFault {
    /// The error that reports the fault.
    pub fn error(&self) -> (e: WhoisError)
        ensures
            e matches WhoisError::InvalidDomain(m) && m@ == fault_message(*self),
    {
        match self {
            DomainFault::Empty => WhoisError::InvalidDomain("Empty domain".to_owned()),
            DomainFault::TooLong => WhoisError::InvalidDomain("Domain name too long".to_owned()),
            DomainFault::NoDot => WhoisError::InvalidDomain("Invalid domain format".to_owned()),
            DomainFault::Malformed => WhoisError::InvalidDomain("Invalid domain format".to_owned()),
        }
    }

    /// The kind of error under which the fault is counted.
    pub fn metric_label(&self) -> (label: &'static str)
        ensures
            label@ == fault_label(*self),
    {
        match self {
            DomainFault::Empty => "invalid_domain",
            DomainFault::TooLong => "domain_too_long",
            DomainFault::NoDot => "invalid_domain_format",
            DomainFault::Malformed => "invalid_domain_format",
        }
    }
}

/// Looks for a fault in a name that is trimmed and in lower case.
pub fn find_fault(d: &str) -> (fault: Option<DomainFault>)
    ensures
        fault == fault_of(d@),
{
    let v = chars_of(d);
    if v.len() == 0 {
        Some(DomainFault::Empty)
    } else if d.as_bytes().len() > MAX_DOMAIN_LENGTH {
        Some(DomainFault::TooLong)
    } else if position_of(&v, '.') >= v.len() {
        Some(DomainFault::NoDot)
    } else if has_text(&v, "..") || begins_with(&v, ".") || finishes_with(&v, ".") {
        Some(DomainFault::Malformed)
    } else {
        None
    }
}

/// The input `domain` trimmed and in lower case; `None` where nothing is left of it
/// once it is trimmed.
pub fn normalize(domain: &str) -> (r: Option<String>)
    ensures
        match normalized(domain@) {
            Some(d) => r matches Some(s) && s@ == d,
            None => r is None,
        },
{
    let t = trimmed(&chars_of(domain));
    if t.len() == 0 {
        None
    } else {
        Some(string_of(&lowered(&t)))
    }
}

impl ValidatedDomain {
    /// Validates a name that is trimmed and in lower case.
    pub fn check_normalized(d: String) -> (r: Result<ValidatedDomain, WhoisError>)
        ensures
            is_verdict(r, d@, fault_of(d@)),
    {
        match find_fault(d.as_str()) {
            Some(fault) => Err(fault.error()),
            None => Ok(ValidatedDomain(d)),
        }
    }

    /// Validates a domain name as a caller gave it: it is trimmed and put in lower
    /// case, and must then be a name of at most 253 bytes with a dot inside it and
    /// no empty label.
    pub fn validate_domain(domain: String) -> (r: Result<ValidatedDomain, WhoisError>)
        ensures
            match normalized(domain@) {
                Some(d) => is_verdict(r, d, fault_of(d)),
                None => r matches Err(WhoisError::InvalidDomain(m)) && m@ == "Empty domain"@,
            },
    {
        match normalize(domain.as_str()) {
            Some(d) => ValidatedDomain::check_normalized(d),
            None => Err(DomainFault::Empty.error()),
        }
    }

    /// Validates the domain that the query of a request names.
    pub fn from_query_params(domain: &str) -> (r: Result<ValidatedDomain, WhoisError>)
        ensures
            match normalized(domain@) {
                Some(d) => is_verdict(r, d, fault_of(d)),
                None => r matches Err(WhoisError::InvalidDomain(m)) && m@ == "Empty domain"@,
            },
    {
        ValidatedDomain::validate_domain(domain.to_owned())
    }

    /// The domain named in the path of a request: the segment behind `/whois/debug/`
    /// or, failing that, behind `/whois/`.
    pub fn extract_domain_from_path(path: &str) -> (r: Result<String, WhoisError>)
        ensures
            match domain_in_path(path@) {
                Some(d) => r matches Ok(s) && s@ == d,
                None => r matches Err(WhoisError::InvalidDomain(m)) && m@
                    == "Domain not found in path"@,
            },
    {
        let v = chars_of(path);
        match segment_after(&v, "/whois/debug/") {
            Some(d) => {
                return Ok(d);
            },
            None => {},
        }
        match segment_after(&v, "/whois/") {
            Some(d) => {
                return Ok(d);
            },
            None => {},
        }
        Err(WhoisError::InvalidDomain("Domain not found in path".to_owned()))
    }
}

/// The first segment of `path` behind `prefix`, where `path` begins with `prefix`
/// and that segment is not empty.
pub open spec fn segment_behind(path: Seq<char>, prefix: Seq<char>) -> Option<Seq<char>> {
    if starts_with(path, prefix) {
        let rest = path.skip(prefix.len() as int);
        let segment = rest.take(find_char(rest, '/') as int);
        if segment.len() > 0 {
            Some(segment)
        } else {
            None
        }
    } else {
        None
    }
}

/// The domain named in the path of a request.
pub open spec fn domain_in_path(path: Seq<char>) -> Option<Seq<char>> {
    match segment_behind(path, "/whois/debug/"@) {
        Some(d) => Some(d),
        None => segment_behind(path, "/whois/"@),
    }
}

fn segment_after(path: &Vec<char>, prefix: &str) -> (r: Option<String>)
    ensures
        match segment_behind(path@, prefix@) {
            Some(d) => r matches Some(s) && s@ == d,
            None => r is None,
        },
{
    if begins_with(path, prefix) {
        let p = chars_of(prefix);
        let rest = slice_of(path, p.len(), path.len());
        proof {
            assert(path@.skip(p@.len() as int) =~= path@.subrange(
                p@.len() as int,
                path@.len() as int,
            ));
        }
        let k = position_of(&rest, '/');
        let segment = slice_of(&rest, 0, k);
        proof {
            assert(rest@.take(k as int) =~= rest@.subrange(0, k as int));
        }
        if segment.len() > 0 {
            Some(string_of(&segment))
        } else {
            None
        }
    } else {
        None
    }
}

/// What a lookup service makes of the domain it is asked about: the name trimmed
/// and in lower case, or the reason to refuse it.
pub open spec fn is_lookup_domain(r: Result<String, WhoisError>, domain: Seq<char>) -> bool {
    match normalized(domain) {
        None => r matches Err(WhoisError::InvalidDomain(m)) && m@.len() == 0,
        Some(d) => if d.len() == 0 || !has_char(d, '.') {
            r matches Err(WhoisError::InvalidDomain(m)) && m@ == d
        } else {
            r matches Ok(s) && s@ == d
        },
    }
}

/// The check that a lookup service makes before any network activity: the name,
/// trimmed and in lower case, must not be empty and must hold a dot. The error
/// holds the name as it was checked.
pub fn lookup_domain(domain: &str) -> (r: Result<String, WhoisError>)
    ensures
        is_lookup_domain(r, domain@),
{
    match normalize(domain) {
        None => Err(WhoisError::InvalidDomain(String::new())),
        Some(d) => {
            let v = chars_of(d.as_str());
            if v.len() == 0 || position_of(&v, '.') >= v.len() {
                Err(WhoisError::InvalidDomain(d))
            } else {
                Ok(d)
            }
        },
    }
}

/// What a client makes of the domain it is asked about.
pub open spec fn is_client_domain(r: Result<String, WhoisError>, domain: Seq<char>) -> bool {
    match normalized(domain) {
        None => r matches Err(WhoisError::InvalidDomain(m)) && m@ == "Empty domain"@,
        Some(d) => if d.len() == 0 {
            r matches Err(WhoisError::InvalidDomain(m)) && m@ == "Empty domain"@
        } else if !has_char(d, '.') {
            r matches Err(WhoisError::InvalidDomain(m)) && m@ == "Invalid domain format"@
        } else {
            r matches Ok(s) && s@ == d
        },
    }
}

/// The check that a client makes before it looks anything up: the name, trimmed
/// and in lower case, must not be empty and must hold a dot.
pub fn validate_and_normalize_domain(domain: &str) -> (r: Result<String, WhoisError>)
    ensures
        is_client_domain(r, domain@),
{
    match normalize(domain) {
        None => Err(DomainFault::Empty.error()),
        Some(d) => {
            let v = chars_of(d.as_str());
            if v.len() == 0 {
                Err(DomainFault::Empty.error())
            } else if position_of(&v, '.') >= v.len() {
                Err(DomainFault::NoDot.error())
            } else {
                Ok(d)
            }
        },
    }
}

/// A domain without a dot, or with nothing left of it once it is trimmed, is
/// refused as an invalid domain by each of the three checks.
pub proof fn lemma_dotless_or_empty_is_invalid(
    domain: Seq<char>,
    verdict: Result<ValidatedDomain, WhoisError>,
    service: Result<String, WhoisError>,
    client: Result<String, WhoisError>,
)
    requires
        match normalized(domain) {
            Some(d) => d.len() == 0 || !has_char(d, '.'),
            None => true,
        },
        match normalized(domain) {
            Some(d) => is_verdict(verdict, d, fault_of(d)),
            None => verdict matches Err(WhoisError::InvalidDomain(m)) && m@ == "Empty domain"@,
        },
        is_lookup_domain(service, domain),
        is_client_domain(client, domain),
    ensures
        verdict matches Err(WhoisError::InvalidDomain(_)),
        service matches Err(WhoisError::InvalidDomain(_)),
        client matches Err(WhoisError::InvalidDomain(_)),
{
}

/// A name that passes validation is not empty and holds a dot.
pub proof fn lemma_valid_domain_has_dot(d: Seq<char>)
    requires
        fault_of(d) is None,
    ensures
        d.len() > 0,
        has_char(d, '.'),
{
}

} // verus!
