use crate::errors::WhoisError;
use crate::rdap::RdapResult;
use crate::record::ParsedWhoisData;
use crate::text::joined;
use crate::whois::WhoisResult;
use vstd::prelude::*;

verus! {

/// What a lookup found: the server that answered, marked with its protocol, the
/// raw reply, the record read from it, and the trace of the parse.
pub struct LookupResult {
    pub server: String,
    pub raw_data: String,
    pub parsed_data: Option<ParsedWhoisData>,
    pub parsing_analysis: Vec<String>,
}

/// What is sent back for a lookup.
#[derive(Debug, Clone)]
pub struct WhoisResponse {
    pub domain: String,
    pub whois_server: String,
    pub raw_data: String,
    pub parsed_data: Option<ParsedWhoisData>,
    /// The response comes from the cache.
    pub cached: bool,
    pub query_time_ms: u64,
    /// The trace of the parse, where it was asked for.
    pub parsing_analysis: Option<Vec<String>>,
}

/// Where a lookup stands. RDAP is tried first and WHOIS once RDAP has failed.
pub enum LookupState {
    TryRdap,
    TryWhois,
    Success(LookupResult),
    Failure(WhoisError),
}

/// `found` is what an RDAP lookup that gave `result` found.
pub open spec fn is_rdap_find(found: LookupResult, result: RdapResult) -> bool {
    &&& found.server@ == "RDAP: "@ + result.server@
    &&& found.raw_data == result.raw_data
    &&& found.parsed_data == result.parsed_data
    &&& found.parsing_analysis == result.parsing_analysis
}

/// `found` is what a WHOIS lookup that gave `result` found.
pub open spec fn is_whois_find(found: LookupResult, result: WhoisResult) -> bool {
    &&& found.server@ == "WHOIS: "@ + result.server@
    &&& found.raw_data == result.raw_data
    &&& found.parsed_data == result.parsed_data
    &&& found.parsing_analysis == result.parsing_analysis
}

/// `next` follows on `state` once the RDAP lookup has ended with `outcome`: success
/// ends the lookup, and any error whatever leads to WHOIS.
pub open spec fn follows_rdap(
    next: LookupState,
    state: LookupState,
    outcome: Result<RdapResult, WhoisError>,
) -> bool {
    match state {
        LookupState::TryRdap => match outcome {
            Ok(result) => next matches LookupState::Success(found) && is_rdap_find(found, result),
            Err(_) => next is TryWhois,
        },
        _ => next == state,
    }
}

/// `next` follows on `state` once the WHOIS lookup has ended with `outcome`: its
/// result is the result of the lookup, and its error the error.
pub open spec fn follows_whois(
    next: LookupState,
    state: LookupState,
    outcome: Result<WhoisResult, WhoisError>,
) -> bool {
    match state {
        LookupState::TryWhois => match outcome {
            Ok(result) => next matches LookupState::Success(found) && is_whois_find(found, result),
            Err(e) => next == LookupState::Failure(e),
        },
        _ => next == state,
    }
}

impl LookupState {
    /// The state in which a lookup begins.
    pub fn start() -> (s: LookupState)
        ensures
            s is TryRdap,
    {
        LookupState::TryRdap
    }

    /// Takes in what the RDAP lookup has come to.
    pub fn on_rdap(self, outcome: Result<RdapResult, WhoisError>) -> (next: LookupState)
        ensures
            follows_rdap(next, self, outcome),
    {
        match self {
            LookupState::TryRdap => match outcome {
                Ok(result) => LookupState::Success(
                    LookupResult {
                        server: joined("RDAP: ", result.server.as_str()),
                        raw_data: result.raw_data,
                        parsed_data: result.parsed_data,
                        parsing_analysis: result.parsing_analysis,
                    },
                ),
                Err(_) => LookupState::TryWhois,
            },
            other => other,
        }
    }

    /// Takes in what the WHOIS lookup has come to.
    pub fn on_whois(self, outcome: Result<WhoisResult, WhoisError>) -> (next: LookupState)
        ensures
            follows_whois(next, self, outcome),
    {
        match self {
            LookupState::TryWhois => match outcome {
                Ok(result) => LookupState::Success(
                    LookupResult {
                        server: joined("WHOIS: ", result.server.as_str()),
                        raw_data: result.raw_data,
                        parsed_data: result.parsed_data,
                        parsing_analysis: result.parsing_analysis,
                    },
                ),
                Err(e) => LookupState::Failure(e),
            },
            other => other,
        }
    }

    /// What the caller gets once the lookup has ended: `None` while it has not.
    pub fn into_result(self) -> (r: Option<Result<LookupResult, WhoisError>>)
        ensures
            match self {
                LookupState::Success(found) => r == Some(Ok::<LookupResult, WhoisError>(found)),
                LookupState::Failure(e) => r == Some(Err::<LookupResult, WhoisError>(e)),
                _ => r is None,
            },
    {
        match self {
            LookupState::Success(found) => Some(Ok(found)),
            LookupState::Failure(e) => Some(Err(e)),
            _ => None,
        }
    }
}

/// Whatever the error of the RDAP lookup, WHOIS is tried next, and the caller gets
/// what WHOIS has come to: its result or its error. The error of RDAP has no part
/// in it.
pub proof fn lemma_whois_decides_after_rdap_failure(
    rdap_error: WhoisError,
    after_rdap: LookupState,
    whois: Result<WhoisResult, WhoisError>,
    last: LookupState,
)
    requires
        follows_rdap(after_rdap, LookupState::TryRdap, Err(rdap_error)),
        follows_whois(last, after_rdap, whois),
    ensures
        after_rdap is TryWhois,
        match whois {
            Ok(result) => last matches LookupState::Success(found) && is_whois_find(found, result),
            Err(e) => last == LookupState::Failure(e),
        },
{
}

/// Puts together the response for what a lookup found. The trace of the parse is
/// part of it only where `include_debug` asks for it.
pub fn build_whois_response(
    domain: String,
    result: (String, String, Option<ParsedWhoisData>, Vec<String>),
    query_time: u64,
    include_debug: bool,
) -> (response: WhoisResponse)
    ensures
        response.domain == domain,
        response.whois_server == result.0,
        response.raw_data == result.1,
        response.parsed_data == result.2,
        !response.cached,
        response.query_time_ms == query_time,
        response.parsing_analysis == if include_debug {
            Some(result.3)
        } else {
            None
        },
{
    WhoisResponse {
        domain,
        whois_server: result.0,
        raw_data: result.1,
        parsed_data: result.2,
        cached: false,
        query_time_ms: query_time,
        parsing_analysis: if include_debug {
            Some(result.3)
        } else {
            None
        },
    }
}

impl LookupResult {
    /// The four parts of what was found.
    pub fn into_parts(self) -> (parts: (String, String, Option<ParsedWhoisData>, Vec<String>))
        ensures
            parts == (self.server, self.raw_data, self.parsed_data, self.parsing_analysis),
    {
        (self.server, self.raw_data, self.parsed_data, self.parsing_analysis)
    }
}

/// The response of a client for the result of the WHOIS service: the server is
/// named as it is, and no trace of the parse is part of it.
pub fn client_response(domain: String, result: WhoisResult, query_time: u64) -> (response:
    WhoisResponse)
    ensures
        response.domain == domain,
        response.whois_server == result.server,
        response.raw_data == result.raw_data,
        response.parsed_data == result.parsed_data,
        !response.cached,
        response.query_time_ms == query_time,
        response.parsing_analysis is None,
{
    WhoisResponse {
        domain,
        whois_server: result.server,
        raw_data: result.raw_data,
        parsed_data: result.parsed_data,
        cached: false,
        query_time_ms: query_time,
        parsing_analysis: None,
    }
}

/// Puts together what a WHOIS lookup hands back.
pub fn whois_result(
    server: String,
    raw_data: String,
    parsed: (Option<ParsedWhoisData>, Vec<String>),
) -> (r: WhoisResult)
    ensures
        r.server == server,
        r.raw_data == raw_data,
        r.parsed_data == parsed.0,
        r.parsing_analysis == parsed.1,
{
    WhoisResult { server, raw_data, parsed_data: parsed.0, parsing_analysis: parsed.1 }
}

} // verus!
