use crate::text::{after_last, chars_of, lowercase, lowered, string_of, tail_after_last};
use vstd::prelude::*;

verus! {

/// The counter of requests, by top-level domain.
pub const REQUESTS_TOTAL: &'static str = "whois_requests_total";

/// The counter of responses served from the cache.
pub const CACHE_HITS_TOTAL: &'static str = "whois_cache_hits_total";

/// The counter of responses that the cache did not hold.
pub const CACHE_MISSES_TOTAL: &'static str = "whois_cache_misses_total";

/// The counter of errors, by kind.
pub const ERRORS_TOTAL: &'static str = "whois_errors_total";

/// The histogram of the time that requests take, in seconds.
pub const REQUEST_DURATION_SECONDS: &'static str = "whois_request_duration_seconds";

/// One observation to hand to the metrics recorder.
#[derive(Debug, Clone)]
pub enum MetricEvent {
    /// Add 1 to the counter `name`, under the label `label` where there is one.
    Increment { name: String, label: Option<(String, String)> },
    /// Record `millis` milliseconds in the histogram `name`, which counts seconds.
    Duration { name: String, millis: u64 },
}

/// What an observation holds.
pub enum Observation {
    Increment { name: Seq<char>, label: Option<(Seq<char>, Seq<char>)> },
    Duration { name: Seq<char>, millis: u64 },
}

impl View for MetricEvent {
    type V = Observation;

    open spec fn view(&self) -> Observation {
        match *self {
            MetricEvent::Increment { name, label } => Observation::Increment {
                name: name@,
                label: match label {
                    Some((k, v)) => Some((k@, v@)),
                    None => None,
                },
            },
            MetricEvent::Duration { name, millis } => Observation::Duration { name: name@, millis },
        }
    }
}

/// The label under which a request for `domain` is counted: what follows its last
/// dot, in lower case.
pub open spec fn tld_label_of(domain: Seq<char>) -> Seq<char> {
    lowercase(after_last(domain, '.'))
}

/// The label under which a request for `domain` is counted.
pub fn extract_tld(domain: &str) -> (tld: String)
    ensures
        tld@ == tld_label_of(domain@),
{
    string_of(&lowered(&tail_after_last(&chars_of(domain), '.')))
}

/// Counts a request for `domain`.
pub fn increment_requests(domain: &str) -> (e: MetricEvent)
    ensures
        e@ == (Observation::Increment {
            name: REQUESTS_TOTAL@,
            label: Some(("tld"@, tld_label_of(domain@))),
        }),
{
    MetricEvent::Increment {
        name: REQUESTS_TOTAL.to_owned(),
        label: Some(("tld".to_owned(), extract_tld(domain))),
    }
}

/// Counts a response served from the cache.
pub fn increment_cache_hits() -> (e: MetricEvent)
    ensures
        e@ == (Observation::Increment { name: CACHE_HITS_TOTAL@, label: None }),
{
    MetricEvent::Increment { name: CACHE_HITS_TOTAL.to_owned(), label: None }
}

/// Counts a response that the cache did not hold.
pub fn increment_cache_misses() -> (e: MetricEvent)
    ensures
        e@ == (Observation::Increment { name: CACHE_MISSES_TOTAL@, label: None }),
{
    MetricEvent::Increment { name: CACHE_MISSES_TOTAL.to_owned(), label: None }
}

/// Counts an error of the kind `error_type`.
pub fn increment_errors(error_type: &str) -> (e: MetricEvent)
    ensures
        e@ == (Observation::Increment {
            name: ERRORS_TOTAL@,
            label: Some(("error_type"@, error_type@)),
        }),
{
    MetricEvent::Increment {
        name: ERRORS_TOTAL.to_owned(),
        label: Some(("error_type".to_owned(), error_type.to_owned())),
    }
}

/// Records the time that a request took.
pub fn record_query_time(duration_ms: u64) -> (e: MetricEvent)
    ensures
        e@ == (Observation::Duration { name: REQUEST_DURATION_SECONDS@, millis: duration_ms }),
{
    MetricEvent::Duration { name: REQUEST_DURATION_SECONDS.to_owned(), millis: duration_ms }
}

} // verus!
