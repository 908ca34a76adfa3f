use crate::dates::{clock_now, Moment};
use crate::directory::{is_first_step, lookup_name, LookupStep, ServerDirectory};
use crate::domain::lookup_domain;
use crate::errors::WhoisError;
use crate::tld_mappings::{known_rdap_servers, known_rdap_table, mapping_of_pairs};
use crate::parser::{counted, found_or_not, labelled, set_day_counts, with_day_counts};
use crate::suffix::{extract_tld as suffix_of_domain, list_rules, tld_of};
use crate::record::{
    add_unique, empty_record, lemma_add_unique, lemma_without_repeats, list_has, opt_view,
    push_unique, without_repeats, ParsedWhoisData, Record,
};
use crate::text::{
    append_text, chars_of, digits, first_chars, joined, leading_chars, same_text, string_of,
    string_views,
};
use publicsuffix::List;
use url::Url;
use vstd::prelude::*;

verus! {

/// What a completed RDAP lookup hands back.
#[derive(Debug, Clone)]
pub struct RdapResult {
    /// The base URL of the server that answered.
    pub server: String,
    /// The body of the reply, as it came.
    pub raw_data: String,
    pub parsed_data: Option<ParsedWhoisData>,
    /// The trace of the parse: for debugging only.
    pub parsing_analysis: Vec<String>,
}

/// The domain object of an RDAP reply, decoded.
#[derive(Debug, Clone)]
pub struct RdapDomainResponse {
    pub object_class_name: Option<String>,
    pub handle: Option<String>,
    pub ldh_name: Option<String>,
    pub name_servers: Option<Vec<RdapNameserver>>,
    pub events: Option<Vec<RdapEvent>>,
    pub entities: Option<Vec<RdapEntity>>,
    pub status: Option<Vec<String>>,
}

#[derive(Debug, Clone)]
pub struct RdapNameserver {
    pub object_class_name: Option<String>,
    pub ldh_name: Option<String>,
    pub unicode_name: Option<String>,
}

#[derive(Debug, Clone)]
pub struct RdapEvent {
    pub event_action: Option<String>,
    pub event_date: Option<String>,
}

#[derive(Debug, Clone)]
pub struct RdapEntity {
    pub object_class_name: Option<String>,
    pub handle: Option<String>,
    pub roles: Option<Vec<String>>,
    /// The contact card of the entity, as JSON text.
    pub vcard_array: Option<String>,
}

/// The host names of the name servers that have one, each once, in the order in
/// which they first appear.
pub open spec fn host_names(servers: Seq<RdapNameserver>) -> Seq<Seq<char>>
    decreases servers.len(),
{
    if servers.len() == 0 {
        Seq::empty()
    } else {
        match servers.last().ldh_name {
            Some(name) => add_unique(host_names(servers.drop_last()), name@),
            None => host_names(servers.drop_last()),
        }
    }
}

/// The record `r` after one event was read. An event counts where it has an action
/// and a date. A registration and an expiration each replace the date held; of the
/// two kinds of change the first one read stays.
pub open spec fn with_event(r: Record, event: RdapEvent) -> Record {
    match (event.event_action, event.event_date) {
        (Some(action), Some(date)) => if action@ == "registration"@ {
            Record { creation_date: Some(date@), ..r }
        } else if action@ == "expiration"@ {
            Record { expiration_date: Some(date@), ..r }
        } else if action@ == "last changed"@ || action@ == "last update of RDAP database"@ {
            if r.updated_date is None {
                Record { updated_date: Some(date@), ..r }
            } else {
                r
            }
        } else {
            r
        },
        _ => r,
    }
}

/// The record `r` after each of `events` was read, in order.
pub open spec fn with_events(r: Record, events: Seq<RdapEvent>) -> Record
    decreases events.len(),
{
    if events.len() == 0 {
        r
    } else {
        with_event(with_events(r, events.drop_last()), events.last())
    }
}

/// The fields that a decoded reply fills, before any day count. Name servers and
/// statuses are held once each. Contact cards are not decoded: registrar and
/// registrant stay absent.
pub open spec fn rdap_fields_of(rdap: RdapDomainResponse) -> Record {
    let named = Record {
        name_servers: match rdap.name_servers {
            Some(servers) => host_names(servers@),
            None => Seq::empty(),
        },
        status: match rdap.status {
            Some(status) => without_repeats(string_views(status@)),
            None => Seq::empty(),
        },
        ..empty_record()
    };
    match rdap.events {
        Some(events) => with_events(named, events@),
        None => named,
    }
}

/// The record that a decoded reply gives at the moment `now`. Its day counts are
/// derived as those of a WHOIS reply are, from the same formats in the same order.
pub open spec fn rdap_record_of(rdap: RdapDomainResponse, now: Moment) -> Record {
    with_day_counts(rdap_fields_of(rdap), now)
}

/// The trace of a parse that gave the record `r`.
pub open spec fn rdap_analysis_of(r: Record) -> Seq<Seq<char>> {
    seq![
        "=== RDAP PARSING ANALYSIS ==="@,
        "✓ RDAP JSON parsed successfully"@,
        "✓ Registrar: "@ + found_or_not(r.registrar),
        "✓ Creation Date: "@ + found_or_not(r.creation_date),
        "✓ Expiration Date: "@ + found_or_not(r.expiration_date),
        "✓ Name Servers: "@ + digits(r.name_servers.len()) + " found"@,
        "✓ Status: "@ + digits(r.status.len()) + " found"@,
    ]
}

/// The trace of a reply that could not be decoded: the reason, and the first 500
/// characters of the reply.
pub open spec fn rdap_failure_of(raw_data: Seq<char>, reason: Seq<char>) -> Seq<Seq<char>> {
    seq![
        "=== RDAP PARSING ANALYSIS ==="@,
        "❌ Failed to parse RDAP JSON: "@ + reason,
        "Raw response (first 500 chars):"@,
        first_chars(raw_data, 500),
    ]
}

/// The name of the registrar in a contact card. Contact cards are not decoded.
pub fn extract_registrar_from_vcard(_vcard: &str) -> (r: Option<String>)
    ensures
        r is None,
{
    None
}

/// The name in a contact card. Contact cards are not decoded.
pub fn extract_name_from_vcard(_vcard: &str) -> (r: Option<String>)
    ensures
        r is None,
{
    None
}

/// The e-mail address in a contact card. Contact cards are not decoded.
pub fn extract_email_from_vcard(_vcard: &str) -> (r: Option<String>)
    ensures
        r is None,
{
    None
}

fn collect_host_names(servers: &Vec<RdapNameserver>) -> (r: Vec<String>)
    ensures
        string_views(r@) == host_names(servers@),
{
    let mut r: Vec<String> = Vec::new();
    let mut i: usize = 0;
    proof {
        assert(string_views(r@) =~= host_names(servers@.take(0)));
    }
    while i < servers.len()
        invariant
            i <= servers.len(),
            string_views(r@) == host_names(servers@.take(i as int)),
        decreases servers.len() - i,
    {
        proof {
            assert(servers@.take(i + 1).drop_last() =~= servers@.take(i as int));
            assert(servers@.take(i + 1).last() == servers@[i as int]);
        }
        match &servers[i].ldh_name {
            Some(name) => {
                push_unique(&mut r, name.clone());
            },
            None => {},
        }
        i += 1;
    }
    proof {
        assert(servers@.take(servers@.len() as int) =~= servers@);
    }
    r
}

fn collect_unique(list: &Vec<String>) -> (r: Vec<String>)
    ensures
        string_views(r@) == without_repeats(string_views(list@)),
{
    let mut r: Vec<String> = Vec::new();
    let ghost all = string_views(list@);
    let mut i: usize = 0;
    proof {
        assert(string_views(r@) =~= without_repeats(all.take(0)));
    }
    while i < list.len()
        invariant
            i <= list.len(),
            all == string_views(list@),
            string_views(r@) == without_repeats(all.take(i as int)),
        decreases list.len() - i,
    {
        proof {
            assert(all.take(i + 1).drop_last() =~= all.take(i as int));
            assert(all.take(i + 1).last() == list@[i as int]@);
        }
        push_unique(&mut r, list[i].clone());
        i += 1;
    }
    proof {
        assert(all.take(all.len() as int) =~= all);
    }
    r
}

fn store_event(parsed: &mut ParsedWhoisData, event: &RdapEvent)
    ensures
        final(parsed)@ == with_event(old(parsed)@, *event),
{
    match (&event.event_action, &event.event_date) {
        (Some(action), Some(date)) => {
            if same_text(action.as_str(), "registration") {
                parsed.creation_date = Some(date.clone());
            } else if same_text(action.as_str(), "expiration") {
                parsed.expiration_date = Some(date.clone());
            } else if same_text(action.as_str(), "last changed") || same_text(
                action.as_str(),
                "last update of RDAP database",
            ) {
                if parsed.updated_date.is_none() {
                    parsed.updated_date = Some(date.clone());
                }
            }
        },
        _ => {},
    }
}

fn store_events(parsed: &mut ParsedWhoisData, events: &Vec<RdapEvent>)
    ensures
        final(parsed)@ == with_events(old(parsed)@, events@),
{
    let mut i: usize = 0;
    proof {
        assert(events@.take(0) =~= Seq::<RdapEvent>::empty());
    }
    while i < events.len()
        invariant
            i <= events.len(),
            parsed@ == with_events(old(parsed)@, events@.take(i as int)),
        decreases events.len() - i,
    {
        proof {
            assert(events@.take(i + 1).drop_last() =~= events@.take(i as int));
            assert(events@.take(i + 1).last() == events@[i as int]);
        }
        store_event(parsed, &events[i]);
        i += 1;
    }
    proof {
        assert(events@.take(events@.len() as int) =~= events@);
    }
}

fn store_entity(parsed: &mut ParsedWhoisData, entity: &RdapEntity)
    ensures
        final(parsed)@ == old(parsed)@,
{
    match &entity.roles {
        Some(roles) => {
            if list_has(roles, "registrar") {
                match &entity.vcard_array {
                    Some(vcard) => match extract_registrar_from_vcard(vcard.as_str()) {
                        Some(name) => {
                            parsed.registrar = Some(name);
                        },
                        None => {},
                    },
                    None => {},
                }
            }
            if list_has(roles, "registrant") {
                match &entity.vcard_array {
                    Some(vcard) => {
                        match extract_name_from_vcard(vcard.as_str()) {
                            Some(name) => {
                                parsed.registrant_name = Some(name);
                            },
                            None => {},
                        }
                        match extract_email_from_vcard(vcard.as_str()) {
                            Some(email) => {
                                parsed.registrant_email = Some(email);
                            },
                            None => {},
                        }
                    },
                    None => {},
                }
            }
        },
        None => {},
    }
}

/// Reads the fields of a decoded reply.
pub fn rdap_fields(rdap: &RdapDomainResponse) -> (parsed: ParsedWhoisData)
    ensures
        parsed@ == rdap_fields_of(*rdap),
{
    let mut parsed = ParsedWhoisData::empty();
    match &rdap.name_servers {
        Some(servers) => {
            parsed.name_servers = collect_host_names(servers);
        },
        None => {},
    }
    match &rdap.status {
        Some(status) => {
            parsed.status = collect_unique(status);
        },
        None => {},
    }
    match &rdap.events {
        Some(events) => {
            store_events(&mut parsed, events);
        },
        None => {},
    }
    match &rdap.entities {
        Some(entities) => {
            let mut i: usize = 0;
            while i < entities.len()
                invariant
                    i <= entities.len(),
                    parsed@ == rdap_fields_of(*rdap),
                decreases entities.len() - i,
            {
                store_entity(&mut parsed, &entities[i]);
                i += 1;
            }
        },
        None => {},
    }
    parsed
}

/// Derives the three day counts of `parsed` from its date fields, as of `now`.
pub fn calculate_date_fields_at(parsed: &mut ParsedWhoisData, now: &Moment)
    ensures
        final(parsed)@ == with_day_counts(old(parsed)@, *now),
{
    set_day_counts(parsed, now);
}

/// Derives the three day counts of `parsed` from its date fields, as of now.
pub fn calculate_date_fields(parsed: &mut ParsedWhoisData)
    ensures
        exists|now: Moment| final(parsed)@ == with_day_counts(old(parsed)@, now),
{
    let now = clock_now();
    calculate_date_fields_at(parsed, &now);
}

/// What a decoded reply, or the failure to decode one, gives as of `now`: the
/// record and the trace of the parse.
pub open spec fn rdap_outcome_of(
    raw_data: Seq<char>,
    decoded: Result<RdapDomainResponse, String>,
    now: Moment,
) -> (Option<Record>, Seq<Seq<char>>) {
    match decoded {
        Ok(rdap) => (
            Some(rdap_record_of(rdap, now)),
            rdap_analysis_of(rdap_record_of(rdap, now)),
        ),
        Err(reason) => (None, rdap_failure_of(raw_data, reason@)),
    }
}

/// The view of a record that may be absent.
pub open spec fn opt_record(o: Option<ParsedWhoisData>) -> Option<Record> {
    match o {
        Some(p) => Some(p@),
        None => None,
    }
}

/// Normalizes an RDAP reply as of the moment `now`. `decoded` is the reply as the
/// JSON decoder read it, or the decoder's complaint.
pub fn parse_rdap_response_at(
    raw_data: &str,
    decoded: &Result<RdapDomainResponse, String>,
    now: &Moment,
) -> (r: (Option<ParsedWhoisData>, Vec<String>))
    ensures
        (opt_record(r.0), string_views(r.1@)) == rdap_outcome_of(raw_data@, *decoded, *now),
{
    let mut analysis: Vec<String> = Vec::new();
    analysis.push("=== RDAP PARSING ANALYSIS ===".to_owned());
    match decoded {
        Ok(rdap) => {
            let mut parsed = rdap_fields(rdap);
            calculate_date_fields_at(&mut parsed, now);
            analysis.push("✓ RDAP JSON parsed successfully".to_owned());
            analysis.push(labelled("✓ Registrar: ", &parsed.registrar));
            analysis.push(labelled("✓ Creation Date: ", &parsed.creation_date));
            analysis.push(labelled("✓ Expiration Date: ", &parsed.expiration_date));
            analysis.push(counted("✓ Name Servers: ", parsed.name_servers.len()));
            analysis.push(counted("✓ Status: ", parsed.status.len()));
            proof {
                assert(string_views(analysis@) =~= rdap_analysis_of(parsed@));
            }
            (Some(parsed), analysis)
        },
        Err(reason) => {
            analysis.push(joined("❌ Failed to parse RDAP JSON: ", reason.as_str()));
            analysis.push("Raw response (first 500 chars):".to_owned());
            analysis.push(leading_chars(raw_data, 500));
            proof {
                assert(string_views(analysis@) =~= rdap_failure_of(raw_data@, reason@));
            }
            (None, analysis)
        },
    }
}

/// Normalizes an RDAP reply as of now: the clock is read once.
pub fn parse_rdap_response(raw_data: &str, decoded: &Result<RdapDomainResponse, String>) -> (r: (
    Option<ParsedWhoisData>,
    Vec<String>,
))
    ensures
        exists|now: Moment|
            (opt_record(r.0), string_views(r.1@)) == rdap_outcome_of(raw_data@, *decoded, now),
{
    let now = clock_now();
    parse_rdap_response_at(raw_data, decoded, &now)
}

/// Where the list of the RDAP servers of all top-level domains is fetched from.
pub const RDAP_BOOTSTRAP_URL: &'static str = "https://data.iana.org/rdap/dns.json";

/// The media types asked for in an RDAP query.
pub const RDAP_ACCEPT: &'static str = "application/rdap+json, application/json";

/// The name under which RDAP queries are made.
pub const RDAP_USER_AGENT: &'static str = "whois-service/0.1.0 (RDAP client)";

/// One entry of the bootstrap document: the servers of a set of top-level domains.
#[derive(Debug, Clone)]
pub struct RdapBootstrapEntry {
    pub tlds: Vec<String>,
    pub servers: Vec<String>,
}

/// The bootstrap document: which servers answer for which top-level domains.
#[derive(Debug, Clone)]
pub struct RdapBootstrap {
    pub services: Vec<RdapBootstrapEntry>,
    pub publication_date: Option<String>,
    pub version: Option<String>,
}

/// The first server of the first of `services` that lists `tld` and has a server.
pub open spec fn bootstrap_server_of(services: Seq<RdapBootstrapEntry>, tld: Seq<char>) -> Option<
    Seq<char>,
>
    decreases services.len(),
{
    if services.len() == 0 {
        None
    } else if string_views(services[0].tlds@).contains(tld) && services[0].servers@.len() > 0 {
        Some(services[0].servers@[0]@)
    } else {
        bootstrap_server_of(services.drop_first(), tld)
    }
}

/// Looks in the bootstrap document for the server of `tld`.
pub fn find_in_bootstrap(bootstrap: &RdapBootstrap, tld: &str) -> (r: Option<String>)
    ensures
        opt_view(r) == bootstrap_server_of(bootstrap.services@, tld@),
{
    let services = &bootstrap.services;
    let mut i: usize = 0;
    proof {
        assert(services@.skip(0) =~= services@);
    }
    while i < services.len()
        invariant
            i <= services.len(),
            services@ == bootstrap.services@,
            bootstrap_server_of(services@, tld@) == bootstrap_server_of(
                services@.skip(i as int),
                tld@,
            ),
        decreases services.len() - i,
    {
        proof {
            assert(services@.skip(i as int)[0] == services@[i as int]);
            assert(services@.skip(i as int).drop_first() =~= services@.skip(i + 1));
        }
        let entry = &services[i];
        if list_has(&entry.tlds, tld) && entry.servers.len() > 0 {
            let server = entry.servers[0].clone();
            return Some(server);
        }
        i += 1;
    }
    None
}

/// The bootstrap document once it was fetched: it is fetched when it is first
/// needed and kept from then on.
pub struct BootstrapCache {
    document: Option<RdapBootstrap>,
}

impl BootstrapCache {
    /// The document held, if any.
    pub closed spec fn document(&self) -> Option<RdapBootstrap> {
        self.document
    }

    /// A cache that holds no document yet.
    pub fn new() -> (c: BootstrapCache)
        ensures
            c.document() is None,
    {
        BootstrapCache { document: None }
    }

    /// Tells whether the document has still to be fetched.
    pub fn needs_fetch(&self) -> (b: bool)
        ensures
            b == (self.document() is None),
    {
        self.document.is_none()
    }

    /// Keeps the document fetched, unless one is held already: the first stays.
    pub fn store(&mut self, bootstrap: RdapBootstrap)
        ensures
            final(self).document() == if old(self).document() is None {
                Some(bootstrap)
            } else {
                old(self).document()
            },
    {
        if self.document.is_none() {
            self.document = Some(bootstrap);
        }
    }

    /// The server of `tld` by the document held: none where no document is held.
    pub fn server_of(&self, tld: &str) -> (r: Option<String>)
        ensures
            match self.document() {
                Some(bootstrap) => opt_view(r) == bootstrap_server_of(bootstrap.services@, tld@),
                None => r is None,
            },
    {
        match &self.document {
            Some(bootstrap) => find_in_bootstrap(bootstrap, tld),
            None => None,
        }
    }
}

/// Why no URL could be made of a base and a reference.
#[derive(Debug, Clone)]
pub enum UrlFailure {
    /// The base is no URL: the parser's complaint.
    Base(String),
    /// The reference cannot be resolved against the base: the parser's complaint.
    Join(String),
}

/// Why no URL could be made of a base and a reference.
pub enum UrlFault {
    Base(Seq<char>),
    Join(Seq<char>),
}

/// The URL that the crate `url` makes of the reference `reference` against the
/// base `base`, or why it makes none.
pub uninterp spec fn resolved_url(base: Seq<char>, reference: Seq<char>) -> Result<
    Seq<char>,
    UrlFault,
>;

/// The view of what came of making a URL.
pub open spec fn url_outcome(r: Result<String, UrlFailure>) -> Result<Seq<char>, UrlFault> {
    match r {
        Ok(url) => Ok(url@),
        Err(UrlFailure::Base(m)) => Err(UrlFault::Base(m@)),
        Err(UrlFailure::Join(m)) => Err(UrlFault::Join(m@)),
    }
}

/// Calls `Url::parse` of the crate `url` on `base` and `Url::join` on what it
/// gives, and hands out the URL as text, or what the failed call said. The result
/// depends on the two texts alone; the contract gives it its name and claims
/// nothing else.
#[verifier::external_body]
pub(crate) fn resolve_url(base: &str, reference: &str) -> (r: Result<String, UrlFailure>)
    ensures
        url_outcome(r) == resolved_url(base@, reference@),
{
    match Url::parse(base) {
        Ok(parsed) => match parsed.join(reference) {
            Ok(url) => Ok(String::from(url)),
            Err(e) => Err(UrlFailure::Join(e.to_string())),
        },
        Err(e) => Err(UrlFailure::Base(e.to_string())),
    }
}

/// What is resolved against the base URL of a server to ask about `domain`.
pub open spec fn query_reference_of(domain: Seq<char>) -> Seq<char> {
    "domain/"@ + domain
}

/// `r` is what a query for a URL comes to, given what came of making the URL.
pub open spec fn is_query_url(
    r: Result<String, WhoisError>,
    server: Seq<char>,
    outcome: Result<Seq<char>, UrlFault>,
) -> bool {
    match outcome {
        Ok(url) => r matches Ok(u) && u@ == url,
        Err(UrlFault::Base(m)) => r matches Err(WhoisError::Internal(text)) && text@
            == "Invalid RDAP server URL '"@ + server + "': "@ + m,
        Err(UrlFault::Join(m)) => r matches Err(WhoisError::Internal(text)) && text@
            == "Failed to construct RDAP URL: "@ + m,
    }
}

/// The URL to query, or the error to report, for what came of making the URL.
pub fn query_url_from(server: &str, outcome: Result<String, UrlFailure>) -> (r: Result<
    String,
    WhoisError,
>)
    ensures
        is_query_url(r, server@, url_outcome(outcome)),
{
    match outcome {
        Ok(url) => Ok(url),
        Err(UrlFailure::Base(m)) => {
            let mut text = chars_of("Invalid RDAP server URL '");
            append_text(&mut text, server);
            append_text(&mut text, "': ");
            append_text(&mut text, m.as_str());
            Err(WhoisError::Internal(string_of(&text)))
        },
        Err(UrlFailure::Join(m)) => Err(
            WhoisError::Internal(joined("Failed to construct RDAP URL: ", m.as_str())),
        ),
    }
}

/// The URL under which the server with the base URL `server` is asked about
/// `domain`: `domain/` and the domain, resolved against the base as URLs are, not
/// appended as text.
pub fn query_url(server: &str, domain: &str) -> (r: Result<String, WhoisError>)
    ensures
        is_query_url(r, server@, resolved_url(server@, query_reference_of(domain@))),
{
    let reference = joined("domain/", domain);
    query_url_from(server, resolve_url(server, reference.as_str()))
}

/// HTTP statuses that report success.
pub open spec fn is_success(status: u16) -> bool {
    200 <= status < 300
}

/// What an HTTP exchange has brought: the status, its line as text, and the body
/// or the reason why it could not be read.
#[derive(Debug)]
pub struct HttpReply {
    pub status: u16,
    pub status_line: String,
    pub body: Result<String, String>,
}

/// `r` is what a reply to a query comes to: its body where the status reports
/// success and the body could be read.
pub open spec fn is_query_result(r: Result<String, WhoisError>, reply: HttpReply) -> bool {
    if !is_success(reply.status) {
        r matches Err(WhoisError::HttpError(m)) && m@ == "RDAP query failed with status: "@
            + reply.status_line@
    } else {
        match reply.body {
            Ok(body) => r matches Ok(b) && b@ == body@,
            Err(reason) => r matches Err(WhoisError::HttpError(m)) && m@ == reason@,
        }
    }
}

/// The raw data of a reply to a query, or the error that the reply comes to.
pub fn query_result(reply: HttpReply) -> (r: Result<String, WhoisError>)
    ensures
        is_query_result(r, reply),
{
    if !(200 <= reply.status && reply.status < 300) {
        Err(
            WhoisError::HttpError(
                joined("RDAP query failed with status: ", reply.status_line.as_str()),
            ),
        )
    } else {
        match reply.body {
            Ok(body) => Ok(body),
            Err(reason) => Err(WhoisError::HttpError(reason)),
        }
    }
}

/// The error for a fetch of the bootstrap document that was answered with a status
/// that reports no success.
pub fn bootstrap_status_error(status_line: &str) -> (e: WhoisError)
    ensures
        e matches WhoisError::HttpError(m) && m@ == "Bootstrap fetch failed with status: "@
            + status_line@,
{
    WhoisError::HttpError(joined("Bootstrap fetch failed with status: ", status_line))
}

/// The effective top-level domain of `domain`. Without a list, what follows the
/// last dot is taken.
pub fn extract_tld(psl: Option<&List>, domain: &str) -> (r: Result<String, WhoisError>)
    ensures
        match psl {
            Some(list) => match tld_of(list_rules(*list), domain@) {
                Some(tld) => r matches Ok(t) && t@ == tld,
                None => r matches Err(WhoisError::InvalidDomain(m)) && m@
                    == "Invalid UTF-8 in TLD for domain: "@ + domain@,
            },
            None => r matches Ok(t) && t@ == crate::text::after_last(domain@, '.'),
        },
{
    match psl {
        Some(list) => suffix_of_domain(list, domain),
        None => Ok(crate::suffix::last_label(domain)),
    }
}

/// Puts together what an RDAP lookup hands back.
pub fn rdap_result(
    server: String,
    raw_data: String,
    parsed: (Option<ParsedWhoisData>, Vec<String>),
) -> (r: RdapResult)
    ensures
        r.server == server,
        r.raw_data == raw_data,
        r.parsed_data == parsed.0,
        r.parsing_analysis == parsed.1,
{
    RdapResult { server, raw_data, parsed_data: parsed.0, parsing_analysis: parsed.1 }
}

/// The top-level domain under which the servers of `domain` are looked up, with the
/// suffix list of the rules `rules` or with none: `None` where the domain is
/// refused.
pub open spec fn rdap_lookup_tld(rules: Option<Map<Seq<u8>, bool>>, domain: Seq<char>) -> Option<
    Seq<char>,
> {
    match lookup_name(domain) {
        Some(name) => match rules {
            Some(rules) => tld_of(rules, name),
            None => Some(crate::text::after_last(name, '.')),
        },
        None => None,
    }
}

/// The rules of a suffix list that may be absent.
pub open spec fn opt_rules(psl: Option<&List>) -> Option<Map<Seq<u8>, bool>> {
    match psl {
        Some(list) => Some(list_rules(*list)),
        None => None,
    }
}

/// The RDAP side of the engine: which server answers for which top-level domain,
/// and the bootstrap document once it was fetched.
pub struct RdapService {
    directory: ServerDirectory,
    bootstrap: BootstrapCache,
}

impl RdapService {
    /// The static table.
    pub closed spec fn fixed(&self) -> Map<Seq<char>, Seq<char>> {
        self.directory.fixed()
    }

    /// The servers discovered so far.
    pub closed spec fn discovered(&self) -> Map<Seq<char>, Seq<char>> {
        self.directory.discovered()
    }

    /// The bootstrap document held, if any.
    pub closed spec fn document(&self) -> Option<RdapBootstrap> {
        self.bootstrap.document()
    }

    /// The service with the static table of the servers known, nothing discovered
    /// and no bootstrap document.
    pub fn new() -> (s: RdapService)
        ensures
            s.fixed() == mapping_of_pairs(known_rdap_servers()),
            s.discovered() == Map::<Seq<char>, Seq<char>>::empty(),
            s.document() is None,
    {
        RdapService {
            directory: ServerDirectory::new(known_rdap_table()),
            bootstrap: BootstrapCache::new(),
        }
    }

    /// Begins a lookup: the domain is checked, its top-level domain is taken from
    /// the suffix list, and the server is looked for among those known. Nothing is
    /// changed, and a domain that is refused asks for nothing.
    pub fn lookup(&self, psl: Option<&List>, domain: &str) -> (r: Result<LookupStep, WhoisError>)
        ensures
            is_first_step(
                r,
                self.discovered(),
                self.fixed(),
                domain@,
                rdap_lookup_tld(opt_rules(psl), domain@),
            ),
            lookup_name(domain@) is None ==> r matches Err(WhoisError::InvalidDomain(_)),
    {
        match lookup_domain(domain) {
            Ok(name) => match extract_tld(psl, name.as_str()) {
                Ok(tld) => Ok(self.directory.plan(name, tld)),
                Err(e) => Err(e),
            },
            Err(e) => Err(e),
        }
    }

    /// Tells whether the bootstrap document has still to be fetched.
    pub fn needs_bootstrap(&self) -> (b: bool)
        ensures
            b == (self.document() is None),
    {
        self.bootstrap.needs_fetch()
    }

    /// Keeps the bootstrap document fetched, unless one is held already.
    pub fn store_bootstrap(&mut self, bootstrap: RdapBootstrap)
        ensures
            final(self).fixed() == old(self).fixed(),
            final(self).discovered() == old(self).discovered(),
            final(self).document() == if old(self).document() is None {
                Some(bootstrap)
            } else {
                old(self).document()
            },
    {
        self.bootstrap.store(bootstrap);
    }

    /// The server of `tld` by the bootstrap document: none where no document is
    /// held or the document names none.
    pub fn discover(&self, tld: &str) -> (r: Option<String>)
        ensures
            match self.document() {
                Some(bootstrap) => opt_view(r) == bootstrap_server_of(bootstrap.services@, tld@),
                None => r is None,
            },
    {
        self.bootstrap.server_of(tld)
    }

    /// Ends the discovery of the server of `tld`: a server found is remembered
    /// and handed out, and none is an unsupported top-level domain.
    pub fn conclude(&mut self, tld: &str, found: Option<String>) -> (r: Result<String, WhoisError>)
        ensures
            final(self).fixed() == old(self).fixed(),
            final(self).document() == old(self).document(),
            match found {
                Some(server) => r matches Ok(s) && s@ == server@ && final(self).discovered()
                    == old(self).discovered().insert(tld@, server@),
                None => final(self).discovered() == old(self).discovered() && (r matches Err(
                    WhoisError::UnsupportedTld(m),
                ) && m@ == "No RDAP server found for TLD: "@ + tld@),
            },
            forall|k: Seq<char>|
                old(self).discovered().contains_key(k) ==> final(self).discovered().contains_key(k),
    {
        match found {
            Some(server) => {
                self.directory.record_discovery(tld, server.as_str());
                Ok(server)
            },
            None => Err(
                WhoisError::UnsupportedTld(joined("No RDAP server found for TLD: ", tld)),
            ),
        }
    }
}

proof fn lemma_host_names_hold_no_repeats(servers: Seq<RdapNameserver>)
    ensures
        host_names(servers).no_duplicates(),
    decreases servers.len(),
{
    if servers.len() > 0 {
        lemma_host_names_hold_no_repeats(servers.drop_last());
        match servers.last().ldh_name {
            Some(name) => lemma_add_unique(host_names(servers.drop_last()), name@),
            None => {},
        }
    }
}

proof fn lemma_events_keep_lists(r: Record, events: Seq<RdapEvent>)
    ensures
        with_events(r, events).name_servers == r.name_servers,
        with_events(r, events).status == r.status,
    decreases events.len(),
{
    if events.len() > 0 {
        lemma_events_keep_lists(r, events.drop_last());
    }
}

/// The record of an RDAP reply holds no name server twice and no status twice.
pub proof fn lemma_rdap_lists_hold_no_repeats(rdap: RdapDomainResponse, now: Moment)
    ensures
        rdap_record_of(rdap, now).name_servers.no_duplicates(),
        rdap_record_of(rdap, now).status.no_duplicates(),
{
    match rdap.name_servers {
        Some(servers) => lemma_host_names_hold_no_repeats(servers@),
        None => {},
    }
    match rdap.status {
        Some(status) => lemma_without_repeats(string_views(status@)),
        None => {},
    }
    let named = Record {
        name_servers: match rdap.name_servers {
            Some(servers) => host_names(servers@),
            None => Seq::empty(),
        },
        status: match rdap.status {
            Some(status) => without_repeats(string_views(status@)),
            None => Seq::empty(),
        },
        ..empty_record()
    };
    match rdap.events {
        Some(events) => lemma_events_keep_lists(named, events@),
        None => {},
    }
}

} // verus!
