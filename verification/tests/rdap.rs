use publicsuffix::List;
use whois_service::dates::Moment;
use whois_service::rdap::{
    bootstrap_status_error, calculate_date_fields, calculate_date_fields_at, extract_email_from_vcard,
    extract_name_from_vcard, extract_registrar_from_vcard, extract_tld, find_in_bootstrap,
    parse_rdap_response, parse_rdap_response_at, query_result, query_url, query_url_from,
    rdap_fields, BootstrapCache, HttpReply, RdapBootstrap, RdapBootstrapEntry, RdapDomainResponse,
    RdapEntity, RdapEvent, RdapNameserver, UrlFailure, RDAP_ACCEPT, RDAP_BOOTSTRAP_URL,
    RDAP_USER_AGENT,
};
use whois_service::record::list_has;
use whois_service::{ParsedWhoisData, WhoisError};

fn strings(items: &[&str]) -> Vec<String> {
    items.iter().map(|s| s.to_string()).collect()
}

fn event(action: Option<&str>, date: Option<&str>) -> RdapEvent {
    RdapEvent { event_action: action.map(String::from), event_date: date.map(String::from) }
}

fn name_server(name: Option<&str>) -> RdapNameserver {
    RdapNameserver {
        object_class_name: Some("nameserver".to_string()),
        ldh_name: name.map(String::from),
        unicode_name: None,
    }
}

fn empty_response() -> RdapDomainResponse {
    RdapDomainResponse {
        object_class_name: Some("domain".to_string()),
        handle: None,
        ldh_name: Some("example.com".to_string()),
        name_servers: None,
        events: None,
        entities: None,
        status: None,
    }
}

fn sample_response() -> RdapDomainResponse {
    RdapDomainResponse {
        name_servers: Some(vec![
            name_server(Some("ns1.example.com")),
            name_server(None),
            name_server(Some("ns1.example.com")),
        ]),
        events: Some(vec![
            event(Some("registration"), Some("1995-08-14T04:00:00Z")),
            event(Some("last changed"), Some("2020-01-06T00:00:00Z")),
            event(Some("expiration"), None),
            event(None, Some("2000-01-01T00:00:00Z")),
            event(Some("expiration"), Some("2020-01-21T00:00:00Z")),
            event(Some("last update of RDAP database"), Some("2020-01-10T00:00:00Z")),
            event(Some("registration"), Some("2020-01-01T00:00:00Z")),
            event(Some("transfer"), Some("2010-01-01T00:00:00Z")),
        ]),
        entities: Some(vec![
            RdapEntity {
                object_class_name: Some("entity".to_string()),
                handle: Some("292".to_string()),
                roles: Some(strings(&["registrar"])),
                vcard_array: Some("[\"vcard\",[[\"fn\",{},\"text\",\"Example Registrar\"]]]".to_string()),
            },
            RdapEntity {
                object_class_name: None,
                handle: None,
                roles: Some(strings(&["registrant", "administrative"])),
                vcard_array: Some("[\"vcard\",[]]".to_string()),
            },
            RdapEntity { object_class_name: None, handle: None, roles: None, vcard_array: None },
        ]),
        status: Some(strings(&["active", "active", "client transfer prohibited"])),
        ..empty_response()
    }
}

fn now() -> Moment {
    Moment { days: 737435, secs: 0, frac: 0 }
}

#[test]
fn rdap_fields_are_read_from_the_reply() {
    let parsed = rdap_fields(&sample_response());
    assert_eq!(parsed.name_servers, strings(&["ns1.example.com"]));
    assert_eq!(parsed.status, strings(&["active", "client transfer prohibited"]));
    assert_eq!(parsed.creation_date, Some("2020-01-01T00:00:00Z".to_string()));
    assert_eq!(parsed.expiration_date, Some("2020-01-21T00:00:00Z".to_string()));
    assert_eq!(parsed.updated_date, Some("2020-01-06T00:00:00Z".to_string()));
    assert_eq!(parsed.registrar, None);
    assert_eq!(parsed.registrant_name, None);
    assert_eq!(parsed.registrant_email, None);
    assert_eq!(parsed.admin_email, None);
    assert_eq!(parsed.tech_email, None);
}

#[test]
fn rdap_reply_without_lists_gives_the_empty_record() {
    let parsed = rdap_fields(&empty_response());
    assert!(parsed.name_servers.is_empty());
    assert!(parsed.status.is_empty());
    assert_eq!(parsed.creation_date, None);
    assert_eq!(parsed.expiration_date, None);
    assert_eq!(parsed.updated_date, None);
}

#[test]
fn contact_cards_are_not_decoded() {
    assert_eq!(extract_registrar_from_vcard("[\"vcard\",[[\"fn\",{},\"text\",\"X\"]]]"), None);
    assert_eq!(extract_name_from_vcard("[]"), None);
    assert_eq!(extract_email_from_vcard(""), None);
}

#[test]
fn roles_are_matched_exactly() {
    let roles = strings(&["registrant", "technical"]);
    assert!(list_has(&roles, "registrant"));
    assert!(list_has(&roles, "technical"));
    assert!(!list_has(&roles, "registrar"));
    assert!(!list_has(&roles, "Registrant"));
    assert!(!list_has(&Vec::new(), "registrant"));
}

#[test]
fn rdap_day_counts_are_derived_as_for_whois() {
    let (parsed, analysis) = parse_rdap_response_at("{}", &Ok(sample_response()), &now());
    let parsed = parsed.unwrap();
    assert_eq!(parsed.created_ago, Some(10));
    assert_eq!(parsed.updated_ago, Some(5));
    assert_eq!(parsed.expires_in, Some(10));
    assert_eq!(
        analysis,
        strings(&[
            "=== RDAP PARSING ANALYSIS ===",
            "✓ RDAP JSON parsed successfully",
            "✓ Registrar: NOT FOUND",
            "✓ Creation Date: 2020-01-01T00:00:00Z",
            "✓ Expiration Date: 2020-01-21T00:00:00Z",
            "✓ Name Servers: 1 found",
            "✓ Status: 2 found",
        ])
    );
}

#[test]
fn rdap_dates_are_read_in_every_known_format() {
    let mut parsed = ParsedWhoisData::empty();
    parsed.creation_date = Some("2020-01-01".to_string());
    parsed.updated_date = Some("2020-01-10T12:00:00+00:00".to_string());
    parsed.expiration_date = Some("2020-01-10T00:00:00Z".to_string());
    calculate_date_fields_at(&mut parsed, &now());
    assert_eq!(parsed.created_ago, Some(10));
    assert_eq!(parsed.updated_ago, Some(0));
    assert_eq!(parsed.expires_in, Some(-1));
    assert_eq!(parsed.creation_date, Some("2020-01-01".to_string()));
    parsed.creation_date = Some("no date at all".to_string());
    calculate_date_fields_at(&mut parsed, &now());
    assert_eq!(parsed.created_ago, None);
}

#[test]
fn rdap_lists_hold_each_value_once() {
    let reply = RdapDomainResponse {
        name_servers: Some(vec![
            name_server(Some("ns1.example.com")),
            name_server(Some("ns2.example.com")),
            name_server(Some("ns1.example.com")),
        ]),
        status: Some(strings(&["active", "active", "locked", "active"])),
        ..empty_response()
    };
    let (parsed, _) = parse_rdap_response_at("{}", &Ok(reply), &now());
    let parsed = parsed.unwrap();
    assert_eq!(parsed.name_servers, strings(&["ns1.example.com", "ns2.example.com"]));
    assert_eq!(parsed.status, strings(&["active", "locked"]));
}

#[test]
fn rdap_day_counts_as_of_now() {
    let mut parsed = ParsedWhoisData::empty();
    parsed.creation_date = Some("2000-01-01T00:00:00Z".to_string());
    calculate_date_fields(&mut parsed);
    assert!(parsed.created_ago.unwrap() > 9000);
    let (parsed, analysis) = parse_rdap_response("{}", &Ok(sample_response()));
    assert!(parsed.unwrap().created_ago.unwrap() > 2000);
    assert_eq!(analysis.len(), 7);
}

#[test]
fn undecodable_reply_gives_a_trace_and_no_record() {
    let raw = "x".repeat(600);
    let (parsed, analysis) =
        parse_rdap_response_at(&raw, &Err("expected value at line 1 column 1".to_string()), &now());
    assert!(parsed.is_none());
    assert_eq!(analysis.len(), 4);
    assert_eq!(analysis[0], "=== RDAP PARSING ANALYSIS ===");
    assert_eq!(analysis[1], "❌ Failed to parse RDAP JSON: expected value at line 1 column 1");
    assert_eq!(analysis[2], "Raw response (first 500 chars):");
    assert_eq!(analysis[3], "x".repeat(500));
    let (_, short) = parse_rdap_response_at("ärger", &Err("e".to_string()), &now());
    assert_eq!(short[3], "ärger");
}

fn bootstrap() -> RdapBootstrap {
    RdapBootstrap {
        services: vec![
            RdapBootstrapEntry { tlds: strings(&["aa", "bb"]), servers: Vec::new() },
            RdapBootstrapEntry {
                tlds: strings(&["bb", "cc"]),
                servers: strings(&["https://rdap.one.example/", "https://rdap.two.example/"]),
            },
            RdapBootstrapEntry { tlds: strings(&["cc"]), servers: strings(&["https://later.example/"]) },
        ],
        publication_date: Some("2024-01-01T00:00:00Z".to_string()),
        version: Some("1.0".to_string()),
    }
}

#[test]
fn bootstrap_gives_the_first_server_of_the_first_match() {
    let b = bootstrap();
    assert_eq!(find_in_bootstrap(&b, "cc"), Some("https://rdap.one.example/".to_string()));
    assert_eq!(find_in_bootstrap(&b, "bb"), Some("https://rdap.one.example/".to_string()));
    assert_eq!(find_in_bootstrap(&b, "aa"), None);
    assert_eq!(find_in_bootstrap(&b, "zz"), None);
}

#[test]
fn bootstrap_document_is_kept_once_fetched() {
    let mut cache = BootstrapCache::new();
    assert!(cache.needs_fetch());
    assert_eq!(cache.server_of("cc"), None);
    cache.store(bootstrap());
    assert!(!cache.needs_fetch());
    assert_eq!(cache.server_of("cc"), Some("https://rdap.one.example/".to_string()));
    cache.store(RdapBootstrap { services: Vec::new(), publication_date: None, version: None });
    assert_eq!(cache.server_of("cc"), Some("https://rdap.one.example/".to_string()));
}

#[test]
fn query_url_is_resolved_against_the_base() {
    assert_eq!(
        query_url("https://rdap.verisign.com/com/v1/", "example.com").unwrap(),
        "https://rdap.verisign.com/com/v1/domain/example.com"
    );
    assert_eq!(
        query_url("https://rdap.example/base", "example.com").unwrap(),
        "https://rdap.example/domain/example.com"
    );
    assert_eq!(
        query_url("HTTPS://RDAP.Example", "a b.com").unwrap(),
        "https://rdap.example/domain/a%20b.com"
    );
}

#[test]
fn malformed_base_url_is_an_internal_error() {
    assert!(matches!(
        query_url("not a url", "example.com"),
        Err(WhoisError::Internal(m))
            if m == "Invalid RDAP server URL 'not a url': relative URL without a base"
    ));
    assert!(matches!(
        query_url("mailto:someone@example.com", "example.com"),
        Err(WhoisError::Internal(m))
            if m == "Failed to construct RDAP URL: relative URL with a cannot-be-a-base base"
    ));
}

#[test]
fn url_failures_are_reported_as_internal_errors() {
    assert_eq!(query_url_from("s", Ok("https://x.example/".to_string())).unwrap(), "https://x.example/");
    assert!(matches!(
        query_url_from("srv", Err(UrlFailure::Base("empty host".to_string()))),
        Err(WhoisError::Internal(m)) if m == "Invalid RDAP server URL 'srv': empty host"
    ));
    assert!(matches!(
        query_url_from("srv", Err(UrlFailure::Join("bad".to_string()))),
        Err(WhoisError::Internal(m)) if m == "Failed to construct RDAP URL: bad"
    ));
}

#[test]
fn query_result_depends_on_the_status() {
    let reply = |status: u16, line: &str, body: Result<&str, &str>| HttpReply {
        status,
        status_line: line.to_string(),
        body: body.map(String::from).map_err(String::from),
    };
    assert_eq!(query_result(reply(200, "200 OK", Ok("{}"))).unwrap(), "{}");
    assert_eq!(query_result(reply(299, "299", Ok("x"))).unwrap(), "x");
    assert!(matches!(
        query_result(reply(404, "404 Not Found", Ok("{}"))),
        Err(WhoisError::HttpError(m)) if m == "RDAP query failed with status: 404 Not Found"
    ));
    assert!(matches!(
        query_result(reply(199, "199", Ok("{}"))),
        Err(WhoisError::HttpError(m)) if m == "RDAP query failed with status: 199"
    ));
    assert!(matches!(
        query_result(reply(300, "300 Multiple Choices", Err("x"))),
        Err(WhoisError::HttpError(m)) if m == "RDAP query failed with status: 300 Multiple Choices"
    ));
    assert!(matches!(
        query_result(reply(200, "200 OK", Err("connection reset"))),
        Err(WhoisError::HttpError(m)) if m == "connection reset"
    ));
    assert!(matches!(
        bootstrap_status_error("503 Service Unavailable"),
        WhoisError::HttpError(m) if m == "Bootstrap fetch failed with status: 503 Service Unavailable"
    ));
}

#[test]
fn rdap_constants() {
    assert_eq!(RDAP_BOOTSTRAP_URL, "https://data.iana.org/rdap/dns.json");
    assert_eq!(RDAP_ACCEPT, "application/rdap+json, application/json");
    assert_eq!(RDAP_USER_AGENT, "whois-service/0.1.0 (RDAP client)");
}

#[test]
fn rdap_suffix_without_a_list_is_the_last_label() {
    assert_eq!(extract_tld(None, "example.co.uk").unwrap(), "uk");
    let list: List = "// BEGIN ICANN DOMAINS\nco.uk\n".parse().unwrap();
    assert_eq!(extract_tld(Some(&list), "example.co.uk").unwrap(), "co.uk");
}
