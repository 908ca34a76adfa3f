use whois_service::cache::{mark_cached, normalize_domain};
use whois_service::lookup::{
    build_whois_response, client_response, whois_result, LookupResult, LookupState,
};
use whois_service::rdap::rdap_result;
use whois_service::{ParsedWhoisData, RdapResult, WhoisError, WhoisResult};

fn rdap_found() -> RdapResult {
    rdap_result(
        "https://rdap.example/".to_string(),
        "{}".to_string(),
        (Some(ParsedWhoisData::empty()), vec!["trace".to_string()]),
    )
}

fn whois_found() -> WhoisResult {
    whois_result(
        "whois.example".to_string(),
        "Registrar: R".to_string(),
        (None, vec!["w".to_string()]),
    )
}

#[test]
fn rdap_success_ends_the_lookup() {
    let state = LookupState::start().on_rdap(Ok(rdap_found()));
    match state.into_result() {
        Some(Ok(found)) => {
            assert_eq!(found.server, "RDAP: https://rdap.example/");
            assert_eq!(found.raw_data, "{}");
            assert!(found.parsed_data.is_some());
            assert_eq!(found.parsing_analysis, vec!["trace"]);
        }
        _ => panic!("expected success"),
    }
}

#[test]
fn rdap_failure_falls_back_to_whois() {
    let errors = vec![
        WhoisError::InvalidDomain("d".to_string()),
        WhoisError::UnsupportedTld("t".to_string()),
        WhoisError::Timeout,
        WhoisError::IoError("io".to_string()),
        WhoisError::HttpError("http".to_string()),
        WhoisError::RegexError("re".to_string()),
        WhoisError::ResponseTooLarge,
        WhoisError::InvalidUtf8,
        WhoisError::ConfigError("c".to_string()),
        WhoisError::CacheError("c".to_string()),
        WhoisError::Internal("i".to_string()),
    ];
    for e in errors {
        let state = LookupState::start().on_rdap(Err(e));
        assert!(matches!(state, LookupState::TryWhois));
        let state = state.on_whois(Ok(whois_found()));
        match state.into_result() {
            Some(Ok(found)) => {
                assert_eq!(found.server, "WHOIS: whois.example");
                assert_eq!(found.raw_data, "Registrar: R");
                assert!(found.parsed_data.is_none());
                assert_eq!(found.parsing_analysis, vec!["w"]);
            }
            _ => panic!("expected success"),
        }
    }
}

#[test]
fn whois_error_is_what_the_caller_sees() {
    let state = LookupState::start()
        .on_rdap(Err(WhoisError::HttpError("rdap down".to_string())))
        .on_whois(Err(WhoisError::UnsupportedTld("zz".to_string())));
    assert!(matches!(
        state.into_result(),
        Some(Err(WhoisError::UnsupportedTld(t))) if t == "zz"
    ));
}

#[test]
fn outcomes_out_of_turn_change_nothing() {
    let state = LookupState::start().on_whois(Ok(whois_found()));
    assert!(matches!(state, LookupState::TryRdap));
    assert!(state.into_result().is_none());
    let done = LookupState::start().on_rdap(Ok(rdap_found())).on_whois(Err(WhoisError::Timeout));
    assert!(matches!(done.into_result(), Some(Ok(_))));
    let failed = LookupState::start()
        .on_rdap(Err(WhoisError::Timeout))
        .on_whois(Err(WhoisError::InvalidUtf8))
        .on_rdap(Ok(rdap_found()));
    assert!(matches!(failed.into_result(), Some(Err(WhoisError::InvalidUtf8))));
    assert!(LookupState::TryWhois.into_result().is_none());
}

#[test]
fn response_holds_the_trace_only_on_request() {
    let parts = || {
        LookupResult {
            server: "WHOIS: whois.example".to_string(),
            raw_data: "raw".to_string(),
            parsed_data: None,
            parsing_analysis: vec!["line".to_string()],
        }
        .into_parts()
    };
    let plain = build_whois_response("example.com".to_string(), parts(), 42, false);
    assert_eq!(plain.domain, "example.com");
    assert_eq!(plain.whois_server, "WHOIS: whois.example");
    assert_eq!(plain.raw_data, "raw");
    assert!(plain.parsed_data.is_none());
    assert!(!plain.cached);
    assert_eq!(plain.query_time_ms, 42);
    assert_eq!(plain.parsing_analysis, None);
    let debug = build_whois_response("example.com".to_string(), parts(), 7, true);
    assert_eq!(debug.parsing_analysis, Some(vec!["line".to_string()]));
    assert_eq!(debug.query_time_ms, 7);
}

#[test]
fn client_response_names_the_server_as_it_is() {
    let response = client_response("example.com".to_string(), whois_found(), 5);
    assert_eq!(response.domain, "example.com");
    assert_eq!(response.whois_server, "whois.example");
    assert_eq!(response.raw_data, "Registrar: R");
    assert!(!response.cached);
    assert_eq!(response.query_time_ms, 5);
    assert_eq!(response.parsing_analysis, None);
}

#[test]
fn cached_response_is_marked() {
    let response = client_response("example.com".to_string(), whois_found(), 5);
    let cached = mark_cached(response);
    assert!(cached.cached);
    assert_eq!(cached.domain, "example.com");
    assert_eq!(cached.query_time_ms, 5);
}

#[test]
fn cache_key_drops_one_trailing_dot() {
    assert_eq!(normalize_domain("  Example.COM. "), "example.com");
    assert_eq!(normalize_domain("example.com.."), "example.com.");
    assert_eq!(normalize_domain("example.com"), "example.com");
    assert_eq!(normalize_domain("."), "");
    assert_eq!(normalize_domain(""), "");
}
