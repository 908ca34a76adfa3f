use whois_service::whois::{
    decode_response, extract_server_after_colon, extract_server_from_line, extract_whois_server,
    generate_whois_patterns, get_root_servers, parse_root_server_response, query_line, ReadStep,
    ReferralChain, ResponseReader, WHOIS_PORT,
};
use whois_service::WhoisError;

#[test]
fn query_line_ends_with_carriage_return_and_line_feed() {
    assert_eq!(query_line("example.com"), "example.com\r\n");
    assert_eq!(query_line(""), "\r\n");
    assert_eq!(WHOIS_PORT, 43);
}

#[test]
fn referral_is_found_by_its_key() {
    assert_eq!(
        extract_whois_server("Domain: x\n   Registrar WHOIS Server: whois.example.net\n"),
        Some("whois.example.net".to_string())
    );
    assert_eq!(
        extract_whois_server("refer:        whois.verisign-grs.com\n"),
        Some("whois.verisign-grs.com".to_string())
    );
    assert_eq!(extract_whois_server("Whois Server:\nrefer: later"), Some(String::new()));
    assert_eq!(extract_whois_server("whois: whois.nic.io\nreferral: x\n"), None);
    assert_eq!(extract_whois_server(""), None);
}

#[test]
fn first_referral_of_a_reply_counts() {
    let data = "refer: first.example\nwhois server: second.example\n";
    assert_eq!(extract_whois_server(data), Some("first.example".to_string()));
}

#[test]
fn text_after_the_colon_ends_at_the_next_colon() {
    assert_eq!(extract_server_after_colon("whois:  whois.nic.io  "), Some("whois.nic.io".to_string()));
    assert_eq!(extract_server_after_colon("a: b : c"), Some("b".to_string()));
    assert_eq!(extract_server_after_colon("a:"), Some(String::new()));
    assert_eq!(extract_server_after_colon("no colon"), None);
}

#[test]
fn server_line_of_a_root_reply_is_recognised() {
    assert_eq!(extract_server_from_line("whois:        whois.nic.io"), Some("whois.nic.io".to_string()));
    assert_eq!(extract_server_from_line("REFER: whois.nic.io"), Some("whois.nic.io".to_string()));
    assert_eq!(
        extract_server_from_line("Registrar Whois Server: whois.example.org"),
        Some("whois.example.org".to_string())
    );
    assert_eq!(extract_server_from_line("domain: IO"), None);
    assert_eq!(extract_server_from_line("whois"), None);
}

#[test]
fn root_reply_names_the_server_of_the_domain() {
    let reply = "% IANA WHOIS server\n\ndomain:       IO\n\nwhois:        whois.nic.io\n\nstatus: ACTIVE\n";
    assert_eq!(parse_root_server_response(reply), Some("whois.nic.io".to_string()));
    assert_eq!(parse_root_server_response("domain: IO\nstatus: ACTIVE\n"), None);
    assert_eq!(
        parse_root_server_response("remarks: x\nwhois-server : whois.fallback.example\n"),
        Some("whois.fallback.example".to_string())
    );
}

#[test]
fn patterns_for_a_country_code() {
    assert_eq!(
        generate_whois_patterns("zz"),
        vec!["whois.nic.zz", "whois.zz", "whois.domain.zz", "whois.registry.zz", "whois.dns.zz"]
    );
}

#[test]
fn patterns_for_a_generic_domain() {
    assert_eq!(
        generate_whois_patterns("example"),
        vec!["whois.nic.example", "whois.example", "whois.registry.example"]
    );
    assert_eq!(generate_whois_patterns("é").len(), 5);
    assert_eq!(generate_whois_patterns("").len(), 3);
}

#[test]
fn iana_is_the_root_server() {
    assert_eq!(get_root_servers(), vec!["whois.iana.org"]);
}

fn cyclic_server(server: &str) -> String {
    if server == "a.example" {
        "refer: b.example\n".to_string()
    } else {
        "refer: a.example\n".to_string()
    }
}

#[test]
fn referral_cycle_ends_within_the_limit() {
    for max in [0usize, 1, 2, 5, 10] {
        let mut chain = ReferralChain::start("a.example", &cyclic_server("a.example"), max);
        let mut queries = 0;
        while let Some(server) = chain.next_server() {
            queries += 1;
            assert!(queries <= max);
            chain.on_reply(Some(cyclic_server(&server)));
        }
        assert_eq!(queries, max);
        assert_eq!(chain.referral_count(), max);
        let (server, data) = chain.finish();
        let expected = if max % 2 == 0 { "a.example" } else { "b.example" };
        assert_eq!(server, expected);
        assert_eq!(data, cyclic_server(expected));
    }
}

#[test]
fn referral_to_the_same_server_is_not_followed() {
    let chain = ReferralChain::start("whois.example", "Whois Server: whois.example\n", 5);
    assert_eq!(chain.next_server(), None);
    let (server, data) = chain.finish();
    assert_eq!(server, "whois.example");
    assert_eq!(data, "Whois Server: whois.example\n");
}

#[test]
fn failed_referral_keeps_the_last_good_reply() {
    let mut chain = ReferralChain::start("first.example", "refer: second.example\n", 5);
    assert_eq!(chain.next_server(), Some("second.example".to_string()));
    chain.on_reply(Some("refer: third.example\nRegistrar: R\n".to_string()));
    assert_eq!(chain.next_server(), Some("third.example".to_string()));
    chain.on_reply(None);
    assert_eq!(chain.next_server(), None);
    assert_eq!(chain.referral_count(), 1);
    let (server, data) = chain.finish();
    assert_eq!(server, "second.example");
    assert_eq!(data, "refer: third.example\nRegistrar: R\n");
}

#[test]
fn reply_without_a_question_ends_the_chain() {
    let mut chain = ReferralChain::start("first.example", "Registrar: R\n", 5);
    assert_eq!(chain.next_server(), None);
    chain.on_reply(Some("refer: other.example\n".to_string()));
    assert_eq!(chain.next_server(), None);
    let (server, data) = chain.finish();
    assert_eq!(server, "first.example");
    assert_eq!(data, "Registrar: R\n");
}

#[test]
fn reply_beyond_the_size_cap_is_too_large() {
    let mut reader = ResponseReader::new(10);
    assert!(matches!(reader.on_data(b"12345"), ReadStep::Continue));
    assert!(matches!(reader.on_data(b"67890"), ReadStep::Continue));
    assert_eq!(reader.len(), 10);
    assert!(matches!(
        reader.on_data(b"x"),
        ReadStep::Done(Err(WhoisError::ResponseTooLarge))
    ));
}

#[test]
fn endless_stream_is_given_up_at_the_cap() {
    let mut reader = ResponseReader::new(1000);
    let chunk = [b'a'; 64];
    let mut reads = 0;
    loop {
        reads += 1;
        match reader.on_data(&chunk) {
            ReadStep::Continue => assert!(reads < 16),
            ReadStep::Done(r) => {
                assert!(matches!(r, Err(WhoisError::ResponseTooLarge)));
                break;
            }
        }
    }
    assert_eq!(reads, 16);
}

#[test]
fn end_of_stream_gives_the_text_read() {
    let mut reader = ResponseReader::new(100);
    assert!(matches!(reader.on_data("Registrar: Ré".as_bytes()), ReadStep::Continue));
    assert!(matches!(reader.on_data(b"gistrar\n"), ReadStep::Continue));
    match reader.on_data(b"") {
        ReadStep::Done(Ok(text)) => assert_eq!(text, "Registrar: Régistrar\n"),
        _ => panic!("expected the text"),
    }
    let mut empty = ResponseReader::new(0);
    assert!(matches!(empty.on_data(b""), ReadStep::Done(Ok(t)) if t.is_empty()));
}

#[test]
fn bytes_that_are_no_text_are_invalid_utf8() {
    let mut reader = ResponseReader::new(100);
    assert!(matches!(reader.on_data(&[b'o', b'k', 0xff]), ReadStep::Continue));
    assert!(matches!(reader.on_data(&[]), ReadStep::Done(Err(WhoisError::InvalidUtf8))));
    assert!(matches!(decode_response(&vec![0xc3]), Err(WhoisError::InvalidUtf8)));
    assert_eq!(decode_response(&"grüß".as_bytes().to_vec()).unwrap(), "grüß");
}
