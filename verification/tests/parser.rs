use whois_service::dates::Moment;
use whois_service::parser::{analyse, field_of_key, parse_fields, record_field, Field};
use whois_service::{ParsedWhoisData, WhoisParser};

fn day(days: i32) -> Moment {
    Moment { days, secs: 0, frac: 0 }
}

fn strings(items: &[&str]) -> Vec<String> {
    items.iter().map(|s| s.to_string()).collect()
}

#[test]
fn registrar_expiration_line_is_an_expiration_date() {
    let parsed = parse_fields("Registrar Registration Expiration Date: 2030-01-01");
    assert_eq!(parsed.expiration_date, Some("2030-01-01".to_string()));
    assert_eq!(parsed.registrar, None);
}

#[test]
fn key_classification_follows_the_order_of_the_tests() {
    assert_eq!(field_of_key("registrar registration expiration date"), Field::Expiration);
    assert_eq!(field_of_key("expires"), Field::Expiration);
    assert_eq!(field_of_key("creation date"), Field::Creation);
    assert_eq!(field_of_key("created"), Field::Creation);
    assert_eq!(field_of_key("registered"), Field::Creation);
    assert_eq!(field_of_key("registered on"), Field::Unrecognized);
    assert_eq!(field_of_key("updated date"), Field::Updated);
    assert_eq!(field_of_key("last modified"), Field::Updated);
    assert_eq!(field_of_key("registrar"), Field::Registrar);
    assert_eq!(field_of_key("registrar whois server"), Field::Unrecognized);
    assert_eq!(field_of_key("registrar url"), Field::Unrecognized);
    assert_eq!(field_of_key("registrar abuse contact email"), Field::Unrecognized);
    assert_eq!(field_of_key("registrar registration date"), Field::Unrecognized);
    assert_eq!(field_of_key("name server"), Field::NameServer);
    assert_eq!(field_of_key("nserver"), Field::NameServer);
    assert_eq!(field_of_key("ns"), Field::NameServer);
    assert_eq!(field_of_key("domain status"), Field::Status);
    assert_eq!(field_of_key("registrant state/province"), Field::Status);
    assert_eq!(field_of_key("registrant"), Field::RegistrantName);
    assert_eq!(field_of_key("registrant name"), Field::RegistrantName);
    assert_eq!(field_of_key("registrant organization"), Field::RegistrantName);
    assert_eq!(field_of_key("registrant email"), Field::RegistrantEmail);
    assert_eq!(field_of_key("admin email"), Field::AdminEmail);
    assert_eq!(field_of_key("tech email"), Field::TechEmail);
    assert_eq!(field_of_key("domain name"), Field::Unrecognized);
    assert_eq!(field_of_key("Expires"), Field::Unrecognized);
}

#[test]
fn name_server_value_keeps_the_host_name_only() {
    let parsed = parse_fields("Name Server: ns1.example.com 192.0.2.1");
    assert_eq!(parsed.name_servers, strings(&["ns1.example.com"]));
}

#[test]
fn name_servers_and_status_are_deduplicated() {
    let data = "nserver: ns1.example.com 192.0.2.1\n\
                nserver: ns2.example.com\n\
                Name Server: ns1.example.com\n\
                Domain Status: ok\n\
                Domain Status: clientTransferProhibited\n\
                Status: ok\n";
    let parsed = parse_fields(data);
    assert_eq!(parsed.name_servers, strings(&["ns1.example.com", "ns2.example.com"]));
    assert_eq!(parsed.status, strings(&["ok", "clientTransferProhibited"]));
}

#[test]
fn first_value_of_a_scalar_field_wins() {
    let data = "Registrar: First Registrar\nRegistrar: Second Registrar\n\
                Creation Date: 2001-01-01\ncreated: 2002-02-02\n";
    let parsed = parse_fields(data);
    assert_eq!(parsed.registrar, Some("First Registrar".to_string()));
    assert_eq!(parsed.creation_date, Some("2001-01-01".to_string()));
}

#[test]
fn comments_blank_lines_and_empty_values_are_skipped() {
    let data = "% Registrar: percent\n# Registrar: hash\n>>> Registrar: arrows\n\n   \n\
                Registrar:\nRegistrar:    \nno colon here\n  Registrar :  Real One  \r\n";
    let parsed = parse_fields(data);
    assert_eq!(parsed.registrar, Some("Real One".to_string()));
}

#[test]
fn value_keeps_what_follows_the_first_colon() {
    let parsed = parse_fields("Updated Date: 2025-05-18T13:36:06Z");
    assert_eq!(parsed.updated_date, Some("2025-05-18T13:36:06Z".to_string()));
}

#[test]
fn privacy_placeholders_are_treated_as_absent() {
    let data = "Registrant Name: Select Request Email Form\n\
                Registrant Email: SELECT REQUEST at https://example.com\n\
                Admin Email: select request\n\
                Tech Email: please select request\n\
                Registrant Name: Jane Doe\n\
                Registrant Email: jane@example.com\n\
                Admin Email: admin@example.com\n\
                Tech Email: tech@example.com\n";
    let parsed = parse_fields(data);
    assert_eq!(parsed.registrant_name, Some("Jane Doe".to_string()));
    assert_eq!(parsed.registrant_email, Some("jane@example.com".to_string()));
    assert_eq!(parsed.admin_email, Some("admin@example.com".to_string()));
    assert_eq!(parsed.tech_email, Some("tech@example.com".to_string()));
}

#[test]
fn keys_are_matched_in_lower_case() {
    let parsed = parse_fields("REGISTRAR: Shouty\nEXPIRY DATE: 2031-12-31\n");
    assert_eq!(parsed.registrar, Some("Shouty".to_string()));
    assert_eq!(parsed.expiration_date, Some("2031-12-31".to_string()));
}

#[test]
fn empty_reply_gives_the_empty_record() {
    let parsed = parse_fields("");
    assert_eq!(parsed.registrar, None);
    assert_eq!(parsed.creation_date, None);
    assert_eq!(parsed.expiration_date, None);
    assert_eq!(parsed.updated_date, None);
    assert!(parsed.name_servers.is_empty());
    assert!(parsed.status.is_empty());
    assert_eq!(parsed.created_ago, None);
    assert_eq!(parsed.updated_ago, None);
    assert_eq!(parsed.expires_in, None);
}

#[test]
fn record_field_fills_one_field() {
    let mut parsed = ParsedWhoisData::empty();
    record_field(&mut parsed, Field::Registrar, "Example Registrar");
    record_field(&mut parsed, Field::Registrar, "Other");
    record_field(&mut parsed, Field::NameServer, "  ns.example.net   203.0.113.5");
    record_field(&mut parsed, Field::Unrecognized, "ignored");
    assert_eq!(parsed.registrar, Some("Example Registrar".to_string()));
    assert_eq!(parsed.name_servers, strings(&["ns.example.net"]));
}

#[test]
fn created_ago_is_ten_days_after_ten_days() {
    let parser = WhoisParser::new();
    let parsed = parser.parse_whois_data_at("Creation Date: 2020-01-01", &day(737435)).unwrap();
    assert_eq!(parsed.creation_date, Some("2020-01-01".to_string()));
    assert_eq!(parsed.created_ago, Some(10));
    assert_eq!(parsed.updated_ago, None);
    assert_eq!(parsed.expires_in, None);
}

#[test]
fn expires_in_is_negative_once_the_date_has_passed() {
    let parser = WhoisParser::new();
    let now = day(737435);
    let parsed = parser.parse_whois_data_at("Registry Expiry Date: 2020-01-10", &now).unwrap();
    assert_eq!(parsed.expires_in, Some(-1));
    let parsed = parser.parse_whois_data_at("Registry Expiry Date: 2020-01-21", &now).unwrap();
    assert_eq!(parsed.expires_in, Some(10));
}

#[test]
fn unknown_date_format_leaves_the_day_count_absent() {
    let parser = WhoisParser::new();
    let parsed = parser
        .parse_whois_data_at("Creation Date: sometime last year\nUpdated Date: 2020-01-06", &day(737435))
        .unwrap();
    assert_eq!(parsed.creation_date, Some("sometime last year".to_string()));
    assert_eq!(parsed.created_ago, None);
    assert_eq!(parsed.updated_ago, Some(5));
}

#[test]
fn parse_whois_data_reads_the_clock() {
    let parser = WhoisParser::new();
    let parsed = parser.parse_whois_data("Creation Date: 2000-01-01\nExpiry Date: 2000-06-01").unwrap();
    assert!(parsed.created_ago.unwrap() > 9000);
    assert!(parsed.expires_in.unwrap() < -9000);
}

#[test]
fn analysis_sums_up_and_notes_lines() {
    let parser = WhoisParser::new();
    let data = "Domain Name: EXAMPLE.COM\n\
                Registrar: Example Registrar\n\
                   Registrant Name: Jane Doe  \n\
                Registry Expiry Date: 2030-01-01\n\
                Name Server: ns1.example.com\n\
                Name Server: ns2.example.com\n";
    let (parsed, analysis) = parser.parse_whois_data_with_analysis_at(data, &day(737435));
    assert!(parsed.is_some());
    let expected = strings(&[
        "=== PARSING ANALYSIS ===",
        "✓ Registrar: Example Registrar",
        "✓ Creation Date: NOT FOUND",
        "✓ Expiration Date: 2030-01-01",
        "✓ Updated Date: NOT FOUND",
        "✓ Registrant Name: Jane Doe",
        "✓ Name Servers: 2 found",
        "✓ Status: 0 found",
        "\n=== LINES CONTAINING 'REGISTRANT' ===",
        "Line 3: Registrant Name: Jane Doe",
        "\n=== LINES CONTAINING 'EXPIR' ===",
        "Line 4: Registry Expiry Date: 2030-01-01",
    ]);
    assert_eq!(analysis, expected);
}

#[test]
fn analysis_counts_with_several_digits() {
    let mut parsed = ParsedWhoisData::empty();
    for i in 0..123 {
        parsed.status.push(format!("status-{}", i));
    }
    let analysis = analyse("", &parsed);
    assert_eq!(analysis[7], "✓ Status: 123 found");
    assert_eq!(analysis[6], "✓ Name Servers: 0 found");
}

#[test]
fn parse_with_analysis_reads_the_clock() {
    let parser = WhoisParser::new();
    let (parsed, analysis) = parser.parse_whois_data_with_analysis("Creation Date: 2000-01-01");
    assert!(parsed.unwrap().created_ago.unwrap() > 9000);
    assert_eq!(analysis[0], "=== PARSING ANALYSIS ===");
    assert_eq!(analysis[2], "✓ Creation Date: 2000-01-01");
}
