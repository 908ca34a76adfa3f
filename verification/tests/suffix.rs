use publicsuffix::List;
use whois_service::suffix::{extract_tld, last_label, tld_from_suffix};
use whois_service::WhoisError;

fn sample_list() -> List {
    "// BEGIN ICANN DOMAINS\ncom\nuk\nco.uk\n*.ck\n!www.ck\njp\nkyoto.jp\n"
        .parse()
        .unwrap()
}

#[test]
fn suffix_of_two_labels_is_found() {
    let list = sample_list();
    assert_eq!(extract_tld(&list, "example.co.uk").unwrap(), "co.uk");
    assert_eq!(extract_tld(&list, "www.example.co.uk").unwrap(), "co.uk");
}

#[test]
fn suffix_of_one_label_is_found() {
    let list = sample_list();
    assert_eq!(extract_tld(&list, "example.com").unwrap(), "com");
    assert_eq!(extract_tld(&list, "example.uk").unwrap(), "uk");
}

#[test]
fn wildcard_and_exception_rules_are_followed() {
    let list = sample_list();
    assert_eq!(extract_tld(&list, "shop.example.ck").unwrap(), "example.ck");
    assert_eq!(extract_tld(&list, "www.ck").unwrap(), "ck");
}

#[test]
fn unknown_suffix_is_the_last_label() {
    let list = sample_list();
    assert_eq!(extract_tld(&list, "example.unknown").unwrap(), "unknown");
    assert_eq!(extract_tld(&List::new(), "example.co.uk").unwrap(), "uk");
}

#[test]
fn name_without_registrable_part_falls_back_to_the_last_label() {
    let list = sample_list();
    assert_eq!(extract_tld(&list, "co.uk").unwrap(), "uk");
    assert_eq!(extract_tld(&list, ".com").unwrap(), "com");
    assert_eq!(extract_tld(&list, "localhost").unwrap(), "localhost");
    assert_eq!(extract_tld(&list, "").unwrap(), "");
}

#[test]
fn last_label_follows_the_last_dot() {
    assert_eq!(last_label("a.b.c"), "c");
    assert_eq!(last_label("abc"), "abc");
    assert_eq!(last_label("abc."), "");
    assert_eq!(last_label(""), "");
}

#[test]
fn suffix_that_is_no_text_is_an_invalid_domain() {
    let r = tld_from_suffix(&Some(vec![0xff, 0xfe]), "weird.example");
    assert!(matches!(
        r,
        Err(WhoisError::InvalidDomain(m)) if m == "Invalid UTF-8 in TLD for domain: weird.example"
    ));
    assert_eq!(tld_from_suffix(&Some(b"co.uk".to_vec()), "example.co.uk").unwrap(), "co.uk");
    assert_eq!(tld_from_suffix(&None, "example.co.uk").unwrap(), "uk");
}
