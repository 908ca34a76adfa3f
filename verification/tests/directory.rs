use whois_service::directory::{LookupStep, Resolution, ServerDirectory};
use whois_service::tld_mappings::{hardcoded_whois_table, known_rdap_table, ServerTable};
use whois_service::{RdapService, WhoisError, WhoisService};

#[test]
fn static_table_answers_without_discovery() {
    let directory = ServerDirectory::new(hardcoded_whois_table());
    assert!(matches!(directory.find("com"), Resolution::Static(s) if s == "whois.verisign-grs.com"));
    assert!(matches!(directory.find("co.uk"), Resolution::Static(s) if s == "whois.nic.uk"));
    assert!(matches!(directory.find("eg"), Resolution::Static(s) if s == "whois.ripe.net"));
    assert!(matches!(directory.find("unknown-tld"), Resolution::Unknown));
    assert!(matches!(directory.find("COM"), Resolution::Unknown));
}

#[test]
fn discovered_server_comes_before_the_static_table() {
    let mut directory = ServerDirectory::new(hardcoded_whois_table());
    directory.record_discovery("com", "whois.moved.example");
    directory.record_discovery("zz", "whois.nic.zz");
    assert!(matches!(directory.find("com"), Resolution::Cached(s) if s == "whois.moved.example"));
    assert!(matches!(directory.find("zz"), Resolution::Cached(s) if s == "whois.nic.zz"));
    assert!(matches!(directory.find("net"), Resolution::Static(s) if s == "whois.verisign-grs.com"));
}

#[test]
fn later_discovery_replaces_the_earlier_one() {
    let mut directory = ServerDirectory::new(ServerTable::new());
    directory.record_discovery("zz", "first.example");
    directory.record_discovery("yy", "other.example");
    directory.record_discovery("zz", "second.example");
    assert!(matches!(directory.find("zz"), Resolution::Cached(s) if s == "second.example"));
    assert!(matches!(directory.find("yy"), Resolution::Cached(s) if s == "other.example"));
}

#[test]
fn conclude_remembers_what_was_found() {
    let list = publicsuffix::List::new();
    let mut service = WhoisService::new();
    assert!(matches!(
        service.lookup(&list, "example.zz"),
        Ok(LookupStep::Discover { domain, tld }) if domain == "example.zz" && tld == "zz"
    ));
    assert_eq!(service.conclude("zz", Some("whois.nic.zz".to_string())).unwrap(), "whois.nic.zz");
    assert!(matches!(
        service.lookup(&list, " Example.ZZ "),
        Ok(LookupStep::Query { domain, tld, server })
            if domain == "example.zz" && tld == "zz" && server == "whois.nic.zz"
    ));
}

#[test]
fn conclude_without_a_server_is_an_unsupported_tld() {
    let mut whois = WhoisService::new();
    assert!(matches!(whois.conclude("zz", None), Err(WhoisError::UnsupportedTld(m)) if m == "zz"));
    assert!(matches!(
        whois.lookup(&publicsuffix::List::new(), "example.zz"),
        Ok(LookupStep::Discover { .. })
    ));
    let mut rdap = RdapService::new();
    assert!(matches!(
        rdap.conclude("zz", None),
        Err(WhoisError::UnsupportedTld(m)) if m == "No RDAP server found for TLD: zz"
    ));
    assert_eq!(rdap.conclude("zz", Some("https://rdap.zz/".to_string())).unwrap(), "https://rdap.zz/");
    assert!(matches!(
        rdap.lookup(None, "example.zz"),
        Ok(LookupStep::Query { server, .. }) if server == "https://rdap.zz/"
    ));
}

#[test]
fn lookup_of_a_known_domain_asks_its_server() {
    let list: publicsuffix::List = "// BEGIN ICANN DOMAINS\ncom\nuk\nco.uk\n".parse().unwrap();
    let whois = WhoisService::new();
    assert!(matches!(
        whois.lookup(&list, "Example.co.uk"),
        Ok(LookupStep::Query { domain, tld, server })
            if domain == "example.co.uk" && tld == "co.uk" && server == "whois.nic.uk"
    ));
    let rdap = RdapService::new();
    assert!(matches!(
        rdap.lookup(Some(&list), "example.com"),
        Ok(LookupStep::Query { domain, tld, server })
            if domain == "example.com" && tld == "com" && server == "https://rdap.verisign.com/com/v1/"
    ));
    assert!(matches!(
        rdap.lookup(Some(&list), "example.co.uk"),
        Ok(LookupStep::Discover { tld, .. }) if tld == "co.uk"
    ));
}

#[test]
fn lookup_refuses_an_empty_or_dotless_domain() {
    let list = publicsuffix::List::new();
    let whois = WhoisService::new();
    let rdap = RdapService::new();
    for bad in ["", "   ", "invalid", " COM ", "\t\n"] {
        assert!(matches!(whois.lookup(&list, bad), Err(WhoisError::InvalidDomain(_))));
        assert!(matches!(rdap.lookup(Some(&list), bad), Err(WhoisError::InvalidDomain(_))));
        assert!(matches!(rdap.lookup(None, bad), Err(WhoisError::InvalidDomain(_))));
    }
    assert!(matches!(
        whois.lookup(&list, "INVALID"),
        Err(WhoisError::InvalidDomain(m)) if m == "invalid"
    ));
}

#[test]
fn bootstrap_document_serves_discovery() {
    let mut rdap = RdapService::new();
    assert!(rdap.needs_bootstrap());
    assert_eq!(rdap.discover("zz"), None);
    rdap.store_bootstrap(whois_service::rdap::RdapBootstrap {
        services: vec![whois_service::rdap::RdapBootstrapEntry {
            tlds: vec!["zz".to_string()],
            servers: vec!["https://rdap.zz/".to_string()],
        }],
        publication_date: None,
        version: None,
    });
    assert!(!rdap.needs_bootstrap());
    assert_eq!(rdap.discover("zz"), Some("https://rdap.zz/".to_string()));
    assert_eq!(rdap.discover("yy"), None);
}

#[test]
fn rdap_table_holds_the_servers_checked_by_hand() {
    let table = known_rdap_table();
    assert_eq!(table.len(), 6);
    assert_eq!(table.get("com"), Some("https://rdap.verisign.com/com/v1/"));
    assert_eq!(table.get("nl"), Some("https://rdap.sidn.nl/"));
    assert_eq!(table.get("de"), None);
}

#[test]
fn whois_table_holds_one_server_for_each_domain() {
    let table = hardcoded_whois_table();
    assert_eq!(table.len(), 91);
    assert_eq!(table.get("org"), Some("whois.pir.org"));
    assert_eq!(table.get("pe"), Some("kero.yachay.pe"));
    assert_eq!(table.get(""), None);
}

#[test]
fn table_insert_replaces_in_place() {
    let mut table = ServerTable::new();
    assert_eq!(table.len(), 0);
    table.insert("a", "1");
    table.insert("b", "2");
    table.insert("a", "3");
    assert_eq!(table.len(), 2);
    assert_eq!(table.get("a"), Some("3"));
    assert_eq!(table.get("b"), Some("2"));
    let pairs = vec![("x", "1"), ("y", "2"), ("x", "9")];
    let built = ServerTable::from_pairs(&pairs);
    assert_eq!(built.len(), 2);
    assert_eq!(built.get("x"), Some("9"));
}
