use cloudflare_dyndns::cloudflare_api::record::{DNSRecord, DNSRecordType};
use cloudflare_dyndns::config::{holds_id, is_record_selected, RecordConfig, ZoneConfig};

fn record(id: &str, name: &str, record_type: DNSRecordType) -> DNSRecord {
    DNSRecord {
        id: id.to_owned(),
        name: name.to_owned(),
        record_type,
        content: "198.51.100.1".to_owned(),
    }
}

fn full(name: &str, record_type: DNSRecordType) -> RecordConfig {
    RecordConfig::Full { record_type, name: name.to_owned() }
}

fn ids(records: &[DNSRecord]) -> Vec<&str> {
    records.iter().map(|r| r.id.as_str()).collect()
}

#[test]
fn www_matches_its_subdomain_and_not_a_longer_label() {
    let rule = full("www", DNSRecordType::A);
    assert!(rule.match_record(&record("r1", "www.example.com", DNSRecordType::A)));
    assert!(!rule.match_record(&record("r2", "wwwx.example.com", DNSRecordType::A)));
}

#[test]
fn the_exact_name_matches() {
    let rule = full("www.example.com", DNSRecordType::A);
    assert!(rule.match_record(&record("r1", "www.example.com", DNSRecordType::A)));
    assert!(!rule.match_record(&record("r1", "www.example.co", DNSRecordType::A)));
    assert!(!rule.match_record(&record("r1", "example.com", DNSRecordType::A)));
}

#[test]
fn the_type_must_be_equal() {
    let rule = full("www", DNSRecordType::AAAA);
    assert!(!rule.match_record(&record("r1", "www.example.com", DNSRecordType::A)));
    assert!(rule.match_record(&record("r1", "www.example.com", DNSRecordType::AAAA)));
    assert!(full("www", DNSRecordType::TXT).is_match("www", &DNSRecordType::TXT));
    assert!(!full("www", DNSRecordType::TXT).is_match("www", &DNSRecordType::MX));
}

#[test]
fn a_rule_by_name_alone_means_type_a() {
    let rule = RecordConfig::Name("test".to_owned());
    assert_eq!(rule.name(), "test");
    assert_eq!(rule.record_type(), DNSRecordType::A);
    assert!(rule.match_record(&record("r1", "test.example.nl", DNSRecordType::A)));
    assert!(!rule.match_record(&record("r1", "test.example.nl", DNSRecordType::SRV)));
    assert_eq!(full("mail", DNSRecordType::MX).record_type(), DNSRecordType::MX);
    assert_eq!(full("mail", DNSRecordType::MX).name(), "mail");
}

#[test]
fn something_must_follow_the_dot() {
    let rule = full("www", DNSRecordType::A);
    assert!(!rule.match_record(&record("r1", "www.", DNSRecordType::A)));
    assert!(rule.match_record(&record("r1", "www.x", DNSRecordType::A)));
    assert!(rule.match_record(&record("r1", "www", DNSRecordType::A)));
    assert!(!rule.match_record(&record("r1", "ww", DNSRecordType::A)));
    assert!(!rule.match_record(&record("r1", "", DNSRecordType::A)));
}

#[test]
fn names_are_compared_as_given() {
    let rule = full("www", DNSRecordType::A);
    assert!(!rule.match_record(&record("r1", "WWW.example.com", DNSRecordType::A)));
    assert!(!rule.match_record(&record("r1", "a.www.example.com", DNSRecordType::A)));
}

#[test]
fn one_matching_rule_is_enough() {
    let zone = ZoneConfig::new(vec![
        full("www", DNSRecordType::A),
        full("mail", DNSRecordType::A),
        RecordConfig::Name("test".to_owned()),
    ]);
    assert_eq!(zone.records().len(), 3);
    assert!(zone.is_record_selected(&record("1", "mail.example.nl", DNSRecordType::A)));
    assert!(zone.is_record_selected(&record("2", "test.example.nl", DNSRecordType::A)));
    assert!(!zone.is_record_selected(&record("3", "ftp.example.nl", DNSRecordType::A)));
    assert!(!zone.is_record_selected(&record("4", "mail.example.nl", DNSRecordType::MX)));
    assert!(is_record_selected(&record("1", "www.example.nl", DNSRecordType::A), &zone));
    assert!(!ZoneConfig::new(vec![]).is_record_selected(&record("1", "www", DNSRecordType::A)));
}

#[test]
fn overlapping_rules_select_a_record_once() {
    let zone = ZoneConfig::new(vec![
        full("www", DNSRecordType::A),
        full("www", DNSRecordType::A),
        RecordConfig::Name("www".to_owned()),
    ]);
    let records = vec![
        record("r1", "www.example.com", DNSRecordType::A),
        record("r2", "api.example.com", DNSRecordType::A),
    ];
    let selected = zone.select_records(&records);
    assert_eq!(ids(&selected), vec!["r1"]);
    assert_eq!(selected[0], records[0]);
}

#[test]
fn selection_keeps_the_order_and_each_identifier_once() {
    let zone = ZoneConfig::new(vec![full("b", DNSRecordType::A), full("a", DNSRecordType::A)]);
    let records = vec![
        record("r3", "b.example.com", DNSRecordType::A),
        record("r1", "a.example.com", DNSRecordType::A),
        record("r9", "c.example.com", DNSRecordType::A),
        record("r3", "b.example.com", DNSRecordType::A),
        record("r2", "a", DNSRecordType::A),
        record("r1", "b", DNSRecordType::A),
        record("r4", "a", DNSRecordType::AAAA),
    ];
    let selected = zone.select_records(&records);
    assert_eq!(ids(&selected), vec!["r3", "r1", "r2"]);
    assert_eq!(selected[1].name, "a.example.com");
    assert!(holds_id(&selected, "r2"));
    assert!(!holds_id(&selected, "r9"));
    assert!(zone.select_records(&[]).is_empty());
}

#[test]
fn record_types_have_their_names() {
    for (t, name) in [
        (DNSRecordType::A, "A"),
        (DNSRecordType::AAAA, "AAAA"),
        (DNSRecordType::MX, "MX"),
        (DNSRecordType::TXT, "TXT"),
        (DNSRecordType::SRV, "SRV"),
    ] {
        assert_eq!(t.as_str(), name);
        assert_eq!(t.to_string(), name);
        assert_eq!(DNSRecordType::from_str(name), Some(t));
    }
    assert_eq!(DNSRecordType::from_str("a"), None);
    assert_eq!(DNSRecordType::from_str("CNAME"), None);
    assert_eq!(DNSRecordType::default(), DNSRecordType::A);
}
