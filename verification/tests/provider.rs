use cloudflare_dyndns::cloudflare_api::record::{
    DNSRecord, DNSRecordType, GetRecordsResponse, PatchRecordRequest, PatchRecordResponse,
};
use cloudflare_dyndns::cloudflare_api::zone::{find_zone, ListZonesResponse, ZoneResponse};
use cloudflare_dyndns::cloudflare_api::{
    into_result, record_url, records_url, transform_error_responses, zones_url, API_URL,
};
use cloudflare_dyndns::error::{clone_errors, CloudFlareError, Error};
use cloudflare_dyndns::ip::Ipv4Address;

fn error(code: i64, message: &str) -> CloudFlareError {
    CloudFlareError { code, message: message.to_owned() }
}

fn record(id: &str, name: &str, record_type: DNSRecordType) -> DNSRecord {
    DNSRecord { id: id.to_owned(), name: name.to_owned(), record_type, content: "1.1.1.1".to_owned() }
}

fn zone(name: &str, id: &str) -> ZoneResponse {
    ZoneResponse { name: name.to_owned(), id: id.to_owned() }
}

#[test]
fn provider_errors_are_shown_one_on_a_line() {
    assert_eq!(transform_error_responses(&[]), "");
    assert_eq!(transform_error_responses(&[error(1004, "DNS Validation Error")]), "1004: DNS Validation Error");
    assert_eq!(
        transform_error_responses(&[error(6003, "Invalid request headers"), error(0, ""), error(-12, "x: y")]),
        "6003: Invalid request headers\n0: \n-12: x: y"
    );
}

#[test]
fn extreme_codes_are_written_in_full() {
    assert_eq!(
        transform_error_responses(&[error(i64::MIN, "low"), error(i64::MAX, "high")]),
        "-9223372036854775808: low\n9223372036854775807: high"
    );
}

#[test]
fn an_answer_without_success_is_a_provider_error() {
    let errors = vec![error(9109, "Invalid access token")];
    assert_eq!(into_result(true, errors.clone(), 7u8), Ok(7u8));
    assert_eq!(into_result(false, errors.clone(), 7u8), Err(Error::ProviderError(errors.clone())));
    assert_eq!(clone_errors(&errors), errors);
    let answer = PatchRecordResponse { success: false, errors: errors.clone() };
    assert_eq!(answer.into_result(), Err(Error::ProviderError(errors.clone())));
    assert_eq!(PatchRecordResponse { success: true, errors: vec![] }.into_result(), Ok(()));
    assert_eq!(Error::ProviderError(errors).to_string(), "9109: Invalid access token");
}

#[test]
fn errors_have_their_messages() {
    assert_eq!(Error::ConfigInvalid("no token".to_owned()).to_string(), "no token");
    assert_eq!(Error::CacheCorrupt.to_string(), "The IP cache is corrupt.");
    assert_eq!(Error::ZoneNotFound("a.b".to_owned()).to_string(), "Unable to find zone with name 'a.b'");
    assert_eq!(Error::NetworkError("timed out".to_owned()).to_string(), "timed out");
    assert_eq!(Error::IoError("disk full".to_owned()).to_string(), "disk full");
    assert_eq!(Error::IoError("disk full".to_owned()).clone(), Error::IoError("disk full".to_owned()));
}

#[test]
fn zones_are_found_by_name() {
    let answer = ListZonesResponse {
        success: true,
        errors: vec![],
        result: vec![zone("example.nl", "a1"), zone("example.com", "b2"), zone("example.nl", "c3")],
    };
    assert_eq!(answer.find_by_name("example.com"), Some(&zone("example.com", "b2")));
    assert_eq!(answer.find_by_name("example.nl").map(|z| z.id()), Some("a1"));
    assert_eq!(answer.find_by_name("example.nl").map(|z| z.name()), Some("example.nl"));
    assert_eq!(answer.find_by_name("example"), None);
    assert_eq!(answer.zones().len(), 3);
    assert_eq!(find_zone(answer.zones(), "example.com"), Some(&zone("example.com", "b2")));
    assert_eq!(find_zone(&[], "example.com"), None);
    let zones = answer.zones().to_vec();
    assert_eq!(answer.into_result(), Ok(zones));
    let refused = ListZonesResponse { success: false, errors: vec![error(1, "no")], result: vec![] };
    assert_eq!(refused.into_result(), Err(Error::ProviderError(vec![error(1, "no")])));
}

#[test]
fn patch_bodies_are_made_for_the_a_records() {
    let answer = GetRecordsResponse {
        success: true,
        errors: vec![],
        result: vec![
            record("r1", "example.com", DNSRecordType::A),
            record("r2", "example.com", DNSRecordType::MX),
            record("r3", "www.example.com", DNSRecordType::A),
            record("r4", "www.example.com", DNSRecordType::AAAA),
        ],
    };
    let ip = Ipv4Address::new(203, 0, 113, 9);
    assert_eq!(
        answer.create_patch_record_bodies(ip),
        vec![
            PatchRecordRequest { name: "example.com".to_owned(), record_id: "r1".to_owned(), ip_address: ip },
            PatchRecordRequest { name: "www.example.com".to_owned(), record_id: "r3".to_owned(), ip_address: ip },
        ]
    );
    let records = answer.result.clone();
    assert_eq!(answer.into_result(), Ok(records));
    let refused = GetRecordsResponse { success: false, errors: vec![], result: vec![] };
    assert_eq!(refused.create_patch_record_bodies(ip), vec![]);
    assert_eq!(refused.into_result(), Err(Error::ProviderError(vec![])));
}

#[test]
fn the_calls_have_their_addresses() {
    assert_eq!(API_URL, "https://api.cloudflare.com/client/v4");
    assert_eq!(zones_url(), "https://api.cloudflare.com/client/v4/zones");
    assert_eq!(records_url("Z1"), "https://api.cloudflare.com/client/v4/zones/Z1/dns_records");
    assert_eq!(record_url("Z1", "r9"), "https://api.cloudflare.com/client/v4/zones/Z1/dns_records/r9");
}
