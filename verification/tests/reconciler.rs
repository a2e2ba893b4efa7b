use cloudflare_dyndns::cloudflare_api::record::{DNSRecord, DNSRecordType};
use cloudflare_dyndns::cloudflare_api::zone::ZoneResponse;
use cloudflare_dyndns::config::zone::ZoneIdentifier;
use cloudflare_dyndns::config::{RecordConfig, ZoneConfig};
use cloudflare_dyndns::error::{CloudFlareError, Error};
use cloudflare_dyndns::ip::Ipv4Address;
use cloudflare_dyndns::ip_cache::fs::{IpCacheReader, IpCacheWriter};
use cloudflare_dyndns::ip_cache::{IpCache, IpCacheResult};
use cloudflare_dyndns::reconciler::{next_action, start_zone, status_line, step_zone, Action, Event, ZoneState};
use cloudflare_dyndns::state::ApplicationState;

fn ip(text: &str) -> Ipv4Address {
    Ipv4Address::parse(text).unwrap()
}

fn record(id: &str, name: &str) -> DNSRecord {
    DNSRecord {
        id: id.to_owned(),
        name: name.to_owned(),
        record_type: DNSRecordType::A,
        content: "198.51.100.1".to_owned(),
    }
}

fn api_rule() -> ZoneConfig {
    ZoneConfig::new(vec![RecordConfig::Full { name: "api".to_owned(), record_type: DNSRecordType::A }])
}

fn run(cache: &str, preview: bool, force: bool) -> ApplicationState {
    let cache = IpCacheReader::load(Some(cache)).unwrap();
    ApplicationState::new(cache, ip("203.0.113.9"), preview, force)
}

/// Drives one zone to its end against a provider that holds `records`
/// and refuses the patch of the record `refuse`; gives the last state
/// and the calls that were made.
fn drive(
    state: &mut ApplicationState,
    zone: &ZoneIdentifier,
    config: &ZoneConfig,
    zones: &[ZoneResponse],
    records: &[DNSRecord],
    refuse: Option<&str>,
) -> (ZoneState, Vec<Action>) {
    let mut calls = Vec::new();
    let mut zone_state = start_zone(state, zone, config);
    loop {
        let call = next_action(state, &zone_state);
        let event = match &call {
            Action::Nothing => return (zone_state, calls),
            Action::ListZones => Event::Zones(zones.to_vec()),
            Action::ListRecords { .. } => Event::Records(records.to_vec()),
            Action::PatchRecord { record_id, .. } => {
                if refuse == Some(record_id.as_str()) {
                    Event::Failed(Error::ProviderError(vec![CloudFlareError {
                        code: 1004,
                        message: "DNS Validation Error".to_owned(),
                    }]))
                } else {
                    Event::Patched
                }
            }
        };
        calls.push(call);
        zone_state = step_zone(state, config, zone_state, event);
    }
}

fn patch(zone_id: &str, record_id: &str) -> Action {
    Action::PatchRecord {
        zone_id: zone_id.to_owned(),
        record_id: record_id.to_owned(),
        content: "203.0.113.9".to_owned(),
    }
}

#[test]
fn first_run_patches_the_matching_record_and_fills_the_cache() {
    let mut state = run("", false, false);
    let zone = ZoneIdentifier::Id("Z1".to_owned());
    let records = vec![record("r1", "api.example.com"), record("r2", "www.example.com")];
    let (last, calls) = drive(&mut state, &zone, &api_rule(), &[], &records, None);
    assert_eq!(calls, vec![Action::ListRecords { zone_id: "Z1".to_owned() }, patch("Z1", "r1")]);
    assert_eq!(
        last,
        ZoneState::Done {
            zone_id: "Z1".to_owned(),
            observed: IpCacheResult::New,
            records: vec![record("r1", "api.example.com")],
        }
    );
    assert_eq!(IpCacheWriter.save(&state.ip_cache), Ok("Z1;203.0.113.9\n".to_owned()));
    assert_eq!(status_line(&state, &last), "IP address on first run: '203.0.113.9'");
}

#[test]
fn unchanged_address_skips_the_zone() {
    let mut state = run("Z1;203.0.113.9\n", false, false);
    let zone = ZoneIdentifier::Id("Z1".to_owned());
    let records = vec![record("r1", "api.example.com")];
    let (last, calls) = drive(&mut state, &zone, &api_rule(), &[], &records, None);
    assert_eq!(calls, vec![]);
    assert_eq!(last, ZoneState::SkippedUnchanged { zone_id: "Z1".to_owned() });
    assert_eq!(IpCacheWriter.save(&state.ip_cache), Ok("Z1;203.0.113.9\n".to_owned()));
    assert_eq!(status_line(&state, &last), "IP address unchanged: '203.0.113.9'");
}

#[test]
fn forced_run_patches_despite_unchanged_address() {
    let mut state = run("Z1;203.0.113.9\n", false, true);
    let zone = ZoneIdentifier::Id("Z1".to_owned());
    let records = vec![record("r1", "api.example.com")];
    let (last, calls) = drive(&mut state, &zone, &api_rule(), &[], &records, None);
    assert_eq!(calls, vec![Action::ListRecords { zone_id: "Z1".to_owned() }, patch("Z1", "r1")]);
    assert_eq!(
        last,
        ZoneState::Done {
            zone_id: "Z1".to_owned(),
            observed: IpCacheResult::Unchanged,
            records: records.clone(),
        }
    );
    assert_eq!(IpCacheWriter.save(&state.ip_cache), Ok("Z1;203.0.113.9\n".to_owned()));
    assert_eq!(status_line(&state, &last), "IP address unchanged: '203.0.113.9', forcing update");
}

#[test]
fn preview_makes_no_patch_call_and_reports_the_record() {
    let mut state = run("Z1;198.51.100.7\n", true, false);
    let zone = ZoneIdentifier::Id("Z1".to_owned());
    let records = vec![record("r1", "api.example.com")];
    let (last, calls) = drive(&mut state, &zone, &api_rule(), &[], &records, None);
    assert_eq!(calls, vec![Action::ListRecords { zone_id: "Z1".to_owned() }]);
    assert_eq!(
        last,
        ZoneState::Done {
            zone_id: "Z1".to_owned(),
            observed: IpCacheResult::Changed { previous_ip_address: ip("198.51.100.7") },
            records: records.clone(),
        }
    );
    assert_eq!(
        status_line(&state, &last),
        "[Preview]: IP address updated: '198.51.100.7' => '203.0.113.9'"
    );
    assert_eq!(state.cache_to_write(), None);
}

#[test]
fn the_cache_is_written_after_a_run_that_is_no_preview() {
    let mut state = run("Z1;198.51.100.7\n", false, false);
    assert_eq!(state.cache_to_write(), Some(Ok("Z1;198.51.100.7\n".to_owned())));
    state.ip_cache.handle_ip("a;b", ip("1.1.1.1"));
    assert_eq!(state.cache_to_write(), Some(Err(Error::CacheCorrupt)));
    state.preview = true;
    assert_eq!(state.cache_to_write(), None);
}

#[test]
fn changed_address_replaces_the_cached_one() {
    let mut state = run("Z0;10.0.0.1\nZ1;198.51.100.7\n", false, false);
    let zone = ZoneIdentifier::Id("Z1".to_owned());
    let records = vec![record("r1", "api.example.com"), record("r2", "api")];
    let (last, calls) = drive(&mut state, &zone, &api_rule(), &[], &records, None);
    assert_eq!(
        calls,
        vec![Action::ListRecords { zone_id: "Z1".to_owned() }, patch("Z1", "r1"), patch("Z1", "r2")]
    );
    assert!(matches!(last, ZoneState::Done { .. }));
    assert_eq!(IpCacheWriter.save(&state.ip_cache), Ok("Z0;10.0.0.1\nZ1;203.0.113.9\n".to_owned()));
}

#[test]
fn a_zone_without_rules_fails_before_any_call() {
    let mut state = run("", false, false);
    let zone = ZoneIdentifier::Name("example.com".to_owned());
    let (last, calls) = drive(&mut state, &zone, &ZoneConfig::new(vec![]), &[], &[], None);
    assert_eq!(calls, vec![]);
    assert_eq!(
        last,
        ZoneState::Failed {
            error: Error::ConfigInvalid(
                "There are no records selected for update on zone 'example.com'.".to_owned()
            )
        }
    );
    assert_eq!(state.ip_cache.len(), 0);
    assert_eq!(
        status_line(&state, &last),
        "Failed: There are no records selected for update on zone 'example.com'."
    );
}

#[test]
fn a_zone_by_name_is_looked_up_once_for_the_run() {
    let zones = vec![
        ZoneResponse { name: "example.org".to_owned(), id: "Z7".to_owned() },
        ZoneResponse { name: "example.com".to_owned(), id: "Z1".to_owned() },
    ];
    let mut state = run("", false, false);
    let records = vec![record("r1", "api.example.com")];
    let zone = ZoneIdentifier::Name("example.com".to_owned());
    let (last, calls) = drive(&mut state, &zone, &api_rule(), &zones, &records, None);
    assert_eq!(
        calls,
        vec![Action::ListZones, Action::ListRecords { zone_id: "Z1".to_owned() }, patch("Z1", "r1")]
    );
    assert!(matches!(last, ZoneState::Done { .. }));
    assert_eq!(state.zones, Some(zones.clone()));

    let other = ZoneIdentifier::Name("example.org".to_owned());
    let (last, calls) = drive(&mut state, &other, &api_rule(), &[], &records, None);
    assert_eq!(calls, vec![Action::ListRecords { zone_id: "Z7".to_owned() }, patch("Z7", "r1")]);
    assert!(matches!(last, ZoneState::Done { .. }));
    assert_eq!(
        IpCacheWriter.save(&state.ip_cache),
        Ok("Z1;203.0.113.9\nZ7;203.0.113.9\n".to_owned())
    );
}

#[test]
fn an_unknown_zone_name_is_not_found() {
    let zones = vec![ZoneResponse { name: "example.org".to_owned(), id: "Z7".to_owned() }];
    let mut state = run("", false, false);
    let zone = ZoneIdentifier::Name("example.com".to_owned());
    let (last, calls) = drive(&mut state, &zone, &api_rule(), &zones, &[], None);
    assert_eq!(calls, vec![Action::ListZones]);
    assert_eq!(last, ZoneState::Failed { error: Error::ZoneNotFound("example.com".to_owned()) });
    assert_eq!(state.ip_cache.len(), 0);
    assert_eq!(status_line(&state, &last), "Failed: Unable to find zone with name 'example.com'");
}

#[test]
fn the_first_failed_patch_ends_the_zone_and_keeps_the_cache() {
    let mut state = run("Z1;198.51.100.7\n", false, false);
    let zone = ZoneIdentifier::Both { id: "Z1".to_owned(), name: "example.com".to_owned() };
    let records = vec![record("r1", "api.a"), record("r2", "api.b"), record("r3", "api.c")];
    let (last, calls) = drive(&mut state, &zone, &api_rule(), &[], &records, Some("r2"));
    assert_eq!(
        calls,
        vec![Action::ListRecords { zone_id: "Z1".to_owned() }, patch("Z1", "r1"), patch("Z1", "r2")]
    );
    assert_eq!(
        last,
        ZoneState::Failed {
            error: Error::ProviderError(vec![CloudFlareError {
                code: 1004,
                message: "DNS Validation Error".to_owned()
            }])
        }
    );
    assert_eq!(IpCacheWriter.save(&state.ip_cache), Ok("Z1;198.51.100.7\n".to_owned()));
    assert_eq!(status_line(&state, &last), "Failed: 1004: DNS Validation Error");

    let other = ZoneIdentifier::Id("Z2".to_owned());
    let (last, _) = drive(&mut state, &other, &api_rule(), &[], &records, None);
    assert!(matches!(last, ZoneState::Done { .. }));
    assert_eq!(
        IpCacheWriter.save(&state.ip_cache),
        Ok("Z1;198.51.100.7\nZ2;203.0.113.9\n".to_owned())
    );
}

#[test]
fn a_failed_listing_ends_the_zone() {
    let mut state = run("", false, false);
    let zone = ZoneIdentifier::Id("Z1".to_owned());
    let first = start_zone(&state, &zone, &api_rule());
    assert_eq!(
        first,
        ZoneState::FetchingRecords { zone_id: "Z1".to_owned(), observed: IpCacheResult::New }
    );
    let error = Error::NetworkError("connection refused".to_owned());
    let last = step_zone(&mut state, &api_rule(), first, Event::Failed(error.clone()));
    assert_eq!(last, ZoneState::Failed { error });
    assert_eq!(next_action(&state, &last), Action::Nothing);
    assert_eq!(state.ip_cache.len(), 0);
}

#[test]
fn no_selected_record_completes_the_zone_without_a_patch() {
    let mut state = run("", false, false);
    let zone = ZoneIdentifier::Id("Z1".to_owned());
    let records = vec![record("r1", "www.example.com")];
    let (last, calls) = drive(&mut state, &zone, &api_rule(), &[], &records, None);
    assert_eq!(calls, vec![Action::ListRecords { zone_id: "Z1".to_owned() }]);
    assert_eq!(
        last,
        ZoneState::Done { zone_id: "Z1".to_owned(), observed: IpCacheResult::New, records: vec![] }
    );
    assert_eq!(IpCacheWriter.save(&state.ip_cache), Ok("Z1;203.0.113.9\n".to_owned()));
}

#[test]
fn an_event_that_is_not_waited_for_changes_nothing() {
    let mut state = run("", false, false);
    let fetching =
        ZoneState::FetchingRecords { zone_id: "Z1".to_owned(), observed: IpCacheResult::New };
    let next = step_zone(&mut state, &api_rule(), fetching, Event::Patched);
    assert_eq!(
        next,
        ZoneState::FetchingRecords { zone_id: "Z1".to_owned(), observed: IpCacheResult::New }
    );
    let done =
        ZoneState::Done { zone_id: "Z1".to_owned(), observed: IpCacheResult::New, records: vec![] };
    let next = step_zone(&mut state, &api_rule(), done, Event::Failed(Error::CacheCorrupt));
    assert!(matches!(next, ZoneState::Done { .. }));
    let skipped = ZoneState::SkippedUnchanged { zone_id: "Z1".to_owned() };
    let next = step_zone(&mut state, &api_rule(), skipped, Event::Records(vec![]));
    assert_eq!(next, ZoneState::SkippedUnchanged { zone_id: "Z1".to_owned() });
    assert_eq!(state.ip_cache.len(), 0);
    let resolving = ZoneState::ResolvingZoneId { name: "example.com".to_owned() };
    assert_eq!(status_line(&state, &resolving), "Looking up zone 'example.com'");
    assert_eq!(next_action(&state, &resolving), Action::ListZones);
}

#[test]
fn a_patch_state_past_its_list_asks_for_nothing() {
    let mut state = run("", false, false);
    let past = ZoneState::ApplyingPatches {
        zone_id: "Z1".to_owned(),
        observed: IpCacheResult::New,
        selected: vec![record("r1", "api")],
        applied: 1,
    };
    assert_eq!(next_action(&state, &past), Action::Nothing);
    let next = step_zone(&mut state, &api_rule(), past, Event::Patched);
    assert!(matches!(next, ZoneState::Done { .. }));
    let _ = IpCache::default();
}

#[test]
fn a_second_list_of_zones_is_passed_over() {
    let mut state = run("", false, false);
    state.zones = Some(vec![ZoneResponse { name: "example.com".to_owned(), id: "Z1".to_owned() }]);
    let resolving = ZoneState::ResolvingZoneId { name: "example.com".to_owned() };
    let later = vec![ZoneResponse { name: "example.com".to_owned(), id: "Z2".to_owned() }];
    let next = step_zone(&mut state, &api_rule(), resolving, Event::Zones(later));
    assert_eq!(
        next,
        ZoneState::FetchingRecords { zone_id: "Z1".to_owned(), observed: IpCacheResult::New }
    );
    assert_eq!(
        state.zones,
        Some(vec![ZoneResponse { name: "example.com".to_owned(), id: "Z1".to_owned() }])
    );
}
