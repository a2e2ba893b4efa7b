//! The update cycle of one zone, as steps between the calls to the
//! provider. The caller makes the call that a state waits for and hands
//! back what came of it; every decision is taken here.
//!
//! The address is compared with the cache as soon as the identifier of
//! the zone is known. It is stored in the cache only by the step that
//! completes the cycle, so a zone whose cycle fails keeps its former
//! entry and is taken up again by the next run. Cache keys are the
//! identifiers under which the provider is called.

use crate::cloudflare_api::record::{record_views, DNSRecord, RecordView};
use crate::cloudflare_api::zone::{find_zone, zone_id_of, zone_views, ZoneResponse, ZoneView};
use crate::config::zone::ZoneIdentifier;
use crate::config::{select, RuleView, ZoneConfig};
use crate::error::{Error, ErrorView};
use crate::cloudflare_api::error_message;
use crate::ip::{dotted_quad, Ipv4Address};
use crate::ip_cache::{classify, lemma_put, lookup, put, IpCacheResult};
use crate::state::{ApplicationState, RunView};
use vstd::prelude::*;
use vstd::string::*;

verus! {

/// Where the update cycle of a zone stands.
#[derive(Debug, PartialEq, Eq)]
pub enum ZoneState {
    /// The zone is configured by name and the zones of the account are
    /// yet to be listed.
    ResolvingZoneId { name: String },
    /// The address is to be written; the records of the zone are yet to
    /// be listed.
    FetchingRecords { zone_id: String, observed: IpCacheResult },
    /// The first `applied` of the selected records were patched; the
    /// next one is yet to be patched.
    ApplyingPatches {
        zone_id: String,
        observed: IpCacheResult,
        selected: Vec<DNSRecord>,
        applied: usize,
    },
    /// The cache holds the address already and the run is not forced:
    /// nothing was fetched and nothing patched.
    SkippedUnchanged { zone_id: String },
    /// The cycle is complete. `records` are those that were patched, or,
    /// in a preview, those that would have been.
    Done { zone_id: String, observed: IpCacheResult, records: Vec<DNSRecord> },
    /// The cycle was given up.
    Failed { error: Error },
}

/// What a state of the cycle holds.
pub enum ZoneStateView {
    ResolvingZoneId { name: Seq<char> },
    FetchingRecords { zone_id: Seq<char>, observed: IpCacheResult },
    ApplyingPatches {
        zone_id: Seq<char>,
        observed: IpCacheResult,
        selected: Seq<RecordView>,
        applied: int,
    },
    SkippedUnchanged { zone_id: Seq<char> },
    Done { zone_id: Seq<char>, observed: IpCacheResult, records: Seq<RecordView> },
    Failed { error: ErrorView },
}

impl View for ZoneState {
    type V = ZoneStateView;

    open spec fn view(&self) -> ZoneStateView {
        match self {
            ZoneState::ResolvingZoneId { name } => ZoneStateView::ResolvingZoneId { name: name@ },
            ZoneState::FetchingRecords { zone_id, observed } => ZoneStateView::FetchingRecords {
                zone_id: zone_id@,
                observed: *observed,
            },
            ZoneState::ApplyingPatches {
                zone_id,
                observed,
                selected,
                applied,
            } => ZoneStateView::ApplyingPatches {
                zone_id: zone_id@,
                observed: *observed,
                selected: record_views(selected@),
                applied: *applied as int,
            },
            ZoneState::SkippedUnchanged { zone_id } => ZoneStateView::SkippedUnchanged {
                zone_id: zone_id@,
            },
            ZoneState::Done { zone_id, observed, records } => ZoneStateView::Done {
                zone_id: zone_id@,
                observed: *observed,
                records: record_views(records@),
            },
            ZoneState::Failed { error } => ZoneStateView::Failed { error: error@ },
        }
    }
}

/// What came of the call that a state waited for.
#[derive(Debug, PartialEq, Eq)]
pub enum Event {
    /// The zones of the account.
    Zones(Vec<ZoneResponse>),
    /// The records of the zone.
    Records(Vec<DNSRecord>),
    /// The record was patched.
    Patched,
    /// The call failed.
    Failed(Error),
}

/// What an event holds.
pub enum EventView {
    Zones(Seq<ZoneView>),
    Records(Seq<RecordView>),
    Patched,
    Failed(ErrorView),
}

impl View for Event {
    type V = EventView;

    open spec fn view(&self) -> EventView {
        match self {
            Event::Zones(zones) => EventView::Zones(zone_views(zones@)),
            Event::Records(records) => EventView::Records(record_views(records@)),
            Event::Patched => EventView::Patched,
            Event::Failed(error) => EventView::Failed(error@),
        }
    }
}

/// The call that a state waits for.
#[derive(Debug, PartialEq, Eq)]
pub enum Action {
    /// List the zones of the account.
    ListZones,
    /// List the records of the zone.
    ListRecords { zone_id: String },
    /// Write `content` into the record.
    PatchRecord { zone_id: String, record_id: String, content: String },
    /// No call: the cycle has ended.
    Nothing,
}

/// What an action holds.
pub enum ActionView {
    ListZones,
    ListRecords { zone_id: Seq<char> },
    PatchRecord { zone_id: Seq<char>, record_id: Seq<char>, content: Seq<char> },
    Nothing,
}

impl View for Action {
    type V = ActionView;

    open spec fn view(&self) -> ActionView {
        match self {
            Action::ListZones => ActionView::ListZones,
            Action::ListRecords { zone_id } => ActionView::ListRecords { zone_id: zone_id@ },
            Action::PatchRecord { zone_id, record_id, content } => ActionView::PatchRecord {
                zone_id: zone_id@,
                record_id: record_id@,
                content: content@,
            },
            Action::Nothing => ActionView::Nothing,
        }
    }
}

/// What is said of a zone whose configuration selects no record.
pub open spec fn no_records_message(zone: Seq<char>) -> Seq<char> {
    "There are no records selected for update on zone '"@ + zone + "'."@
}

/// The state once the identifier of the zone is known: the zone is
/// skipped where the cache holds the address already and the run is not
/// forced; else its records are to be listed.
pub open spec fn evaluate(run: RunView, zone_id: Seq<char>) -> ZoneStateView {
    let observed = classify(run.cache, zone_id, run.ip);
    if observed == IpCacheResult::Unchanged && !run.force {
        ZoneStateView::SkippedUnchanged { zone_id }
    } else {
        ZoneStateView::FetchingRecords { zone_id, observed }
    }
}

/// The state once the zones of the account are known: that of the first
/// zone with the configured name, or a failure where none has it.
pub open spec fn resolve(run: RunView, zones: Seq<ZoneView>, name: Seq<char>) -> ZoneStateView {
    match zone_id_of(zones, name) {
        Some(zone_id) => evaluate(run, zone_id),
        None => ZoneStateView::Failed { error: ErrorView::ZoneNotFound(name) },
    }
}

/// The first state of the cycle of a zone.
pub open spec fn start(
    run: RunView,
    id: Option<Seq<char>>,
    key: Seq<char>,
    rules: Seq<RuleView>,
) -> ZoneStateView {
    if rules.len() == 0 {
        ZoneStateView::Failed { error: ErrorView::ConfigInvalid(no_records_message(key)) }
    } else {
        match id {
            Some(zone_id) => evaluate(run, zone_id),
            None => match run.zones {
                Some(zones) => resolve(run, zones, key),
                None => ZoneStateView::ResolvingZoneId { name: key },
            },
        }
    }
}

/// The end of a cycle: the address is stored in the cache for the zone.
pub open spec fn finish(
    run: RunView,
    zone_id: Seq<char>,
    observed: IpCacheResult,
    records: Seq<RecordView>,
) -> (RunView, ZoneStateView) {
    (
        RunView { cache: put(run.cache, zone_id, run.ip), ..run },
        ZoneStateView::Done { zone_id, observed, records },
    )
}

/// The run and the state after an event. The zones of the account are
/// kept from the first time they are listed; a later list is passed
/// over. An event that the state does not wait for leaves the run and
/// the state as they are.
pub open spec fn step(
    run: RunView,
    rules: Seq<RuleView>,
    state: ZoneStateView,
    event: EventView,
) -> (RunView, ZoneStateView) {
    match (state, event) {
        (ZoneStateView::ResolvingZoneId { name }, EventView::Zones(zones)) => {
            let known = match run.zones {
                Some(known) => known,
                None => zones,
            };
            (RunView { zones: Some(known), ..run }, resolve(run, known, name))
        },
        (ZoneStateView::FetchingRecords { zone_id, observed }, EventView::Records(records)) => {
            let selected = select(rules, records);
            if run.preview || selected.len() == 0 {
                finish(run, zone_id, observed, selected)
            } else {
                (run, ZoneStateView::ApplyingPatches { zone_id, observed, selected, applied: 0 })
            }
        },
        (
            ZoneStateView::ApplyingPatches { zone_id, observed, selected, applied },
            EventView::Patched,
        ) => {
            if applied + 1 < selected.len() {
                (
                    run,
                    ZoneStateView::ApplyingPatches {
                        zone_id,
                        observed,
                        selected,
                        applied: applied + 1,
                    },
                )
            } else {
                finish(run, zone_id, observed, selected)
            }
        },
        (ZoneStateView::ResolvingZoneId { .. }, EventView::Failed(error)) => (
            run,
            ZoneStateView::Failed { error },
        ),
        (ZoneStateView::FetchingRecords { .. }, EventView::Failed(error)) => (
            run,
            ZoneStateView::Failed { error },
        ),
        (ZoneStateView::ApplyingPatches { .. }, EventView::Failed(error)) => (
            run,
            ZoneStateView::Failed { error },
        ),
        _ => (run, state),
    }
}

/// The call that a state waits for.
pub open spec fn action(run: RunView, state: ZoneStateView) -> ActionView {
    match state {
        ZoneStateView::ResolvingZoneId { .. } => ActionView::ListZones,
        ZoneStateView::FetchingRecords { zone_id, .. } => ActionView::ListRecords { zone_id },
        ZoneStateView::ApplyingPatches { zone_id, selected, applied, .. } => {
            if 0 <= applied < selected.len() {
                ActionView::PatchRecord {
                    zone_id,
                    record_id: selected[applied].id,
                    content: dotted_quad(run.ip),
                }
            } else {
                ActionView::Nothing
            }
        },
        _ => ActionView::Nothing,
    }
}

fn evaluate_zone(state: &ApplicationState, zone_id: String) -> (next: ZoneState)
    ensures
        next@ == evaluate(state@, zone_id@),
{
    let observed = state.ip_cache.classify(zone_id.as_str(), state.public_ip_address);
    if observed == IpCacheResult::Unchanged && !state.force {
        ZoneState::SkippedUnchanged { zone_id }
    } else {
        ZoneState::FetchingRecords { zone_id, observed }
    }
}

fn resolve_zone(
    state: &ApplicationState,
    zones: &[ZoneResponse],
    name: String,
) -> (next: ZoneState)
    ensures
        next@ == resolve(state@, zone_views(zones@), name@),
{
    match find_zone(zones, name.as_str()) {
        Some(zone) => evaluate_zone(state, zone.id.clone()),
        None => ZoneState::Failed { error: Error::ZoneNotFound(name) },
    }
}

fn finish_zone(
    state: &mut ApplicationState,
    zone_id: String,
    observed: IpCacheResult,
    records: Vec<DNSRecord>,
) -> (next: ZoneState)
    ensures
        final(state)@ == finish(old(state)@, zone_id@, observed, record_views(records@)).0,
        next@ == finish(old(state)@, zone_id@, observed, record_views(records@)).1,
        old(state).ip_cache.wf() ==> final(state).ip_cache.wf(),
{
    let ip_address = state.public_ip_address;
    state.ip_cache.handle_ip(zone_id.as_str(), ip_address);
    ZoneState::Done { zone_id, observed, records }
}

/// Begins the cycle of a zone. A zone without rules fails at once, as a
/// fault of the configuration. A zone configured with its identifier
/// goes on to the address; one configured by name waits for the zones
/// to be listed, unless the run has them already.
pub fn start_zone(
    state: &ApplicationState,
    zone: &ZoneIdentifier,
    zone_config: &ZoneConfig,
) -> (next: ZoneState)
    ensures
        next@ == start(state@, zone.id(), zone.key(), zone_config@),
        zone_config@.len() == 0 ==> next@ == (ZoneStateView::Failed {
            error: ErrorView::ConfigInvalid(no_records_message(zone.key())),
        }),
{
    if zone_config.records().len() == 0 {
        let mut text = String::from_str("There are no records selected for update on zone '");
        text.append(zone.as_key());
        text.append("'.");
        return ZoneState::Failed { error: Error::ConfigInvalid(text) };
    }
    match zone.known_id() {
        Some(zone_id) => evaluate_zone(state, zone_id.to_owned()),
        None => match &state.zones {
            Some(zones) => resolve_zone(state, zones.as_slice(), zone.as_key().to_owned()),
            None => ZoneState::ResolvingZoneId { name: zone.as_key().to_owned() },
        },
    }
}

/// Takes the cycle of a zone one step on, with what came of the call
/// that `zone_state` waited for.
pub fn step_zone(
    state: &mut ApplicationState,
    zone_config: &ZoneConfig,
    zone_state: ZoneState,
    event: Event,
) -> (next: ZoneState)
    ensures
        final(state)@ == step(old(state)@, zone_config@, zone_state@, event@).0,
        next@ == step(old(state)@, zone_config@, zone_state@, event@).1,
        old(state).ip_cache.wf() ==> final(state).ip_cache.wf(),
{
    match zone_state {
        ZoneState::ResolvingZoneId { name } => match event {
            Event::Zones(zones) => {
                if state.zones.is_none() {
                    state.zones = Some(zones);
                }
                match &state.zones {
                    Some(known) => resolve_zone(state, known.as_slice(), name),
                    None => ZoneState::ResolvingZoneId { name },
                }
            },
            Event::Failed(error) => ZoneState::Failed { error },
            _ => ZoneState::ResolvingZoneId { name },
        },
        ZoneState::FetchingRecords { zone_id, observed } => match event {
            Event::Records(records) => {
                let selected = zone_config.select_records(records.as_slice());
                if state.preview || selected.len() == 0 {
                    finish_zone(state, zone_id, observed, selected)
                } else {
                    ZoneState::ApplyingPatches { zone_id, observed, selected, applied: 0 }
                }
            },
            Event::Failed(error) => ZoneState::Failed { error },
            _ => ZoneState::FetchingRecords { zone_id, observed },
        },
        ZoneState::ApplyingPatches { zone_id, observed, selected, applied } => match event {
            Event::Patched => {
                if applied < selected.len() && applied + 1 < selected.len() {
                    ZoneState::ApplyingPatches { zone_id, observed, selected, applied: applied + 1 }
                } else {
                    finish_zone(state, zone_id, observed, selected)
                }
            },
            Event::Failed(error) => ZoneState::Failed { error },
            _ => ZoneState::ApplyingPatches { zone_id, observed, selected, applied },
        },
        other => other,
    }
}

/// The call that `zone_state` waits for.
pub fn next_action(state: &ApplicationState, zone_state: &ZoneState) -> (call: Action)
    ensures
        call@ == action(state@, zone_state@),
{
    match zone_state {
        ZoneState::ResolvingZoneId { .. } => Action::ListZones,
        ZoneState::FetchingRecords { zone_id, .. } => Action::ListRecords {
            zone_id: zone_id.clone(),
        },
        ZoneState::ApplyingPatches { zone_id, selected, applied, .. } => {
            if *applied < selected.len() {
                Action::PatchRecord {
                    zone_id: zone_id.clone(),
                    record_id: selected[*applied].id.clone(),
                    content: state.public_ip_address.to_string(),
                }
            } else {
                Action::Nothing
            }
        },
        _ => Action::Nothing,
    }
}

/// A zone whose configuration selects no record fails as a fault of the
/// configuration, and no call to the provider is made for it.
pub proof fn law_no_rules_no_call(
    run: RunView,
    id: Option<Seq<char>>,
    key: Seq<char>,
    rules: Seq<RuleView>,
)
    requires
        rules.len() == 0,
    ensures
        start(run, id, key, rules) == (ZoneStateView::Failed {
            error: ErrorView::ConfigInvalid(no_records_message(key)),
        }),
        action(run, start(run, id, key, rules)) == ActionView::Nothing,
{
}

/// A zone whose cached address is the current one is skipped without a
/// call, unless the run is forced; a forced run goes on to list the
/// records.
pub proof fn law_unchanged_skipped_unless_forced(run: RunView, zone_id: Seq<char>)
    requires
        lookup(run.cache, zone_id) == Some(run.ip),
    ensures
        !run.force ==> evaluate(run, zone_id) == (ZoneStateView::SkippedUnchanged { zone_id })
            && action(run, evaluate(run, zone_id)) == ActionView::Nothing,
        run.force ==> evaluate(run, zone_id) == (ZoneStateView::FetchingRecords {
            zone_id,
            observed: IpCacheResult::Unchanged,
        }),
{
}

/// The zones of the account are listed at most once in a run: once the
/// run has them, no cycle begins by asking for them, and no step
/// replaces them.
pub proof fn law_zones_listed_once(
    run: RunView,
    id: Option<Seq<char>>,
    key: Seq<char>,
    rules: Seq<RuleView>,
    state: ZoneStateView,
    event: EventView,
)
    requires
        run.zones is Some,
    ensures
        action(run, start(run, id, key, rules)) != ActionView::ListZones,
        step(run, rules, state, event).0.zones == run.zones,
{
}

/// A zone that is configured with its identifier is never looked up.
pub proof fn law_known_id_skips_lookup(
    run: RunView,
    zone_id: Seq<char>,
    key: Seq<char>,
    rules: Seq<RuleView>,
)
    ensures
        action(run, start(run, Some(zone_id), key, rules)) != ActionView::ListZones,
        rules.len() > 0 ==> start(run, Some(zone_id), key, rules) == evaluate(run, zone_id),
{
}

/// A zone whose cycle is complete is skipped when it is begun again with
/// the same address, unless the run is forced: the address that was
/// written is the one that the cache then holds for the zone.
pub proof fn law_done_then_unchanged(
    run: RunView,
    rules: Seq<RuleView>,
    state: ZoneStateView,
    event: EventView,
)
    requires
        !(state is Done),
        step(run, rules, state, event).1 is Done,
    ensures
        ({
            let after = step(run, rules, state, event);
            let zone_id = after.1->Done_zone_id;
            &&& lookup(after.0.cache, zone_id) == Some(run.ip)
            &&& !run.force ==> evaluate(after.0, zone_id) == (ZoneStateView::SkippedUnchanged {
                zone_id,
            })
        }),
{
    let after = step(run, rules, state, event);
    let zone_id = after.1->Done_zone_id;
    lemma_put(run.cache, zone_id, run.ip);
}

/// In a preview no record is patched: once the records are listed the
/// cycle is complete, with the selected records as those that would be
/// patched.
pub proof fn law_preview_patches_nothing(
    run: RunView,
    rules: Seq<RuleView>,
    zone_id: Seq<char>,
    observed: IpCacheResult,
    records: Seq<RecordView>,
)
    requires
        run.preview,
    ensures
        step(
            run,
            rules,
            ZoneStateView::FetchingRecords { zone_id, observed },
            EventView::Records(records),
        ).1 == (ZoneStateView::Done { zone_id, observed, records: select(rules, records) }),
        action(
            run,
            step(
                run,
                rules,
                ZoneStateView::FetchingRecords { zone_id, observed },
                EventView::Records(records),
            ).1,
        ) == ActionView::Nothing,
{
}

/// The cache changes only in the step that completes a cycle, and then
/// by the address being stored for the zone; a cycle that fails or is
/// skipped leaves the cache as it was.
pub proof fn law_cache_changes_when_done(
    run: RunView,
    rules: Seq<RuleView>,
    state: ZoneStateView,
    event: EventView,
)
    ensures
        match step(run, rules, state, event).1 {
            ZoneStateView::Done { zone_id, .. } => step(run, rules, state, event).0.cache
                == run.cache || step(run, rules, state, event).0.cache == put(
                run.cache,
                zone_id,
                run.ip,
            ),
            _ => step(run, rules, state, event).0.cache == run.cache,
        },
        step(run, rules, state, event).0.ip == run.ip,
        step(run, rules, state, event).0.preview == run.preview,
        step(run, rules, state, event).0.force == run.force,
{
}

/// The patches of a zone are asked for one after the other, in the order
/// of the list: after a patch the next record of the list is due, and
/// after the last one the cycle is complete.
pub proof fn law_patches_in_order(
    run: RunView,
    rules: Seq<RuleView>,
    zone_id: Seq<char>,
    observed: IpCacheResult,
    selected: Seq<RecordView>,
    applied: int,
)
    requires
        0 <= applied < selected.len(),
    ensures
        action(run, ZoneStateView::ApplyingPatches { zone_id, observed, selected, applied })
            == (ActionView::PatchRecord {
            zone_id,
            record_id: selected[applied].id,
            content: dotted_quad(run.ip),
        }),
        applied + 1 < selected.len() ==> step(
            run,
            rules,
            ZoneStateView::ApplyingPatches { zone_id, observed, selected, applied },
            EventView::Patched,
        ).1 == (ZoneStateView::ApplyingPatches { zone_id, observed, selected, applied: applied + 1 }),
        applied + 1 == selected.len() ==> step(
            run,
            rules,
            ZoneStateView::ApplyingPatches { zone_id, observed, selected, applied },
            EventView::Patched,
        ).1 == (ZoneStateView::Done { zone_id, observed, records: selected }),
{
}

/// The line that tells how the address stands to the cached one.
pub open spec fn observation_message(observed: IpCacheResult, ip: u32, force: bool) -> Seq<char> {
    match observed {
        IpCacheResult::New => "IP address on first run: '"@ + dotted_quad(ip) + "'"@,
        IpCacheResult::Unchanged => if force {
            "IP address unchanged: '"@ + dotted_quad(ip) + "', forcing update"@
        } else {
            "IP address unchanged: '"@ + dotted_quad(ip) + "'"@
        },
        IpCacheResult::Changed { previous_ip_address } => "IP address updated: '"@ + dotted_quad(
            previous_ip_address.bits,
        ) + "' => '"@ + dotted_quad(ip) + "'"@,
    }
}

/// The line that tells where the cycle of a zone stands: one wording for
/// each of unchanged, first run, changed, forced, previewed and failed.
pub open spec fn status_message(run: RunView, state: ZoneStateView) -> Seq<char> {
    match state {
        ZoneStateView::ResolvingZoneId { name } => "Looking up zone '"@ + name + "'"@,
        ZoneStateView::FetchingRecords { observed, .. } => observation_message(
            observed,
            run.ip,
            run.force,
        ),
        ZoneStateView::ApplyingPatches { observed, .. } => observation_message(
            observed,
            run.ip,
            run.force,
        ),
        ZoneStateView::SkippedUnchanged { .. } => observation_message(
            IpCacheResult::Unchanged,
            run.ip,
            false,
        ),
        ZoneStateView::Done { observed, .. } => if run.preview {
            "[Preview]: "@ + observation_message(observed, run.ip, run.force)
        } else {
            observation_message(observed, run.ip, run.force)
        },
        ZoneStateView::Failed { error } => "Failed: "@ + error_message(error),
    }
}

/// The line that tells how the address stands to the cached one.
pub fn describe_observation(
    observed: IpCacheResult,
    ip_address: Ipv4Address,
    force: bool,
) -> (text: String)
    ensures
        text@ == observation_message(observed, ip_address.bits, force),
{
    match observed {
        IpCacheResult::New => {
            let mut text = String::from_str("IP address on first run: '");
            text.append(ip_address.to_string().as_str());
            text.append("'");
            text
        },
        IpCacheResult::Unchanged => {
            let mut text = String::from_str("IP address unchanged: '");
            text.append(ip_address.to_string().as_str());
            if force {
                text.append("', forcing update");
            } else {
                text.append("'");
            }
            text
        },
        IpCacheResult::Changed { previous_ip_address } => {
            let mut text = String::from_str("IP address updated: '");
            text.append(previous_ip_address.to_string().as_str());
            text.append("' => '");
            text.append(ip_address.to_string().as_str());
            text.append("'");
            text
        },
    }
}

/// The line that tells where the cycle of a zone stands.
pub fn status_line(state: &ApplicationState, zone_state: &ZoneState) -> (text: String)
    ensures
        text@ == status_message(state@, zone_state@),
{
    match zone_state {
        ZoneState::ResolvingZoneId { name } => {
            let mut text = String::from_str("Looking up zone '");
            text.append(name.as_str());
            text.append("'");
            text
        },
        ZoneState::FetchingRecords { observed, .. } => describe_observation(
            *observed,
            state.public_ip_address,
            state.force,
        ),
        ZoneState::ApplyingPatches { observed, .. } => describe_observation(
            *observed,
            state.public_ip_address,
            state.force,
        ),
        ZoneState::SkippedUnchanged { .. } => describe_observation(
            IpCacheResult::Unchanged,
            state.public_ip_address,
            false,
        ),
        ZoneState::Done { observed, .. } => {
            let line = describe_observation(*observed, state.public_ip_address, state.force);
            if state.preview {
                let mut text = String::from_str("[Preview]: ");
                text.append(line.as_str());
                text
            } else {
                line
            }
        },
        ZoneState::Failed { error } => {
            let mut text = String::from_str("Failed: ");
            text.append(error.to_string().as_str());
            text
        },
    }
}

} // verus!
