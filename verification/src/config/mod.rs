//! Which records of a zone are to follow the public address.

pub mod args;
pub mod dto;
pub mod env;
pub mod fs;
pub mod ip;
pub mod settings;
pub mod zone;

use crate::cloudflare_api::record::{record_views, DNSRecord, DNSRecordType, RecordView};
use crate::text::{has_prefix, starts_with, to_chars};
use vstd::prelude::*;
use vstd::string::*;

verus! {

/// A rule that selects records: by name alone, which means records of
/// type A, or by name and type.
#[derive(Debug, PartialEq, Eq)]
pub enum RecordConfig {
    Full { record_type: DNSRecordType, name: String },
    Name(String),
}

/// What a rule asks of a record.
pub struct RuleView {
    pub name: Seq<char>,
    pub record_type: DNSRecordType,
}

impl View for RecordConfig {
    type V = RuleView;

    open spec fn view(&self) -> RuleView {
        match self {
            RecordConfig::Full { record_type, name } => RuleView {
                name: name@,
                record_type: *record_type,
            },
            RecordConfig::Name(name) => RuleView { name: name@, record_type: DNSRecordType::A },
        }
    }
}

impl Clone for RecordConfig {
    fn clone(&self) -> (copy: RecordConfig)
        ensures
            copy@ == self@,
    {
        match self {
            RecordConfig::Full { record_type, name } => RecordConfig::Full {
                record_type: *record_type,
                name: name.clone(),
            },
            RecordConfig::Name(name) => RecordConfig::Name(name.clone()),
        }
    }
}

/// A record name falls under a rule name where the two are equal, or
/// where the record name is the rule name, a dot, and at least one more
/// character.
pub open spec fn name_matches(rule: Seq<char>, name: Seq<char>) -> bool {
    ||| name == rule
    ||| {
        &&& name.len() > rule.len() + 1
        &&& has_prefix(name, rule)
        &&& name[rule.len() as int] == '.'
    }
}

/// A record matches a rule where the types are equal and the record's
/// name falls under the rule's name.
pub open spec fn rule_matches(rule: RuleView, record: RecordView) -> bool {
    rule.record_type == record.record_type && name_matches(rule.name, record.name)
}

/// A record is selected where it matches one of the rules.
pub open spec fn is_selected(rules: Seq<RuleView>, record: RecordView) -> bool {
    exists|i: int| 0 <= i < rules.len() && rule_matches(#[trigger] rules[i], record)
}

/// What each of `rules` asks.
pub open spec fn rule_views(rules: Seq<RecordConfig>) -> Seq<RuleView> {
    rules.map_values(|rule: RecordConfig| rule@)
}

impl RecordConfig {
    /// The name that the rule asks for.
    pub fn name(&self) -> (name: &str)
        ensures
            name@ == self@.name,
    {
        match self {
            RecordConfig::Full { name, .. } => name.as_str(),
            RecordConfig::Name(name) => name.as_str(),
        }
    }

    /// The type that the rule asks for: A where it names none.
    pub fn record_type(&self) -> (record_type: DNSRecordType)
        ensures
            record_type == self@.record_type,
    {
        match self {
            RecordConfig::Full { record_type, .. } => *record_type,
            RecordConfig::Name(_) => DNSRecordType::A,
        }
    }

    /// Whether a record of this name and type matches the rule.
    pub fn is_match(&self, name: &str, record_type: &DNSRecordType) -> (matches: bool)
        ensures
            matches == (self@.record_type == *record_type && name_matches(self@.name, name@)),
    {
        if self.record_type() != *record_type {
            return false;
        }
        let rule = to_chars(self.name());
        let name = to_chars(name);
        if !starts_with(name.as_slice(), rule.as_slice()) {
            assert(has_prefix(rule@, rule@)) by {
                assert(rule@.subrange(0, rule@.len() as int) == rule@);
            }
            return false;
        }
        if name.len() == rule.len() {
            assert(name@.subrange(0, rule@.len() as int) == name@);
            return true;
        }
        let matches = name.len() - rule.len() > 1 && name[rule.len()] == '.';
        matches
    }

    /// Whether the record matches the rule.
    pub fn match_record(&self, record: &DNSRecord) -> (matches: bool)
        ensures
            matches == rule_matches(self@, record@),
    {
        self.is_match(record.name.as_str(), &record.record_type)
    }
}

/// The rules of one zone.
#[derive(Debug, PartialEq, Eq)]
pub struct ZoneConfig {
    records: Vec<RecordConfig>,
}

impl View for ZoneConfig {
    type V = Seq<RuleView>;

    closed spec fn view(&self) -> Seq<RuleView> {
        rule_views(self.records@)
    }
}

/// Whether one of `records` has the identifier `id`.
pub open spec fn has_id(records: Seq<RecordView>, id: Seq<char>) -> bool {
    exists|i: int| 0 <= i < records.len() && (#[trigger] records[i]).id == id
}

/// The records to patch: those of `records` that the rules select, in
/// their order, each identifier once, which the first record with it
/// stands for.
pub open spec fn select(rules: Seq<RuleView>, records: Seq<RecordView>) -> Seq<RecordView>
    decreases records.len(),
{
    if records.len() == 0 {
        Seq::empty()
    } else {
        let before = select(rules, records.drop_last());
        let record = records.last();
        if is_selected(rules, record) && !has_id(before, record.id) {
            before.push(record)
        } else {
            before
        }
    }
}

impl ZoneConfig {
    /// The configuration of a zone with these rules.
    pub fn new(records: Vec<RecordConfig>) -> (zone_config: ZoneConfig)
        ensures
            zone_config@ == rule_views(records@),
    {
        ZoneConfig { records }
    }

    /// The rules of the zone.
    pub fn records(&self) -> (records: &[RecordConfig])
        ensures
            rule_views(records@) == self@,
    {
        self.records.as_slice()
    }

    /// Whether one of the zone's rules matches the record.
    pub fn is_record_selected(&self, record: &DNSRecord) -> (selected: bool)
        ensures
            selected == is_selected(self@, record@),
    {
        let mut i: usize = 0;
        while i < self.records.len()
            invariant
                i <= self.records@.len(),
                forall|j: int| 0 <= j < i ==> !rule_matches(#[trigger] self@[j], record@),
            decreases self.records@.len() - i,
        {
            if self.records[i].match_record(record) {
                assert(rule_matches(self@[i as int], record@));
                return true;
            }
            i += 1;
        }
        false
    }

    /// The records to patch among those that the provider listed.
    pub fn select_records(&self, records: &[DNSRecord]) -> (selected: Vec<DNSRecord>)
        ensures
            record_views(selected@) == select(self@, record_views(records@)),
    {
        let mut selected: Vec<DNSRecord> = Vec::new();
        let mut i: usize = 0;
        assert(record_views(selected@) == Seq::<RecordView>::empty());
        while i < records.len()
            invariant
                i <= records@.len(),
                record_views(selected@) == select(
                    self@,
                    record_views(records@).subrange(0, i as int),
                ),
            decreases records@.len() - i,
        {
            let ghost before = record_views(selected@);
            let ghost upto = record_views(records@).subrange(0, i + 1);
            assert(upto.drop_last() == record_views(records@).subrange(0, i as int));
            assert(upto.last() == records@[i as int]@);
            if self.is_record_selected(&records[i]) && !holds_id(
                selected.as_slice(),
                records[i].id.as_str(),
            ) {
                selected.push(records[i].clone());
                assert(record_views(selected@) == before.push(records@[i as int]@));
            }
            i += 1;
        }
        assert(record_views(records@).subrange(0, i as int) == record_views(records@));
        selected
    }
}

impl Clone for ZoneConfig {
    fn clone(&self) -> (copy: ZoneConfig)
        ensures
            copy@ == self@,
    {
        let mut records: Vec<RecordConfig> = Vec::new();
        let mut i: usize = 0;
        while i < self.records.len()
            invariant
                i <= self.records@.len(),
                rule_views(records@) == rule_views(self.records@).subrange(0, i as int),
            decreases self.records@.len() - i,
        {
            let ghost before = rule_views(records@);
            records.push(self.records[i].clone());
            assert(rule_views(records@) == before.push(self.records@[i as int]@));
            i += 1;
        }
        assert(rule_views(self.records@).subrange(0, i as int) == rule_views(self.records@));
        ZoneConfig { records }
    }
}

/// Whether one of `records` has the identifier `id`.
pub fn holds_id(records: &[DNSRecord], id: &str) -> (found: bool)
    ensures
        found == has_id(record_views(records@), id@),
{
    let mut i: usize = 0;
    while i < records.len()
        invariant
            i <= records@.len(),
            forall|j: int| 0 <= j < i ==> (#[trigger] record_views(records@)[j]).id != id@,
        decreases records@.len() - i,
    {
        if crate::text::same_text(records[i].id.as_str(), id) {
            assert(record_views(records@)[i as int].id == id@);
            return true;
        }
        i += 1;
    }
    false
}

/// Whether one of the zone's rules matches the record.
pub fn is_record_selected(record: &DNSRecord, zone_config: &ZoneConfig) -> (selected: bool)
    ensures
        selected == is_selected(zone_config@, record@),
{
    zone_config.is_record_selected(record)
}

/// Every entry of the list to patch is a record of the provider's list
/// that the rules select.
pub proof fn lemma_select_members(rules: Seq<RuleView>, records: Seq<RecordView>)
    ensures
        forall|i: int|
            0 <= i < select(rules, records).len() ==> is_selected(
                rules,
                #[trigger] select(rules, records)[i],
            ) && records.contains(select(rules, records)[i]),
    decreases records.len(),
{
    if records.len() > 0 {
        let shorter = records.drop_last();
        let before = select(rules, shorter);
        let after = select(rules, records);
        let record = records.last();
        lemma_select_members(rules, shorter);
        assert forall|i: int| 0 <= i < after.len() implies is_selected(rules, #[trigger] after[i])
            && records.contains(after[i]) by {
            if i < before.len() {
                assert(after[i] == before[i]);
                let k = choose|k: int| 0 <= k < shorter.len() && shorter[k] == before[i];
                assert(records[k] == before[i]);
            } else {
                assert(after[i] == record);
                assert(records[records.len() - 1] == record);
            }
        }
    }
}

/// No two entries of the list to patch have the same identifier.
pub proof fn lemma_select_distinct(rules: Seq<RuleView>, records: Seq<RecordView>)
    ensures
        forall|i: int, j: int|
            0 <= i < j < select(rules, records).len() ==> (#[trigger] select(rules, records)[i]).id
                != (#[trigger] select(rules, records)[j]).id,
    decreases records.len(),
{
    if records.len() > 0 {
        let shorter = records.drop_last();
        let before = select(rules, shorter);
        let after = select(rules, records);
        lemma_select_distinct(rules, shorter);
        assert forall|i: int, j: int| 0 <= i < j < after.len() implies (#[trigger] after[i]).id != (
        #[trigger] after[j]).id by {
            if j < before.len() {
                assert(after[i] == before[i] && after[j] == before[j]);
            } else {
                assert(after[i] == before[i]);
            }
        }
    }
}

/// The identifier of a record that the rules select stands in the list
/// to patch.
pub proof fn lemma_select_covers(rules: Seq<RuleView>, records: Seq<RecordView>, k: int)
    requires
        0 <= k < records.len(),
        is_selected(rules, records[k]),
    ensures
        has_id(select(rules, records), records[k].id),
    decreases records.len(),
{
    let shorter = records.drop_last();
    let before = select(rules, shorter);
    let after = select(rules, records);
    let record = records.last();
    if k < shorter.len() {
        assert(shorter[k] == records[k]);
        lemma_select_covers(rules, shorter, k);
        let i = choose|i: int| 0 <= i < before.len() && (#[trigger] before[i]).id == records[k].id;
        assert(after[i] == before[i]);
    } else {
        if has_id(before, record.id) {
            let i = choose|i: int| 0 <= i < before.len() && (#[trigger] before[i]).id == record.id;
            assert(after[i] == before[i]);
        } else {
            assert(after[after.len() - 1].id == record.id);
        }
    }
}

/// A name made of the rule's name, a dot and something more falls under
/// the rule's name.
pub proof fn law_subdomain_matches(rule: Seq<char>, rest: Seq<char>)
    requires
        rest.len() > 0,
    ensures
        name_matches(rule, rule + seq!['.'] + rest),
{
    let name = rule + seq!['.'] + rest;
    assert(name.subrange(0, rule.len() as int) == rule);
}

/// A name in which something other than a dot follows the rule's name
/// does not fall under it.
pub proof fn law_longer_label_does_not_match(rule: Seq<char>, next: char, rest: Seq<char>)
    requires
        next != '.',
    ensures
        !name_matches(rule, rule.push(next) + rest),
{
    let name = rule.push(next) + rest;
    assert(name[rule.len() as int] == next);
    assert(name.len() > rule.len());
}

/// Whether `first` stands at an earlier place of `records` than
/// `second` does.
pub open spec fn stands_before(records: Seq<RecordView>, first: RecordView, second: RecordView)
    -> bool {
    exists|k: int, l: int|
        0 <= k < l < records.len() && #[trigger] records[k] == first && #[trigger] records[l]
            == second
}

/// The list to patch keeps the order of the provider's list: of two of
/// its entries the earlier one stands earlier in the provider's list.
pub proof fn law_select_keeps_order(rules: Seq<RuleView>, records: Seq<RecordView>)
    ensures
        forall|i: int, j: int|
            0 <= i < j < select(rules, records).len() ==> #[trigger] stands_before(
                records,
                select(rules, records)[i],
                select(rules, records)[j],
            ),
    decreases records.len(),
{
    if records.len() > 0 {
        let shorter = records.drop_last();
        let before = select(rules, shorter);
        let after = select(rules, records);
        law_select_keeps_order(rules, shorter);
        lemma_select_members(rules, shorter);
        assert forall|i: int, j: int| 0 <= i < j < after.len() implies #[trigger] stands_before(
            records,
            after[i],
            after[j],
        ) by {
            if j < before.len() {
                assert(after[i] == before[i] && after[j] == before[j]);
                assert(stands_before(shorter, before[i], before[j]));
                let (k, l) = choose|k: int, l: int|
                    0 <= k < l < shorter.len() && #[trigger] shorter[k] == before[i]
                        && #[trigger] shorter[l] == before[j];
                assert(records[k] == shorter[k] && records[l] == shorter[l]);
            } else {
                assert(after[i] == before[i]);
                assert(shorter.contains(before[i]));
                let k = choose|k: int| 0 <= k < shorter.len() && shorter[k] == before[i];
                let l = records.len() - 1;
                assert(records[k] == shorter[k]);
                assert(records[l] == after[j]);
            }
        }
    }
}

/// Whether exactly one of `records` has the identifier `id`.
pub open spec fn stands_once(records: Seq<RecordView>, id: Seq<char>) -> bool {
    exists|i: int|
        0 <= i < records.len() && (#[trigger] records[i]).id == id && forall|j: int|
            0 <= j < records.len() && (#[trigger] records[j]).id == id ==> j == i
}

/// A record that the rules select stands for exactly one entry of the
/// list to patch, however many of the rules it matches.
pub proof fn law_selected_once(rules: Seq<RuleView>, records: Seq<RecordView>, k: int)
    requires
        0 <= k < records.len(),
        is_selected(rules, records[k]),
    ensures
        stands_once(select(rules, records), records[k].id),
{
    let chosen = select(rules, records);
    let id = records[k].id;
    lemma_select_covers(rules, records, k);
    let i = choose|i: int| 0 <= i < chosen.len() && (#[trigger] chosen[i]).id == id;
    assert forall|j: int| 0 <= j < chosen.len() && (#[trigger] chosen[j]).id == id implies j
        == i by {
        lemma_select_distinct(rules, records);
        if j < i {
            assert(chosen[j].id != chosen[i].id);
        } else if i < j {
            assert(chosen[i].id != chosen[j].id);
        }
    }
    assert(stands_once(chosen, id));
}

/// The configuration of a run: where to ask for the public address, the
/// provider's token, and the zones with their rules, in the order of the
/// configuration.
#[derive(Debug, PartialEq, Eq)]
pub struct ApplicationConfig {
    public_ip_url: String,
    cloudflare_token: String,
    zones: Vec<(String, ZoneConfig)>,
}

/// What is said where the configuration holds no token.
pub open spec fn empty_token_message() -> Seq<char> {
    "The Cloudflare token is empty."@
}

/// The place of the first zone without rules, or the number of zones
/// where each has a rule.
pub open spec fn first_without_rules(zones: Seq<(String, ZoneConfig)>) -> int
    decreases zones.len(),
{
    if zones.len() == 0 || zones[0].1@.len() == 0 {
        0
    } else {
        1 + first_without_rules(zones.drop_first())
    }
}

/// The first place where a zone without rules stands is the one that
/// `first_without_rules` names.
pub proof fn lemma_first_without_rules(zones: Seq<(String, ZoneConfig)>, i: int)
    requires
        0 <= i <= zones.len(),
        forall|j: int| 0 <= j < i ==> (#[trigger] zones[j]).1@.len() > 0,
        i < zones.len() ==> zones[i].1@.len() == 0,
    ensures
        first_without_rules(zones) == i,
    decreases i,
{
    if i > 0 {
        let rest = zones.drop_first();
        assert forall|j: int| 0 <= j < i - 1 implies (#[trigger] rest[j]).1@.len() > 0 by {
            assert(rest[j] == zones[j + 1]);
        }
        assert(zones[0].1@.len() > 0);
        lemma_first_without_rules(rest, i - 1);
    }
}

impl ApplicationConfig {
    /// The configuration made of these values.
    pub fn new(
        public_ip_url: String,
        cloudflare_token: String,
        zones: Vec<(String, ZoneConfig)>,
    ) -> (config: ApplicationConfig)
        ensures
            config.spec_public_ip_url() == public_ip_url@,
            config.spec_cloudflare_token() == cloudflare_token@,
            config.spec_zones() == zones@,
    {
        ApplicationConfig { public_ip_url, cloudflare_token, zones }
    }

    /// Where to ask for the public address.
    pub closed spec fn spec_public_ip_url(&self) -> Seq<char> {
        self.public_ip_url@
    }

    /// The provider's token.
    pub closed spec fn spec_cloudflare_token(&self) -> Seq<char> {
        self.cloudflare_token@
    }

    /// The zones with their rules.
    pub closed spec fn spec_zones(&self) -> Seq<(String, ZoneConfig)> {
        self.zones@
    }

    /// Where to ask for the public address.
    pub fn public_ip_url(&self) -> (url: &str)
        ensures
            url@ == self.spec_public_ip_url(),
    {
        self.public_ip_url.as_str()
    }

    /// The provider's token.
    pub fn cloudflare_token(&self) -> (token: &str)
        ensures
            token@ == self.spec_cloudflare_token(),
    {
        self.cloudflare_token.as_str()
    }

    /// The zones with their rules, in the order of the configuration.
    pub fn zones(&self) -> (zones: &[(String, ZoneConfig)])
        ensures
            zones@ == self.spec_zones(),
    {
        self.zones.as_slice()
    }

    /// Whether the configuration can be used: the token is not empty and
    /// every zone has a rule. The error names the first zone without
    /// rules; an empty token comes before that.
    pub fn validate(&self) -> (valid: Result<(), crate::error::Error>)
        ensures
            match valid {
                Ok(_) => self.spec_cloudflare_token().len() > 0 && first_without_rules(
                    self.spec_zones(),
                ) == self.spec_zones().len(),
                Err(error) => if self.spec_cloudflare_token().len() == 0 {
                    error@ == crate::error::ErrorView::ConfigInvalid(empty_token_message())
                } else {
                    0 <= first_without_rules(self.spec_zones()) < self.spec_zones().len() && error@
                        == crate::error::ErrorView::ConfigInvalid(
                        crate::reconciler::no_records_message(
                            self.spec_zones()[first_without_rules(self.spec_zones())].0@,
                        ),
                    )
                },
            },
    {
        if self.cloudflare_token.as_str().unicode_len() == 0 {
            return Err(
                crate::error::Error::ConfigInvalid(
                    String::from_str("The Cloudflare token is empty."),
                ),
            );
        }
        let mut i: usize = 0;
        while i < self.zones.len()
            invariant
                i <= self.zones@.len(),
                self.spec_cloudflare_token().len() > 0,
                forall|j: int| 0 <= j < i ==> (#[trigger] self.zones@[j]).1@.len() > 0,
            decreases self.zones@.len() - i,
        {
            if self.zones[i].1.records().len() == 0 {
                proof {
                    lemma_first_without_rules(self.zones@, i as int);
                }
                let mut text = String::from_str(
                    "There are no records selected for update on zone '",
                );
                text.append(self.zones[i].0.as_str());
                text.append("'.");
                return Err(crate::error::Error::ConfigInvalid(text));
            }
            i += 1;
        }
        proof {
            lemma_first_without_rules(self.zones@, i as int);
        }
        Ok(())
    }
}

} // verus!
