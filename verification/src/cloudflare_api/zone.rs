//! The zones of an account as the provider lists them.

use crate::cloudflare_api::into_result;
use crate::error::{CloudFlareError, Error};
use crate::text::same_text;
use vstd::prelude::*;

verus! {

/// A zone of the account.
#[derive(Debug, PartialEq, Eq)]
pub struct ZoneResponse {
    pub name: String,
    pub id: String,
}

/// What a zone of the account holds.
pub struct ZoneView {
    pub name: Seq<char>,
    pub id: Seq<char>,
}

impl View for ZoneResponse {
    type V = ZoneView;

    open spec fn view(&self) -> ZoneView {
        ZoneView { name: self.name@, id: self.id@ }
    }
}

impl Clone for ZoneResponse {
    fn clone(&self) -> (copy: ZoneResponse)
        ensures
            copy@ == self@,
    {
        ZoneResponse { name: self.name.clone(), id: self.id.clone() }
    }
}

impl ZoneResponse {
    /// The identifier that the provider gave the zone.
    pub fn id(&self) -> (id: &str)
        ensures
            id@ == self@.id,
    {
        self.id.as_str()
    }

    /// The name of the zone.
    pub fn name(&self) -> (name: &str)
        ensures
            name@ == self@.name,
    {
        self.name.as_str()
    }
}

/// What each of `zones` holds.
pub open spec fn zone_views(zones: Seq<ZoneResponse>) -> Seq<ZoneView> {
    zones.map_values(|zone: ZoneResponse| zone@)
}

/// The place of the first zone with this name, or the number of zones
/// where none has it.
pub open spec fn zone_position(zones: Seq<ZoneView>, name: Seq<char>) -> int
    decreases zones.len(),
{
    if zones.len() == 0 || zones[0].name == name {
        0
    } else {
        1 + zone_position(zones.drop_first(), name)
    }
}

/// The identifier of the first zone with this name.
pub open spec fn zone_id_of(zones: Seq<ZoneView>, name: Seq<char>) -> Option<Seq<char>> {
    let i = zone_position(zones, name);
    if 0 <= i < zones.len() {
        Some(zones[i].id)
    } else {
        None
    }
}

/// The first place where a name stands is its position.
pub proof fn lemma_zone_position_is(zones: Seq<ZoneView>, name: Seq<char>, i: int)
    requires
        0 <= i <= zones.len(),
        forall|j: int| 0 <= j < i ==> (#[trigger] zones[j]).name != name,
        i < zones.len() ==> zones[i].name == name,
    ensures
        zone_position(zones, name) == i,
    decreases i,
{
    if i > 0 {
        let rest = zones.drop_first();
        assert forall|j: int| 0 <= j < i - 1 implies (#[trigger] rest[j]).name != name by {
            assert(rest[j] == zones[j + 1]);
        }
        assert(zones[0].name != name);
        lemma_zone_position_is(rest, name, i - 1);
    }
}

/// The first of `zones` with the name `name`.
pub fn find_zone<'a>(zones: &'a [ZoneResponse], name: &str) -> (zone: Option<&'a ZoneResponse>)
    ensures
        match zone {
            Some(zone) => 0 <= zone_position(zone_views(zones@), name@) < zones@.len()
                && *zone == zones@[zone_position(zone_views(zones@), name@)],
            None => zone_position(zone_views(zones@), name@) == zones@.len(),
        },
        zone.is_some() ==> zone_id_of(zone_views(zones@), name@) == Some(zone.unwrap()@.id),
        zone.is_none() ==> zone_id_of(zone_views(zones@), name@).is_none(),
{
    let mut i: usize = 0;
    while i < zones.len()
        invariant
            i <= zones@.len(),
            forall|j: int| 0 <= j < i ==> (#[trigger] zone_views(zones@)[j]).name != name@,
        decreases zones@.len() - i,
    {
        if same_text(zones[i].name.as_str(), name) {
            proof {
                assert(zone_views(zones@)[i as int].name == name@);
                lemma_zone_position_is(zone_views(zones@), name@, i as int);
            }
            return Some(&zones[i]);
        }
        assert(zone_views(zones@)[i as int].name != name@);
        i += 1;
    }
    proof {
        lemma_zone_position_is(zone_views(zones@), name@, i as int);
    }
    None
}

/// The provider's answer to the call that lists the zones.
#[derive(Debug, PartialEq, Eq)]
pub struct ListZonesResponse {
    pub success: bool,
    pub errors: Vec<CloudFlareError>,
    pub result: Vec<ZoneResponse>,
}

impl ListZonesResponse {
    /// The first zone of the answer with this name.
    pub fn find_by_name(&self, name: &str) -> (zone: Option<&ZoneResponse>)
        ensures
            match zone {
                Some(zone) => 0 <= zone_position(zone_views(self.result@), name@)
                    < self.result@.len() && *zone == self.result@[zone_position(
                    zone_views(self.result@),
                    name@,
                )],
                None => zone_position(zone_views(self.result@), name@) == self.result@.len(),
            },
    {
        find_zone(self.result.as_slice(), name)
    }

    /// The zones of the answer.
    pub fn zones(&self) -> (zones: &[ZoneResponse])
        ensures
            zones@ == self.result@,
    {
        self.result.as_slice()
    }

    /// The zones where the call succeeded, the provider's errors where
    /// it did not.
    pub fn into_result(self) -> (outcome: Result<Vec<ZoneResponse>, Error>)
        ensures
            self.success ==> outcome == Ok::<Vec<ZoneResponse>, Error>(self.result),
            !self.success ==> outcome == Err::<Vec<ZoneResponse>, Error>(
                Error::ProviderError(self.errors),
            ),
    {
        into_result(self.success, self.errors, self.result)
    }
}

} // verus!
