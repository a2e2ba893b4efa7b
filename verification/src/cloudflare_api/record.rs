//! The DNS records of a zone as the provider lists them.

use crate::cloudflare_api::into_result;
use crate::error::{CloudFlareError, Error};
use crate::ip::Ipv4Address;
use vstd::prelude::*;

verus! {

/// The type of a DNS record.
#[derive(Debug, Clone, Copy, PartialEq, Eq, Structural, Hash)]
pub enum DNSRecordType {
    A,
    AAAA,
    MX,
    TXT,
    SRV,
}

impl Default for DNSRecordType {
    /// The type of a record for which none is given.
    fn default() -> (record_type: DNSRecordType)
        ensures
            record_type == DNSRecordType::A,
    {
        DNSRecordType::A
    }
}

/// The name of a record type, as the provider writes it.
pub open spec fn record_type_text(record_type: DNSRecordType) -> Seq<char> {
    match record_type {
        DNSRecordType::A => "A"@,
        DNSRecordType::AAAA => "AAAA"@,
        DNSRecordType::MX => "MX"@,
        DNSRecordType::TXT => "TXT"@,
        DNSRecordType::SRV => "SRV"@,
    }
}

impl DNSRecordType {
    /// The name of the type, as the provider writes it.
    pub fn as_str(&self) -> (name: &'static str)
        ensures
            name@ == record_type_text(*self),
    {
        match self {
            DNSRecordType::A => "A",
            DNSRecordType::AAAA => "AAAA",
            DNSRecordType::MX => "MX",
            DNSRecordType::TXT => "TXT",
            DNSRecordType::SRV => "SRV",
        }
    }

    /// The name of the type, as the provider writes it.
    pub fn to_string(&self) -> (name: String)
        ensures
            name@ == record_type_text(*self),
    {
        self.as_str().to_owned()
    }

    /// The type with this name: `Some` exactly for the five names.
    pub fn from_str(name: &str) -> (record_type: Option<DNSRecordType>)
        ensures
            match record_type {
                Some(t) => name@ == record_type_text(t),
                None => forall|t: DNSRecordType| name@ != record_type_text(t),
            },
    {
        if crate::text::same_text(name, "A") {
            Some(DNSRecordType::A)
        } else if crate::text::same_text(name, "AAAA") {
            Some(DNSRecordType::AAAA)
        } else if crate::text::same_text(name, "MX") {
            Some(DNSRecordType::MX)
        } else if crate::text::same_text(name, "TXT") {
            Some(DNSRecordType::TXT)
        } else if crate::text::same_text(name, "SRV") {
            Some(DNSRecordType::SRV)
        } else {
            None
        }
    }
}

/// A DNS record of a zone.
#[derive(Debug, PartialEq, Eq)]
pub struct DNSRecord {
    pub id: String,
    pub name: String,
    pub record_type: DNSRecordType,
    pub content: String,
}

/// What a DNS record holds.
pub struct RecordView {
    pub id: Seq<char>,
    pub name: Seq<char>,
    pub record_type: DNSRecordType,
    pub content: Seq<char>,
}

impl View for DNSRecord {
    type V = RecordView;

    open spec fn view(&self) -> RecordView {
        RecordView {
            id: self.id@,
            name: self.name@,
            record_type: self.record_type,
            content: self.content@,
        }
    }
}

impl Clone for DNSRecord {
    fn clone(&self) -> (copy: DNSRecord)
        ensures
            copy@ == self@,
    {
        DNSRecord {
            id: self.id.clone(),
            name: self.name.clone(),
            record_type: self.record_type,
            content: self.content.clone(),
        }
    }
}

/// What each of `records` holds.
pub open spec fn record_views(records: Seq<DNSRecord>) -> Seq<RecordView> {
    records.map_values(|record: DNSRecord| record@)
}

/// The change to make to one record: the address to write into the
/// record with this identifier and name.
#[derive(Debug, PartialEq, Eq)]
pub struct PatchRecordRequest {
    pub name: String,
    pub record_id: String,
    pub ip_address: Ipv4Address,
}

/// What a change to a record holds: the record's name and identifier and
/// the bits of the address.
pub open spec fn patch_views(requests: Seq<PatchRecordRequest>) -> Seq<
    (Seq<char>, Seq<char>, u32),
> {
    requests.map_values(
        |request: PatchRecordRequest| (request.name@, request.record_id@, request.ip_address.bits),
    )
}

/// The changes that write `bits` into each record of type A, in the
/// order of the records.
pub open spec fn patches_for(records: Seq<RecordView>, bits: u32) -> Seq<
    (Seq<char>, Seq<char>, u32),
>
    decreases records.len(),
{
    if records.len() == 0 {
        Seq::empty()
    } else {
        let before = patches_for(records.drop_last(), bits);
        let record = records.last();
        if record.record_type == DNSRecordType::A {
            before.push((record.name, record.id, bits))
        } else {
            before
        }
    }
}

/// The provider's answer to the call that lists the records of a zone.
#[derive(Debug, PartialEq, Eq)]
pub struct GetRecordsResponse {
    pub success: bool,
    pub errors: Vec<CloudFlareError>,
    pub result: Vec<DNSRecord>,
}

impl GetRecordsResponse {
    /// The changes that write `ip_address` into every record of type A
    /// of the answer.
    pub fn create_patch_record_bodies(&self, ip_address: Ipv4Address) -> (requests: Vec<
        PatchRecordRequest,
    >)
        ensures
            patch_views(requests@) == patches_for(record_views(self.result@), ip_address.bits),
    {
        let mut requests: Vec<PatchRecordRequest> = Vec::new();
        let mut i: usize = 0;
        assert(patch_views(requests@) == Seq::<(Seq<char>, Seq<char>, u32)>::empty());
        while i < self.result.len()
            invariant
                i <= self.result@.len(),
                patch_views(requests@) == patches_for(
                    record_views(self.result@).subrange(0, i as int),
                    ip_address.bits,
                ),
            decreases self.result@.len() - i,
        {
            let ghost before = patch_views(requests@);
            let ghost upto = record_views(self.result@).subrange(0, i + 1);
            assert(upto.drop_last() == record_views(self.result@).subrange(0, i as int));
            assert(upto.last() == self.result@[i as int]@);
            let record = &self.result[i];
            if record.record_type == DNSRecordType::A {
                requests.push(
                    PatchRecordRequest {
                        name: record.name.clone(),
                        record_id: record.id.clone(),
                        ip_address,
                    },
                );
                assert(patch_views(requests@) == before.push(
                    (record.name@, record.id@, ip_address.bits),
                ));
            }
            i += 1;
        }
        assert(record_views(self.result@).subrange(0, i as int) == record_views(self.result@));
        requests
    }

    /// The records where the call succeeded, the provider's errors where
    /// it did not.
    pub fn into_result(self) -> (outcome: Result<Vec<DNSRecord>, Error>)
        ensures
            self.success ==> outcome == Ok::<Vec<DNSRecord>, Error>(self.result),
            !self.success ==> outcome == Err::<Vec<DNSRecord>, Error>(
                Error::ProviderError(self.errors),
            ),
    {
        into_result(self.success, self.errors, self.result)
    }
}

/// The provider's answer to the call that changes a record.
#[derive(Debug, PartialEq, Eq)]
pub struct PatchRecordResponse {
    pub success: bool,
    pub errors: Vec<CloudFlareError>,
}

impl PatchRecordResponse {
    /// Nothing where the call succeeded, the provider's errors where it
    /// did not.
    pub fn into_result(self) -> (outcome: Result<(), Error>)
        ensures
            self.success ==> outcome == Ok::<(), Error>(()),
            !self.success ==> outcome == Err::<(), Error>(Error::ProviderError(self.errors)),
    {
        into_result(self.success, self.errors, ())
    }
}

} // verus!
