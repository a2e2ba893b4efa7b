//! The table in which the records of a zone are listed.

use crate::cloudflare_api::record::{record_views, DNSRecord, DNSRecordType, RecordView,
    record_type_text};
use crate::cloudflare_api::zone::{zone_views, ZoneResponse, ZoneView};
use vstd::prelude::*;
use vstd::string::*;
use vstd::utf8::encode_utf8;

verus! {

/// The number of bytes that a text takes, as its length is counted.
pub open spec fn byte_len(text: Seq<char>) -> usize {
    encode_utf8(text).len() as usize
}

/// The larger of two numbers.
pub open spec fn larger(a: int, b: int) -> int {
    if a >= b {
        a
    } else {
        b
    }
}

/// The width of each column of the table: the length in bytes of the
/// longest value in it.
#[derive(Debug, Default, Clone, Copy, PartialEq, Eq, Structural)]
pub struct DNSRecordFormatter {
    pub id: usize,
    pub name: usize,
    pub record_type: usize,
    pub content: usize,
}

/// The widths that hold `widths` and the values of `record`.
pub open spec fn widened(widths: DNSRecordFormatter, record: RecordView) -> DNSRecordFormatter {
    DNSRecordFormatter {
        id: larger(byte_len(record.id) as int, widths.id as int) as usize,
        name: larger(byte_len(record.name) as int, widths.name as int) as usize,
        record_type: larger(
            byte_len(record_type_text(record.record_type)) as int,
            widths.record_type as int,
        ) as usize,
        content: larger(byte_len(record.content) as int, widths.content as int) as usize,
    }
}

/// The widths that hold the values of all of `records`.
pub open spec fn widths_of(records: Seq<RecordView>) -> DNSRecordFormatter
    decreases records.len(),
{
    if records.len() == 0 {
        DNSRecordFormatter { id: 0, name: 0, record_type: 0, content: 0 }
    } else {
        widened(widths_of(records.drop_last()), records.last())
    }
}

fn max_of(a: usize, b: usize) -> (m: usize)
    ensures
        m == larger(a as int, b as int),
{
    if a >= b {
        a
    } else {
        b
    }
}

impl DNSRecordFormatter {
    /// The widths that hold the values of all of `records`.
    pub fn from_records(records: &[DNSRecord]) -> (alignment: DNSRecordFormatter)
        ensures
            alignment == widths_of(record_views(records@)),
    {
        let mut alignment = DNSRecordFormatter { id: 0, name: 0, record_type: 0, content: 0 };
        let mut i: usize = 0;
        while i < records.len()
            invariant
                i <= records@.len(),
                alignment == widths_of(record_views(records@).subrange(0, i as int)),
            decreases records@.len() - i,
        {
            let ghost upto = record_views(records@).subrange(0, i + 1);
            assert(upto.drop_last() == record_views(records@).subrange(0, i as int));
            assert(upto.last() == records@[i as int]@);
            alignment = alignment.add(&records[i]);
            i += 1;
        }
        assert(record_views(records@).subrange(0, i as int) == record_views(records@));
        alignment
    }

    /// The widths that hold these widths and the values of `record`.
    pub fn add(self, record: &DNSRecord) -> (alignment: DNSRecordFormatter)
        ensures
            alignment == widened(self, record@),
    {
        DNSRecordFormatter {
            id: max_of(record.id.as_str().len(), self.id),
            name: max_of(record.name.as_str().len(), self.name),
            record_type: max_of(record.record_type.as_str().len(), self.record_type),
            content: max_of(record.content.as_str().len(), self.content),
        }
    }
}

/// Whether a record is listed: at the first level of detail only records
/// of type A, from the second on all records.
pub fn is_listed(verbosity: u8, record: &DNSRecord) -> (listed: bool)
    ensures
        listed == (verbosity > 1 || record@.record_type == DNSRecordType::A),
{
    verbosity > 1 || record.record_type == DNSRecordType::A
}

/// The length in bytes of the longest of the names, or 0 without zones.
pub open spec fn longest_name(zones: Seq<ZoneView>) -> int
    decreases zones.len(),
{
    if zones.len() == 0 {
        0
    } else {
        larger(byte_len(zones.last().name) as int, longest_name(zones.drop_last()))
    }
}

/// The length in bytes of the longest name among the zones.
pub fn max_name_length(zones: &[ZoneResponse]) -> (length: usize)
    ensures
        length == longest_name(zone_views(zones@)),
{
    let mut length: usize = 0;
    let mut i: usize = 0;
    while i < zones.len()
        invariant
            i <= zones@.len(),
            length == longest_name(zone_views(zones@).subrange(0, i as int)),
        decreases zones@.len() - i,
    {
        let ghost upto = zone_views(zones@).subrange(0, i + 1);
        assert(upto.drop_last() == zone_views(zones@).subrange(0, i as int));
        assert(upto.last() == zones@[i as int]@);
        length = max_of(zones[i].name.as_str().len(), length);
        i += 1;
    }
    assert(zone_views(zones@).subrange(0, i as int) == zone_views(zones@));
    length
}

} // verus!
