//! The text in which the cache is kept between runs: one line for each
//! entry, made of the zone key, a `;`, the dotted quad of the address and
//! a line feed.

use crate::error::Error;
use crate::ip::{
    dotted_quad, is_digit, lemma_dotted_quad_chars, lemma_parse_dotted_quad_round_trip,
    parse_dotted_quad, Ipv4Address,
};
use crate::ip_cache::{distinct_keys, lemma_position_is, put, IpCache};
use crate::text::{
    cut_once, find_char, first_index, from_chars, lemma_split_once_joined, split_once, to_chars,
};
use vstd::prelude::*;

verus! {

/// A line without the carriage return at its end, if it has one.
pub open spec fn strip_cr(line: Seq<char>) -> Seq<char> {
    if line.len() > 0 && line.last() == '\r' {
        line.drop_last()
    } else {
        line
    }
}

/// The lines of a text. A line ends at a line feed; a carriage return
/// just before that line feed does not belong to the line. What follows
/// the last line feed is a line too, unless it is empty.
pub open spec fn lines(text: Seq<char>) -> Seq<Seq<char>>
    decreases text.len(),
{
    if text.len() == 0 {
        Seq::empty()
    } else {
        let i = first_index(text, '\n');
        if 0 <= i < text.len() {
            seq![strip_cr(text.subrange(0, i))] + lines(text.subrange(i + 1, text.len() as int))
        } else {
            seq![text]
        }
    }
}

/// The entry that a line stands for: the zone key before the first `;`
/// and the address whose dotted quad follows it.
pub open spec fn parse_entry(line: Seq<char>) -> Option<(Seq<char>, u32)> {
    match split_once(line, ';') {
        None => None,
        Some((key, value)) => match parse_dotted_quad(value) {
            None => None,
            Some(bits) => Some((key, bits)),
        },
    }
}

/// The entries after each of `lines` was stored in turn, starting from
/// `entries`; `None` where a line stands for no entry.
pub open spec fn load_lines(entries: Seq<(Seq<char>, u32)>, lines: Seq<Seq<char>>) -> Option<
    Seq<(Seq<char>, u32)>,
>
    decreases lines.len(),
{
    if lines.len() == 0 {
        Some(entries)
    } else {
        match parse_entry(lines[0]) {
            None => None,
            Some((key, bits)) => load_lines(put(entries, key, bits), lines.drop_first()),
        }
    }
}

/// The entries that a cache text holds; `None` where a line of it has no
/// `;` or no dotted quad after it.
pub open spec fn parse_cache(text: Seq<char>) -> Option<Seq<(Seq<char>, u32)>> {
    load_lines(Seq::empty(), lines(text))
}

/// The line of an entry, without its line feed.
pub open spec fn entry_text(key: Seq<char>, bits: u32) -> Seq<char> {
    key + seq![';'] + dotted_quad(bits)
}

/// The cache text of `entries`: the line of each, in order.
pub open spec fn serialize(entries: Seq<(Seq<char>, u32)>) -> Seq<char>
    decreases entries.len(),
{
    if entries.len() == 0 {
        Seq::empty()
    } else {
        entry_text(entries[0].0, entries[0].1) + seq!['\n'] + serialize(entries.drop_first())
    }
}

/// No zone key holds the `;` that ends the key in a line.
pub open spec fn keys_writable(entries: Seq<(Seq<char>, u32)>) -> bool {
    forall|i: int| 0 <= i < entries.len() ==> !(#[trigger] entries[i]).0.contains(';')
}

/// No zone key holds a line feed.
pub open spec fn keys_on_one_line(entries: Seq<(Seq<char>, u32)>) -> bool {
    forall|i: int| 0 <= i < entries.len() ==> !(#[trigger] entries[i]).0.contains('\n')
}

/// The views of the lines in `lines`.
pub open spec fn line_views(lines: Seq<Vec<char>>) -> Seq<Seq<char>> {
    lines.map_values(|line: Vec<char>| line@)
}

/// Cuts a text into its lines.
pub fn split_lines(text: &[char]) -> (out: Vec<Vec<char>>)
    ensures
        line_views(out@) == lines(text@),
{
    let mut out: Vec<Vec<char>> = Vec::new();
    let mut rest: &[char] = text;
    assert(line_views(out@) == Seq::<Seq<char>>::empty());
    while rest.len() > 0
        invariant
            lines(text@) == line_views(out@) + lines(rest@),
        decreases rest@.len(),
    {
        let ghost before = line_views(out@);
        match cut_once(rest, '\n') {
            None => {
                out.push(vstd::slice::slice_to_vec(rest));
                assert(line_views(out@) == before + seq![rest@]);
                rest = vstd::slice::slice_subrange(rest, 0, 0);
                assert(lines(rest@) == Seq::<Seq<char>>::empty());
            },
            Some((head, tail)) => {
                let n: usize = head.len();
                let line: &[char] = if n > 0 && head[n - 1] == '\r' {
                    vstd::slice::slice_subrange(head, 0, n - 1)
                } else {
                    head
                };
                assert(line@ == strip_cr(head@));
                out.push(vstd::slice::slice_to_vec(line));
                assert(line_views(out@) == before + seq![line@]);
                rest = tail;
            },
        }
    }
    assert(lines(rest@) == Seq::<Seq<char>>::empty());
    out
}

/// Reads one line of a cache text.
pub fn read_entry(line: &[char]) -> (entry: Option<(String, Ipv4Address)>)
    ensures
        match parse_entry(line@) {
            Some((key, bits)) => entry.is_some() && entry.unwrap().0@ == key && entry.unwrap().1
                == (Ipv4Address { bits }),
            None => entry.is_none(),
        },
{
    match cut_once(line, ';') {
        None => None,
        Some((key, value)) => match Ipv4Address::from_chars(value) {
            None => None,
            Some(ip_address) => Some((from_chars(key), ip_address)),
        },
    }
}

/// Reads the cache from its text.
pub struct IpCacheReader;

impl IpCacheReader {
    /// The cache that `source` holds. A source that does not exist gives
    /// the cache without entries, and so does an empty text. Each line in
    /// turn is stored under its zone key, so of two lines with one key
    /// the later one counts. A line without `;`, or without a dotted quad
    /// after it, makes the text corrupt.
    pub fn load(source: Option<&str>) -> (result: Result<IpCache, Error>)
        ensures
            match source {
                None => result is Ok && result->Ok_0@ == Seq::<(Seq<char>, u32)>::empty(),
                Some(text) => match parse_cache(text@) {
                    Some(entries) => result is Ok && result->Ok_0@ == entries,
                    None => result is Err && result->Err_0 is CacheCorrupt,
                },
            },
            result is Ok ==> result->Ok_0.wf(),
    {
        let mut cache = IpCache::default();
        let text = match source {
            None => { return Ok(cache); },
            Some(text) => text,
        };
        let chars = to_chars(text);
        let all = split_lines(chars.as_slice());
        let mut i: usize = 0;
        assert(line_views(all@).subrange(0, all@.len() as int) == line_views(all@));
        while i < all.len()
            invariant
                source == Some(text),
                i <= all@.len(),
                cache.wf(),
                parse_cache(text@) == load_lines(
                    cache@,
                    line_views(all@).subrange(i as int, all@.len() as int),
                ),
            decreases all@.len() - i,
        {
            let ghost remaining = line_views(all@).subrange(i as int, all@.len() as int);
            assert(remaining[0] == all@[i as int]@);
            assert(remaining.drop_first() == line_views(all@).subrange(
                i + 1,
                all@.len() as int,
            ));
            match read_entry(all[i].as_slice()) {
                None => {
                    return Err(Error::CacheCorrupt);
                },
                Some((key, ip_address)) => {
                    cache.handle_ip(key.as_str(), ip_address);
                },
            }
            i += 1;
        }
        Ok(cache)
    }
}

/// Writes the cache as its text.
pub struct IpCacheWriter;

impl IpCacheWriter {
    /// The text of the cache: the line of each entry, in the cache's
    /// order. A zone key that holds a `;` cannot be written.
    pub fn save(&self, ip_cache: &IpCache) -> (result: Result<String, Error>)
        ensures
            match result {
                Ok(body) => keys_writable(ip_cache@) && body@ == serialize(ip_cache@),
                Err(error) => !keys_writable(ip_cache@) && error is CacheCorrupt,
            },
    {
        let entries = ip_cache.iter();
        let mut body: Vec<char> = Vec::new();
        let mut i: usize = 0;
        assert(ip_cache@.subrange(0, ip_cache@.len() as int) == ip_cache@);
        while i < entries.len()
            invariant
                i <= entries@.len(),
                entries@.len() == ip_cache@.len(),
                forall|j: int|
                    0 <= j < entries@.len() ==> (#[trigger] entries@[j]).0@ == ip_cache@[j].0
                        && entries@[j].1.bits == ip_cache@[j].1,
                forall|j: int| 0 <= j < i ==> !(#[trigger] ip_cache@[j]).0.contains(';'),
                body@ + serialize(ip_cache@.subrange(i as int, ip_cache@.len() as int))
                    == serialize(ip_cache@),
            decreases entries@.len() - i,
        {
            let key = to_chars(entries[i].0.as_str());
            if find_char(key.as_slice(), ';') < key.len() {
                assert(ip_cache@[i as int].0.contains(';'));
                return Err(Error::CacheCorrupt);
            }
            let ghost before = body@;
            let ghost remaining = ip_cache@.subrange(i as int, ip_cache@.len() as int);
            let mut address = entries[i].1.to_chars();
            let mut key = key;
            body.append(&mut key);
            body.push(';');
            body.append(&mut address);
            body.push('\n');
            proof {
                let line = entry_text(remaining[0].0, remaining[0].1) + seq!['\n'];
                assert(remaining[0] == ip_cache@[i as int]);
                assert(remaining.drop_first() == ip_cache@.subrange(
                    i + 1,
                    ip_cache@.len() as int,
                ));
                assert(body@ == before + line);
                assert(serialize(remaining) == line + serialize(remaining.drop_first()));
                assert(body@ + serialize(remaining.drop_first()) == before + serialize(remaining));
            }
            i += 1;
        }
        assert(serialize(ip_cache@.subrange(i as int, ip_cache@.len() as int)) == Seq::<
            char,
        >::empty());
        assert(body@ == serialize(ip_cache@));
        Ok(from_chars(body.as_slice()))
    }
}

/// The lines of the entries, without their line feeds.
pub open spec fn entry_texts(entries: Seq<(Seq<char>, u32)>) -> Seq<Seq<char>> {
    entries.map_values(|entry: (Seq<char>, u32)| entry_text(entry.0, entry.1))
}

/// A key without `;` or line feed, a `;` and a value of digits and dots
/// make one line, which is cut into the key and the value again.
pub proof fn lemma_key_and_value(key: Seq<char>, value: Seq<char>)
    requires
        !key.contains(';'),
        !key.contains('\n'),
        value.len() > 0,
        forall|i: int| 0 <= i < value.len() ==> is_digit(#[trigger] value[i]) || value[i] == '.',
    ensures
        split_once(key + seq![';'] + value, ';') == Some((key, value)),
        !(key + seq![';'] + value).contains('\n'),
        strip_cr(key + seq![';'] + value) == key + seq![';'] + value,
{
    let line = key + seq![';'] + value;
    lemma_split_once_joined(key, ';', value);
    assert forall|i: int| 0 <= i < line.len() implies line[i] != '\n' by {
        if i < key.len() {
            assert(line[i] == key[i]);
            assert(key.contains(key[i]));
        } else if i > key.len() {
            assert(line[i] == value[i - key.len() - 1]);
            assert(is_digit(value[i - key.len() - 1]) || value[i - key.len() - 1] == '.');
        }
    }
    assert(line.last() == value[value.len() - 1]);
    assert(is_digit(value[value.len() - 1]) || value[value.len() - 1] == '.');
}

/// The line of an entry is read back as that entry, and is one line.
pub proof fn lemma_entry_text(key: Seq<char>, bits: u32)
    requires
        !key.contains(';'),
        !key.contains('\n'),
    ensures
        parse_entry(entry_text(key, bits)) == Some((key, bits)),
        !entry_text(key, bits).contains('\n'),
        strip_cr(entry_text(key, bits)) == entry_text(key, bits),
{
    lemma_dotted_quad_chars(bits);
    lemma_key_and_value(key, dotted_quad(bits));
    lemma_parse_dotted_quad_round_trip(bits);
}

/// A text that begins with a line and its line feed has that line first,
/// and then the lines of what follows.
pub proof fn lemma_lines_joined(head: Seq<char>, tail: Seq<char>)
    requires
        !head.contains('\n'),
    ensures
        lines(head + seq!['\n'] + tail) == seq![strip_cr(head)] + lines(tail),
{
    let text = head + seq!['\n'] + tail;
    lemma_split_once_joined(head, '\n', tail);
    assert(text.subrange(0, head.len() as int) == head);
    assert(text.subrange(head.len() as int + 1, text.len() as int) == tail);
}

/// The lines of the text of some entries are the lines of the entries.
pub proof fn lemma_lines_of_serialize(entries: Seq<(Seq<char>, u32)>)
    requires
        keys_writable(entries),
        keys_on_one_line(entries),
    ensures
        lines(serialize(entries)) == entry_texts(entries),
    decreases entries.len(),
{
    if entries.len() == 0 {
        assert(serialize(entries).len() == 0);
        assert(lines(serialize(entries)) == entry_texts(entries));
    } else {
        let first = entries[0];
        let rest = entries.drop_first();
        let head = entry_text(first.0, first.1);
        lemma_entry_text(first.0, first.1);
        lemma_lines_joined(head, serialize(rest));
        assert(keys_writable(rest) && keys_on_one_line(rest)) by {
            assert forall|i: int| 0 <= i < rest.len() implies !(#[trigger] rest[i]).0.contains(
                ';',
            ) && !rest[i].0.contains('\n') by {
                assert(rest[i] == entries[i + 1]);
            }
        }
        lemma_lines_of_serialize(rest);
        assert(entry_texts(entries) == seq![head] + entry_texts(rest));
    }
}

/// Storing the lines of entries with distinct keys adds the entries in
/// their order.
pub proof fn lemma_load_entry_texts(acc: Seq<(Seq<char>, u32)>, entries: Seq<(Seq<char>, u32)>)
    requires
        distinct_keys(acc + entries),
        keys_writable(entries),
        keys_on_one_line(entries),
    ensures
        load_lines(acc, entry_texts(entries)) == Some(acc + entries),
    decreases entries.len(),
{
    if entries.len() == 0 {
        assert(acc + entries == acc);
    } else {
        let first = entries[0];
        let rest = entries.drop_first();
        let all = acc + entries;
        lemma_entry_text(first.0, first.1);
        assert(all[acc.len() as int] == first);
        assert forall|j: int| 0 <= j < acc.len() implies (#[trigger] acc[j]).0 != first.0 by {
            assert(all[j] == acc[j]);
        }
        lemma_position_is(acc, first.0, acc.len() as int);
        assert(put(acc, first.0, first.1) == acc.push(first));
        assert(acc.push(first) + rest == all);
        assert forall|i: int| 0 <= i < rest.len() implies !(#[trigger] rest[i]).0.contains(';')
            && !rest[i].0.contains('\n') by {
            assert(rest[i] == entries[i + 1]);
        }
        lemma_load_entry_texts(acc.push(first), rest);
        assert(entry_texts(entries)[0] == entry_text(first.0, first.1));
        assert(entry_texts(entries).drop_first() == entry_texts(rest));
    }
}

/// Reading the text of a cache gives the cache back: its entries, in
/// their order. This holds of a cache in which no zone key occurs twice
/// and no zone key holds a `;` or a line feed.
pub proof fn law_load_save_round_trip(entries: Seq<(Seq<char>, u32)>)
    requires
        distinct_keys(entries),
        keys_writable(entries),
        keys_on_one_line(entries),
    ensures
        parse_cache(serialize(entries)) == Some(entries),
{
    lemma_lines_of_serialize(entries);
    assert(Seq::<(Seq<char>, u32)>::empty() + entries == entries);
    lemma_load_entry_texts(Seq::empty(), entries);
}

} // verus!
