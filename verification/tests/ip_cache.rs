use cloudflare_dyndns::error::Error;
use cloudflare_dyndns::ip::Ipv4Address;
use cloudflare_dyndns::ip_cache::fs::{IpCacheReader, IpCacheWriter};
use cloudflare_dyndns::ip_cache::{IpCache, IpCacheResult};
use indexmap::IndexMap;

fn ip(text: &str) -> Ipv4Address {
    Ipv4Address::parse(text).unwrap()
}

fn entries(cache: &IpCache) -> Vec<(String, String)> {
    cache.iter().into_iter().map(|(key, ip)| (key, ip.to_string())).collect()
}

fn pairs(list: &[(&str, &str)]) -> Vec<(String, String)> {
    list.iter().map(|(k, v)| (k.to_string(), v.to_string())).collect()
}

#[test]
fn first_observation_is_new() {
    let mut cache = IpCache::default();
    assert_eq!(cache.len(), 0);
    assert_eq!(cache.handle_ip("Z1", ip("203.0.113.9")), IpCacheResult::New);
    assert_eq!(entries(&cache), pairs(&[("Z1", "203.0.113.9")]));
    assert_eq!(cache.get("Z1"), Some(ip("203.0.113.9")));
    assert_eq!(cache.get("Z2"), None);
}

#[test]
fn same_address_twice_is_unchanged() {
    let mut cache = IpCache::default();
    cache.handle_ip("Z1", ip("203.0.113.9"));
    assert_eq!(cache.handle_ip("Z1", ip("203.0.113.9")), IpCacheResult::Unchanged);
    assert_eq!(entries(&cache), pairs(&[("Z1", "203.0.113.9")]));
}

#[test]
fn other_address_is_changed_with_the_previous_one() {
    let mut cache = IpCache::default();
    cache.handle_ip("Z1", ip("203.0.113.9"));
    assert_eq!(
        cache.handle_ip("Z1", ip("203.0.113.10")),
        IpCacheResult::Changed { previous_ip_address: ip("203.0.113.9") }
    );
    assert_eq!(entries(&cache), pairs(&[("Z1", "203.0.113.10")]));
    assert_eq!(cache.handle_ip("Z1", ip("203.0.113.10")), IpCacheResult::Unchanged);
}

#[test]
fn zones_keep_the_order_in_which_they_came() {
    let mut cache = IpCache::default();
    cache.handle_ip("b", ip("1.1.1.1"));
    cache.handle_ip("a", ip("2.2.2.2"));
    cache.handle_ip("c", ip("3.3.3.3"));
    cache.handle_ip("b", ip("4.4.4.4"));
    assert_eq!(entries(&cache), pairs(&[("b", "4.4.4.4"), ("a", "2.2.2.2"), ("c", "3.3.3.3")]));
    assert_eq!(cache.len(), 3);
}

#[test]
fn classify_leaves_the_cache_alone() {
    let mut cache = IpCache::default();
    assert_eq!(cache.classify("Z1", ip("1.2.3.4")), IpCacheResult::New);
    assert_eq!(cache.len(), 0);
    cache.handle_ip("Z1", ip("1.2.3.4"));
    assert_eq!(cache.classify("Z1", ip("1.2.3.4")), IpCacheResult::Unchanged);
    assert_eq!(
        cache.classify("Z1", ip("1.2.3.5")),
        IpCacheResult::Changed { previous_ip_address: ip("1.2.3.4") }
    );
    assert_eq!(entries(&cache), pairs(&[("Z1", "1.2.3.4")]));
}

#[test]
fn new_takes_the_entries_of_a_map() {
    let mut map: IndexMap<String, u32> = IndexMap::new();
    map.insert("zone-b".to_owned(), ip("10.0.0.2").bits);
    map.insert("zone-a".to_owned(), ip("10.0.0.1").bits);
    let cache = IpCache::new(map);
    assert_eq!(entries(&cache), pairs(&[("zone-b", "10.0.0.2"), ("zone-a", "10.0.0.1")]));
    let copy = cache.clone();
    assert_eq!(entries(&copy), entries(&cache));
}

#[test]
fn a_missing_source_is_an_empty_cache() {
    let cache = IpCacheReader::load(None).unwrap();
    assert_eq!(cache.len(), 0);
}

#[test]
fn an_empty_text_is_an_empty_cache() {
    let cache = IpCacheReader::load(Some("")).unwrap();
    assert_eq!(cache.len(), 0);
}

#[test]
fn loads_the_lines_in_order() {
    let cache = IpCacheReader::load(Some("Z1;203.0.113.9\nexample.com;10.0.0.1\n")).unwrap();
    assert_eq!(entries(&cache), pairs(&[("Z1", "203.0.113.9"), ("example.com", "10.0.0.1")]));
}

#[test]
fn the_last_line_needs_no_line_feed() {
    let cache = IpCacheReader::load(Some("Z1;203.0.113.9\nZ2;10.0.0.1")).unwrap();
    assert_eq!(entries(&cache), pairs(&[("Z1", "203.0.113.9"), ("Z2", "10.0.0.1")]));
}

#[test]
fn a_carriage_return_before_the_line_feed_is_dropped() {
    let cache = IpCacheReader::load(Some("Z1;203.0.113.9\r\nZ2;10.0.0.1\r\n")).unwrap();
    assert_eq!(entries(&cache), pairs(&[("Z1", "203.0.113.9"), ("Z2", "10.0.0.1")]));
}

#[test]
fn a_lone_carriage_return_at_the_end_is_kept_and_corrupts() {
    assert_eq!(IpCacheReader::load(Some("Z1;203.0.113.9\r")).err(), Some(Error::CacheCorrupt));
}

#[test]
fn of_two_lines_with_one_key_the_later_counts() {
    let cache = IpCacheReader::load(Some("a;1.1.1.1\nb;2.2.2.2\na;3.3.3.3\n")).unwrap();
    assert_eq!(entries(&cache), pairs(&[("a", "3.3.3.3"), ("b", "2.2.2.2")]));
}

#[test]
fn the_key_ends_at_the_first_delimiter() {
    assert_eq!(IpCacheReader::load(Some("a;b;1.1.1.1\n")).err(), Some(Error::CacheCorrupt));
    let cache = IpCacheReader::load(Some(";1.1.1.1\n")).unwrap();
    assert_eq!(entries(&cache), pairs(&[("", "1.1.1.1")]));
}

#[test]
fn corrupt_texts_are_rejected() {
    for text in [
        "Z1 203.0.113.9\n",
        "Z1;\n",
        "Z1;203.0.113\n",
        "Z1;203.0.113.999\n",
        "Z1;203.0.113.9\n\n",
        "\n",
        "Z1;203.0.113.9 \n",
        "Z1;203.0.113.9\nrubbish\n",
    ] {
        assert_eq!(IpCacheReader::load(Some(text)).err(), Some(Error::CacheCorrupt), "{text:?}");
    }
}

#[test]
fn saves_one_line_for_each_entry() {
    let mut cache = IpCache::default();
    assert_eq!(IpCacheWriter.save(&cache), Ok(String::new()));
    cache.handle_ip("Z1", ip("203.0.113.9"));
    assert_eq!(IpCacheWriter.save(&cache), Ok("Z1;203.0.113.9\n".to_owned()));
    cache.handle_ip("example.com", ip("10.0.0.1"));
    assert_eq!(IpCacheWriter.save(&cache), Ok("Z1;203.0.113.9\nexample.com;10.0.0.1\n".to_owned()));
}

#[test]
fn a_key_with_the_delimiter_is_not_written() {
    let mut cache = IpCache::default();
    cache.handle_ip("Z1", ip("203.0.113.9"));
    cache.handle_ip("a;b", ip("10.0.0.1"));
    assert_eq!(IpCacheWriter.save(&cache), Err(Error::CacheCorrupt));
}

#[test]
fn load_after_save_gives_the_cache_back() {
    let mut cache = IpCache::default();
    cache.handle_ip("023e105f4ecef8ad9ca31a8372d0c353", ip("198.51.100.4"));
    cache.handle_ip("example.nl", ip("203.0.113.9"));
    cache.handle_ip("with space\rand return", ip("0.0.0.0"));
    cache.handle_ip("", ip("255.255.255.255"));
    let text = IpCacheWriter.save(&cache).unwrap();
    let loaded = IpCacheReader::load(Some(&text)).unwrap();
    assert_eq!(entries(&loaded), entries(&cache));
    assert_eq!(IpCacheWriter.save(&loaded).unwrap(), text);
}

#[test]
fn a_key_with_a_line_feed_does_not_come_back() {
    let mut cache = IpCache::default();
    cache.handle_ip("a\nb", ip("1.1.1.1"));
    let text = IpCacheWriter.save(&cache).unwrap();
    assert_eq!(text, "a\nb;1.1.1.1\n");
    assert_eq!(IpCacheReader::load(Some(&text)).err(), Some(Error::CacheCorrupt));
}
