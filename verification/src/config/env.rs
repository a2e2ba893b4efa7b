//! What a configuration file of `KEY=value` lines gives.

use crate::error::{Error, ErrorView};
use crate::text::same_text;
use vstd::prelude::*;
use vstd::string::*;

verus! {

/// The values of a configuration file, and the file's path.
#[derive(Debug, PartialEq, Eq)]
pub struct Env {
    pub ip_address: Option<String>,
    pub ip_url: Option<String>,
    pub token: Option<String>,
    pub zone_id: Option<String>,
    pub zone_name: Option<String>,
    pub path: String,
}

/// The keys and values of some pairs.
pub open spec fn pair_views(pairs: Seq<(String, String)>) -> Seq<(Seq<char>, Seq<char>)> {
    pairs.map_values(|pair: (String, String)| (pair.0@, pair.1@))
}

/// The value of the last pair with this key.
pub open spec fn last_value(pairs: Seq<(Seq<char>, Seq<char>)>, key: Seq<char>) -> Option<
    Seq<char>,
>
    decreases pairs.len(),
{
    if pairs.len() == 0 {
        None
    } else if pairs.last().0 == key {
        Some(pairs.last().1)
    } else {
        last_value(pairs.drop_last(), key)
    }
}

/// Whether a configuration file may hold this key.
pub open spec fn is_known_key(key: Seq<char>) -> bool {
    key == "IP_ADDRESS"@ || key == "IP_URL"@ || key == "CLOUDFLARE_TOKEN"@ || key
        == "CLOUDFLARE_ZONE_ID"@ || key == "CLOUDFLARE_ZONE_NAME"@
}

/// Whether a configuration file may hold each of these keys.
pub open spec fn all_known(pairs: Seq<(Seq<char>, Seq<char>)>) -> bool {
    forall|i: int| 0 <= i < pairs.len() ==> is_known_key((#[trigger] pairs[i]).0)
}

/// What is said of a file with a key that it may not hold.
pub open spec fn unknown_keys_message() -> Seq<char> {
    "Found unknown keys in configuration."@
}

/// Whether an optional string holds this text.
pub open spec fn holds(value: Option<String>, text: Option<Seq<char>>) -> bool {
    match (value, text) {
        (Some(value), Some(text)) => value@ == text,
        (None, None) => true,
        _ => false,
    }
}

/// The value of the last of `pairs` with the key `key`.
pub fn find_last(pairs: &[(String, String)], key: &str) -> (value: Option<String>)
    ensures
        holds(value, last_value(pair_views(pairs@), key@)),
{
    let mut value: Option<String> = None;
    let mut i: usize = 0;
    while i < pairs.len()
        invariant
            i <= pairs@.len(),
            holds(value, last_value(pair_views(pairs@).subrange(0, i as int), key@)),
        decreases pairs@.len() - i,
    {
        let ghost upto = pair_views(pairs@).subrange(0, i + 1);
        assert(upto.drop_last() == pair_views(pairs@).subrange(0, i as int));
        assert(upto.last() == (pairs@[i as int].0@, pairs@[i as int].1@));
        if same_text(pairs[i].0.as_str(), key) {
            value = Some(pairs[i].1.clone());
        }
        i += 1;
    }
    assert(pair_views(pairs@).subrange(0, i as int) == pair_views(pairs@));
    value
}

fn known_key(key: &str) -> (known: bool)
    ensures
        known == is_known_key(key@),
{
    same_text(key, "IP_ADDRESS") || same_text(key, "IP_URL") || same_text(key, "CLOUDFLARE_TOKEN")
        || same_text(key, "CLOUDFLARE_ZONE_ID") || same_text(key, "CLOUDFLARE_ZONE_NAME")
}

impl Env {
    /// The values that the pairs of the file at `path` give: for each
    /// key the value of the last pair with it. A key that a
    /// configuration file may not hold is an error.
    pub fn from_pairs(pairs: &[(String, String)], path: String) -> (env: Result<Env, Error>)
        ensures
            match env {
                Ok(env) => all_known(pair_views(pairs@)) && env.path == path && holds(
                    env.ip_address,
                    last_value(pair_views(pairs@), "IP_ADDRESS"@),
                ) && holds(env.ip_url, last_value(pair_views(pairs@), "IP_URL"@)) && holds(
                    env.token,
                    last_value(pair_views(pairs@), "CLOUDFLARE_TOKEN"@),
                ) && holds(env.zone_id, last_value(pair_views(pairs@), "CLOUDFLARE_ZONE_ID"@))
                    && holds(env.zone_name, last_value(pair_views(pairs@), "CLOUDFLARE_ZONE_NAME"@)),
                Err(error) => !all_known(pair_views(pairs@)) && error@ == ErrorView::ConfigInvalid(
                    unknown_keys_message(),
                ),
            },
    {
        let mut i: usize = 0;
        while i < pairs.len()
            invariant
                i <= pairs@.len(),
                forall|j: int| 0 <= j < i ==> is_known_key((#[trigger] pair_views(pairs@)[j]).0),
            decreases pairs@.len() - i,
        {
            if !known_key(pairs[i].0.as_str()) {
                assert(!is_known_key(pair_views(pairs@)[i as int].0));
                return Err(
                    Error::ConfigInvalid(String::from_str("Found unknown keys in configuration.")),
                );
            }
            i += 1;
        }
        Ok(
            Env {
                ip_address: find_last(pairs, "IP_ADDRESS"),
                ip_url: find_last(pairs, "IP_URL"),
                token: find_last(pairs, "CLOUDFLARE_TOKEN"),
                zone_id: find_last(pairs, "CLOUDFLARE_ZONE_ID"),
                zone_name: find_last(pairs, "CLOUDFLARE_ZONE_NAME"),
                path,
            },
        )
    }
}

} // verus!
