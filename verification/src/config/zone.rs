//! How a zone is named in the configuration.

use crate::cloudflare_api::zone::{find_zone, zone_id_of, zone_views, ZoneResponse};
use crate::error::{is_outcome, Error, ErrorView};
use vstd::prelude::*;
use vstd::string::*;

verus! {

/// A zone as the configuration names it: by the identifier that the
/// provider gave it, by its name, or by both.
#[derive(Debug, PartialEq, Eq)]
pub enum ZoneIdentifier {
    Id(String),
    Name(String),
    Both { id: String, name: String },
}

impl Clone for ZoneIdentifier {
    fn clone(&self) -> (copy: ZoneIdentifier)
        ensures
            copy.id() == self.id(),
            copy.name() == self.name(),
    {
        match self {
            ZoneIdentifier::Id(id) => ZoneIdentifier::Id(id.clone()),
            ZoneIdentifier::Name(name) => ZoneIdentifier::Name(name.clone()),
            ZoneIdentifier::Both { id, name } => ZoneIdentifier::Both {
                id: id.clone(),
                name: name.clone(),
            },
        }
    }
}

/// What is said where neither an identifier nor a name is given.
pub open spec fn unnamed_zone_message() -> Seq<char> {
    "Neither Cloudflare zone ID nor zone name are set."@
}

/// The zone that an identifier and a name make, or what the error holds
/// where they make none.
pub open spec fn named_zone(id: Option<String>, name: Option<String>) -> Result<
    ZoneIdentifier,
    ErrorView,
> {
    match (id, name) {
        (None, None) => Err(ErrorView::ConfigInvalid(unnamed_zone_message())),
        (Some(id), None) => Ok(ZoneIdentifier::Id(id)),
        (None, Some(name)) => Ok(ZoneIdentifier::Name(name)),
        (Some(id), Some(name)) => Ok(ZoneIdentifier::Both { id, name }),
    }
}

/// Whether a character is a hexadecimal digit.
pub open spec fn is_hex_digit(c: char) -> bool {
    ('0' <= c && c <= '9') || ('a' <= c && c <= 'f') || ('A' <= c && c <= 'F')
}

/// Whether a key of the configuration has the form of the identifiers
/// that the provider gives to zones: 32 hexadecimal digits.
pub open spec fn is_zone_id(key: Seq<char>) -> bool {
    key.len() == 32 && forall|i: int| 0 <= i < key.len() ==> is_hex_digit(#[trigger] key[i])
}

impl ZoneIdentifier {
    /// The zone that a key of the configuration stands for: a key in the
    /// form of an identifier is taken as the identifier, any other key
    /// as the name of the zone.
    pub fn from_key(key: &str) -> (zone: ZoneIdentifier)
        ensures
            is_zone_id(key@) ==> zone.id() == Some(key@) && zone.name().is_none(),
            !is_zone_id(key@) ==> zone.name() == Some(key@) && zone.id().is_none(),
            zone.key() == key@,
    {
        let chars = crate::text::to_chars(key);
        if chars.len() != 32 {
            return ZoneIdentifier::Name(key.to_owned());
        }
        let mut i: usize = 0;
        while i < chars.len()
            invariant
                i <= chars@.len(),
                chars@ == key@,
                forall|j: int| 0 <= j < i ==> is_hex_digit(#[trigger] chars@[j]),
            decreases chars@.len() - i,
        {
            let c = chars[i];
            let hex = ('0' <= c && c <= '9') || ('a' <= c && c <= 'f') || ('A' <= c && c <= 'F');
            if !hex {
                assert(!is_hex_digit(key@[i as int]));
                return ZoneIdentifier::Name(key.to_owned());
            }
            i += 1;
        }
        ZoneIdentifier::Id(key.to_owned())
    }

    /// The identifier, where the configuration gives it.
    pub open spec fn id(&self) -> Option<Seq<char>> {
        match self {
            ZoneIdentifier::Id(id) => Some(id@),
            ZoneIdentifier::Name(_) => None,
            ZoneIdentifier::Both { id, .. } => Some(id@),
        }
    }

    /// The name, where the configuration gives it.
    pub open spec fn name(&self) -> Option<Seq<char>> {
        match self {
            ZoneIdentifier::Id(_) => None,
            ZoneIdentifier::Name(name) => Some(name@),
            ZoneIdentifier::Both { name, .. } => Some(name@),
        }
    }

    /// The text by which the zone is spoken of: its name where there is
    /// one, else its identifier.
    pub open spec fn key(&self) -> Seq<char> {
        match self {
            ZoneIdentifier::Id(id) => id@,
            ZoneIdentifier::Name(name) => name@,
            ZoneIdentifier::Both { name, .. } => name@,
        }
    }

    /// The zone named by an identifier, a name, or both; one of them is
    /// needed.
    pub fn new(id: Option<String>, name: Option<String>) -> (zone: Result<ZoneIdentifier, Error>)
        ensures
            is_outcome(zone, named_zone(id, name)),
    {
        match (id, name) {
            (None, None) => Err(
                Error::ConfigInvalid(
                    "Neither Cloudflare zone ID nor zone name are set.".to_owned(),
                ),
            ),
            (Some(id), None) => Ok(ZoneIdentifier::Id(id)),
            (None, Some(name)) => Ok(ZoneIdentifier::Name(name)),
            (Some(id), Some(name)) => Ok(ZoneIdentifier::Both { id, name }),
        }
    }

    /// The identifier, where the configuration gives it.
    pub fn known_id(&self) -> (id: Option<&str>)
        ensures
            match id {
                Some(id) => self.id() == Some(id@),
                None => self.id().is_none(),
            },
    {
        match self {
            ZoneIdentifier::Id(id) => Some(id.as_str()),
            ZoneIdentifier::Name(_) => None,
            ZoneIdentifier::Both { id, .. } => Some(id.as_str()),
        }
    }

    /// The text by which the zone is spoken of.
    pub fn as_key(&self) -> (key: &str)
        ensures
            key@ == self.key(),
    {
        match self {
            ZoneIdentifier::Id(id) => id.as_str(),
            ZoneIdentifier::Name(name) => name.as_str(),
            ZoneIdentifier::Both { name, .. } => name.as_str(),
        }
    }

    /// The identifier of the zone: the one that the configuration gives,
    /// else that of the first of `zones` with the configured name. A
    /// name that none of `zones` has is an error.
    pub fn get_zone_id(&self, zones: &[ZoneResponse]) -> (zone_id: Result<String, Error>)
        ensures
            match self.id() {
                Some(id) => zone_id is Ok && zone_id->Ok_0@ == id,
                None => match zone_id_of(zone_views(zones@), self.key()) {
                    Some(id) => zone_id is Ok && zone_id->Ok_0@ == id,
                    None => zone_id is Err && zone_id->Err_0@
                        == ErrorView::ZoneNotFound(self.key()),
                },
            },
    {
        match self {
            ZoneIdentifier::Id(id) => Ok(id.clone()),
            ZoneIdentifier::Both { id, .. } => Ok(id.clone()),
            ZoneIdentifier::Name(name) => match find_zone(zones, name.as_str()) {
                Some(zone) => Ok(zone.id.clone()),
                None => Err(Error::ZoneNotFound(name.clone())),
            },
        }
    }
}

} // verus!
