//! The token and the zone identifier, layered from a system file and a
//! user file.

use crate::config::env::{find_last, holds, last_value, pair_views};
use crate::config::settings::first_of;
use crate::error::{Error, ErrorView};
use vstd::prelude::*;
use vstd::string::*;

verus! {

/// The token and the zone identifier of a run.
#[derive(Debug, PartialEq, Eq)]
pub struct Settings {
    pub token: String,
    pub zone_id: String,
}

/// What one configuration file gives of the two.
#[derive(Debug, PartialEq, Eq, Default)]
pub struct SettingsDTO {
    pub token: Option<String>,
    pub zone_id: Option<String>,
}

/// What is said of the values that no file gave.
pub open spec fn missing_message(token_missing: bool, zone_id_missing: bool) -> Seq<char> {
    if token_missing && zone_id_missing {
        "Unable to read variables: CLOUDFLARE_TOKEN, CLOUDFLARE_ZONE_ID"@
    } else if token_missing {
        "Unable to read variables: CLOUDFLARE_TOKEN"@
    } else {
        "Unable to read variables: CLOUDFLARE_ZONE_ID"@
    }
}

impl SettingsDTO {
    /// The values of `self` overlaid with those of `other`: of each
    /// value that of `other` counts where it is there.
    pub fn merge(self, other: SettingsDTO) -> (merged: SettingsDTO)
        ensures
            merged.token == first_of(other.token, self.token),
            merged.zone_id == first_of(other.zone_id, self.zone_id),
    {
        SettingsDTO {
            token: crate::config::settings::either(other.token, self.token),
            zone_id: crate::config::settings::either(other.zone_id, self.zone_id),
        }
    }

    /// What the pairs of a file give: for each of the two keys the value
    /// of the last pair with it. Other keys are passed over.
    pub fn from_pairs(pairs: &[(String, String)]) -> (dto: SettingsDTO)
        ensures
            holds(dto.token, last_value(pair_views(pairs@), "CLOUDFLARE_TOKEN"@)),
            holds(dto.zone_id, last_value(pair_views(pairs@), "CLOUDFLARE_ZONE_ID"@)),
    {
        SettingsDTO {
            token: find_last(pairs, "CLOUDFLARE_TOKEN"),
            zone_id: find_last(pairs, "CLOUDFLARE_ZONE_ID"),
        }
    }
}

impl Settings {
    /// The settings that the layered values make. Both values are
    /// needed; the error names those that are missing.
    pub fn from_dto(settings_dto: SettingsDTO) -> (settings: Result<Settings, Error>)
        ensures
            match (settings_dto.token, settings_dto.zone_id) {
                (Some(token), Some(zone_id)) => settings == Ok::<Settings, Error>(
                    Settings { token, zone_id },
                ),
                (token, zone_id) => settings is Err && settings->Err_0@
                    == ErrorView::ConfigInvalid(missing_message(token.is_none(), zone_id.is_none())),
            },
    {
        match (settings_dto.token, settings_dto.zone_id) {
            (Some(token), Some(zone_id)) => Ok(Settings { token, zone_id }),
            (None, None) => Err(
                Error::ConfigInvalid(
                    String::from_str(
                        "Unable to read variables: CLOUDFLARE_TOKEN, CLOUDFLARE_ZONE_ID",
                    ),
                ),
            ),
            (None, Some(_)) => Err(
                Error::ConfigInvalid(String::from_str("Unable to read variables: CLOUDFLARE_TOKEN")),
            ),
            (Some(_), None) => Err(
                Error::ConfigInvalid(
                    String::from_str("Unable to read variables: CLOUDFLARE_ZONE_ID"),
                ),
            ),
        }
    }
}

} // verus!
