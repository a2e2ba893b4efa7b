//! The settings of a run, from the command line and a configuration
//! file.

use crate::config::args::Args;
use crate::config::env::Env;
use crate::config::ip::{address_source, IpAddress};
use crate::config::zone::{named_zone, ZoneIdentifier};
use crate::error::{is_outcome, Error, ErrorView};
use vstd::prelude::*;
use vstd::string::*;

verus! {

/// The settings of a run.
#[derive(Debug, PartialEq, Eq)]
pub struct Settings {
    pub ip: IpAddress,
    pub token: String,
    pub zone: ZoneIdentifier,
    pub path: String,
    pub force: bool,
    pub preview: bool,
}

/// What is said where no token is given.
pub open spec fn no_token_message() -> Seq<char> {
    "Cloudflare token  was not set."@
}

/// The first of two optional values that is there.
pub open spec fn first_of(first: Option<String>, second: Option<String>) -> Option<String> {
    match first {
        Some(_) => first,
        None => second,
    }
}

/// The first of two optional values that is there.
pub fn either(first: Option<String>, second: Option<String>) -> (value: Option<String>)
    ensures
        value == first_of(first, second),
{
    match first {
        Some(value) => Some(value),
        None => second,
    }
}

impl Settings {
    /// The settings made of these values. The source of the address is
    /// settled first, then the zone; the first that cannot be settled
    /// gives the error.
    pub fn new(
        token: String,
        ip_address: Option<String>,
        ip_url: Option<String>,
        zone_id: Option<String>,
        zone_name: Option<String>,
        path: String,
        force: bool,
        preview: bool,
    ) -> (settings: Result<Settings, Error>)
        ensures
            is_outcome(
                settings,
                Settings::made_of(
                    token,
                    address_source(ip_address, ip_url),
                    named_zone(zone_id, zone_name),
                    path,
                    force,
                    preview,
                ),
            ),
    {
        let ip = IpAddress::new(ip_address, ip_url);
        let zone = ZoneIdentifier::new(zone_id, zone_name);
        match ip {
            Err(error) => Err(error),
            Ok(ip) => match zone {
                Err(error) => Err(error),
                Ok(zone) => Ok(Settings { ip, token, zone, path, force, preview }),
            },
        }
    }

    /// The settings made of a settled source of the address and a
    /// settled zone, or the first error of the two.
    pub open spec fn made_of(
        token: String,
        ip: Result<IpAddress, ErrorView>,
        zone: Result<ZoneIdentifier, ErrorView>,
        path: String,
        force: bool,
        preview: bool,
    ) -> Result<Settings, ErrorView> {
        match ip {
            Err(error) => Err(error),
            Ok(ip) => match zone {
                Err(error) => Err(error),
                Ok(zone) => Ok(Settings { ip, token, zone, path, force, preview }),
            },
        }
    }

    /// The settings from the command line and a configuration file: of
    /// each value the one of the command line counts where it is given.
    /// A token is needed.
    pub fn from_args_and_env(args: Args, env: Env) -> (settings: Result<Settings, Error>)
        ensures
            match first_of(args.token, env.token) {
                None => settings is Err && settings->Err_0@ == ErrorView::ConfigInvalid(
                    no_token_message(),
                ),
                Some(token) => is_outcome(
                    settings,
                    Settings::made_of(
                        token,
                        address_source(
                            first_of(args.ip_address.address, env.ip_address),
                            first_of(args.ip_address.url, env.ip_url),
                        ),
                        named_zone(
                            first_of(args.cloudflare_zone.id, env.zone_id),
                            first_of(args.cloudflare_zone.name, env.zone_name),
                        ),
                        env.path,
                        args.force,
                        args.preview,
                    ),
                ),
            },
    {
        let token = match either(args.token, env.token) {
            Some(token) => token,
            None => {
                return Err(
                    Error::ConfigInvalid(String::from_str("Cloudflare token  was not set.")),
                );
            },
        };
        let ip_address = either(args.ip_address.address, env.ip_address);
        let ip_url = either(args.ip_address.url, env.ip_url);
        let zone_id = either(args.cloudflare_zone.id, env.zone_id);
        let zone_name = either(args.cloudflare_zone.name, env.zone_name);
        Settings::new(
            token,
            ip_address,
            ip_url,
            zone_id,
            zone_name,
            env.path,
            args.force,
            args.preview,
        )
    }

    /// The settings from the command line alone, with `path` as the
    /// place of the configuration. A token is needed.
    pub fn from_args(args: Args, path: String) -> (settings: Result<Settings, Error>)
        ensures
            match args.token {
                None => settings is Err && settings->Err_0@ == ErrorView::ConfigInvalid(
                    no_token_message(),
                ),
                Some(token) => is_outcome(
                    settings,
                    Settings::made_of(
                        token,
                        address_source(args.ip_address.address, args.ip_address.url),
                        named_zone(args.cloudflare_zone.id, args.cloudflare_zone.name),
                        path,
                        args.force,
                        args.preview,
                    ),
                ),
            },
    {
        let token = match args.token {
            Some(token) => token,
            None => {
                return Err(
                    Error::ConfigInvalid(String::from_str("Cloudflare token  was not set.")),
                );
            },
        };
        Settings::new(
            token,
            args.ip_address.address,
            args.ip_address.url,
            args.cloudflare_zone.id,
            args.cloudflare_zone.name,
            path,
            args.force,
            args.preview,
        )
    }
}

} // verus!
