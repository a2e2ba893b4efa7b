//! What the command line gives.

use vstd::prelude::*;

verus! {

/// The address to write, or where to ask for it.
#[derive(Debug, Clone, PartialEq, Eq, Default)]
pub struct IpAddress {
    /// An address given by the user.
    pub address: Option<String>,
    /// Where to ask for the public address.
    pub url: Option<String>,
}

/// The zone to update.
#[derive(Debug, Clone, PartialEq, Eq, Default)]
pub struct CloudflareZone {
    /// The identifier of the zone.
    pub id: Option<String>,
    /// The name of the zone.
    pub name: Option<String>,
}

/// The arguments of a run.
#[derive(Debug, Clone, PartialEq, Eq, Default)]
pub struct Args {
    /// The token that allows to edit the DNS records.
    pub token: Option<String>,
    pub ip_address: IpAddress,
    pub cloudflare_zone: CloudflareZone,
    /// Update the records even where the address has not changed.
    pub force: bool,
    /// Show the changes without making them.
    pub preview: bool,
    /// The configuration file.
    pub config_file: Option<String>,
}

} // verus!
