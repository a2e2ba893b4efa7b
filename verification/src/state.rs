//! What a run carries from one zone to the next.

use crate::cloudflare_api::zone::{zone_views, ZoneResponse, ZoneView};
use crate::error::Error;
use crate::ip::Ipv4Address;
use crate::ip_cache::fs::{keys_writable, serialize, IpCacheWriter};
use crate::ip_cache::IpCache;
use vstd::prelude::*;

verus! {

/// The state of a run: the cache, the address to write, the two modes,
/// and the zones of the account once they were listed.
#[derive(Debug)]
pub struct ApplicationState {
    pub ip_cache: IpCache,
    pub public_ip_address: Ipv4Address,
    pub preview: bool,
    pub force: bool,
    pub zones: Option<Vec<ZoneResponse>>,
}

/// What the state of a run holds.
pub struct RunView {
    pub cache: Seq<(Seq<char>, u32)>,
    pub ip: u32,
    pub preview: bool,
    pub force: bool,
    pub zones: Option<Seq<ZoneView>>,
}

impl View for ApplicationState {
    type V = RunView;

    open spec fn view(&self) -> RunView {
        RunView {
            cache: self.ip_cache@,
            ip: self.public_ip_address.bits,
            preview: self.preview,
            force: self.force,
            zones: match self.zones {
                Some(zones) => Some(zone_views(zones@)),
                None => None,
            },
        }
    }
}

impl ApplicationState {
    /// The state at the start of a run, before the zones were listed.
    pub fn new(
        ip_cache: IpCache,
        public_ip_address: Ipv4Address,
        preview: bool,
        force: bool,
    ) -> (state: ApplicationState)
        ensures
            state@ == (RunView {
                cache: ip_cache@,
                ip: public_ip_address.bits,
                preview,
                force,
                zones: None,
            }),
            state.ip_cache == ip_cache,
    {
        ApplicationState { ip_cache, public_ip_address, preview, force, zones: None }
    }

    /// What is to be written to the cache file at the end of the run:
    /// nothing in a preview, else the text of the cache.
    pub fn cache_to_write(&self) -> (body: Option<Result<String, Error>>)
        ensures
            self.preview ==> body.is_none(),
            !self.preview ==> body.is_some() && match body.unwrap() {
                Ok(text) => keys_writable(self.ip_cache@) && text@ == serialize(self.ip_cache@),
                Err(error) => !keys_writable(self.ip_cache@) && error is CacheCorrupt,
            },
    {
        if self.preview {
            None
        } else {
            Some(IpCacheWriter.save(&self.ip_cache))
        }
    }
}

} // verus!
