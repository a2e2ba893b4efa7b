//! Keeps DNS records at Cloudflare in step with the public IP address of
//! the host: the per-zone IP cache, the record matcher and the zone
//! reconciler, with the rules of each stated as contracts.

pub mod error;
pub mod text;
pub mod ip;
pub mod ip_cache;
pub mod cloudflare_api;
pub mod config;
pub mod reconciler;
pub mod state;
pub mod ip_change;
pub mod ip_query;
pub mod list_zones;
