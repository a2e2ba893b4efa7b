//! Where the configuration is looked for.

use vstd::prelude::*;
use vstd::string::*;

verus! {

/// The name of the package, which names its files.
pub const PKG_NAME: &'static str = "cloudflare-dyndns";

/// Finds the configuration.
pub struct ApplicationConfigLoader;

impl ApplicationConfigLoader {
    /// The name of the configuration file where none is given.
    pub fn default_config_file_name() -> (name: String)
        ensures
            name@ == PKG_NAME@ + ".toml"@,
    {
        let mut name = String::from_str(PKG_NAME);
        name.append(".toml");
        name
    }

    /// The name of the file that holds the previous address.
    pub fn previous_ip_file_name() -> (name: String)
        ensures
            name@ == PKG_NAME@ + "-previous_ip"@,
    {
        let mut name = String::from_str(PKG_NAME);
        name.append("-previous_ip");
        name
    }
}

} // verus!
