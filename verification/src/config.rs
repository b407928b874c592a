//! Where files are stored and where the service listens.

use crate::naming::{decimal, decimal_string};
use vstd::prelude::*;

verus! {

/// The settings shared by uploads and downloads.
#[derive(Clone, Debug, PartialEq, Eq)]
pub struct Config {
    /// The directory that holds every stored file.
    pub storage_dir: String,
    /// The port of the loopback interface the service listens on.
    pub port: u16,
}

/// The storage directory used when none is configured.
pub open spec fn default_storage_dir() -> Seq<char> {
    "/tmp/rest-api/upload"@
}

/// The port used when none is configured.
pub const DEFAULT_PORT: u16 = 9000;

/// The loopback address with the port written in decimal.
pub open spec fn loopback_address(port: u16) -> Seq<char> {
    "127.0.0.1:"@ + decimal(port as nat)
}

impl Config {
    /// A configuration with the given directory and port.
    pub fn new(storage_dir: String, port: u16) -> (config: Config)
        ensures
            config.storage_dir@ == storage_dir@,
            config.port == port,
    {
        Config { storage_dir, port }
    }

    /// The address to bind: the service is reachable from the local host only.
    pub fn bind_address(&self) -> (address: String)
        ensures
            address@ == loopback_address(self.port),
    {
        let mut address = String::from_str("127.0.0.1:");
        let port = decimal_string(self.port as u128);
        address.append(port.as_str());
        address
    }
}

impl Default for Config {
    fn default() -> (config: Config)
        ensures
            config.storage_dir@ == default_storage_dir(),
            config.port == DEFAULT_PORT,
    {
        Config { storage_dir: String::from_str("/tmp/rest-api/upload"), port: DEFAULT_PORT }
    }
}

} // verus!
