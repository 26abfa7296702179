//! Values that the server is started with, derived from its configuration.

use crate::text::{decimal, decimal_text};
use vstd::prelude::*;

verus! {

/// The listening address for `port`: all interfaces.
pub open spec fn listen_address(port: u16) -> Seq<char> {
    "0.0.0.0:"@ + decimal(port as nat)
}

/// The cover-art directory below the per-user configuration root.
pub open spec fn covers_directory(config_root: Seq<char>) -> Seq<char> {
    config_root + "/music-player/covers"@
}

/// Builds the address that the server binds to for the configured port.
pub fn bind_address(port: u16) -> (addr: String)
    ensures
        addr@ == listen_address(port),
{
    String::from_str("0.0.0.0:").concat(decimal_text(port).as_str())
}

/// Builds the path of the cover-art directory from the per-user
/// configuration root.
pub fn covers_path(config_root: &str) -> (path: String)
    ensures
        path@ == covers_directory(config_root@),
{
    String::from_str(config_root).concat("/music-player/covers")
}

} // verus!
