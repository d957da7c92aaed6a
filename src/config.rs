//! The declarative settings from which a validator is built.

use vstd::prelude::*;

verus! {

/// Settings of private network mode.
#[derive(Clone, Debug)]
pub struct PrivateNetworkConfig {
    /// Whether private network mode is on.
    pub enabled: bool,
    /// Base64-encoded identities of the routers allowed to take trusted roles.
    pub known_relays: Vec<String>,
    /// Minimum bandwidth code that known relays must meet, if any.
    pub min_bandwidth: Option<String>,
}

/// The characters of an optional string.
pub open spec fn opt_chars(s: Option<String>) -> Option<Seq<char>> {
    match s {
        Some(v) => Some(v@),
        None => None,
    }
}

/// Whether a configuration asks for private network mode.
pub open spec fn mode_requested(config: Option<&PrivateNetworkConfig>) -> bool {
    match config {
        Some(c) => c.enabled,
        None => false,
    }
}

} // verus!
