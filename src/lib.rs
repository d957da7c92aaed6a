//! Admission policy for a router running in private (closed) network mode.

pub mod identity;
pub mod relay_set;
pub mod router_info;
pub mod bandwidth;
pub mod config;
pub mod validator;

pub use bandwidth::BandwidthTier;
pub use config::PrivateNetworkConfig;
pub use identity::{decode_router_id, RouterId};
pub use relay_set::RelaySet;
pub use router_info::{Capabilities, RouterInfo};
pub use validator::PrivateNetworkValidator;
