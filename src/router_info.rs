//! What the admission predicates read of a peer: its advertised capability
//! flags and whether it is currently reachable and usable.

use vstd::prelude::*;

verus! {

/// Capability flags that a router advertises.
#[derive(Clone, Copy, Debug, PartialEq, Eq, Structural)]
pub struct Capabilities {
    /// The advertised bandwidth class is one of the fast classes.
    pub fast: bool,
    /// The router offers to act as a floodfill node.
    pub floodfill: bool,
}

impl Capabilities {
    /// Capabilities with the given flags.
    pub fn new(fast: bool, floodfill: bool) -> (r: Self)
        ensures
            r.fast == fast,
            r.floodfill == floodfill,
    {
        Capabilities { fast, floodfill }
    }

    /// Whether the advertised bandwidth class is a fast one.
    pub fn is_fast(&self) -> (r: bool)
        ensures
            r == self.fast,
    {
        self.fast
    }

    /// Whether the router offers floodfill service.
    pub fn is_floodfill(&self) -> (r: bool)
        ensures
            r == self.floodfill,
    {
        self.floodfill
    }
}

/// A snapshot of a peer's advertised state at the time of a decision.
#[derive(Clone, Copy, Debug, PartialEq, Eq, Structural)]
pub struct RouterInfo {
    /// Advertised capability flags.
    pub capabilities: Capabilities,
    /// The router can currently be reached over the network.
    pub reachable: bool,
    /// The router is operationally usable.
    pub usable: bool,
}

impl RouterInfo {
    /// A snapshot with the given capabilities and liveness.
    pub fn new(capabilities: Capabilities, reachable: bool, usable: bool) -> (r: Self)
        ensures
            r.capabilities == capabilities,
            r.reachable == reachable,
            r.usable == usable,
    {
        RouterInfo { capabilities, reachable, usable }
    }

    /// Whether the router can currently be reached.
    pub fn is_reachable(&self) -> (r: bool)
        ensures
            r == self.reachable,
    {
        self.reachable
    }

    /// Whether the router is operationally usable.
    pub fn is_usable(&self) -> (r: bool)
        ensures
            r == self.usable,
    {
        self.usable
    }

    /// Whether the router advertises floodfill capability.
    pub fn is_floodfill(&self) -> (r: bool)
        ensures
            r == self.capabilities.floodfill,
    {
        self.capabilities.is_floodfill()
    }
}

} // verus!
