//! The private network validator: policy state and the three admission
//! predicates.

use vstd::prelude::*;

use crate::bandwidth::{is_fast_tier_code, tier_of, BandwidthTier};
use crate::config::{mode_requested, opt_chars, PrivateNetworkConfig};
use crate::identity::{decode_router_id, relay_id_of, RouterId};
use crate::relay_set::RelaySet;
use crate::router_info::RouterInfo;

verus! {

/// The identities that the first `n` configured relay strings stand for.
pub open spec fn relays_up_to(relays: Seq<String>, n: int) -> Set<Seq<u8>> {
    Set::new(|b: Seq<u8>| exists|i: int| 0 <= i < n && relay_id_of(#[trigger] relays[i]@) == Some(b))
}

/// The identities that a list of configured relay strings stands for;
/// strings that do not decode to an identity contribute nothing.
pub open spec fn configured_relays(relays: Seq<String>) -> Set<Seq<u8>> {
    relays_up_to(relays, relays.len() as int)
}

/// Whether a router meets an optional minimum-bandwidth code.
pub open spec fn bandwidth_met(min_bandwidth: Option<Seq<char>>, info: RouterInfo) -> bool {
    match min_bandwidth {
        Some(code) => tier_of(code).admits_spec(info.capabilities.fast),
        None => true,
    }
}

/// Decides which routers may take trusted roles in private network mode.
#[derive(Debug)]
pub struct PrivateNetworkValidator {
    /// Whether private network mode is enabled.
    enabled: bool,
    /// Identities of the known relays.
    known_relays: RelaySet,
    /// Minimum bandwidth requirement for known relays.
    min_bandwidth: Option<String>,
}

impl PrivateNetworkValidator {
    /// Whether private network mode is enabled.
    pub closed spec fn enabled_spec(&self) -> bool {
        self.enabled
    }

    /// The identities on the allow-list.
    pub closed spec fn relays(&self) -> Set<Seq<u8>> {
        self.known_relays@
    }

    /// The configured minimum bandwidth code, if any.
    pub closed spec fn min_bandwidth_spec(&self) -> Option<Seq<char>> {
        opt_chars(self.min_bandwidth)
    }

    /// Admission as a tunnel hop.
    pub open spec fn tunnel_hop_allowed(&self, id: Seq<u8>, info: RouterInfo) -> bool {
        !self.enabled_spec() || (self.relays().contains(id) && bandwidth_met(
            self.min_bandwidth_spec(),
            info,
        ) && info.reachable && info.usable)
    }

    /// Admission as a floodfill node.
    pub open spec fn floodfill_allowed(&self, id: Seq<u8>, info: RouterInfo) -> bool {
        if !self.enabled_spec() {
            info.capabilities.floodfill
        } else {
            self.relays().contains(id) && info.capabilities.floodfill && bandwidth_met(
                self.min_bandwidth_spec(),
                info,
            )
        }
    }

    /// Admission to the routing table.
    pub open spec fn routing_table_allowed(&self, id: Seq<u8>, info: RouterInfo) -> bool {
        !self.enabled_spec() || (self.relays().contains(id) && info.reachable && info.usable)
    }

    /// Create a validator from optional settings. Without settings, or with
    /// private network mode off, the validator admits as the open network
    /// does. Otherwise its allow-list holds each configured relay that decodes
    /// to an identity; the others are dropped.
    pub fn new(config: Option<&PrivateNetworkConfig>) -> (r: Self)
        ensures
            r.relays().finite(),
            r.enabled_spec() == mode_requested(config),
            mode_requested(config) ==> r.relays() == configured_relays(config->0.known_relays@)
                && r.min_bandwidth_spec() == opt_chars(config->0.min_bandwidth),
            !mode_requested(config) ==> r.relays() == Set::<Seq<u8>>::empty()
                && r.min_bandwidth_spec() is None,
    {
        match config {
            Some(config) => {
                if config.enabled {
                    let relays = &config.known_relays;
                    let mut known_relays = RelaySet::new();
                    let mut i: usize = 0;
                    while i < relays.len()
                        invariant
                            i <= relays@.len(),
                            known_relays@.finite(),
                            known_relays@ == relays_up_to(relays@, i as int),
                        decreases relays@.len() - i,
                    {
                        let ghost before = known_relays@;
                        let decoded = decode_router_id(relays[i].as_str());
                        match decoded {
                            Some(id) => {
                                known_relays.insert(id.bytes);
                            },
                            None => {},
                        }
                        assert(known_relays@ =~= relays_up_to(relays@, i + 1)) by {
                            assert forall|b: Seq<u8>|
                                #[trigger] relays_up_to(relays@, i + 1).contains(b)
                                    implies known_relays@.contains(b) by {
                                let j = choose|j: int|
                                    0 <= j < i + 1 && relay_id_of(#[trigger] relays@[j]@) == Some(b);
                                if j < i {
                                    assert(before.contains(b));
                                }
                            }
                            assert forall|b: Seq<u8>| #[trigger] known_relays@.contains(b)
                                implies relays_up_to(relays@, i + 1).contains(b) by {
                                if before.contains(b) {
                                    let j = choose|j: int|
                                        0 <= j < i && relay_id_of(#[trigger] relays@[j]@) == Some(b);
                                    assert(0 <= j < i + 1 && relay_id_of(relays@[j]@) == Some(b));
                                } else {
                                    assert(relay_id_of(relays@[i as int]@) == Some(b));
                                }
                            }
                        }
                        i = i + 1;
                    }
                    let min_bandwidth = match &config.min_bandwidth {
                        Some(code) => Some(code.clone()),
                        None => None,
                    };
                    return PrivateNetworkValidator { enabled: true, known_relays, min_bandwidth };
                }
            },
            None => {},
        }
        PrivateNetworkValidator { enabled: false, known_relays: RelaySet::new(), min_bandwidth: None }
    }

    /// Whether private network mode is enabled.
    pub fn is_enabled(&self) -> (r: bool)
        ensures
            r == self.enabled_spec(),
    {
        self.enabled
    }

    /// Whether a router is on the allow-list.
    pub fn is_known_relay(&self, router_id: &RouterId) -> (r: bool)
        ensures
            r == self.relays().contains(router_id@),
    {
        self.known_relays.contains(&router_id.bytes)
    }

    /// Whether a router may act as a tunnel hop. With private network mode
    /// off every router may; with it on, only a known relay that meets the
    /// bandwidth requirement and is reachable and usable.
    pub fn can_be_tunnel_hop(&self, router_id: &RouterId, router_info: &RouterInfo) -> (r: bool)
        ensures
            r == self.tunnel_hop_allowed(router_id@, *router_info),
    {
        if !self.enabled {
            return true;
        }
        if !self.is_known_relay(router_id) {
            return false;
        }
        match &self.min_bandwidth {
            Some(min_bandwidth) => {
                if !self.meets_bandwidth_requirement(router_info, min_bandwidth.as_str()) {
                    return false;
                }
            },
            None => {},
        }
        if !router_info.is_reachable() || !router_info.is_usable() {
            return false;
        }
        true
    }

    /// Whether a router may act as a floodfill node. With private network mode
    /// off this is the router's own floodfill flag; with it on, only a known
    /// relay with that flag that meets the bandwidth requirement.
    pub fn can_be_floodfill(&self, router_id: &RouterId, router_info: &RouterInfo) -> (r: bool)
        ensures
            r == self.floodfill_allowed(router_id@, *router_info),
    {
        if !self.enabled {
            return router_info.is_floodfill();
        }
        if !self.is_known_relay(router_id) {
            return false;
        }
        if !router_info.is_floodfill() {
            return false;
        }
        match &self.min_bandwidth {
            Some(min_bandwidth) => {
                if !self.meets_bandwidth_requirement(router_info, min_bandwidth.as_str()) {
                    return false;
                }
            },
            None => {},
        }
        true
    }

    /// Whether a router may be added to the routing table. With private
    /// network mode off every router may; with it on, only a known relay that
    /// is reachable and usable. Bandwidth plays no part here.
    pub fn can_be_added_to_routing_table(&self, router_id: &RouterId, router_info: &RouterInfo) -> (r: bool)
        ensures
            r == self.routing_table_allowed(router_id@, *router_info),
    {
        if !self.enabled {
            return true;
        }
        if !self.is_known_relay(router_id) {
            return false;
        }
        if !router_info.is_reachable() || !router_info.is_usable() {
            return false;
        }
        true
    }

    /// Whether a router meets a minimum bandwidth code: a fast code admits
    /// the fast routers, any other code admits nobody.
    fn meets_bandwidth_requirement(&self, router_info: &RouterInfo, min_bandwidth: &str) -> (r: bool)
        ensures
            r == tier_of(min_bandwidth@).admits_spec(router_info.capabilities.fast),
    {
        let tier = BandwidthTier::from_code(min_bandwidth);
        tier.admits(router_info.capabilities.is_fast())
    }

    /// The identities on the allow-list.
    pub fn known_relays(&self) -> (r: &RelaySet)
        ensures
            r@ == self.relays(),
    {
        &self.known_relays
    }

    /// The number of identities on the allow-list.
    pub fn known_relay_count(&self) -> (r: usize)
        ensures
            r == self.relays().len(),
    {
        self.known_relays.len()
    }
}

/// With private network mode off, every router may be a tunnel hop and join
/// the routing table, and floodfill admission is the router's own flag.
pub proof fn lemma_disabled_admits_as_open_network(
    v: PrivateNetworkValidator,
    id: Seq<u8>,
    info: RouterInfo,
)
    requires
        !v.enabled_spec(),
    ensures
        v.tunnel_hop_allowed(id, info),
        v.routing_table_allowed(id, info),
        v.floodfill_allowed(id, info) == info.capabilities.floodfill,
{
}

/// With private network mode on, a router off the allow-list is refused
/// every role, whatever it advertises.
pub proof fn lemma_unknown_router_refused(v: PrivateNetworkValidator, id: Seq<u8>, info: RouterInfo)
    requires
        v.enabled_spec(),
        !v.relays().contains(id),
    ensures
        !v.tunnel_hop_allowed(id, info),
        !v.floodfill_allowed(id, info),
        !v.routing_table_allowed(id, info),
{
}

/// A configured relay string that does not decode to an identity adds
/// nothing to the allow-list: dropping it leaves the same set.
pub proof fn lemma_malformed_relay_dropped(relays: Seq<String>, i: int)
    requires
        0 <= i < relays.len(),
        relay_id_of(relays[i]@) is None,
    ensures
        configured_relays(relays.remove(i)) == configured_relays(relays),
{
    let rest = relays.remove(i);
    assert forall|b: Seq<u8>| #[trigger] configured_relays(relays).contains(b)
        implies configured_relays(rest).contains(b) by {
        let j = choose|j: int| 0 <= j < relays.len() && relay_id_of(#[trigger] relays[j]@) == Some(b);
        if j < i {
            assert(rest[j] == relays[j]);
        } else {
            assert(rest[j - 1] == relays[j]);
        }
    }
    assert forall|b: Seq<u8>| #[trigger] configured_relays(rest).contains(b)
        implies configured_relays(relays).contains(b) by {
        let j = choose|j: int| 0 <= j < rest.len() && relay_id_of(#[trigger] rest[j]@) == Some(b);
        if j < i {
            assert(relays[j] == rest[j]);
        } else {
            assert(relays[j + 1] == rest[j]);
        }
    }
    assert(configured_relays(rest) =~= configured_relays(relays));
}

/// With private network mode on and a minimum bandwidth code that is not a
/// fast code, no router may be a tunnel hop or a floodfill node, fast or not.
pub proof fn lemma_unrecognized_tier_refuses(
    v: PrivateNetworkValidator,
    id: Seq<u8>,
    info: RouterInfo,
)
    requires
        v.enabled_spec(),
        v.min_bandwidth_spec() matches Some(code) && !is_fast_tier_code(code),
    ensures
        !v.tunnel_hop_allowed(id, info),
        !v.floodfill_allowed(id, info),
{
}

/// With private network mode on, a known relay that does not advertise
/// floodfill capability is never a floodfill node.
pub proof fn lemma_floodfill_needs_capability(
    v: PrivateNetworkValidator,
    id: Seq<u8>,
    info: RouterInfo,
)
    requires
        v.enabled_spec(),
        v.relays().contains(id),
        !info.capabilities.floodfill,
    ensures
        !v.floodfill_allowed(id, info),
{
}

/// With private network mode on, a known relay that is reachable and usable
/// joins the routing table whatever the bandwidth requirement and its class.
pub proof fn lemma_routing_table_ignores_bandwidth(
    v: PrivateNetworkValidator,
    id: Seq<u8>,
    info: RouterInfo,
)
    requires
        v.enabled_spec(),
        v.relays().contains(id),
        info.reachable,
        info.usable,
    ensures
        v.routing_table_allowed(id, info),
{
}

} // verus!
