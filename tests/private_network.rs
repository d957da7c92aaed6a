use private_network::{
    decode_router_id, BandwidthTier, Capabilities, PrivateNetworkConfig, PrivateNetworkValidator,
    RouterId, RouterInfo,
};

/// Identity whose bytes are 0, 1, ..., 31.
const RELAY_A: &str = "AAECAwQFBgcICQoLDA0ODxAREhMUFRYXGBkaGxwdHh8=";
/// Identity whose bytes are all 0xfb (uses both non-standard symbols).
const RELAY_B: &str = "-~v7-~v7-~v7-~v7-~v7-~v7-~v7-~v7-~v7-~v7-~s=";
/// Valid encoding of 16 bytes: too short for an identity.
const SHORT: &str = "AAECAwQFBgcICQoLDA0ODw==";
/// Valid encoding of 33 bytes: too long for an identity.
const LONG: &str = "BwcHBwcHBwcHBwcHBwcHBwcHBwcHBwcHBwcHBwcHBwcH";

fn id_a() -> RouterId {
    let mut bytes = [0u8; 32];
    for (i, b) in bytes.iter_mut().enumerate() {
        *b = i as u8;
    }
    RouterId::new(bytes)
}

fn id_b() -> RouterId {
    RouterId::new([0xfb; 32])
}

fn other_id() -> RouterId {
    RouterId::new([0x42; 32])
}

/// A router advertising the given bandwidth class and floodfill flag, with
/// the given liveness.
fn router(fast: bool, floodfill: bool, reachable: bool, usable: bool) -> RouterInfo {
    RouterInfo::new(Capabilities::new(fast, floodfill), reachable, usable)
}

/// Caps "LR": slow, reachable, usable.
fn low_bw_router() -> RouterInfo {
    router(false, false, true, true)
}

/// Caps "XR": fast, reachable, usable.
fn high_bw_router() -> RouterInfo {
    router(true, false, true, true)
}

fn config(relays: &[&str], min_bandwidth: Option<&str>) -> PrivateNetworkConfig {
    PrivateNetworkConfig {
        enabled: true,
        known_relays: relays.iter().map(|s| s.to_string()).collect(),
        min_bandwidth: min_bandwidth.map(|s| s.to_string()),
    }
}

#[test]
fn private_network_disabled_allows_all() {
    let validator = PrivateNetworkValidator::new(None);
    let router_id = other_id();
    let router_info = low_bw_router();

    assert!(!validator.is_enabled());
    assert!(validator.can_be_tunnel_hop(&router_id, &router_info));
    assert!(validator.can_be_added_to_routing_table(&router_id, &router_info));
}

#[test]
fn private_network_enabled_blocks_unknown_routers() {
    let config = PrivateNetworkConfig {
        enabled: true,
        known_relays: vec!["test_relay_1".to_string()],
        min_bandwidth: None,
    };

    let validator = PrivateNetworkValidator::new(Some(&config));
    let router_id = other_id();
    let router_info = low_bw_router();

    assert!(validator.is_enabled());
    assert!(!validator.can_be_tunnel_hop(&router_id, &router_info));
    assert!(!validator.can_be_added_to_routing_table(&router_id, &router_info));
}

#[test]
fn bandwidth_requirement_enforcement() {
    // The router under test is on the allow-list, so that only bandwidth decides.
    let config = PrivateNetworkConfig {
        enabled: true,
        known_relays: vec!["test_relay_1".to_string(), RELAY_A.to_string()],
        min_bandwidth: Some("X".to_string()),
    };

    let validator = PrivateNetworkValidator::new(Some(&config));
    let router_id = id_a();

    // Low bandwidth router should be rejected
    let low_bw_router = low_bw_router();
    assert!(!validator.can_be_tunnel_hop(&router_id, &low_bw_router));

    // High bandwidth router should be accepted
    let high_bw_router = high_bw_router();
    assert!(validator.can_be_tunnel_hop(&router_id, &high_bw_router));
}

#[test]
fn disabled_config_is_permissive_and_empty() {
    let mut cfg = config(&[RELAY_A, RELAY_B], Some("Q"));
    cfg.enabled = false;
    let validator = PrivateNetworkValidator::new(Some(&cfg));
    assert!(!validator.is_enabled());
    assert_eq!(validator.known_relay_count(), 0);
    assert!(!validator.is_known_relay(&id_a()));
    let slow_dead = router(false, false, false, false);
    assert!(validator.can_be_tunnel_hop(&other_id(), &slow_dead));
    assert!(validator.can_be_added_to_routing_table(&other_id(), &slow_dead));
}

#[test]
fn disabled_floodfill_follows_advertised_flag() {
    let validator = PrivateNetworkValidator::new(None);
    let ff = router(false, true, false, false);
    let not_ff = router(true, false, true, true);
    assert!(validator.can_be_floodfill(&other_id(), &ff));
    assert!(!validator.can_be_floodfill(&other_id(), &not_ff));
}

#[test]
fn unknown_router_refused_every_role() {
    let validator = PrivateNetworkValidator::new(Some(&config(&[RELAY_A], None)));
    let best = router(true, true, true, true);
    assert!(!validator.can_be_tunnel_hop(&id_b(), &best));
    assert!(!validator.can_be_floodfill(&id_b(), &best));
    assert!(!validator.can_be_added_to_routing_table(&id_b(), &best));
    assert!(validator.can_be_tunnel_hop(&id_a(), &best));
    assert!(validator.can_be_floodfill(&id_a(), &best));
    assert!(validator.can_be_added_to_routing_table(&id_a(), &best));
}

#[test]
fn malformed_relays_are_dropped() {
    let cfg = config(&["test_relay_1", SHORT, LONG, RELAY_A, "", "AAEC"], None);
    let validator = PrivateNetworkValidator::new(Some(&cfg));
    assert!(validator.is_enabled());
    assert_eq!(validator.known_relay_count(), 1);
    assert!(validator.is_known_relay(&id_a()));
}

#[test]
fn duplicate_relays_counted_once() {
    let cfg = config(&[RELAY_A, RELAY_B, RELAY_A], None);
    let validator = PrivateNetworkValidator::new(Some(&cfg));
    assert_eq!(validator.known_relay_count(), 2);
    assert!(validator.is_known_relay(&id_a()));
    assert!(validator.is_known_relay(&id_b()));
    assert!(!validator.is_known_relay(&other_id()));
}

#[test]
fn standard_base64_alphabet_not_accepted() {
    // The same identity as RELAY_B, written with `+` and `/`.
    let cfg = config(&["+/v7+/v7+/v7+/v7+/v7+/v7+/v7+/v7+/v7+/v7+/s="], None);
    let validator = PrivateNetworkValidator::new(Some(&cfg));
    assert_eq!(validator.known_relay_count(), 0);
}

#[test]
fn empty_relay_list_refuses_everyone() {
    let validator = PrivateNetworkValidator::new(Some(&config(&[], None)));
    assert!(validator.is_enabled());
    assert_eq!(validator.known_relay_count(), 0);
    let best = router(true, true, true, true);
    assert!(!validator.can_be_tunnel_hop(&id_a(), &best));
    assert!(!validator.can_be_floodfill(&id_a(), &best));
    assert!(!validator.can_be_added_to_routing_table(&id_a(), &best));
}

#[test]
fn unrecognized_tier_fails_closed() {
    for code in ["L", "Q", "", "XX", "x", "K", "N"] {
        let validator = PrivateNetworkValidator::new(Some(&config(&[RELAY_A], Some(code))));
        let best = router(true, true, true, true);
        assert!(!validator.can_be_tunnel_hop(&id_a(), &best));
        assert!(!validator.can_be_floodfill(&id_a(), &best));
        assert!(validator.can_be_added_to_routing_table(&id_a(), &best));
    }
}

#[test]
fn fast_tiers_admit_fast_routers() {
    for code in ["O", "P", "X"] {
        let validator = PrivateNetworkValidator::new(Some(&config(&[RELAY_A], Some(code))));
        assert!(validator.can_be_tunnel_hop(&id_a(), &router(true, false, true, true)));
        assert!(!validator.can_be_tunnel_hop(&id_a(), &router(false, false, true, true)));
        assert!(validator.can_be_floodfill(&id_a(), &router(true, true, false, false)));
        assert!(!validator.can_be_floodfill(&id_a(), &router(false, true, true, true)));
    }
}

#[test]
fn floodfill_requires_capability() {
    let validator = PrivateNetworkValidator::new(Some(&config(&[RELAY_A], None)));
    assert!(!validator.can_be_floodfill(&id_a(), &router(true, false, true, true)));
    assert!(validator.can_be_floodfill(&id_a(), &router(false, true, true, true)));
    // Liveness is not consulted for floodfill admission.
    assert!(validator.can_be_floodfill(&id_a(), &router(false, true, false, false)));
}

#[test]
fn routing_table_ignores_bandwidth() {
    let validator = PrivateNetworkValidator::new(Some(&config(&[RELAY_A], Some("X"))));
    let slow = low_bw_router();
    assert!(validator.can_be_added_to_routing_table(&id_a(), &slow));
    assert!(!validator.can_be_tunnel_hop(&id_a(), &slow));
    assert!(!validator.can_be_added_to_routing_table(&id_a(), &router(true, false, false, true)));
    assert!(!validator.can_be_added_to_routing_table(&id_a(), &router(true, false, true, false)));
}

#[test]
fn tunnel_hop_known_relay_scenario() {
    let validator = PrivateNetworkValidator::new(Some(&config(&[RELAY_A], None)));
    let descr = router(false, false, true, true);
    assert!(validator.can_be_tunnel_hop(&id_a(), &descr));
    assert!(!validator.can_be_tunnel_hop(&id_b(), &descr));
    assert!(!validator.can_be_tunnel_hop(&other_id(), &descr));
}

#[test]
fn tunnel_hop_requires_liveness() {
    let validator = PrivateNetworkValidator::new(Some(&config(&[RELAY_A], None)));
    assert!(!validator.can_be_tunnel_hop(&id_a(), &router(true, true, false, true)));
    assert!(!validator.can_be_tunnel_hop(&id_a(), &router(true, true, true, false)));
}

#[test]
fn tier_codes_classified() {
    assert_eq!(BandwidthTier::from_code("O"), BandwidthTier::Fast);
    assert_eq!(BandwidthTier::from_code("P"), BandwidthTier::Fast);
    assert_eq!(BandwidthTier::from_code("X"), BandwidthTier::Fast);
    assert_eq!(BandwidthTier::from_code("L"), BandwidthTier::Unrecognized);
    assert_eq!(BandwidthTier::from_code(""), BandwidthTier::Unrecognized);
    assert_eq!(BandwidthTier::from_code("OX"), BandwidthTier::Unrecognized);
    assert!(BandwidthTier::Fast.admits(true));
    assert!(!BandwidthTier::Fast.admits(false));
    assert!(!BandwidthTier::Unrecognized.admits(true));
}

#[test]
fn relay_strings_decode_to_their_bytes() {
    assert_eq!(decode_router_id(RELAY_A), Some(id_a()));
    assert_eq!(decode_router_id(RELAY_B), Some(id_b()));
    assert_eq!(decode_router_id(SHORT), None);
    assert_eq!(decode_router_id(LONG), None);
    assert_eq!(decode_router_id("test_relay_1"), None);
    assert_eq!(decode_router_id(RELAY_A).map(|id| id.as_bytes()[31]), Some(31));
}
