use truffle::node::{polled_states, Peer};
use truffle::resolve::{edit_distance, suggest_among, NameResolver, ResolveError, ResolvedVia};
use truffle::text_map::TextMap;

fn peer(device_id: &str, name: &str, hostname: &str, id: &str, ip: &str) -> Peer {
    Peer {
        device_id: Some(device_id.to_string()),
        device_name: Some(name.to_string()),
        display_name: name.to_string(),
        hostname: hostname.to_string(),
        tailscale_id: id.to_string(),
        peer_ref: format!("{id}:1"),
        generation: 1,
        ip: ip.to_string(),
        online: true,
        ws_connected: false,
        connection_type: "direct".to_string(),
        os: Some("macos".to_string()),
        last_seen: None,
        login_name: Some("alice@example.com".to_string()),
    }
}

fn make_peers() -> Vec<Peer> {
    vec![
        peer(
            "01J4K9M2Z8AB3RNYQPW6H5TC0X",
            "Alice's MacBook",
            "truffle-cli-alice-s-macbook",
            "laptop-ts-001",
            "100.64.0.3",
        ),
        peer(
            "01J4K9M2Z8AB3RNYQPW6H5TC0Y",
            "Prod Server",
            "truffle-cli-prod-server",
            "server-ts-002",
            "100.64.0.1",
        ),
    ]
}

fn duplicate() -> Peer {
    peer(
        "01J4K9M2Z8AB3RNYQPW6H5TC0Z",
        "Alice's MacBook",
        "truffle-cli-alice-s-macbook-2",
        "duplicate-ts-003",
        "100.64.0.5",
    )
}

fn aliases(entries: &[(&str, &str)]) -> TextMap<String> {
    let mut m = TextMap::new();
    for (k, v) in entries {
        m.insert(k.to_string(), v.to_string());
    }
    m
}

#[test]
fn test_resolve_peer_name() {
    let resolver = NameResolver::new(TextMap::new(), make_peers());
    let result = resolver.resolve("Alice's MacBook", None).unwrap();
    assert_eq!(result.peer_id, "laptop-ts-001");
    assert_eq!(result.display_name, "Alice's MacBook");
    assert_eq!(result.resolved_via, ResolvedVia::PeerName);
}

#[test]
fn test_resolve_peer_name_case_insensitive() {
    let resolver = NameResolver::new(TextMap::new(), make_peers());
    let result = resolver.resolve("alice's macbook", None).unwrap();
    assert_eq!(result.peer_id, "laptop-ts-001");
}

#[test]
fn test_resolve_peer_id() {
    let resolver = NameResolver::new(TextMap::new(), make_peers());
    let result = resolver.resolve("01J4K9M2Z8AB3RNYQPW6H5TC0Y", None).unwrap();
    assert_eq!(result.display_name, "Prod Server");
    assert_eq!(result.peer_id, "server-ts-002");
    assert_eq!(result.resolved_via, ResolvedVia::PeerId);
}

#[test]
fn test_resolver_hostname_slug_not_primary() {
    let resolver = NameResolver::new(TextMap::new(), make_peers());
    let err = resolver.resolve("cli-alice-s-macbook", None).unwrap_err();
    assert!(matches!(err, ResolveError::NotFound { .. }));
    let result = resolver.resolve("laptop-ts-001", None).unwrap();
    assert_eq!(result.peer_id, "laptop-ts-001");
}

#[test]
fn test_resolve_not_found() {
    let resolver = NameResolver::new(TextMap::new(), make_peers());
    let err = resolver.resolve("nonexistent", None).unwrap_err();
    match err {
        ResolveError::NotFound { input, .. } => {
            assert_eq!(input, "nonexistent");
        }
    }
}

#[test]
fn test_resolve_fuzzy_suggestion() {
    let resolver = NameResolver::new(TextMap::new(), make_peers());
    let err = resolver.resolve("Prod Servr", None).unwrap_err();
    assert_eq!(
        err.message(),
        "Can't find a node named \"Prod Servr\". Did you mean \"Prod Server\"?"
    );
    match err {
        ResolveError::NotFound { suggestion, .. } => {
            assert_eq!(suggestion, Some("Prod Server".to_string()));
        }
    }
}

#[test]
fn test_resolve_picks_first_match_when_device_names_collide() {
    let mut peers = make_peers();
    peers.push(duplicate());
    let resolver = NameResolver::new(TextMap::new(), peers);
    let result = resolver.resolve("Alice's MacBook", None).unwrap();
    assert_eq!(result.peer_id, "laptop-ts-001");
}

#[test]
fn test_resolve_disambiguates_collided_names_by_device_id() {
    let mut peers = make_peers();
    peers.push(duplicate());
    let resolver = NameResolver::new(TextMap::new(), peers);
    let result = resolver.resolve("01J4K9M2Z8AB3RNYQPW6H5TC0Z", None).unwrap();
    assert_eq!(result.display_name, "Alice's MacBook");
    assert_eq!(result.peer_id, "duplicate-ts-003");
    assert_eq!(result.resolved_via, ResolvedVia::PeerId);
}

#[test]
fn aliases_come_first_and_lead_nowhere_alone() {
    let resolver = NameResolver::new(
        aliases(&[("prod", "prod server"), ("dead", "nobody"), ("Prod Server", "Alice's MacBook")]),
        make_peers(),
    );
    let result = resolver.resolve("prod", None).unwrap();
    assert_eq!(result.peer_id, "server-ts-002");
    assert_eq!(result.resolved_via, ResolvedVia::Alias);
    let result = resolver.resolve("Prod Server", None).unwrap();
    assert_eq!(result.peer_id, "laptop-ts-001");
    assert_eq!(result.resolved_via, ResolvedVia::Alias);
    let err = resolver.resolve("dead", None).unwrap_err();
    assert_eq!(err.message(), "Can't find a node named \"dead\".");
}

#[test]
fn addresses_find_their_peer() {
    let resolver = NameResolver::new(TextMap::new(), make_peers());
    let result = resolver.resolve("100.64.0.1", Some("100.64.0.1")).unwrap();
    assert_eq!(result.peer_id, "server-ts-002");
    assert_eq!(result.ip, "100.64.0.1");
    assert_eq!(result.resolved_via, ResolvedVia::IpAddress);
    assert!(resolver.resolve("100.64.0.9", Some("100.64.0.9")).is_err());
}

#[test]
fn a_peer_without_a_name_goes_by_its_display_name() {
    let mut p = duplicate();
    p.device_name = Some(String::new());
    p.display_name = "shown".to_string();
    let resolver = NameResolver::new(TextMap::new(), vec![p]);
    let result = resolver.resolve("SHOWN", None).unwrap();
    assert_eq!(result.display_name, "shown");
}

#[test]
fn lower_case_reaches_beyond_ascii() {
    let mut p = duplicate();
    p.device_name = Some("m\u{fc}ller".to_string());
    let resolver = NameResolver::new(TextMap::new(), vec![p]);
    assert!(resolver.resolve("M\u{dc}LLER", None).is_ok());
}

#[test]
fn distances() {
    assert_eq!(edit_distance("", ""), 0);
    assert_eq!(edit_distance("", "abc"), 3);
    assert_eq!(edit_distance("abc", ""), 3);
    assert_eq!(edit_distance("kitten", "sitting"), 3);
    assert_eq!(edit_distance("sitting", "kitten"), 3);
    assert_eq!(edit_distance("flaw", "lawn"), 2);
    assert_eq!(edit_distance("same", "same"), 0);
}

#[test]
fn the_nearest_is_suggested_and_then_an_overlap() {
    let names: Vec<String> = ["beta", "alpha", "alphas"].iter().map(|s| s.to_string()).collect();
    assert_eq!(suggest_among("alphax", &names, &names, 2), Some("alpha".to_string()));
    assert_eq!(suggest_among("alphas-of-old", &names, &names, 2), Some("alpha".to_string()));
    assert_eq!(suggest_among("zzzzzzzz", &names, &names, 2), None);
}

#[test]
fn a_fresh_look_reports_who_is_online() {
    let mut off = duplicate();
    off.online = false;
    let mut bare = peer("d", "n", "h", "bare", "100.64.0.7");
    bare.device_id = None;
    let mut named = peer("d2", "n2", "h2", "named", "100.64.0.8");
    named.device_name = None;
    named.display_name = "shown".to_string();
    named.os = None;
    let states = polled_states(&vec![off, bare, named]);
    assert_eq!(states.len(), 2);
    assert_eq!(states[0].id, "bare");
    assert!(states[0].identity.is_none());
    assert_eq!(states[1].name, "h2");
    let identity = states[1].identity.as_ref().unwrap();
    assert_eq!(identity.device_id, "d2");
    assert_eq!(identity.device_name, "shown");
    assert_eq!(identity.os, "");
    assert_eq!(identity.app_id, "");
    assert_eq!(identity.tailscale_id, "named");
}

#[test]
fn names_are_found_in_any_case() {
    let mut arger = peer("d9", "\u{c4}rger", "h", "ts-9", "100.64.0.9");
    arger.device_id = None;
    let resolver = NameResolver::new(TextMap::new(), vec![arger]);
    for name in ["\u{c4}rger", "\u{e4}rger", "\u{c4}RGER", "\u{e4}RGER"] {
        let t = resolver.resolve(name, None).unwrap();
        assert_eq!(t.peer_id, "ts-9");
        assert_eq!(t.resolved_via, ResolvedVia::PeerName);
    }
    assert!(resolver.resolve("arger", None).is_err());
    let t = resolver
        .resolve_lowered("ANY", "any", &vec!["any".to_string()], None, None)
        .unwrap();
    assert_eq!(t.peer_id, "ts-9");
}
