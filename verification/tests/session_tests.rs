use std::collections::HashSet;

use truffle::network::types::{NetworkPeer, NetworkPeerEvent};
use truffle::request_reply::{Heard, PendingRequest, RequestError, WaitStep};
use truffle::session::eager::{eager_jitter_delay, fold_into_window, next_eager_step, EagerStep};
use truffle::session::error::SessionError;
use truffle::session::hello::PeerIdentity;
use truffle::session::model::{Connection, ConnectionDirection};
use truffle::session::peer::{format_peer_ref, parse_peer_ref, PeerEvent, PeerState};
use truffle::session::registry::{
    attribute, preferred_connection_direction, should_replace_connection, DialAction, Effects,
    PeerRegistry, PeerRegistryOptions,
};

fn make_network_peer(id: &str, ip: &str) -> NetworkPeer {
    NetworkPeer {
        id: id.to_string(),
        hostname: format!("host-{id}"),
        ip: ip.to_string(),
        online: true,
        cur_addr: Some(format!("{ip}:41641")),
        relay: None,
        os: Some("linux".to_string()),
        last_seen: Some("2026-03-25T12:00:00Z".to_string()),
        key_expiry: None,
        dns_name: None,
        login_name: None,
    }
}

fn loopback(id: &str, login: Option<&str>) -> NetworkPeer {
    let mut p = make_network_peer(id, "127.0.0.1");
    p.login_name = login.map(str::to_string);
    p
}

fn join(r: &mut PeerRegistry, id: &str) -> Effects {
    r.handle_network_event(NetworkPeerEvent::Joined(loopback(id, None)))
}

fn ident(device: &str, ts: &str, name: &str) -> PeerIdentity {
    PeerIdentity {
        app_id: "test".into(),
        device_id: device.into(),
        device_name: name.into(),
        os: "linux".into(),
        tailscale_id: ts.into(),
    }
}

fn peer(r: &PeerRegistry, id: &str) -> Option<PeerState> {
    r.peers().into_iter().find(|p| p.id == id)
}

fn gated(local: &str) -> PeerRegistry {
    let mut options = PeerRegistryOptions::default();
    options.login_gated = true;
    options.eager_identity = false;
    options.eager_identity_jitter_ms = 0;
    PeerRegistry::with_options(local, options)
}

#[test]
fn a_node_that_knows_its_id_settles_crossed_dials() {
    let mut r = PeerRegistry::new("");
    join(&mut r, "b");
    assert!(r.connection_accepted("b", 1, None).0);
    assert_eq!(r.dial_succeeded("b", 2, None).effects.close, vec![2]);
    r.set_local_id("a");
    assert_eq!(r.dial_succeeded("b", 3, None).effects.close, vec![1]);
    assert!(!r.connection_accepted("b", 4, None).0);
    assert_eq!(r.eager_concurrency(), 4);
    assert_eq!(r.eager_jitter_window(), 250);
}

#[test]
fn test_peers_from_network_events() {
    let mut registry = PeerRegistry::new("node-a");
    let p1 = make_network_peer("peer-1", "100.64.0.1");
    let p2 = make_network_peer("peer-2", "100.64.0.2");
    registry.handle_network_event(NetworkPeerEvent::Joined(p1));
    registry.handle_network_event(NetworkPeerEvent::Joined(p2));
    let ids: Vec<String> = registry.peers().into_iter().map(|p| p.id).collect();
    assert_eq!(ids.len(), 2);
    assert!(ids.contains(&"peer-1".to_string()));
    assert!(ids.contains(&"peer-2".to_string()));
}

#[test]
fn test_peer_left_removes() {
    let mut registry = PeerRegistry::new("node-a");
    join(&mut registry, "peer-1");
    assert_eq!(registry.peers().len(), 1);
    let e = registry.handle_network_event(NetworkPeerEvent::Left("peer-1".to_string()));
    assert_eq!(registry.peers().len(), 0);
    assert!(matches!(&e.events[..], [PeerEvent::Left(s)] if s.id == "peer-1"));
}

#[test]
fn test_peers_online_without_connection() {
    let mut registry = PeerRegistry::new("node-a");
    join(&mut registry, "peer-1");
    let p = peer(&registry, "peer-1").unwrap();
    assert!(p.online);
    assert!(!p.ws_connected);
}

#[test]
fn test_peer_updated_preserves_connected() {
    let mut registry = PeerRegistry::new("node-a");
    registry
        .handle_network_event(NetworkPeerEvent::Joined(make_network_peer("peer-1", "100.64.0.1")));
    let mut updated = make_network_peer("peer-1", "100.64.0.1");
    updated.relay = Some("sfo".to_string());
    updated.cur_addr = None;
    registry.handle_network_event(NetworkPeerEvent::Updated(updated));
    assert_eq!(registry.peers().len(), 1);
    let p = peer(&registry, "peer-1").unwrap();
    assert_eq!(p.connection_type, "relay:sfo");
    assert!(!p.ws_connected);
}

#[test]
fn test_peer_event_subscription() {
    let mut registry = PeerRegistry::new("node-a");
    let e = join(&mut registry, "peer-1");
    match &e.events[..] {
        [PeerEvent::Joined(state)] => {
            assert_eq!(state.id, "peer-1");
            assert!(state.online);
        }
        other => panic!("expected PeerEvent::Joined, got: {other:?}"),
    }
    assert!(e.schedule);
}

#[test]
fn test_send_unknown_peer_errors() {
    let mut registry = PeerRegistry::new("node-a");
    let err = registry.send("nonexistent-peer", None).unwrap_err();
    assert!(err.message().contains("unknown peer"));
}

#[test]
fn test_send_offline_peer_errors() {
    let mut registry = PeerRegistry::new("node-a");
    let mut p = make_network_peer("peer-1", "100.64.0.1");
    p.online = false;
    registry.handle_network_event(NetworkPeerEvent::Joined(p));
    match registry.send("peer-1", None) {
        Ok((_, DialAction::Fail(err))) => assert!(err.message().contains("offline")),
        other => panic!("expected a failure, got {other:?}"),
    }
}

#[test]
fn test_send_lazy_connects() {
    let mut client = PeerRegistry::new("client");
    join(&mut client, "server");
    let (id, action) = client.send("server", None).unwrap();
    assert_eq!(id, "server");
    assert!(matches!(action, DialAction::Dial(_)));
    // A second caller waits for the first.
    assert!(matches!(client.ensure_ws_connected("server", None), DialAction::Wait(_)));
    let d = client.dial_succeeded("server", 7, Some(ident("dev-server", "server", "S")));
    assert!(d.result.is_ok());
    assert!(peer(&client, "server").unwrap().ws_connected);
    assert_eq!(client.send_target("server").unwrap(), 7);
}

#[test]
fn test_send_reuses_connection() {
    let mut client = PeerRegistry::new("client");
    join(&mut client, "server");
    client.ensure_ws_connected("server", None);
    client.dial_succeeded("server", 7, None);
    let (_, action) = client.send("server", None).unwrap();
    assert!(matches!(action, DialAction::Done));
    assert_eq!(client.send_target("server").unwrap(), 7);
}

#[test]
fn test_broadcast_sends_to_all() {
    let mut r = PeerRegistry::new("sender");
    for (id, conn) in [("peer-b", 1), ("peer-c", 2)] {
        join(&mut r, id);
        r.ensure_ws_connected(id, None);
        r.dial_succeeded(id, conn, None);
    }
    let targets = r.broadcast_targets();
    assert_eq!(targets.len(), 2);
    let report = PeerRegistry::broadcast(&targets, &vec![true, true]);
    assert_eq!((report.attempted, report.queued), (2, 2));
    assert!(report.failed.is_empty());
    let report = PeerRegistry::broadcast(&targets, &vec![true, false]);
    assert_eq!((report.attempted, report.queued), (2, 1));
    assert_eq!(report.failed, vec![targets[1].0.clone()]);
}

#[test]
fn test_broadcast_with_zero_connections() {
    let mut r = PeerRegistry::new("sender");
    join(&mut r, "peer-1");
    let report = PeerRegistry::broadcast(&r.broadcast_targets(), &vec![]);
    assert_eq!((report.attempted, report.queued, report.failed.len()), (0, 0, 0));
}

#[test]
fn test_incoming_message() {
    let m = attribute("client", b"hi".to_vec(), 5);
    assert_eq!((m.from.as_str(), &m.data[..], m.received_at_ms), ("client", &b"hi"[..], 5));
}

#[test]
fn test_disconnect_reconnect() {
    let mut r = PeerRegistry::new("client");
    join(&mut r, "server");
    r.ensure_ws_connected("server", None);
    r.dial_succeeded("server", 1, None);
    let e = r.disconnect("server");
    assert_eq!(e.close, vec![1]);
    assert!(!peer(&r, "server").unwrap().ws_connected);
    assert!(r.send_target("server").is_err());
    assert!(matches!(r.ensure_ws_connected("server", None), DialAction::Dial(_)));
    r.dial_succeeded("server", 2, None);
    assert_eq!(r.send_target("server").unwrap(), 2);
}

#[test]
fn test_peer_left_closes_ws_connection() {
    let mut r = PeerRegistry::new("client");
    join(&mut r, "server");
    r.ensure_ws_connected("server", None);
    r.dial_succeeded("server", 9, None);
    let e = r.handle_network_event(NetworkPeerEvent::Left("server".into()));
    assert_eq!(e.close, vec![9]);
    assert!(e.events.iter().any(|e| matches!(e, PeerEvent::WsDisconnected(id) if id == "server")));
    assert!(e.events.iter().any(|e| matches!(e, PeerEvent::Left(s) if s.id == "server")));
    assert!(r.broadcast_targets().is_empty());
}

#[test]
fn test_hello_exchange_populates_identity() {
    let mut server = PeerRegistry::new("server");
    join(&mut server, "client");
    let (installed, e) =
        server.connection_accepted("client", 3, Some(ident("dev-client", "client", "C")));
    assert!(installed);
    assert!(e.events.iter().any(|e| matches!(e, PeerEvent::WsConnected(id) if id == "client")));
    assert!(e.events.iter().any(|e| matches!(e, PeerEvent::Identity(s) if s.id == "client")));
    let p = peer(&server, "client").unwrap();
    assert!(p.ws_connected);
    assert_eq!(p.published_device_id(), Some("dev-client"));
    assert_eq!(server.resolve_routing_key("dev-client").unwrap(), "client");
    assert_eq!(server.resolve_routing_key("C").unwrap(), "client");
}

#[test]
fn test_rfc022_generation_bumps_on_rejoin() {
    let mut registry = PeerRegistry::new("local");
    join(&mut registry, "peer-a");
    let gen1 = peer(&registry, "peer-a").unwrap().generation;
    assert_eq!(gen1, 1);
    registry.handle_network_event(NetworkPeerEvent::Left("peer-a".into()));
    join(&mut registry, "peer-a");
    let gen2 = peer(&registry, "peer-a").unwrap().generation;
    assert_eq!(gen2, 2);
    assert_ne!(format_peer_ref("peer-a", gen1), format_peer_ref("peer-a", gen2));
    assert!(matches!(registry.resolve_routing_key("peer-a:1"), Err(SessionError::PeerGone(_))));
    assert_eq!(registry.resolve_routing_key("peer-a:2").unwrap(), "peer-a");
}

#[test]
fn test_rfc022_first_wins_duplicate_ulid() {
    let mut registry = PeerRegistry::new("local");
    join(&mut registry, "a");
    join(&mut registry, "b");
    let uid = "01J4K9M2Z8AB3RNYQPW6H5TC0X";
    assert!(registry.test_stamp_identity("a", ident(uid, "a", "Node a")).0);
    assert!(registry.test_stamp_identity("b", ident(uid, "b", "Node b")).0);
    let a = peer(&registry, "a").unwrap();
    let b = peer(&registry, "b").unwrap();
    assert!(!a.identity_suppressed);
    assert_eq!(a.published_device_id(), Some(uid));
    assert!(b.identity_suppressed);
    assert!(b.published_device_id().is_none());
    assert_eq!(registry.test_by_device(uid).as_deref(), Some("a"));
    // The waiting peer inherits when the holder leaves.
    registry.handle_network_event(NetworkPeerEvent::Left("a".into()));
    assert_eq!(peer(&registry, "b").unwrap().published_device_id(), Some(uid));
    assert_eq!(registry.test_by_device(uid).as_deref(), Some("b"));
}

#[test]
fn test_rfc022_ghost_retire_on_offline_holder() {
    let mut registry = PeerRegistry::new("local");
    join(&mut registry, "old");
    join(&mut registry, "new");
    let uid = "01J4K9M2Z8AB3RNYQPW6H5TC0Y";
    assert!(registry.test_stamp_identity("old", ident(uid, "old", "Node old")).0);
    let mut p = loopback("old", None);
    p.online = false;
    registry.handle_network_event(NetworkPeerEvent::Updated(p));
    assert!(registry.test_stamp_identity("new", ident(uid, "new", "Node new")).0);
    assert!(peer(&registry, "old").is_none());
    assert_eq!(peer(&registry, "new").unwrap().published_device_id(), Some(uid));
    assert_eq!(registry.test_by_device(uid).as_deref(), Some("new"));
}

#[test]
fn test_rfc022_cross_dials_choose_the_same_physical_connection() {
    assert_eq!(
        preferred_connection_direction("alpha", "beta"),
        Some(ConnectionDirection::Outbound)
    );
    assert_eq!(
        preferred_connection_direction("beta", "alpha"),
        Some(ConnectionDirection::Inbound)
    );
    assert!(should_replace_connection(
        ConnectionDirection::Inbound,
        ConnectionDirection::Outbound,
        Some(ConnectionDirection::Outbound),
    ));
    assert!(!should_replace_connection(
        ConnectionDirection::Inbound,
        ConnectionDirection::Outbound,
        Some(ConnectionDirection::Inbound),
    ));
    assert_eq!(preferred_connection_direction("", "alpha"), None);
    assert_eq!(preferred_connection_direction("alpha", "alpha"), None);
}

#[test]
fn the_connection_that_both_ends_prefer_stands() {
    let mut alpha = PeerRegistry::new("alpha");
    let inbound = Connection { id: 1, direction: ConnectionDirection::Inbound };
    let outbound = Connection { id: 2, direction: ConnectionDirection::Outbound };
    assert_eq!(alpha.install_connection("beta", inbound), (true, None));
    assert_eq!(alpha.install_connection("beta", outbound), (true, Some(1)));
    assert_eq!(alpha.install_connection("beta", inbound), (false, Some(1)));
    // The loss of the connection that gave way is not the loss of the peer's.
    assert!(alpha.connection_lost("beta", 1).events.is_empty());
    assert_eq!(alpha.connection_lost("beta", 2).events.len(), 1);
    assert!(alpha.connection_lost("beta", 2).events.is_empty());
}

#[test]
fn test_rfc022_inbound_identity_is_reconciled_after_discovery() {
    let mut server = PeerRegistry::new("server");
    server.connection_accepted("client", 1, Some(ident("dev-client", "client", "C")));
    assert!(peer(&server, "client").is_none());
    let e = join(&mut server, "client");
    assert_eq!(peer(&server, "client").unwrap().published_device_id(), Some("dev-client"));
    assert!(matches!(&e.events[..], [PeerEvent::Joined(_), PeerEvent::Identity(_)]));
    assert!(!e.schedule);
}

#[test]
fn test_rfc022_eager_identity_retries_transient_dial_failure() {
    let mut r = PeerRegistry::new("client");
    assert!(join(&mut r, "server").schedule);
    assert!(r.eager_begin("server"));
    assert!(!r.eager_begin("server"));
    assert!(r.eager_needed("server"));
    assert!(matches!(r.eager_connect_ws("server", None), DialAction::Dial(_)));
    let err = r.dial_failed("server", "mock transient dial failure".to_string());
    assert_eq!(err.message(), "connect failed: mock transient dial failure");
    assert_eq!(next_eager_step(&Err(err), None), EagerStep::RetryAfter(100_000_000));
    assert!(matches!(r.eager_connect_ws("server", None), DialAction::Dial(_)));
    let d = r.dial_succeeded("server", 1, Some(ident("dev-server", "server", "S")));
    assert_eq!(next_eager_step(&d.result, None), EagerStep::Stop);
    assert!(!r.eager_needed("server"));
    r.eager_end("server");
    assert!(r.eager_begin("server"));
}

#[test]
fn test_rfc022_eager_identity_disabled_no_auto_hello() {
    let mut options = PeerRegistryOptions::default();
    options.eager_identity = false;
    let mut r = PeerRegistry::with_options("client", options);
    assert!(!join(&mut r, "server").schedule);
    assert!(!r.eager_begin("server"));
}

#[test]
fn eager_searches_end_or_pause() {
    let gone = Err(SessionError::UnknownPeer("p".into()));
    assert_eq!(next_eager_step(&gone, Some(5)), EagerStep::Stop);
    let offline = Err(SessionError::PeerOffline("p".into()));
    assert_eq!(next_eager_step(&offline, None), EagerStep::Stop);
    let other = Err(SessionError::Transport("x".into()));
    assert_eq!(next_eager_step(&other, Some(3_000_000_000)), EagerStep::RetryAfter(3_000_000_000));
    match next_eager_step(&other, Some(1)) {
        EagerStep::RetryAfter(n) => assert!(n > 1),
        EagerStep::Stop => panic!("expected a pause"),
    }
}

#[test]
fn test_parse_peer_ref_forms() {
    assert_eq!(parse_peer_ref("nABC123:3"), Some(("nABC123", 3)));
    assert_eq!(parse_peer_ref("nABC123"), None); // no generation
    assert_eq!(parse_peer_ref("fd7a:115c::1"), None); // IPv6 — multiple colons
    assert_eq!(parse_peer_ref(":3"), None); // empty id
    assert_eq!(parse_peer_ref("nABC:"), None); // empty generation
    assert_eq!(parse_peer_ref("nABC:3a"), None); // non-digit generation
    assert_eq!(parse_peer_ref("n:18446744073709551616"), None);
    assert_eq!(parse_peer_ref("n:18446744073709551615"), Some(("n", u64::MAX)));
    let text = format_peer_ref("a.b-c", 42);
    assert_eq!(text, "a.b-c:42");
    assert_eq!(parse_peer_ref(&text), Some(("a.b-c", 42)));
}

#[test]
fn test_rfc022_routing_ignores_suppressed_and_checks_generation() {
    let mut registry = PeerRegistry::new("local");
    join(&mut registry, "a");
    join(&mut registry, "b");
    let uid = "01J4K9M2Z8AB3RNYQPW6H5TC0X";
    assert!(registry.test_stamp_identity("a", ident(uid, "a", "Holder")).0);
    assert!(registry.test_stamp_identity("b", ident(uid, "b", "Claimant")).0);
    assert_eq!(registry.resolve_routing_key(uid).unwrap(), "a");
    assert!(matches!(
        registry.resolve_routing_key("Claimant"),
        Err(SessionError::UnknownPeer(_))
    ));
    assert_eq!(registry.resolve_routing_key("a:1").unwrap(), "a");
    assert!(matches!(registry.resolve_routing_key("a:9"), Err(SessionError::PeerGone(_))));
    assert!(matches!(registry.resolve_routing_key("gone:1"), Err(SessionError::PeerGone(_))));
}

#[test]
fn test_rfc022_rehello_emits_no_duplicate_identity() {
    let mut registry = PeerRegistry::new("local");
    join(&mut registry, "a");
    let id = |name: &str| ident("01J4K9M2Z8AB3RNYQPW6H5TC0X", "a", name);
    let mut events = Vec::new();
    for name in ["Alice", "Alice", "Alice II"] {
        let (known, more) = registry.test_stamp_identity("a", id(name));
        assert!(known);
        events.extend(more);
    }
    let identity_events = events.iter().filter(|e| matches!(e, PeerEvent::Identity(_))).count();
    let updated = events
        .iter()
        .filter(|e| matches!(e, PeerEvent::Updated(s) if s.identity.is_some()))
        .count();
    assert_eq!(identity_events, 1, "re-hello must not re-emit identity");
    assert_eq!(updated, 1, "rename surfaces as updated");
}

#[test]
fn a_new_device_id_frees_the_old_one() {
    let mut registry = PeerRegistry::new("local");
    join(&mut registry, "a");
    registry.test_stamp_identity("a", ident("dev-1", "a", "A"));
    registry.test_stamp_identity("a", ident("dev-2", "a", "A"));
    assert_eq!(registry.test_by_device("dev-1"), None);
    assert_eq!(registry.test_by_device("dev-2").as_deref(), Some("a"));
    assert!(!registry.test_stamp_identity("stranger", ident("dev-3", "stranger", "S")).0);
}

#[test]
fn test_eager_jitter_delay_bounded_and_stable() {
    // Window 0: no delay.
    assert_eq!(eager_jitter_delay("server", 0), 0);
    assert_eq!(eager_jitter_delay("anything", 0), 0);

    let window = 250;
    for id in ["server", "client", "peer-a", "peer-b", "01J4K9M2Z8AB"] {
        let d = eager_jitter_delay(id, window);
        assert!(d < window, "delay {d} for {id} must be < {window}ms window");
        assert_eq!(d, eager_jitter_delay(id, window), "delay must be stable per peer id");
    }
    let distinct: HashSet<u64> =
        (0..32).map(|i| eager_jitter_delay(&format!("peer-{i}"), window)).collect();
    assert!(distinct.len() > 1);
    assert_eq!(fold_into_window(1003, 250), 3);
    assert_eq!(fold_into_window(1003, 0), 0);
}

#[test]
fn test_gated_registry_refuses_to_dial_a_peer_with_no_login() {
    let mut registry = gated("client");
    registry.handle_network_event(NetworkPeerEvent::Joined(loopback("server", None)));
    let p = peer(&registry, "server").expect("a login-less row must still be a peer");
    assert!(p.online);
    assert!(!p.ws_connected);
    match registry.ensure_ws_connected("server", None) {
        DialAction::Fail(SessionError::LoginUnknown(id)) => assert_eq!(id, "server"),
        other => panic!("expected LoginUnknown, got {other:?}"),
    }
    assert!(!peer(&registry, "server").unwrap().ws_connected);
    assert!(registry.broadcast_targets().is_empty());
}

#[test]
fn test_gated_registry_dials_a_peer_whose_login_is_known() {
    let mut registry = gated("client");
    let p = loopback("server", Some("alice@example.com"));
    registry.handle_network_event(NetworkPeerEvent::Joined(p));
    assert!(matches!(registry.ensure_ws_connected("server", None), DialAction::Dial(_)));
    assert!(registry.dial_succeeded("server", 1, None).result.is_ok());
    assert!(peer(&registry, "server").unwrap().ws_connected);
}

#[test]
fn test_ungated_registry_ignores_an_unknown_login() {
    let mut registry = PeerRegistry::new("client");
    registry.handle_network_event(NetworkPeerEvent::Joined(loopback("server", None)));
    match registry.ensure_ws_connected("server", None) {
        DialAction::Dial(addr) => assert_eq!(addr.ip.as_deref(), Some("127.0.0.1")),
        other => panic!("expected a dial, got {other:?}"),
    }
}

#[test]
fn test_gated_registry_leaves_an_existing_connection_standing() {
    let mut registry = gated("client");
    let p = loopback("server", Some("alice@example.com"));
    registry.handle_network_event(NetworkPeerEvent::Joined(p));
    registry.ensure_ws_connected("server", None);
    registry.dial_succeeded("server", 1, None);
    registry.handle_network_event(NetworkPeerEvent::Updated(loopback("server", None)));
    assert!(matches!(registry.ensure_ws_connected("server", None), DialAction::Done));
    assert!(peer(&registry, "server").unwrap().ws_connected);
}

#[test]
fn test_gated_eager_dial_skips_a_peer_with_no_login() {
    let mut options = PeerRegistryOptions::default();
    options.login_gated = true;
    let mut allowed = PeerRegistry::with_options("allowed", options);
    let p = loopback("server", Some("alice@example.com"));
    allowed.handle_network_event(NetworkPeerEvent::Joined(p));
    assert!(matches!(allowed.eager_connect_ws("server", None), DialAction::Dial(_)));
    let mut blocked = PeerRegistry::with_options("blocked", options);
    blocked.handle_network_event(NetworkPeerEvent::Joined(loopback("server", None)));
    assert!(matches!(
        blocked.eager_connect_ws("server", None),
        DialAction::Fail(SessionError::LoginUnknown(_))
    ));
    assert!(peer(&blocked, "server").is_some());
}

#[test]
fn test_hello_only_peer_publishes_its_device_id_while_connected() {
    let mut server = PeerRegistry::new("server");
    assert_eq!(server.published_device_id("client"), None);
    server.connection_accepted("client", 1, Some(ident("dev-client", "client", "C")));
    assert!(peer(&server, "client").is_none());
    assert_eq!(server.published_device_id("client").as_deref(), Some("dev-client"));
    server.disconnect("client");
    assert_eq!(server.published_device_id("client"), None);
}

#[test]
fn test_hello_only_peer_never_steals_a_published_ulid() {
    let mut server = PeerRegistry::new("server");
    server
        .handle_network_event(NetworkPeerEvent::Joined(make_network_peer("holder", "100.64.0.9")));
    assert!(server.test_stamp_identity("holder", ident("dev-client", "holder", "Holder")).0);
    assert_eq!(server.test_by_device("dev-client").as_deref(), Some("holder"));
    server.connection_accepted("client", 1, Some(ident("dev-client", "client", "C")));
    assert_eq!(server.published_device_id("client"), None);
    assert_eq!(server.published_device_id("holder").as_deref(), Some("dev-client"));
}

#[test]
fn test_an_existing_entry_never_falls_back_to_pending() {
    let mut registry = PeerRegistry::new("me");
    registry
        .handle_network_event(NetworkPeerEvent::Joined(make_network_peer("peer", "100.64.0.4")));
    assert!(peer(&registry, "peer").is_some());
    assert_eq!(registry.published_device_id("peer"), None);
}

#[test]
fn an_impostor_is_turned_away() {
    let mut r = PeerRegistry::new("client");
    join(&mut r, "server");
    r.ensure_ws_connected("server", None);
    let d = r.dial_succeeded("server", 5, Some(ident("dev-x", "other", "X")));
    assert_eq!(
        d.result.unwrap_err().message(),
        "connect failed: hello identity mismatch: dialed server, answerer claims other"
    );
    assert_eq!(d.effects.close, vec![5]);
    assert!(!peer(&r, "server").unwrap().ws_connected);
    assert!(matches!(r.ensure_ws_connected("server", None), DialAction::Dial(_)));
}

#[test]
fn failed_dials_are_spaced() {
    let mut r = PeerRegistry::new("client");
    join(&mut r, "server");
    match r.ensure_ws_connected("server", Some(1_500_000_000)) {
        DialAction::Fail(e) => {
            assert_eq!(e.message(), "reconnect backoff: retry after 1.5s")
        }
        other => panic!("expected a pause, got {other:?}"),
    }
    assert_eq!(
        SessionError::ReconnectBackoff { retry_after_nanos: 250_000_000 }.message(),
        "reconnect backoff: retry after 250ms"
    );
}

#[test]
fn a_wait_for_another_dial_ends() {
    let mut r = PeerRegistry::new("client");
    join(&mut r, "server");
    r.ensure_ws_connected("server", None);
    let DialAction::Wait(addr) = r.ensure_ws_connected("server", None) else {
        panic!("expected a wait");
    };
    let mut action = DialAction::Wait(addr);
    let mut polls = 0;
    while let DialAction::Wait(a) = action {
        polls += 1;
        action = r.dial_waited("server", a, polls);
    }
    match action {
        DialAction::Fail(e) => {
            assert_eq!(e.message(), "connect failed: connection already in progress")
        }
        other => panic!("expected a failure, got {other:?}"),
    }
}

#[test]
fn a_shutdown_gives_up_every_connection() {
    let mut r = PeerRegistry::new("me");
    for (id, conn) in [("a", 1), ("b", 2)] {
        join(&mut r, id);
        r.connection_accepted(id, conn, None);
    }
    let mut closed = r.shutdown().close;
    closed.sort();
    assert_eq!(closed, vec![1, 2]);
    assert!(r.broadcast_targets().is_empty());
}

#[test]
fn session_errors_name_their_peer() {
    let cases = [
        (SessionError::UnknownPeer("p".into()), "unknown peer: p"),
        (SessionError::PeerGone("p".into()), "peer gone: p"),
        (SessionError::PeerOffline("p".into()), "peer offline: p"),
        (SessionError::SendFailed("x".into()), "send failed: x"),
        (SessionError::LoginUnknown("p".into()), "login unknown for peer: p"),
        (SessionError::Transport("x".into()), "transport error: x"),
    ];
    for (e, text) in cases {
        assert_eq!(e.message(), text);
    }
}

#[test]
fn test_send_and_wait_timeout() {
    let p = PendingRequest::sent(Ok(()), 100, 50).unwrap();
    assert_eq!(p.patience(120).unwrap(), 30);
    assert!(matches!(p.hear::<u8>(Heard::TimedOut), WaitStep::Over(Err(RequestError::Timeout))));
    assert!(matches!(p.patience(150), Err(RequestError::Timeout)));
}

#[test]
fn test_send_and_wait_send_failure_unknown_peer() {
    match PendingRequest::sent(Err("unknown peer: x".to_string()), 0, 1) {
        Err(RequestError::Send(why)) => assert_eq!(why, "unknown peer: x"),
        _ => panic!("expected a failure"),
    }
}

#[test]
fn test_send_and_wait_filter_matches() {
    let p = PendingRequest::sent(Ok(()), 0, 1_000).unwrap();
    assert!(matches!(p.hear::<u8>(Heard::Message(None)), WaitStep::Again));
    assert!(matches!(p.hear::<u8>(Heard::Lagged), WaitStep::Again));
    assert!(matches!(p.hear(Heard::Message(Some(7u8))), WaitStep::Over(Ok(7))));
    assert!(matches!(
        p.hear::<u8>(Heard::Closed),
        WaitStep::Over(Err(RequestError::ChannelClosed))
    ));
    assert_ne!(RequestError::Timeout.message(), RequestError::ChannelClosed.message());
}
