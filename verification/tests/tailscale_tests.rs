use truffle::network::tailscale::protocol::{
    EventPayload, PeerChangedEventData, PingResultEventData, ProxyInfoEventData, SidecarCommand,
    SidecarPeer, StartCommandData, StatusEventData, WhoisResultEventData,
};
use truffle::network::tailscale::provider::{
    start_unheard, ProviderState, Report, StartSilence, TailscaleConfig, TailscaleProvider,
};
use truffle::network::tailscale::rows::{
    admit_peer, classify_row, is_app_peer, login_gate_supported, row_keeps_peer, sidecar_peer_to_network_peer,
    RowVerdict, LOGIN_NAME_PROTOCOL_VERSION,
};
use truffle::network::tailscale::rpc::{
    map_ping_result, map_whois_result, DialNews, DialWait, Outcome, Overheard, Request, Routed,
};
use truffle::network::tailscale::sidecar::{
    map_event, PendingReplies, SidecarConfig, SidecarInternalEvent,
};
use truffle::network::types::{
    DialOpts, ListenOpts, NetworkError, NetworkPeerEvent, ProxyAddParams, TailscalePeerIdentity,
};

fn config(login_allow: &[&str]) -> TailscaleConfig {
    TailscaleConfig {
        binary_path: "/opt/sidecar".to_string(),
        app_id: "playground".to_string(),
        device_id: "01JZZZZZZZZZZZZZZZZZZZZZZZ".to_string(),
        device_name: "dev".to_string(),
        hostname: "truffle-playground-dev".to_string(),
        state_dir: "/tmp/state".to_string(),
        auth_key: Some("dummy-auth-SECRET123".to_string()),
        ephemeral: None,
        tags: None,
        idle_timeout_secs: None,
        login_allow: login_allow.iter().map(|s| s.to_string()).collect(),
    }
}

#[test]
fn tailscale_config_debug_redacts_auth_key() {
    let config = TailscaleConfig {
        binary_path: "/opt/sidecar".to_string(),
        app_id: "demo".to_string(),
        device_id: "01JZZZZZZZZZZZZZZZZZZZZZZZ".to_string(),
        device_name: "dev".to_string(),
        hostname: "truffle-demo-dev".to_string(),
        state_dir: "/tmp/state".to_string(),
        auth_key: Some("dummy-auth-SECRET123".to_string()),
        ephemeral: None,
        tags: None,
        idle_timeout_secs: None,
        login_allow: Vec::new(),
    };
    let dbg = config.debug_text();
    assert!(!dbg.contains("SECRET123"));
    assert!(dbg.contains("[REDACTED]"));
}

#[test]
fn sidecar_config_debug_redacts_secrets() {
    let config = SidecarConfig {
        binary_path: "/opt/sidecar".to_string(),
        hostname: "truffle-demo-dev".to_string(),
        state_dir: "/tmp/state".to_string(),
        auth_key: Some("dummy-auth-SECRET123".to_string()),
        bridge_port: 12345,
        session_token_hex: "deadbeef".repeat(8),
        ephemeral: None,
        tags: None,
        idle_timeout_secs: None,
    };
    let dbg = config.debug_text();
    assert!(!dbg.contains("SECRET123"));
    assert!(!dbg.contains("deadbeef"));
    assert!(dbg.contains("[REDACTED]"));
    assert!(dbg.contains("12345"));
}

#[test]
fn debug_redacts_start_command_secrets() {
    let data = StartCommandData {
        hostname: "my-node".to_string(),
        state_dir: "/tmp/tsnet".to_string(),
        auth_key: Some("dummy-auth-SECRET123".to_string()),
        bridge_port: 12345,
        session_token: "deadbeef".repeat(8),
        ephemeral: None,
        tags: None,
        idle_timeout_secs: None,
    };
    let dbg = data.debug_text();
    assert!(!dbg.contains("SECRET123"));
    assert!(!dbg.contains("deadbeef"));
    assert!(dbg.contains("[REDACTED]"));
    assert_eq!(data.auth_key.as_deref(), Some("dummy-auth-SECRET123"));
    assert!(data.session_token.contains("deadbeef"));
    let cmd = SidecarCommand::Start(data);
    let dbg = cmd.debug_text();
    assert!(!dbg.contains("SECRET123"));
    assert!(!dbg.contains("deadbeef"));
    assert_eq!(cmd.command(), "tsnet:start");
    assert!(cmd.has_data());
}

#[test]
fn quoted_texts_in_logs_are_escaped() {
    let mut c = config(&[]);
    c.device_name = "a\"b\nc".to_string();
    c.tags = Some(vec!["x".to_string(), "y".to_string()]);
    let dbg = c.debug_text();
    assert!(dbg.contains("device_name: \"a\\\"b\\nc\""), "{dbg}");
    assert!(dbg.contains("tags: Some([\"x\", \"y\"])"), "{dbg}");
    assert!(dbg.starts_with("TailscaleConfig { binary_path: \"/opt/sidecar\""), "{dbg}");
}

#[test]
fn the_session_token_is_what_was_drawn() {
    let mut drawn = [0u8; 32];
    drawn[0] = 7;
    drawn[31] = 255;
    assert_eq!(TailscaleProvider::token_of(Ok(drawn)).unwrap(), drawn);
    match TailscaleProvider::token_of(Err("no entropy".to_string())) {
        Err(NetworkError::Internal(text)) => {
            assert_eq!(text, "failed to generate session token: no entropy")
        }
        _ => panic!("not the error of a missing token"),
    }
}

#[test]
fn the_session_token_goes_out_in_hexadecimal() {
    let mut token = [0u8; 32];
    token[0] = 0xde;
    token[31] = 0x0f;
    let c = TailscaleProvider::sidecar_config(&config(&[]), 4711, &token);
    assert_eq!(c.session_token_hex, format!("de{}0f", "00".repeat(30)));
    assert_eq!(c.bridge_port, 4711);
    let start = c.start_command();
    match start {
        SidecarCommand::Start(data) => {
            assert_eq!(data.session_token, c.session_token_hex);
            assert_eq!(data.auth_key.as_deref(), Some("dummy-auth-SECRET123"));
        }
        other => panic!("{}", other.command()),
    }
    let a = TailscaleProvider::generate_session_token().unwrap();
    let b = TailscaleProvider::generate_session_token().unwrap();
    assert_ne!(a, b);
}

fn peer_row(id: &str, hostname: &str, login: Option<&str>) -> SidecarPeer {
    SidecarPeer {
        id: id.into(),
        hostname: hostname.into(),
        dns_name: format!("{hostname}.tailnet.ts.net"),
        ip: Some("100.64.0.2".into()),
        online: true,
        os: "linux".into(),
        cur_addr: String::new(),
        relay: String::new(),
        last_seen: None,
        key_expiry: None,
        expired: false,
        login_name: login.map(Into::into),
    }
}

fn named(events: &[NetworkPeerEvent]) -> Vec<(&'static str, String)> {
    let mut out = Vec::new();
    for ev in events {
        match ev {
            NetworkPeerEvent::Joined(p) => out.push(("joined", p.id.clone())),
            NetworkPeerEvent::Updated(p) => out.push(("updated", p.id.clone())),
            NetworkPeerEvent::Left(id) => out.push(("left", id.clone())),
            _ => {}
        }
    }
    out.sort();
    out
}

fn change(p: &mut TailscaleProvider, word: &str, row: SidecarPeer) -> Vec<(&'static str, String)> {
    let r = p.process_event(SidecarInternalEvent::PeerChanged(PeerChangedEventData {
        change_type: word.to_string(),
        peer_id: row.id.clone(),
        peer: Some(row),
    }));
    named(&r.events)
}

fn snapshot(p: &mut TailscaleProvider, rows: Vec<SidecarPeer>) -> Vec<(&'static str, String)> {
    let r = p.process_event(SidecarInternalEvent::PeersReceived(rows));
    named(&r.events)
}

#[test]
fn peers_received_reports_only_matching_logins() {
    let mut p = TailscaleProvider::new(&config(&["alice@example.com"]));
    let events = snapshot(
        &mut p,
        vec![
            peer_row("n1", "truffle-playground-alice", Some("alice@example.com")),
            peer_row("n2", "truffle-playground-bob", Some("bob@example.com")),
            peer_row("n3", "truffle-playground-ghost", None),
        ],
    );
    assert_eq!(events, [("joined", "n1".to_string())]);
    assert_eq!(p.peers().len(), 1);
    assert_eq!(p.peer("n1").unwrap().login_name.as_deref(), Some("alice@example.com"));
}

#[test]
fn ungated_peers_received_keeps_login_less_rows() {
    let mut p = TailscaleProvider::new(&config(&[]));
    let events = snapshot(
        &mut p,
        vec![
            peer_row("n1", "truffle-playground-alice", Some("alice@example.com")),
            peer_row("n3", "truffle-playground-ghost", None),
        ],
    );
    assert_eq!(events, [("joined", "n1".to_string()), ("joined", "n3".to_string())]);
    assert_eq!(p.peer("n3").unwrap().login_name, None);
}

#[test]
fn peer_changed_add_honours_the_gate() {
    let mut p = TailscaleProvider::new(&config(&["*@example.com"]));
    let a = change(
        &mut p,
        "joined",
        peer_row("n1", "truffle-playground-alice", Some("alice@example.com")),
    );
    let b = change(
        &mut p,
        "joined",
        peer_row("n2", "truffle-playground-eve", Some("eve@stranger.test")),
    );
    let c = change(&mut p, "joined", peer_row("n3", "truffle-playground-ghost", None));
    assert_eq!(a, [("joined", "n1".to_string())]);
    assert!(b.is_empty() && c.is_empty());
    assert!(p.peer("n1").is_some());
    assert!(p.peer("n2").is_none());
    assert!(p.peer("n3").is_none());
}

fn started(login: Option<&str>, version: Option<u32>) -> SidecarInternalEvent {
    SidecarInternalEvent::Started {
        hostname: "truffle-playground-dev".into(),
        dns_name: "truffle-playground-dev.tailnet.ts.net".into(),
        ip: Some("100.64.0.1".into()),
        node_id: "nodeSELF".into(),
        login_name: login.map(Into::into),
        protocol_version: version,
    }
}

fn running(version: u32) -> TailscaleProvider {
    let mut p = TailscaleProvider::new(&config(&[]));
    p.start().unwrap();
    let r = p.process_event(started(None, Some(version)));
    assert!(matches!(r.started, Some(Ok(()))));
    p
}

#[test]
fn started_fills_the_nodes_own_login() {
    let mut p = TailscaleProvider::new(&config(&[]));
    p.process_event(started(Some("alice@example.com"), Some(LOGIN_NAME_PROTOCOL_VERSION)));
    assert_eq!(p.local_identity().login_name.as_deref(), Some("alice@example.com"));
    // A later status without the login does not clear it.
    p.process_event(started(None, Some(4)));
    assert_eq!(p.local_identity().login_name.as_deref(), Some("alice@example.com"));

    let mut p = TailscaleProvider::new(&config(&[]));
    p.process_event(started(None, Some(4)));
    assert_eq!(p.local_identity().login_name, None);
    assert_eq!(p.local_identity().tailscale_id, "nodeSELF");
    assert_eq!(p.local_addr().ip.as_deref(), Some("100.64.0.1"));
    assert!(p.health().healthy);
}

#[test]
fn an_admitted_peer_whose_login_changes_to_a_foreign_one_is_evicted() {
    let mut p = TailscaleProvider::new(&config(&["*@example.com"]));
    assert_eq!(
        change(
            &mut p,
            "joined",
            peer_row("n1", "truffle-playground-alice", Some("alice@example.com"))
        ),
        [("joined", "n1".to_string())]
    );
    assert!(p.peer("n1").is_some());
    assert_eq!(
        change(
            &mut p,
            "updated",
            peer_row("n1", "truffle-playground-alice", Some("eve@stranger.test"))
        ),
        [("left", "n1".to_string())]
    );
    assert!(p.peer("n1").is_none());
}

#[test]
fn a_foreign_peer_whose_login_becomes_allowed_joins() {
    let mut p = TailscaleProvider::new(&config(&["*@example.com"]));
    assert!(change(
        &mut p,
        "joined",
        peer_row("n1", "truffle-playground-eve", Some("eve@stranger.test"))
    )
    .is_empty());
    assert!(p.peer("n1").is_none());
    assert_eq!(
        change(
            &mut p,
            "updated",
            peer_row("n1", "truffle-playground-eve", Some("alice@example.com"))
        ),
        [("joined", "n1".to_string())]
    );
    assert_eq!(p.peer("n1").unwrap().login_name.as_deref(), Some("alice@example.com"));
}

#[test]
fn a_login_less_row_keeps_an_admitted_peer_but_never_admits_a_stranger() {
    let mut p = TailscaleProvider::new(&config(&["*@example.com"]));
    change(
        &mut p,
        "joined",
        peer_row("n1", "truffle-playground-alice", Some("alice@example.com")),
    );
    let mut quiet = peer_row("n1", "truffle-playground-alice", None);
    quiet.online = false;
    assert_eq!(change(&mut p, "updated", quiet), [("updated", "n1".to_string())]);
    let kept = p.peer("n1").unwrap();
    assert!(!kept.online);
    assert_eq!(kept.login_name, None);
    assert!(change(&mut p, "joined", peer_row("n2", "truffle-playground-ghost", None)).is_empty());
    assert!(p.peer("n2").is_none());
}

#[test]
fn a_snapshot_evicts_on_a_refused_login_and_keeps_on_an_absent_one() {
    let mut p = TailscaleProvider::new(&config(&["*@example.com"]));
    assert_eq!(
        snapshot(
            &mut p,
            vec![
                peer_row("n1", "truffle-playground-alice", Some("alice@example.com")),
                peer_row("n2", "truffle-playground-bob", Some("bob@example.com")),
            ],
        ),
        [("joined", "n1".to_string()), ("joined", "n2".to_string())]
    );
    let events = snapshot(
        &mut p,
        vec![
            peer_row("n1", "truffle-playground-alice", Some("eve@stranger.test")),
            peer_row("n2", "truffle-playground-bob", None),
        ],
    );
    assert!(events.contains(&("left", "n1".to_string())));
    assert!(!events.contains(&("left", "n2".to_string())));
    assert!(p.peer("n1").is_none());
    assert_eq!(p.peer("n2").unwrap().login_name, None);
}

#[test]
fn ungated_peer_changed_updated_always_updates() {
    let mut p = TailscaleProvider::new(&config(&[]));
    change(
        &mut p,
        "joined",
        peer_row("n1", "truffle-playground-alice", Some("alice@example.com")),
    );
    for login in [Some("eve@stranger.test"), None, Some("")] {
        let mut row = peer_row("n1", "truffle-playground-alice", login);
        row.online = false;
        assert_eq!(change(&mut p, "updated", row), [("updated", "n1".to_string())]);
        assert!(p.peer("n1").is_some());
    }
    assert!(!p.peer("n1").unwrap().online);
}

#[test]
fn classify_row_separates_refusal_from_ignorance() {
    let gate = vec!["*@example.com".to_string()];
    let cases = [
        ("alice@example.com", RowVerdict::Allowed),
        ("eve@stranger.test", RowVerdict::LoginRefused),
    ];
    for (login, want) in cases {
        assert_eq!(
            classify_row(&peer_row("n", "truffle-playground-x", Some(login)), "playground", &gate),
            want
        );
    }
    for login in [None, Some("")] {
        assert_eq!(
            classify_row(&peer_row("n", "truffle-playground-x", login), "playground", &gate),
            RowVerdict::LoginUnknown
        );
    }
    assert_eq!(
        classify_row(
            &peer_row("n", "truffle-chat-x", Some("alice@example.com")),
            "playground",
            &gate
        ),
        RowVerdict::NotOurApp
    );
    for login in [None, Some(""), Some("anyone@anywhere.test")] {
        assert_eq!(
            classify_row(&peer_row("n", "truffle-playground-x", login), "playground", &[]),
            RowVerdict::Allowed
        );
    }
    let unknown = peer_row("n", "truffle-playground-x", None);
    assert!(!admit_peer(&unknown, "playground", &gate));
    assert!(row_keeps_peer(&unknown, "playground", &gate));
    let refused = peer_row("n", "truffle-playground-x", Some("eve@stranger.test"));
    assert!(!admit_peer(&refused, "playground", &gate));
    assert!(!row_keeps_peer(&refused, "playground", &gate));
}

#[test]
fn applications_do_not_see_each_other() {
    assert!(is_app_peer("truffle-notes-dev", "notes"));
    assert!(!is_app_peer("truffle-notes-", "notes"));
    assert!(!is_app_peer("truffle-notes-dev", "chat"));
    assert!(!is_app_peer("truffle-chat-dev", "notes"));
    assert!(is_app_peer("truffle-notes-two-dev", "notes-two"));
    assert!(is_app_peer("truffle-notes-two-dev", "notes"));

    let mut p = running(5);
    let ours = peer_row("n1", "truffle-playground-one", None);
    assert_eq!(change(&mut p, "joined", ours), vec![("joined", "n1".to_string())]);
    let theirs = peer_row("n1", "truffle-other-one", None);
    assert_eq!(change(&mut p, "updated", theirs), vec![("left", "n1".to_string())]);
    let stranger = peer_row("n2", "truffle-other-two", None);
    assert!(change(&mut p, "joined", stranger).is_empty());
}

#[test]
fn login_gate_requires_protocol_five() {
    let gate = vec!["alice@example.com".to_string()];
    for v in [0, 1, 4, 5, 6] {
        assert!(login_gate_supported(&[], v).is_ok(), "ungated at v{v}");
    }
    for v in [0, 1, 2, 3, 4] {
        let Err(err) = login_gate_supported(&gate, v) else {
            panic!("a gated node must refuse sidecar protocol {v}");
        };
        let msg = err.message();
        assert!(matches!(err, NetworkError::StartFailed(_)), "{msg}");
        assert!(
            msg.contains("login_allow requires sidecar protocol 5"),
            "unexpected message: {msg}"
        );
        assert!(msg.contains(&format!("speaks {v}")), "unexpected message: {msg}");
    }
    for v in [5, 6, 99] {
        assert!(login_gate_supported(&gate, v).is_ok(), "gated at v{v}");
    }
}

#[test]
fn network_peer_login_is_absent_never_empty() {
    let np = sidecar_peer_to_network_peer(&peer_row("n1", "truffle-playground-blank", Some("")));
    assert_eq!(np.login_name, None);
    let np = sidecar_peer_to_network_peer(&peer_row(
        "n2",
        "truffle-playground-alice",
        Some("alice@example.com"),
    ));
    assert_eq!(np.login_name.as_deref(), Some("alice@example.com"));
    let np = sidecar_peer_to_network_peer(&peer_row("n3", "truffle-playground-x", None));
    assert_eq!(np.login_name, None);
}

#[test]
fn a_start_begins_once_and_ends_once() {
    let mut p = TailscaleProvider::new(&config(&["*@example.com"]));
    assert!(p.start().is_ok());
    assert!(matches!(p.start(), Err(NetworkError::AlreadyRunning)));
    let r: Report = p.process_event(started(None, Some(4)));
    let ended = r.started.expect("the start is told");
    let r = p.process_event(started(None, Some(4)));
    assert!(r.started.is_none());
    // The sidecar is too old for a node that admits listed logins only.
    let err = p.start_ended(ended).unwrap_err();
    assert_eq!(
        err.message(),
        "start failed: login_allow requires sidecar protocol 5 (loginName on peers); this sidecar \
         speaks 4"
    );
    assert_eq!(p.health().state, "stopped");
    assert!(p.start().is_ok());
}

#[test]
fn a_failed_start_says_why() {
    let mut p = TailscaleProvider::new(&config(&[]));
    p.start().unwrap();
    let r = p.process_event(SidecarInternalEvent::Error {
        code: "AUTH".into(),
        message: "key expired".into(),
    });
    let err = p.start_ended(r.started.unwrap()).unwrap_err();
    assert_eq!(err.message(), "sidecar error: [AUTH] key expired");
    assert!(p.start().is_ok());
    let r = p.process_event(SidecarInternalEvent::ProcessExited { exit_code: Some(-9) });
    assert!(r.ended);
    match r.started {
        Some(Err(e)) => {
            assert_eq!(e.message(), "sidecar error: process exited with code Some(-9)")
        }
        _ => panic!("the start failed"),
    }
    assert_eq!(p.health().state, "crashed");
    let r = p.process_event(SidecarInternalEvent::ProcessExited { exit_code: None });
    assert!(r.started.is_none());
    assert_eq!(
        start_unheard(StartSilence::Dropped).message(),
        "start failed: start signal channel dropped"
    );
}

#[test]
fn reports_change_the_health() {
    let mut p = running(5);
    p.process_event(SidecarInternalEvent::HealthWarning { warnings: vec!["dns".into()] });
    assert!(!p.health().healthy);
    assert_eq!(p.health().warnings, vec!["dns".to_string()]);
    p.process_event(SidecarInternalEvent::HealthWarning { warnings: vec![] });
    assert!(p.health().healthy);
    p.process_event(SidecarInternalEvent::KeyExpiring { expires_at: "soon".into() });
    assert_eq!(p.health().key_expiry.as_deref(), Some("soon"));
    p.process_event(SidecarInternalEvent::StateChange { state: "NeedsLogin".into() });
    assert_eq!(p.health().state, "NeedsLogin");
    let r = p.process_event(SidecarInternalEvent::AuthRequired { auth_url: "https://a".into() });
    assert!(matches!(&r.events[..], [NetworkPeerEvent::AuthRequired { url }] if url == "https://a"));
    let r = p.process_event(SidecarInternalEvent::ProxyError {
        id: "w".into(),
        code: "BIND".into(),
        message: "in use".into(),
    });
    assert_eq!(r.proxy_error.unwrap().code, "BIND");
    let r = p.process_event(SidecarInternalEvent::Stopped);
    assert!(r.ended);
    assert!(p.require_running().is_err());
}

#[test]
fn a_node_is_not_its_own_peer() {
    let mut p = running(5);
    assert!(change(&mut p, "joined", peer_row("nodeSELF", "truffle-playground-dev", None)).is_empty());
    assert!(snapshot(&mut p, vec![peer_row("nodeSELF", "truffle-playground-dev", None)]).is_empty());
    change(&mut p, "joined", peer_row("n1", "truffle-playground-a", None));
    let r = p.process_event(SidecarInternalEvent::PeerChanged(PeerChangedEventData {
        change_type: "left".into(),
        peer_id: "n1".into(),
        peer: None,
    }));
    assert_eq!(named(&r.events), [("left", "n1".to_string())]);
    p.begin_stop();
    assert!(matches!(p.require_running(), Err(NetworkError::NotRunning)));
    assert!(matches!(p.start(), Err(NetworkError::AlreadyRunning)));
    assert_eq!(p.peers().len(), 0);
    p.stop();
    assert!(p.peers().is_empty());
    assert!(matches!(p.require_running(), Err(NetworkError::NotRunning)));
    assert_eq!(ProviderState::Stopped, ProviderState::Stopped);
}

// ---------------------------------------------------------------------------
// Requests
// ---------------------------------------------------------------------------

fn proxy_params() -> ProxyAddParams {
    ProxyAddParams {
        id: "web".into(),
        name: "web".into(),
        listen_port: 443,
        target_host: "localhost".into(),
        target_port: 8080,
        target_scheme: "http".into(),
        tls: true,
        allow_non_loopback: false,
        allow: vec![],
        routes: vec![],
    }
}

#[test]
fn request_ids_go_to_sidecars_that_send_them_back() {
    let id = || "req-1".to_string();
    let old = running(1);
    let new = running(4);
    match old.listen_command(80, ListenOpts { tls: false }, id()).unwrap() {
        SidecarCommand::Listen { port, tls, request_id } => {
            assert_eq!((port, tls, request_id), (80, None, None))
        }
        other => panic!("{}", other.command()),
    }
    match new.listen_command(0, ListenOpts { tls: true }, id()).unwrap() {
        SidecarCommand::Listen { port, tls, request_id } => {
            assert_eq!((port, tls, request_id), (0, Some(true), Some(id())))
        }
        other => panic!("{}", other.command()),
    }
    assert!(matches!(
        running(2).ping_command("p", id()).unwrap(),
        SidecarCommand::Ping { request_id: Some(_), ping_type: None, .. }
    ));
    assert!(matches!(
        old.ping_command("p", id()).unwrap(),
        SidecarCommand::Ping { request_id: None, .. }
    ));
    assert!(matches!(
        new.bind_command(9, id()).unwrap(),
        SidecarCommand::ListenPacket { port: 9, request_id: Some(_) }
    ));
    assert!(matches!(
        old.proxy_list_command(id()).unwrap(),
        SidecarCommand::ProxyList { request_id: None }
    ));
    assert!(matches!(
        new.proxy_remove_command("web", id()).unwrap(),
        SidecarCommand::ProxyRemove { request_id: Some(_), .. }
    ));
    assert!(matches!(
        old.dial_command("peer", 7, DialOpts { tls: Some(true) }, id()).unwrap(),
        SidecarCommand::Dial { port: 7, tls: Some(true), .. }
    ));
    assert!(matches!(new.unlisten_tcp(80).unwrap(), SidecarCommand::Unlisten { port: 80 }));
}

fn is_random(id: &str) -> bool {
    let hyphens: Vec<usize> =
        id.char_indices().filter(|(_, c)| *c == '-').map(|(i, _)| i).collect();
    id.len() == 36
        && hyphens == [8, 13, 18, 23]
        && id.chars().all(|c| c == '-' || (c.is_ascii_hexdigit() && !c.is_ascii_uppercase()))
        && id.as_bytes()[14] == b'4'
        && b"89ab".contains(&id.as_bytes()[19])
}

#[test]
fn requests_get_random_ids() {
    let p = running(5);
    let mut ids = Vec::new();
    match p.dial_tcp_opts("peer", 7, DialOpts { tls: None }).unwrap() {
        SidecarCommand::Dial { request_id, .. } => ids.push(request_id),
        _ => panic!("not a dial"),
    }
    match p.listen_tcp_opts(80, ListenOpts { tls: false }).unwrap() {
        SidecarCommand::Listen { request_id, .. } => ids.extend(request_id),
        _ => panic!("not a listen"),
    }
    match p.ping("p").unwrap() {
        SidecarCommand::Ping { request_id, .. } => ids.extend(request_id),
        _ => panic!("not a ping"),
    }
    match p.whois("a").unwrap() {
        SidecarCommand::Whois { request_id, .. } => ids.extend(request_id),
        _ => panic!("not a whois"),
    }
    match p.bind_udp(9).unwrap() {
        SidecarCommand::ListenPacket { request_id, .. } => ids.extend(request_id),
        _ => panic!("not a bind"),
    }
    match p.proxy_add(proxy_params()).unwrap() {
        SidecarCommand::ProxyAdd(data) => ids.extend(data.request_id),
        _ => panic!("not a proxy"),
    }
    match p.proxy_remove("web").unwrap() {
        SidecarCommand::ProxyRemove { request_id, .. } => ids.extend(request_id),
        _ => panic!("not a removal"),
    }
    match p.proxy_list().unwrap() {
        SidecarCommand::ProxyList { request_id } => ids.extend(request_id),
        _ => panic!("not a list"),
    }
    assert_eq!(ids.len(), 8);
    assert!(ids.iter().all(|id| is_random(id)));
    ids.sort();
    ids.dedup();
    assert_eq!(ids.len(), 8);
    assert!(matches!(
        TailscaleProvider::new(&config(&[])).proxy_list(),
        Err(NetworkError::NotRunning)
    ));
}

#[test]
fn old_sidecars_are_not_asked_what_they_do_not_know() {
    let err = running(2).whois_command("a", "r".into()).err().unwrap();
    assert_eq!(
        err.message(),
        "unsupported: sidecar protocol v2 predates tsnet:whois; upgrade the sidecar binary (needs v3)"
    );
    assert!(running(3).whois_command("a", "r".into()).is_ok());
    assert!(running(0).proxy_add_command(proxy_params(), "r".into()).is_ok());
    let mut gated = proxy_params();
    gated.allow = vec!["*@corp.com".into()];
    let err = running(1).proxy_add_command(gated, "r".into()).err().unwrap();
    assert_eq!(
        err.message(),
        "proxy error: sidecar protocol v1 predates RFC 023 \u{2014} routes, allow lists, \
         tls: false, and non-loopback targets need a v2 sidecar; upgrade the sidecar binary"
    );
    assert!(matches!(err, NetworkError::ProxyError(_)));
    let mut plain = proxy_params();
    plain.tls = false;
    assert!(running(1).proxy_add_command(plain, "r".into()).is_err());
    let mut plain = proxy_params();
    plain.tls = false;
    assert!(running(2).proxy_add_command(plain, "r".into()).is_ok());
    let stopped = TailscaleProvider::new(&config(&[]));
    assert!(matches!(stopped.ping_command("p", "r".into()), Err(NetworkError::NotRunning)));
    assert!(matches!(stopped.unlisten_tcp(1), Err(NetworkError::NotRunning)));
}

fn ping_data(error: &str) -> PingResultEventData {
    PingResultEventData {
        target: "p".into(),
        latency_ms_bits: 12.5f64.to_bits(),
        direct: false,
        relay: "sfo".into(),
        peer_addr: String::new(),
        error: error.into(),
    }
}

#[test]
fn ping_and_whois_results() {
    let r = map_ping_result(ping_data("")).unwrap();
    assert_eq!(f64::from_bits(r.latency_ms_bits), 12.5);
    assert_eq!(r.connection, "relay:sfo");
    assert_eq!(r.peer_addr, None);
    let mut d = ping_data("");
    d.direct = true;
    d.peer_addr = "1.2.3.4:5".into();
    let r = map_ping_result(d).unwrap();
    assert_eq!(r.connection, "direct");
    assert_eq!(r.peer_addr.as_deref(), Some("1.2.3.4:5"));
    let mut d = ping_data("");
    d.relay = String::new();
    assert_eq!(map_ping_result(d).unwrap().connection, "unknown");
    assert_eq!(map_ping_result(ping_data("no reply")).unwrap_err().message(), "ping failed: no reply");

    let who = |login: Option<&str>, error: &str| WhoisResultEventData {
        addr: "a".into(),
        identity: Some(TailscalePeerIdentity {
            dns_name: Some(String::new()),
            login_name: login.map(Into::into),
            display_name: None,
            profile_pic_url: None,
            node_id: None,
        }),
        error: error.into(),
    };
    let owner = map_whois_result(who(Some("alice@example.com"), "")).unwrap().unwrap();
    assert_eq!(owner.login_name.as_deref(), Some("alice@example.com"));
    assert_eq!(owner.dns_name, None);
    assert!(map_whois_result(who(Some(""), "")).unwrap().is_none());
    assert!(map_whois_result(who(None, "boom")).is_err());
}

#[test]
fn routed_answers() {
    let q = Request::Listen { port: 80 };
    let ok = q.settle_routed(Routed::Event(SidecarInternalEvent::Listening { port: 81 }), "");
    assert!(matches!(ok, Ok(Outcome::Port(81))));
    let text = |r: Result<Outcome, NetworkError>| match r {
        Ok(_) => panic!("an error"),
        Err(e) => e.message(),
    };
    let error = || SidecarInternalEvent::Error { code: "C".into(), message: "m".into() };
    assert_eq!(text(q.settle_routed(Routed::Event(error()), "")), "listen failed: [C] m");
    assert_eq!(
        text(q.settle_routed(Routed::TimedOut, "")),
        "listen failed: listen confirmation timed out"
    );
    assert_eq!(
        text(q.settle_routed(Routed::Dropped, "")),
        "sidecar error: reply channel closed before a result arrived"
    );
    assert_eq!(
        text(q.settle_routed(Routed::Event(SidecarInternalEvent::DialSucceeded), "DialSucceeded")),
        "sidecar error: unexpected listen reply: DialSucceeded"
    );
    let q = Request::BindUdp { port: 5 };
    assert_eq!(
        text(q.settle_routed(Routed::Event(error()), "")),
        "listen failed: UDP bind failed [C] m"
    );
    let q = Request::ProxyList;
    let proxies = vec![ProxyInfoEventData {
        id: "web".into(),
        name: "w".into(),
        listen_port: 1,
        target_host: "h".into(),
        target_port: 2,
        target_scheme: "http".into(),
        url: "u".into(),
    }];
    match q.settle_routed(Routed::Event(SidecarInternalEvent::ProxyList { proxies }), "") {
        Ok(Outcome::Proxies(v)) => {
            assert_eq!(v.len(), 1);
            assert_eq!((v[0].id.as_str(), v[0].target_port), ("web", 2));
        }
        _ => panic!("a list"),
    }
    assert_eq!(Request::Ping { target: "p".into() }.patience_secs(), 15);
    assert_eq!(q.patience_secs(), 10);
}

#[test]
fn overheard_answers() {
    let q = Request::Listen { port: 80 };
    assert!(q
        .settle_overheard(Overheard::Event(SidecarInternalEvent::Listening { port: 81 }))
        .is_none());
    assert!(matches!(
        q.settle_overheard(Overheard::Event(SidecarInternalEvent::Listening { port: 80 })),
        Some(Ok(Outcome::Port(80)))
    ));
    assert!(matches!(
        Request::Listen { port: 0 }
            .settle_overheard(Overheard::Event(SidecarInternalEvent::Listening { port: 81 })),
        Some(Ok(Outcome::Port(81)))
    ));
    let q = Request::ProxyAdd { id: "web".into() };
    let failed = |id: &str| SidecarInternalEvent::ProxyError {
        id: id.into(),
        code: "C".into(),
        message: "m".into(),
    };
    assert!(q.settle_overheard(Overheard::Event(failed("other"))).is_none());
    match q.settle_overheard(Overheard::Event(failed("web"))) {
        Some(Err(e)) => assert_eq!(e.message(), "proxy error: [C] m"),
        _ => panic!("an error"),
    }
    match q.settle_overheard(Overheard::Lagged) {
        Some(Err(e)) => assert_eq!(
            e.message(),
            "sidecar error: event channel lagged: proxy confirmation may have been lost"
        ),
        _ => panic!("an error"),
    }
    // A ping without an id is not ended by an error that may be another's.
    let q = Request::Ping { target: "p".into() };
    let error = SidecarInternalEvent::Error { code: "C".into(), message: "m".into() };
    assert!(q.settle_overheard(Overheard::Event(error)).is_none());
    assert!(matches!(
        q.settle_overheard(Overheard::Event(SidecarInternalEvent::PingResult(ping_data("")))),
        Some(Ok(Outcome::Pinged(_)))
    ));
}

#[test]
fn failed_dials_are_forgotten() {
    let mut w = DialWait::new();
    assert!(w.hear(DialNews::Reply(Some(SidecarInternalEvent::DialSucceeded))).is_none());
    assert!(!w.reply_pending);
    let end = w.hear(DialNews::Delivered).unwrap();
    assert!(end.result.is_ok() && !end.forget);
    let mut w = DialWait::new();
    let end = w
        .hear(DialNews::Reply(Some(SidecarInternalEvent::DialFailed { error: "refused".into() })))
        .unwrap();
    assert!(end.forget);
    assert_eq!(end.result.unwrap_err().message(), "dial failed: refused");
    let end = DialWait::new().hear(DialNews::TimedOut(30_000_000_000)).unwrap();
    assert!(end.forget);
    assert_eq!(end.result.unwrap_err().message(), "dial timed out after 30s");
    let end = DialWait::new().hear(DialNews::Cancelled).unwrap();
    assert!(end.forget);
    assert!(DialWait::new().hear(DialNews::Reply(None)).is_none());
}

#[test]
fn reports_are_read_by_their_name() {
    let status = |state: &str| {
        EventPayload::Status(StatusEventData {
            state: state.into(),
            hostname: "h".into(),
            dns_name: "d".into(),
            ip: None,
            node_id: "n".into(),
            error: "bad".into(),
            login_name: None,
            protocol_version: Some(5),
        })
    };
    assert!(matches!(
        map_event("tsnet:status", status("running")),
        Some(SidecarInternalEvent::Started { protocol_version: Some(5), .. })
    ));
    assert!(matches!(
        map_event("tsnet:status", status("error")),
        Some(SidecarInternalEvent::Error { code, message }) if code == "STATUS_ERROR" && message == "bad"
    ));
    assert!(matches!(
        map_event("tsnet:status", status("starting")),
        Some(SidecarInternalEvent::StateChange { state }) if state == "starting"
    ));
    assert!(map_event("tsnet:unheard-of", EventPayload::Nothing).is_none());
    assert!(map_event("tsnet:listening", EventPayload::Nothing).is_none());
    assert!(matches!(
        map_event("bridge:dialResult", EventPayload::DialResult { success: false, error: "e".into() }),
        Some(SidecarInternalEvent::DialFailed { error }) if error == "e"
    ));
}

#[test]
fn each_reply_goes_to_its_waiter_once() {
    let mut pending = PendingReplies::new();
    pending.register_reply("a", 1);
    pending.register_reply("b", 2);
    assert_eq!(pending.dispatch_event(Some("b")), Some(2));
    assert_eq!(pending.dispatch_event(Some("b")), None);
    assert_eq!(pending.dispatch_event(None), None);
    assert_eq!(pending.dispatch_event(Some("")), None);
    pending.unregister("a");
    assert_eq!(pending.dispatch_event(Some("a")), None);
}
