use truffle::daemon::handler::{
    dispatch, parse_subscribe_params, payload_as, payload_of, stream_goes_on, DispatchResult,
    NodeCall, Payload, ProxyTarget, StreamNews, SubscribeEventType,
};
use truffle::daemon::notify::{
    fits_filter, ft_event_to_notification, get_progress, matches_peer_filter,
    message_notification_at, message_to_notification, peer_event_to_notification,
    peer_notification_at, push_progress, transfer_notification_at, NamespacedMessage,
};
use truffle::daemon::protocol::{
    DaemonRequest, DaemonResponse, ErrorCode, MethodNames, NotificationNames,
};
use truffle::daemon::replies::{
    handle_doctor, handle_peers, handle_ping, handle_proxy_list, handle_proxy_remove,
    handle_send_message, handle_shutdown, handle_status, handle_tcp_connect, handle_transfer,
    ProxyInfo, ProxyStatus, TransferResult,
};
use truffle::file_transfer::types::{FileTransferEvent, TransferDirection, TransferProgress};
use truffle::json::Json;
use truffle::network::types::{HealthInfo, NodeIdentity, PingResult, ProxyRoute};
use truffle::node::Peer;
use truffle::session::hello::PeerIdentity;
use truffle::session::peer::{PeerEvent, PeerState};

fn text(s: &str) -> Json {
    Json::Text(s.to_string())
}

fn object(fields: Vec<(&str, Json)>) -> Json {
    Json::Object(fields.into_iter().map(|(k, v)| (k.to_string(), v)).collect())
}

/// Writes a value the way it is compared in these tests.
fn show(j: &Json) -> String {
    match j {
        Json::Null => "null".to_string(),
        Json::Bool(b) => b.to_string(),
        Json::Number(n) => n.to_string(),
        Json::Negative(n) => n.to_string(),
        Json::Double(bits) => format!("{:?}", f64::from_bits(*bits)),
        Json::Percent(a, b) => format!("{a}/{b}"),
        Json::Text(s) => format!("{s:?}"),
        Json::Array(v) => format!("[{}]", v.iter().map(show).collect::<Vec<_>>().join(",")),
        Json::Object(v) => format!(
            "{{{}}}",
            v.iter().map(|(k, v)| format!("{k}:{}", show(v))).collect::<Vec<_>>().join(",")
        ),
    }
}

fn shown(r: &DaemonResponse) -> String {
    match &r.result {
        Ok(j) => show(j),
        Err((code, why)) => format!("{code:?}: {why}"),
    }
}

fn methods() -> MethodNames {
    let n = |s: &str| s.to_string();
    MethodNames {
        status: n("status"),
        peers: n("peers"),
        ping: n("ping"),
        send_message: n("send_message"),
        shutdown: n("shutdown"),
        tcp_connect: n("tcp_connect"),
        push_file: n("push_file"),
        get_file: n("get_file"),
        doctor: n("doctor"),
        proxy_add: n("proxy_add"),
        proxy_remove: n("proxy_remove"),
        proxy_list: n("proxy_list"),
        subscribe: n("subscribe"),
    }
}

fn notices() -> NotificationNames {
    let n = |s: &str| s.to_string();
    NotificationNames {
        peer_joined: n("peer.joined"),
        peer_left: n("peer.left"),
        peer_updated: n("peer.updated"),
        peer_ws_connected: n("peer.ws_connected"),
        peer_ws_disconnected: n("peer.ws_disconnected"),
        message_received: n("message.received"),
        cp_progress: n("cp.progress"),
    }
}

fn ask(method: &str, params: Json) -> DispatchResult {
    let request = DaemonRequest { id: 7, method: method.to_string(), params };
    dispatch(&request, &methods(), Ok(vec![]))
}

fn refusal(r: DispatchResult) -> String {
    match r {
        DispatchResult::Response(r) => {
            assert_eq!(r.id, 7);
            shown(&r)
        }
        other => panic!("expected an answer, got {other:?}"),
    }
}

#[test]
fn requests_are_read() {
    assert!(matches!(ask("status", Json::Null), DispatchResult::Call(NodeCall::Status)));
    assert!(matches!(ask("doctor", Json::Null), DispatchResult::Call(NodeCall::Doctor)));
    assert!(matches!(ask("shutdown", Json::Null), DispatchResult::Call(NodeCall::Shutdown)));
    match ask("ping", object(vec![("node", text("laptop"))])) {
        DispatchResult::Call(NodeCall::Ping { peer }) => assert_eq!(peer, "laptop"),
        other => panic!("{other:?}"),
    }
    match ask("send_message", object(vec![("device_id", text("d")), ("payload", text("hi"))])) {
        DispatchResult::Call(NodeCall::Send { peer, namespace, message }) => assert_eq!(
            (peer.as_str(), namespace.as_str(), message.as_str()),
            ("d", "chat", "hi")
        ),
        other => panic!("{other:?}"),
    }
    match ask("tcp_connect", object(vec![("node", text("n")), ("port", Json::Number(65536 + 80))])) {
        DispatchResult::Call(NodeCall::TcpConnect { peer, port }) => {
            assert_eq!((peer.as_str(), port), ("n", 80))
        }
        other => panic!("{other:?}"),
    }
    let paths = || {
        object(vec![
            ("peer_id", text("p")),
            ("local_path", text("/l")),
            ("remote_path", text("/r")),
        ])
    };
    assert!(matches!(ask("push_file", paths()), DispatchResult::Call(NodeCall::PushFile { .. })));
    assert!(matches!(ask("get_file", paths()), DispatchResult::Call(NodeCall::GetFile { .. })));
}

#[test]
fn what_is_missing_is_named() {
    let cases = [
        ("ping", vec![], "Missing 'node' parameter"),
        ("send_message", vec![], "Missing 'peer_id' parameter"),
        ("tcp_connect", vec![], "Missing 'node' parameter"),
        ("tcp_connect", vec![("node", text("n"))], "Missing or invalid 'port' parameter"),
        ("push_file", vec![("peer_id", text("p"))], "Missing 'local_path' parameter"),
        ("get_file", vec![("peer_id", text("p"))], "Missing 'remote_path' parameter"),
        ("proxy_remove", vec![], "Missing 'id' parameter"),
        ("proxy_add", vec![], "Missing 'id' parameter"),
        ("proxy_add", vec![("id", text("w"))], "Missing or invalid 'listen_port' parameter"),
        (
            "proxy_add",
            vec![("id", text("w")), ("listen_port", Json::Number(443))],
            "Missing or invalid 'target_port' parameter",
        ),
    ];
    for (method, params, why) in cases {
        assert_eq!(refusal(ask(method, object(params))), format!("InvalidParams: {why}"));
    }
    assert_eq!(refusal(ask("dance", Json::Null)), "MethodNotFound: Method 'dance' not found");
}

#[test]
fn proxies_have_defaults() {
    let params = object(vec![
        ("id", text("web")),
        ("listen_port", Json::Number(443)),
        ("target_port", Json::Number(8080)),
        ("allow", Json::Array(vec![text("a@b"), Json::Number(1), text("*")])),
    ]);
    match ask("proxy_add", params) {
        DispatchResult::Call(NodeCall::ProxyAdd(c)) => {
            assert_eq!((c.id.as_str(), c.name.as_str()), ("web", "web"));
            assert_eq!((c.target.host.as_str(), c.target.port), ("localhost", 8080));
            assert_eq!(c.target.scheme, "http");
            assert!(c.announce && c.tls && !c.allow_non_loopback);
            assert_eq!(c.allow, vec!["a@b".to_string(), "*".to_string()]);
        }
        other => panic!("{other:?}"),
    }
    let route = ProxyRoute {
        prefix: "/".to_string(),
        target_url: None,
        dir: Some("/srv".to_string()),
        fallback: None,
        strip_prefix: false,
        allow: vec![],
    };
    let request = DaemonRequest {
        id: 7,
        method: "proxy_add".to_string(),
        params: object(vec![("id", text("web")), ("listen_port", Json::Number(443))]),
    };
    assert!(matches!(
        dispatch(&request, &methods(), Ok(vec![route])),
        DispatchResult::Call(NodeCall::ProxyAdd(_))
    ));
    assert_eq!(
        refusal(dispatch(&request, &methods(), Err("no list".to_string()))),
        "InvalidParams: Invalid 'routes' parameter: no list"
    );
}

#[test]
fn subscriptions_are_read() {
    let all = parse_subscribe_params(&Json::Null).unwrap();
    assert_eq!(
        all.events,
        vec![SubscribeEventType::Peer, SubscribeEventType::Message, SubscribeEventType::Transfer]
    );
    assert_eq!(all.peer_filter, None);
    let params = object(vec![
        ("events", Json::Array(vec![text("message"), Json::Null])),
        ("filter", object(vec![("peer", text("Laptop"))])),
    ]);
    match ask("subscribe", params) {
        DispatchResult::Subscribe(p) => {
            assert!(p.wants(SubscribeEventType::Message));
            assert!(!p.wants(SubscribeEventType::Peer));
            assert_eq!(p.peer_filter.as_deref(), Some("laptop"));
        }
        other => panic!("{other:?}"),
    }
    let unknown = object(vec![("events", Json::Array(vec![text("peer"), text("weather")]))]);
    let r = parse_subscribe_params(&unknown).unwrap_err();
    assert_eq!(r.id, 0);
    assert_eq!(
        shown(&r),
        "InvalidParams: Unknown event type: 'weather'. Valid types: peer, message, transfer"
    );
    assert!(stream_goes_on(StreamNews::Lagged));
    assert!(stream_goes_on(StreamNews::PassedOver));
    assert!(!stream_goes_on(StreamNews::Gone));
    assert!(!stream_goes_on(StreamNews::Closed));
}

#[test]
fn messages_go_out_as_values_or_bytes() {
    assert!(matches!(payload_of("{\"a\": 1}"), Payload::Value(s) if s == "{\"a\": 1}"));
    assert!(matches!(payload_of("12"), Payload::Value(_)));
    assert!(matches!(payload_of("hello"), Payload::Bytes(b) if b == b"hello"));
    assert!(matches!(payload_of(""), Payload::Bytes(b) if b.is_empty()));
    assert!(matches!(payload_as("12", false), Payload::Bytes(b) if b == b"12"));
}

fn state(name: &str, device: Option<&str>) -> PeerState {
    PeerState {
        id: "n1".to_string(),
        name: "host".to_string(),
        ip: "100.64.0.2".to_string(),
        online: true,
        ws_connected: false,
        connection_type: "direct".to_string(),
        os: Some("linux".to_string()),
        last_seen: None,
        login_name: None,
        generation: 1,
        identity_suppressed: false,
        identity: device.map(|d| PeerIdentity {
            app_id: "app".to_string(),
            device_id: d.to_string(),
            device_name: name.to_string(),
            os: "linux".to_string(),
            tailscale_id: "n1".to_string(),
        }),
    }
}

#[test]
fn peers_are_announced() {
    let none = None;
    let joined = PeerEvent::Joined(state("Alice's Laptop", Some("dev-1")));
    let n = peer_notification_at(&joined, &none, &notices(), "T").unwrap();
    assert_eq!(n.method, "peer.joined");
    assert_eq!(
        show(&n.params),
        "{type:\"peer.joined\",peer:\"Alice's Laptop\",device_id:\"dev-1\",\
         device_name:\"Alice's Laptop\",tailscale_id:\"n1\",ip:\"100.64.0.2\",os:\"linux\",\
         time:\"T\"}"
    );
    let left = PeerEvent::Left(state("x", None));
    let n = peer_notification_at(&left, &none, &notices(), "T").unwrap();
    assert_eq!(show(&n.params), "{type:\"peer.left\",peer:\"n1\",tailscale_id:\"n1\",time:\"T\"}");
    let link = PeerEvent::WsConnected("n1".to_string());
    let n = peer_notification_at(&link, &none, &notices(), "T").unwrap();
    assert_eq!(show(&n.params), "{type:\"peer.ws_connected\",peer:\"n1\",time:\"T\"}");
    let auth = PeerEvent::AuthRequired { url: "u".to_string() };
    assert!(peer_notification_at(&auth, &none, &notices(), "T").is_none());
    // A filter goes by the shown name, in any case.
    let laptop = Some("laptop".to_string());
    assert!(peer_notification_at(&joined, &laptop, &notices(), "T").is_some());
    let phone = Some("phone".to_string());
    assert!(peer_notification_at(&joined, &phone, &notices(), "T").is_none());
    assert!(matches_peer_filter("My LAPTOP", &laptop));
    assert!(matches_peer_filter("alice-laptop", &Some("ALICE".to_string())));
    assert!(matches_peer_filter("\u{c4}rger", &Some("\u{e4}RGER".to_string())));
    assert!(!matches_peer_filter("alice-laptop", &Some("BOB".to_string())));
    assert!(matches_peer_filter("anybody", &None));
    assert!(fits_filter("laptop", &laptop));
    assert!(!fits_filter("lap", &laptop));
    assert!(fits_filter("", &None));
}

#[test]
fn messages_are_announced() {
    let message = || NamespacedMessage {
        from: "n1".to_string(),
        namespace: "chat".to_string(),
        msg_type: "text".to_string(),
        payload: Json::Array(vec![Json::Bool(true), Json::Negative(-1)]),
    };
    let n = message_notification_at(message(), &None, &notices(), "T").unwrap();
    assert_eq!(n.method, "message.received");
    assert_eq!(
        show(&n.params),
        "{type:\"message.received\",from:\"n1\",namespace:\"chat\",msg_type:\"text\",\
         payload:[true,-1],time:\"T\"}"
    );
    let other = Some("n2".to_string());
    assert!(message_notification_at(message(), &other, &notices(), "T").is_none());
}

fn progress() -> FileTransferEvent {
    FileTransferEvent::Progress(TransferProgress {
        token: "t".to_string(),
        direction: TransferDirection::Send,
        file_name: "f".to_string(),
        bytes_transferred: 1,
        total_bytes: 4,
        speed_bps_bits: 2.5f64.to_bits(),
    })
}

#[test]
fn transfers_are_announced() {
    let n = transfer_notification_at(&progress(), "T");
    assert_eq!(n.method, "transfer.progress");
    assert_eq!(
        show(&n.params),
        "{type:\"transfer.progress\",token:\"t\",direction:\"Send\",file_name:\"f\",\
         bytes_transferred:1,total_bytes:4,speed_bps:2.5,percent:1/4,time:\"T\"}"
    );
    let n = push_progress(&progress(), &notices()).unwrap();
    assert_eq!(n.method, "cp.progress");
    assert_eq!(
        show(&n.params),
        "{bytes_sent:1,total_bytes:4,bytes_per_second:2.5,percent:1/4}"
    );
    let n = get_progress(&progress(), &notices()).unwrap();
    assert_eq!(
        show(&n.params),
        "{bytes_received:1,total_bytes:4,bytes_per_second:2.5,percent:1/4}"
    );
    let hashing = FileTransferEvent::Hashing {
        token: "t".to_string(),
        file_name: "f".to_string(),
        bytes_hashed: 2,
        total_bytes: 8,
    };
    assert_eq!(
        show(&push_progress(&hashing, &notices()).unwrap().params),
        "{bytes_sent:0,total_bytes:8,bytes_per_second:0.0,percent:0.0,phase:\"hashing\",\
         hash_percent:2/8}"
    );
    assert!(get_progress(&hashing, &notices()).is_none());
    let rejected = FileTransferEvent::Rejected {
        token: "t".to_string(),
        file_name: "f".to_string(),
        reason: "no".to_string(),
    };
    assert!(push_progress(&rejected, &notices()).is_none());
    assert_eq!(transfer_notification_at(&rejected, "T").method, "transfer.rejected");
}

#[test]
fn notifications_carry_the_time() {
    let auth = PeerEvent::AuthRequired { url: "u".to_string() };
    assert!(peer_event_to_notification(&auth, &None, &notices()).is_none());
    let link = PeerEvent::WsConnected("n1".to_string());
    let n = peer_event_to_notification(&link, &None, &notices()).unwrap();
    let time = n.params.text_at("time").unwrap();
    assert!(chrono::DateTime::parse_from_rfc3339(time).is_ok());
    let message = NamespacedMessage {
        from: "n1".to_string(),
        namespace: "chat".to_string(),
        msg_type: "text".to_string(),
        payload: Json::Null,
    };
    let n = message_to_notification(message, &None, &notices()).unwrap();
    assert!(chrono::DateTime::parse_from_rfc3339(n.params.text_at("time").unwrap()).is_ok());
    let n = ft_event_to_notification(&progress());
    assert!(chrono::DateTime::parse_from_rfc3339(n.params.text_at("time").unwrap()).is_ok());
}

fn identity() -> NodeIdentity {
    NodeIdentity {
        app_id: "app".to_string(),
        device_id: "dev".to_string(),
        device_name: "Dev".to_string(),
        tailscale_hostname: "truffle-app-dev".to_string(),
        tailscale_id: "n0".to_string(),
        dns_name: None,
        ip: Some("100.64.0.1".to_string()),
        login_name: None,
    }
}

fn health(healthy: bool) -> HealthInfo {
    HealthInfo {
        state: "NeedsLogin".to_string(),
        key_expiry: None,
        warnings: vec!["w".to_string()],
        healthy,
    }
}

#[test]
fn the_status_is_answered() {
    let r = handle_status(1, &identity(), 2, &health(false), 30);
    assert_eq!(
        shown(&r),
        "{app_id:\"app\",device_id:\"dev\",device_name:\"Dev\",\
         tailscale_hostname:\"truffle-app-dev\",tailscale_id:\"n0\",ip:\"100.64.0.1\",\
         dns_name:\"\",login_name:null,status:\"NeedsLogin\",uptime_secs:30,peer_count:2,\
         health:{state:\"NeedsLogin\",healthy:false,key_expiry:null,warnings:[\"w\"]}}"
    );
    let r = handle_status(1, &identity(), 2, &health(true), 30);
    assert!(shown(&r).contains("status:\"online\""));
    let r = handle_doctor(1, &identity(), 2, &health(true));
    assert!(shown(&r).starts_with("{checks:{node_online:true,tailscale_state:\"NeedsLogin\""));
}

#[test]
fn other_answers() {
    let peer = Peer {
        device_id: None,
        device_name: None,
        display_name: "host".to_string(),
        hostname: "host".to_string(),
        tailscale_id: "n1".to_string(),
        peer_ref: "n1:1".to_string(),
        generation: 1,
        ip: "100.64.0.2".to_string(),
        online: true,
        ws_connected: false,
        connection_type: "direct".to_string(),
        os: None,
        last_seen: None,
        login_name: None,
    };
    assert_eq!(
        shown(&handle_peers(1, &vec![peer])),
        "{peers:[{device_id:null,device_name:null,display_name:\"host\",hostname:\"host\",\
         tailscale_id:\"n1\",peer_ref:\"n1:1\",generation:1,ip:\"100.64.0.2\",online:true,\
         ws_connected:false,connection_type:\"direct\",os:null,last_seen:null,login_name:null}]}"
    );
    assert_eq!(shown(&handle_send_message(1, &Ok(()))), "{sent:true}");
    assert_eq!(
        shown(&handle_send_message(1, &Err("gone".to_string()))),
        "InternalError: gone"
    );
    assert!(handle_shutdown(1).result.is_ok());
    assert!(handle_proxy_remove(1, &Ok(())).result.is_ok());
    let ping = PingResult {
        latency_ms_bits: 1.5f64.to_bits(),
        connection: "direct".to_string(),
        peer_addr: None,
    };
    assert_eq!(
        shown(&handle_ping(1, &Ok(ping))),
        "{latency_ms:1.5,connection:\"direct\",peer_addr:null}"
    );
    assert_eq!(shown(&handle_ping(1, &Err("no".to_string()))), "NodeNotFound: no");
    assert_eq!(
        shown(&handle_tcp_connect(1, "p", 9, &Ok(()))),
        "{connected:true,peer:\"p\",port:9}"
    );
    let done = TransferResult {
        bytes_transferred: 3,
        sha256: "d".to_string(),
        elapsed_secs_bits: 0.5f64.to_bits(),
    };
    assert_eq!(
        shown(&handle_transfer(1, &Ok(done))),
        "{success:true,bytes_transferred:3,sha256:\"d\",elapsed_secs:0.5}"
    );
    let proxy = ProxyInfo {
        id: "w".to_string(),
        name: "w".to_string(),
        listen_port: 443,
        target: ProxyTarget { host: "h".to_string(), port: 80, scheme: "http".to_string() },
        url: "https://w".to_string(),
        status: ProxyStatus::Error("in use".to_string()),
    };
    assert_eq!(
        shown(&handle_proxy_list(1, &vec![proxy])),
        "{proxies:[{id:\"w\",name:\"w\",listen_port:443,target_host:\"h\",target_port:80,\
         target_scheme:\"http\",url:\"https://w\",status:\"error: in use\"}]}"
    );
    assert_eq!(
        shown(&DaemonResponse::error(3, ErrorCode::InternalError, "x")),
        "InternalError: x"
    );
}

#[test]
fn values_are_looked_up_by_their_key() {
    let j = object(vec![("a", Json::Number(2)), ("b", Json::Bool(true))]);
    assert_eq!(j.number_at("a"), Some(2));
    assert_eq!(j.truth_at("b"), Some(true));
    assert_eq!(j.text_at("b"), None);
    assert!(j.at("c").is_none());
    assert!(Json::Null.at("a").is_none());
    assert_eq!(text("x").as_text(), Some("x"));
}
