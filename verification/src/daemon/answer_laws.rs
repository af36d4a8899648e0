//! What answers and notifications say, field by field.
use vstd::prelude::*;

use crate::daemon::notify::{
    filtered_by, get_progress_params, message_told, peer_told, push_progress_params, transfer_told,
    NamespacedMessage,
};
use crate::daemon::protocol::{error_model, success_model, ErrorCode, NotificationNames};
use crate::daemon::replies::{
    doctor_json, health_json, one_truth, peer_json, peers_json, ping_json, proxies_json, proxy_json,
    status_json, tcp_json, transfer_json, ProxyInfo, ProxyStatus, TransferResult,
};
use crate::file_transfer::types::{FileTransferEvent, TransferDirection};
use crate::json::JsonModel;
use crate::network::types::{HealthModel, NodeModel, PingResult};
use crate::node::{state_of, states_online, PeerViewModel};
use crate::session::peer::{PeerEvent, PeerModel, PeerState};
use crate::text::{has_part, lowercase, occurs_at, opt_text};

verus! {

/// The object says this under this name.
pub open spec fn tells(j: JsonModel, key: Seq<char>, value: JsonModel) -> bool {
    j matches JsonModel::Object(v) && v.contains((key, value))
}

/// How much an object says.
pub open spec fn says_in_all(j: JsonModel) -> nat {
    match j {
        JsonModel::Object(v) => v.len(),
        _ => 0,
    }
}

/// A text, or null where there is none.
pub open spec fn maybe(o: Option<Seq<char>>) -> JsonModel {
    match o {
        Some(s) => JsonModel::Text(s),
        None => JsonModel::Null,
    }
}

// ---------------------------------------------------------------------------
// Answers
// ---------------------------------------------------------------------------

/// The status tells who the node is, each name under its own key, and how it is:
/// online where it is healthy, and else the state of its network.
pub proof fn law_status_tells_the_node(i: NodeModel, peers: u64, h: HealthModel, uptime: u64)
    ensures
        ({
            let j = status_json(i, peers, h, uptime);
            &&& tells(j, "app_id"@, JsonModel::Text(i.app_id))
            &&& tells(j, "device_id"@, JsonModel::Text(i.device_id))
            &&& tells(j, "device_name"@, JsonModel::Text(i.device_name))
            &&& tells(j, "tailscale_hostname"@, JsonModel::Text(i.tailscale_hostname))
            &&& tells(j, "tailscale_id"@, JsonModel::Text(i.tailscale_id))
            &&& tells(j, "ip"@, (match i.ip { Some(s) => JsonModel::Text(s), None => JsonModel::Text(Seq::empty()) }))
            &&& tells(j, "dns_name"@, (match i.dns_name { Some(s) => JsonModel::Text(s), None => JsonModel::Text(Seq::empty()) }))
            &&& tells(j, "login_name"@, maybe(i.login_name))
            &&& tells(j, "status"@, JsonModel::Text(if h.healthy { "online"@ } else { h.state }))
            &&& tells(j, "uptime_secs"@, JsonModel::Number(uptime))
            &&& tells(j, "peer_count"@, JsonModel::Number(peers))
            &&& tells(j, "health"@, health_json(h))
            &&& says_in_all(j) == 12
        }),
{
    let j = status_json(i, peers, h, uptime);
    let v = j->Object_0;
    assert(v[0] == ("app_id"@, JsonModel::Text(i.app_id)));
    assert(v[1] == ("device_id"@, JsonModel::Text(i.device_id)));
    assert(v[2] == ("device_name"@, JsonModel::Text(i.device_name)));
    assert(v[3] == ("tailscale_hostname"@, JsonModel::Text(i.tailscale_hostname)));
    assert(v[4] == ("tailscale_id"@, JsonModel::Text(i.tailscale_id)));
    assert(v[5] == ("ip"@, (match i.ip { Some(s) => JsonModel::Text(s), None => JsonModel::Text(Seq::empty()) })));
    assert(v[6] == ("dns_name"@, (match i.dns_name { Some(s) => JsonModel::Text(s), None => JsonModel::Text(Seq::empty()) })));
    assert(v[7] == ("login_name"@, maybe(i.login_name)));
    assert(v[8] == ("status"@, JsonModel::Text(if h.healthy { "online"@ } else { h.state })));
    assert(v[9] == ("uptime_secs"@, JsonModel::Number(uptime)));
    assert(v[10] == ("peer_count"@, JsonModel::Number(peers)));
    assert(v[11] == ("health"@, health_json(h)));
}

/// The health tells the state, whether it is good, when the key expires, and what to
/// beware of.
pub proof fn law_health_tells_the_state(h: HealthModel)
    ensures
        ({
            let j = health_json(h);
            &&& tells(j, "state"@, JsonModel::Text(h.state))
            &&& tells(j, "healthy"@, JsonModel::Bool(h.healthy))
            &&& tells(j, "key_expiry"@, maybe(h.key_expiry))
            &&& tells(j, "warnings"@, JsonModel::Array(Seq::new(h.warnings.len(), |i: int| JsonModel::Text(h.warnings[i]))))
            &&& says_in_all(j) == 4
        }),
{
    let j = health_json(h);
    let v = j->Object_0;
    assert(v[0] == ("state"@, JsonModel::Text(h.state)));
    assert(v[1] == ("healthy"@, JsonModel::Bool(h.healthy)));
    assert(v[2] == ("key_expiry"@, maybe(h.key_expiry)));
    assert(v[3] == ("warnings"@, JsonModel::Array(Seq::new(h.warnings.len(), |i: int| JsonModel::Text(h.warnings[i])))));
}

/// The check-up tells the same of the node, under one name.
pub proof fn law_doctor_tells_the_node(i: NodeModel, peers: u64, h: HealthModel)
    ensures
        ({
            let all = doctor_json(i, peers, h);
            &&& says_in_all(all) == 1
            &&& exists|j: JsonModel| #[trigger] tells(all, "checks"@, j) && checks_are(j, i, peers, h)
        }),
{
    let all = doctor_json(i, peers, h)->Object_0;
    let j = all[0].1;
    assert(all[0] == ("checks"@, j));
    assert(tells(doctor_json(i, peers, h), "checks"@, j));
    let v = j->Object_0;
    assert(v[0] == ("node_online"@, JsonModel::Bool(h.healthy)));
    assert(v[1] == ("tailscale_state"@, JsonModel::Text(h.state)));
    assert(v[2] == ("peer_count"@, JsonModel::Number(peers)));
    assert(v[3] == ("key_expiry"@, maybe(h.key_expiry)));
    assert(v[4] == ("warnings"@, JsonModel::Array(Seq::new(h.warnings.len(), |k: int| JsonModel::Text(h.warnings[k])))));
    assert(v[5] == ("device_id"@, JsonModel::Text(i.device_id)));
    assert(v[6] == ("device_name"@, JsonModel::Text(i.device_name)));
    assert(v[7] == ("tailscale_id"@, JsonModel::Text(i.tailscale_id)));
    assert(v[8] == ("tailscale_hostname"@, JsonModel::Text(i.tailscale_hostname)));
}

/// The checks of a node.
pub open spec fn checks_are(j: JsonModel, i: NodeModel, peers: u64, h: HealthModel) -> bool {
    &&& tells(j, "node_online"@, JsonModel::Bool(h.healthy))
    &&& tells(j, "tailscale_state"@, JsonModel::Text(h.state))
    &&& tells(j, "peer_count"@, JsonModel::Number(peers))
    &&& tells(j, "key_expiry"@, maybe(h.key_expiry))
    &&& tells(j, "warnings"@, JsonModel::Array(Seq::new(h.warnings.len(), |k: int| JsonModel::Text(h.warnings[k]))))
    &&& tells(j, "device_id"@, JsonModel::Text(i.device_id))
    &&& tells(j, "device_name"@, JsonModel::Text(i.device_name))
    &&& tells(j, "tailscale_id"@, JsonModel::Text(i.tailscale_id))
    &&& tells(j, "tailscale_hostname"@, JsonModel::Text(i.tailscale_hostname))
    &&& says_in_all(j) == 9
}

/// A peer is told with all that is known of it, each under its own name.
pub proof fn law_peer_is_told_whole(p: PeerViewModel)
    ensures
        ({
            let j = peer_json(p);
            &&& tells(j, "device_id"@, maybe(p.device_id))
            &&& tells(j, "device_name"@, maybe(p.device_name))
            &&& tells(j, "display_name"@, JsonModel::Text(p.display_name))
            &&& tells(j, "hostname"@, JsonModel::Text(p.hostname))
            &&& tells(j, "tailscale_id"@, JsonModel::Text(p.tailscale_id))
            &&& tells(j, "peer_ref"@, JsonModel::Text(p.peer_ref))
            &&& tells(j, "generation"@, JsonModel::Number(p.generation))
            &&& tells(j, "ip"@, JsonModel::Text(p.ip))
            &&& tells(j, "online"@, JsonModel::Bool(p.online))
            &&& tells(j, "ws_connected"@, JsonModel::Bool(p.ws_connected))
            &&& tells(j, "connection_type"@, JsonModel::Text(p.connection_type))
            &&& tells(j, "os"@, maybe(p.os))
            &&& tells(j, "last_seen"@, maybe(p.last_seen))
            &&& tells(j, "login_name"@, maybe(p.login_name))
            &&& says_in_all(j) == 14
        }),
{
    let j = peer_json(p);
    let v = j->Object_0;
    assert(v[0] == ("device_id"@, maybe(p.device_id)));
    assert(v[1] == ("device_name"@, maybe(p.device_name)));
    assert(v[2] == ("display_name"@, JsonModel::Text(p.display_name)));
    assert(v[3] == ("hostname"@, JsonModel::Text(p.hostname)));
    assert(v[4] == ("tailscale_id"@, JsonModel::Text(p.tailscale_id)));
    assert(v[5] == ("peer_ref"@, JsonModel::Text(p.peer_ref)));
    assert(v[6] == ("generation"@, JsonModel::Number(p.generation)));
    assert(v[7] == ("ip"@, JsonModel::Text(p.ip)));
    assert(v[8] == ("online"@, JsonModel::Bool(p.online)));
    assert(v[9] == ("ws_connected"@, JsonModel::Bool(p.ws_connected)));
    assert(v[10] == ("connection_type"@, JsonModel::Text(p.connection_type)));
    assert(v[11] == ("os"@, maybe(p.os)));
    assert(v[12] == ("last_seen"@, maybe(p.last_seen)));
    assert(v[13] == ("login_name"@, maybe(p.login_name)));
}

/// All peers are told, in order, and no others.
pub proof fn law_all_peers_are_told(peers: Seq<PeerViewModel>, i: int)
    requires
        0 <= i < peers.len(),
    ensures
        peers_json(peers) matches JsonModel::Object(v) && v.len() == 1 && v[0].0 == "peers"@
            && (v[0].1 matches JsonModel::Array(list) && list.len() == peers.len() && list[i]
            == peer_json(peers[i])),
{
}

/// The answer to a ping tells how long it took and over which path.
pub proof fn law_ping_tells_the_path(p: PingResult)
    ensures
        ({
            let j = ping_json(p);
            &&& tells(j, "latency_ms"@, JsonModel::Double(p.latency_ms_bits))
            &&& tells(j, "connection"@, JsonModel::Text(p.connection@))
            &&& tells(j, "peer_addr"@, maybe(opt_text(p.peer_addr)))
            &&& says_in_all(j) == 3
        }),
{
    let j = ping_json(p);
    let v = j->Object_0;
    assert(v[0] == ("latency_ms"@, JsonModel::Double(p.latency_ms_bits)));
    assert(v[1] == ("connection"@, JsonModel::Text(p.connection@)));
    assert(v[2] == ("peer_addr"@, maybe(opt_text(p.peer_addr))));
}

/// The answer to a connection tells the peer and the port.
pub proof fn law_connection_tells_the_peer(peer: Seq<char>, port: u16)
    ensures
        ({
            let j = tcp_json(peer, port);
            &&& tells(j, "connected"@, JsonModel::Bool(true))
            &&& tells(j, "peer"@, JsonModel::Text(peer))
            &&& tells(j, "port"@, JsonModel::Number(port as u64))
            &&& says_in_all(j) == 3
        }),
{
    let j = tcp_json(peer, port);
    let v = j->Object_0;
    assert(v[0] == ("connected"@, JsonModel::Bool(true)));
    assert(v[1] == ("peer"@, JsonModel::Text(peer)));
    assert(v[2] == ("port"@, JsonModel::Number(port as u64)));
}

/// The answer to a transfer tells how much it was, its digest, and its time.
pub proof fn law_transfer_tells_the_file(t: TransferResult)
    ensures
        ({
            let j = transfer_json(t);
            &&& tells(j, "success"@, JsonModel::Bool(true))
            &&& tells(j, "bytes_transferred"@, JsonModel::Number(t.bytes_transferred))
            &&& tells(j, "sha256"@, JsonModel::Text(t.sha256@))
            &&& tells(j, "elapsed_secs"@, JsonModel::Double(t.elapsed_secs_bits))
            &&& says_in_all(j) == 4
        }),
{
    let j = transfer_json(t);
    let v = j->Object_0;
    assert(v[0] == ("success"@, JsonModel::Bool(true)));
    assert(v[1] == ("bytes_transferred"@, JsonModel::Number(t.bytes_transferred)));
    assert(v[2] == ("sha256"@, JsonModel::Text(t.sha256@)));
    assert(v[3] == ("elapsed_secs"@, JsonModel::Double(t.elapsed_secs_bits)));
}

/// A proxy is told with where it listens, where it goes, and how it stands.
pub proof fn law_proxy_is_told_whole(p: ProxyInfo)
    ensures
        ({
            let j = proxy_json(p);
            &&& tells(j, "id"@, JsonModel::Text(p.id@))
            &&& tells(j, "name"@, JsonModel::Text(p.name@))
            &&& tells(j, "listen_port"@, JsonModel::Number(p.listen_port as u64))
            &&& tells(j, "target_host"@, JsonModel::Text(p.target.host@))
            &&& tells(j, "target_port"@, JsonModel::Number(p.target.port as u64))
            &&& tells(j, "target_scheme"@, JsonModel::Text(p.target.scheme@))
            &&& tells(j, "url"@, JsonModel::Text(p.url@))
            &&& tells(j, "status"@, JsonModel::Text(match p.status { ProxyStatus::Starting => "starting"@, ProxyStatus::Running => "running"@, ProxyStatus::Stopped => "stopped"@, ProxyStatus::Error(why) => "error: "@ + why@ }))
            &&& says_in_all(j) == 8
        }),
{
    let j = proxy_json(p);
    let v = j->Object_0;
    assert(v[0] == ("id"@, JsonModel::Text(p.id@)));
    assert(v[1] == ("name"@, JsonModel::Text(p.name@)));
    assert(v[2] == ("listen_port"@, JsonModel::Number(p.listen_port as u64)));
    assert(v[3] == ("target_host"@, JsonModel::Text(p.target.host@)));
    assert(v[4] == ("target_port"@, JsonModel::Number(p.target.port as u64)));
    assert(v[5] == ("target_scheme"@, JsonModel::Text(p.target.scheme@)));
    assert(v[6] == ("url"@, JsonModel::Text(p.url@)));
    assert(v[7] == ("status"@, JsonModel::Text(match p.status { ProxyStatus::Starting => "starting"@, ProxyStatus::Running => "running"@, ProxyStatus::Stopped => "stopped"@, ProxyStatus::Error(why) => "error: "@ + why@ })));
}

/// All proxies are told, in order, and no others.
pub proof fn law_all_proxies_are_told(proxies: Seq<ProxyInfo>, i: int)
    requires
        0 <= i < proxies.len(),
    ensures
        proxies_json(proxies) matches JsonModel::Object(v) && v.len() == 1 && v[0].0 == "proxies"@
            && (v[0].1 matches JsonModel::Array(list) && list.len() == proxies.len() && list[i]
            == proxy_json(proxies[i])),
{
}

// ---------------------------------------------------------------------------
// Peers
// ---------------------------------------------------------------------------

/// The name that a peer is shown under.
pub open spec fn name_shown(s: PeerModel) -> Seq<char> {
    match s.identity {
        Some(i) => i.device_name,
        None => s.name,
    }
}

/// The device id of a peer, if it publishes one.
pub open spec fn device_shown(s: PeerModel) -> Option<Seq<char>> {
    match s.identity {
        Some(i) => if s.identity_suppressed {
            None
        } else {
            Some(i.device_id)
        },
        None => None,
    }
}

/// A peer that joined is told with its name, ids, address and system.
pub proof fn law_joining_is_told(s: PeerState, names: NotificationNames, now: Seq<char>)
    ensures
        peer_told(PeerEvent::Joined(s), None, names, now) matches Some(n) && n.method == names.peer_joined@ && ({
            let j = n.params;
            &&& tells(j, "type"@, JsonModel::Text(names.peer_joined@))
            &&& tells(j, "peer"@, JsonModel::Text(name_shown(s@)))
            &&& tells(j, "device_id"@, maybe(device_shown(s@)))
            &&& tells(j, "device_name"@, JsonModel::Text(name_shown(s@)))
            &&& tells(j, "tailscale_id"@, JsonModel::Text(s@.id))
            &&& tells(j, "ip"@, JsonModel::Text(s@.ip))
            &&& tells(j, "os"@, maybe(s@.os))
            &&& tells(j, "time"@, JsonModel::Text(now))
            &&& says_in_all(j) == 8
        }),
{
    let j = peer_told(PeerEvent::Joined(s), None, names, now)->0.params;
    let v = j->Object_0;
    assert(v[0] == ("type"@, JsonModel::Text(names.peer_joined@)));
    assert(v[1] == ("peer"@, JsonModel::Text(name_shown(s@))));
    assert(v[2] == ("device_id"@, maybe(device_shown(s@))));
    assert(v[3] == ("device_name"@, JsonModel::Text(name_shown(s@))));
    assert(v[4] == ("tailscale_id"@, JsonModel::Text(s@.id)));
    assert(v[5] == ("ip"@, JsonModel::Text(s@.ip)));
    assert(v[6] == ("os"@, maybe(s@.os)));
    assert(v[7] == ("time"@, JsonModel::Text(now)));
}

/// A change of a peer is told with its name, ids, address and state.
pub proof fn law_change_is_told(s: PeerState, names: NotificationNames, now: Seq<char>)
    ensures
        peer_told(PeerEvent::Updated(s), None, names, now) matches Some(n) && n.method == names.peer_updated@ && ({
            let j = n.params;
            &&& tells(j, "type"@, JsonModel::Text(names.peer_updated@))
            &&& tells(j, "peer"@, JsonModel::Text(name_shown(s@)))
            &&& tells(j, "device_id"@, maybe(device_shown(s@)))
            &&& tells(j, "device_name"@, JsonModel::Text(name_shown(s@)))
            &&& tells(j, "tailscale_id"@, JsonModel::Text(s@.id))
            &&& tells(j, "ip"@, JsonModel::Text(s@.ip))
            &&& tells(j, "online"@, JsonModel::Bool(s@.online))
            &&& tells(j, "ws_connected"@, JsonModel::Bool(s@.ws_connected))
            &&& tells(j, "time"@, JsonModel::Text(now))
            &&& says_in_all(j) == 9
        }),
{
    let j = peer_told(PeerEvent::Updated(s), None, names, now)->0.params;
    let v = j->Object_0;
    assert(v[0] == ("type"@, JsonModel::Text(names.peer_updated@)));
    assert(v[1] == ("peer"@, JsonModel::Text(name_shown(s@))));
    assert(v[2] == ("device_id"@, maybe(device_shown(s@))));
    assert(v[3] == ("device_name"@, JsonModel::Text(name_shown(s@))));
    assert(v[4] == ("tailscale_id"@, JsonModel::Text(s@.id)));
    assert(v[5] == ("ip"@, JsonModel::Text(s@.ip)));
    assert(v[6] == ("online"@, JsonModel::Bool(s@.online)));
    assert(v[7] == ("ws_connected"@, JsonModel::Bool(s@.ws_connected)));
    assert(v[8] == ("time"@, JsonModel::Text(now)));
}

/// A new identity is told like a change.
pub proof fn law_identity_is_told_as_change(
    s: PeerState,
    filter: Option<Seq<char>>,
    names: NotificationNames,
    now: Seq<char>,
)
    ensures
        peer_told(PeerEvent::Identity(s), filter, names, now) == peer_told(
            PeerEvent::Updated(s),
            filter,
            names,
            now,
        ),
{
}

/// A peer that left is told by its node id.
pub proof fn law_leaving_is_told(s: PeerState, names: NotificationNames, now: Seq<char>)
    ensures
        peer_told(PeerEvent::Left(s), None, names, now) matches Some(n) && n.method == names.peer_left@ && ({
            let j = n.params;
            &&& tells(j, "type"@, JsonModel::Text(names.peer_left@))
            &&& tells(j, "peer"@, JsonModel::Text(s@.id))
            &&& tells(j, "tailscale_id"@, JsonModel::Text(s@.id))
            &&& tells(j, "time"@, JsonModel::Text(now))
            &&& says_in_all(j) == 4
        }),
{
    let j = peer_told(PeerEvent::Left(s), None, names, now)->0.params;
    let v = j->Object_0;
    assert(v[0] == ("type"@, JsonModel::Text(names.peer_left@)));
    assert(v[1] == ("peer"@, JsonModel::Text(s@.id)));
    assert(v[2] == ("tailscale_id"@, JsonModel::Text(s@.id)));
    assert(v[3] == ("time"@, JsonModel::Text(now)));
}

/// A connection is told by the node id of its peer.
pub proof fn law_connection_is_told(id: String, names: NotificationNames, now: Seq<char>)
    ensures
        peer_told(PeerEvent::WsConnected(id), None, names, now) matches Some(n) && n.method == names.peer_ws_connected@ && ({
            let j = n.params;
            &&& tells(j, "type"@, JsonModel::Text(names.peer_ws_connected@))
            &&& tells(j, "peer"@, JsonModel::Text(id@))
            &&& tells(j, "time"@, JsonModel::Text(now))
            &&& says_in_all(j) == 3
        }),
{
    let j = peer_told(PeerEvent::WsConnected(id), None, names, now)->0.params;
    let v = j->Object_0;
    assert(v[0] == ("type"@, JsonModel::Text(names.peer_ws_connected@)));
    assert(v[1] == ("peer"@, JsonModel::Text(id@)));
    assert(v[2] == ("time"@, JsonModel::Text(now)));
}

/// The end of a connection is told by the node id of its peer.
pub proof fn law_disconnection_is_told(id: String, names: NotificationNames, now: Seq<char>)
    ensures
        peer_told(PeerEvent::WsDisconnected(id), None, names, now) matches Some(n) && n.method == names.peer_ws_disconnected@ && ({
            let j = n.params;
            &&& tells(j, "type"@, JsonModel::Text(names.peer_ws_disconnected@))
            &&& tells(j, "peer"@, JsonModel::Text(id@))
            &&& tells(j, "time"@, JsonModel::Text(now))
            &&& says_in_all(j) == 3
        }),
{
    let j = peer_told(PeerEvent::WsDisconnected(id), None, names, now)->0.params;
    let v = j->Object_0;
    assert(v[0] == ("type"@, JsonModel::Text(names.peer_ws_disconnected@)));
    assert(v[1] == ("peer"@, JsonModel::Text(id@)));
    assert(v[2] == ("time"@, JsonModel::Text(now)));
}

/// The text by which a filter knows an event.
pub open spec fn known_by(e: PeerEvent) -> Seq<char> {
    match e {
        PeerEvent::Joined(s) => name_shown(s@),
        PeerEvent::Updated(s) => name_shown(s@),
        PeerEvent::Identity(s) => name_shown(s@),
        PeerEvent::Left(s) => s@.id,
        PeerEvent::WsConnected(id) => id@,
        PeerEvent::WsDisconnected(id) => id@,
        PeerEvent::AuthRequired { url: _ } => Seq::empty(),
    }
}

/// A filter decides alone whether an event is told, and not what is told of
/// it: an event is told where its name holds the text of the filter, whatever
/// the case of either. A call to sign in is told nobody.
pub proof fn law_filter_decides(
    e: PeerEvent,
    filter: Seq<char>,
    names: NotificationNames,
    now: Seq<char>,
    at: int,
)
    ensures
        e is AuthRequired ==> peer_told(e, None, names, now) is None && peer_told(
            e,
            Some(filter),
            names,
            now,
        ) is None,
        !(e is AuthRequired) ==> peer_told(e, None, names, now) is Some,
        occurs_at(lowercase(known_by(e)), lowercase(filter), at) ==> peer_told(
            e,
            Some(filter),
            names,
            now,
        ) == peer_told(e, None, names, now),
        (forall|k: int| !#[trigger] occurs_at(lowercase(known_by(e)), lowercase(filter), k))
            ==> peer_told(e, Some(filter), names, now) is None,
{
    if !(e is AuthRequired) {
        assert(filtered_by(e) == Some(known_by(e)));
        let low = lowercase(filter);
        if has_part(lowercase(known_by(e)), low) {
            let k = choose|k: int| occurs_at(lowercase(known_by(e)), low, k);
            assert(occurs_at(lowercase(known_by(e)), low, k));
        }
    }
}

/// A part of a text stands somewhere in it, letter by letter.
pub proof fn law_part_is_found(front: Seq<char>, part: Seq<char>, back: Seq<char>)
    ensures
        occurs_at(front + part + back, part, front.len() as int),
{
    let s = front + part + back;
    let at = front.len() as int;
    assert(s.subrange(at, at + part.len()) =~= part);
}

// ---------------------------------------------------------------------------
// Messages and transfers
// ---------------------------------------------------------------------------

/// A message is told with its sender, namespace, type and content, to whose
/// filter the sender fits.
pub proof fn law_message_is_told(
    m: NamespacedMessage,
    filter: Seq<char>,
    names: NotificationNames,
    now: Seq<char>,
    at: int,
)
    ensures
        message_told(m, None, names, now) matches Some(n) && n.method == names.message_received@
            && ({
            let j = n.params;
            &&& tells(j, "type"@, JsonModel::Text(names.message_received@))
            &&& tells(j, "from"@, JsonModel::Text(m.from@))
            &&& tells(j, "namespace"@, JsonModel::Text(m.namespace@))
            &&& tells(j, "msg_type"@, JsonModel::Text(m.msg_type@))
            &&& tells(j, "payload"@, m.payload@)
            &&& tells(j, "time"@, JsonModel::Text(now))
            &&& says_in_all(j) == 6
        }),
        occurs_at(lowercase(m.from@), lowercase(filter), at) ==> message_told(
            m,
            Some(filter),
            names,
            now,
        ) == message_told(m, None, names, now),
        (forall|k: int| !#[trigger] occurs_at(lowercase(m.from@), lowercase(filter), k))
            ==> message_told(m, Some(filter), names, now) is None,
{
    let j = message_told(m, None, names, now)->0.params;
    let v = j->Object_0;
    assert(v[0] == ("type"@, JsonModel::Text(names.message_received@)));
    assert(v[1] == ("from"@, JsonModel::Text(m.from@)));
    assert(v[2] == ("namespace"@, JsonModel::Text(m.namespace@)));
    assert(v[3] == ("msg_type"@, JsonModel::Text(m.msg_type@)));
    assert(v[4] == ("payload"@, m.payload@));
    assert(v[5] == ("time"@, JsonModel::Text(now)));
}

/// Every event of a transfer is told under its own name, with all it says.
pub proof fn law_transfer_is_told(e: FileTransferEvent, now: Seq<char>)
    ensures
        ({
            let n = transfer_told(e, now);
            let j = n.params;
            &&& tells(j, "type"@, JsonModel::Text(n.method))
            &&& tells(j, "time"@, JsonModel::Text(now))
            &&& match e {
                FileTransferEvent::OfferReceived(o) => {
                    &&& n.method == "transfer.offer_received"@
                    &&& tells(j, "from"@, JsonModel::Text(o.from_peer@))
                    &&& tells(j, "from_name"@, JsonModel::Text(o.from_name@))
                    &&& tells(j, "file_name"@, JsonModel::Text(o.file_name@))
                    &&& tells(j, "size"@, JsonModel::Number(o.size))
                    &&& tells(j, "sha256"@, JsonModel::Text(o.sha256@))
                    &&& tells(j, "token"@, JsonModel::Text(o.token@))
                    &&& says_in_all(j) == 8
                },
                FileTransferEvent::Hashing { token, file_name, bytes_hashed, total_bytes } => {
                    &&& n.method == "transfer.hashing"@
                    &&& tells(j, "token"@, JsonModel::Text(token@))
                    &&& tells(j, "file_name"@, JsonModel::Text(file_name@))
                    &&& tells(j, "bytes_hashed"@, JsonModel::Number(bytes_hashed))
                    &&& tells(j, "total_bytes"@, JsonModel::Number(total_bytes))
                    &&& tells(j, "percent"@, JsonModel::Percent(bytes_hashed, total_bytes))
                    &&& says_in_all(j) == 7
                },
                FileTransferEvent::WaitingForAccept { token, file_name } => {
                    &&& n.method == "transfer.waiting"@
                    &&& tells(j, "token"@, JsonModel::Text(token@))
                    &&& tells(j, "file_name"@, JsonModel::Text(file_name@))
                    &&& says_in_all(j) == 4
                },
                FileTransferEvent::Progress(p) => {
                    &&& n.method == "transfer.progress"@
                    &&& tells(j, "token"@, JsonModel::Text(p.token@))
                    &&& tells(j, "direction"@, JsonModel::Text(match p.direction { TransferDirection::Send => "Send"@, TransferDirection::Receive => "Receive"@ }))
                    &&& tells(j, "file_name"@, JsonModel::Text(p.file_name@))
                    &&& tells(j, "bytes_transferred"@, JsonModel::Number(p.bytes_transferred))
                    &&& tells(j, "total_bytes"@, JsonModel::Number(p.total_bytes))
                    &&& tells(j, "speed_bps"@, JsonModel::Double(p.speed_bps_bits))
                    &&& tells(j, "percent"@, JsonModel::Percent(p.bytes_transferred, p.total_bytes))
                    &&& says_in_all(j) == 9
                },
                FileTransferEvent::Completed { token, direction, file_name, bytes_transferred, sha256, elapsed_secs_bits } => {
                    &&& n.method == "transfer.completed"@
                    &&& tells(j, "token"@, JsonModel::Text(token@))
                    &&& tells(j, "direction"@, JsonModel::Text(match direction { TransferDirection::Send => "Send"@, TransferDirection::Receive => "Receive"@ }))
                    &&& tells(j, "file_name"@, JsonModel::Text(file_name@))
                    &&& tells(j, "bytes_transferred"@, JsonModel::Number(bytes_transferred))
                    &&& tells(j, "sha256"@, JsonModel::Text(sha256@))
                    &&& tells(j, "elapsed_secs"@, JsonModel::Double(elapsed_secs_bits))
                    &&& says_in_all(j) == 8
                },
                FileTransferEvent::Rejected { token, file_name, reason } => {
                    &&& n.method == "transfer.rejected"@
                    &&& tells(j, "token"@, JsonModel::Text(token@))
                    &&& tells(j, "file_name"@, JsonModel::Text(file_name@))
                    &&& tells(j, "reason"@, JsonModel::Text(reason@))
                    &&& says_in_all(j) == 5
                },
                FileTransferEvent::Failed { token, direction, file_name, reason } => {
                    &&& n.method == "transfer.failed"@
                    &&& tells(j, "token"@, JsonModel::Text(token@))
                    &&& tells(j, "direction"@, JsonModel::Text(match direction { TransferDirection::Send => "Send"@, TransferDirection::Receive => "Receive"@ }))
                    &&& tells(j, "file_name"@, JsonModel::Text(file_name@))
                    &&& tells(j, "reason"@, JsonModel::Text(reason@))
                    &&& says_in_all(j) == 6
                },
            }
        }),
{
    let n = transfer_told(e, now);
    let v = n.params->Object_0;
    assert(v[0] == ("type"@, JsonModel::Text(n.method)));
    match e {
        FileTransferEvent::OfferReceived(o) => {
            assert(v[1] == ("from"@, JsonModel::Text(o.from_peer@)));
            assert(v[2] == ("from_name"@, JsonModel::Text(o.from_name@)));
            assert(v[3] == ("file_name"@, JsonModel::Text(o.file_name@)));
            assert(v[4] == ("size"@, JsonModel::Number(o.size)));
            assert(v[5] == ("sha256"@, JsonModel::Text(o.sha256@)));
            assert(v[6] == ("token"@, JsonModel::Text(o.token@)));
            assert(v[7] == ("time"@, JsonModel::Text(now)));
        },
        FileTransferEvent::Hashing { token, file_name, bytes_hashed, total_bytes } => {
            assert(v[1] == ("token"@, JsonModel::Text(token@)));
            assert(v[2] == ("file_name"@, JsonModel::Text(file_name@)));
            assert(v[3] == ("bytes_hashed"@, JsonModel::Number(bytes_hashed)));
            assert(v[4] == ("total_bytes"@, JsonModel::Number(total_bytes)));
            assert(v[5] == ("percent"@, JsonModel::Percent(bytes_hashed, total_bytes)));
            assert(v[6] == ("time"@, JsonModel::Text(now)));
        },
        FileTransferEvent::WaitingForAccept { token, file_name } => {
            assert(v[1] == ("token"@, JsonModel::Text(token@)));
            assert(v[2] == ("file_name"@, JsonModel::Text(file_name@)));
            assert(v[3] == ("time"@, JsonModel::Text(now)));
        },
        FileTransferEvent::Progress(p) => {
            assert(v[1] == ("token"@, JsonModel::Text(p.token@)));
            assert(v[2] == ("direction"@, JsonModel::Text(match p.direction { TransferDirection::Send => "Send"@, TransferDirection::Receive => "Receive"@ })));
            assert(v[3] == ("file_name"@, JsonModel::Text(p.file_name@)));
            assert(v[4] == ("bytes_transferred"@, JsonModel::Number(p.bytes_transferred)));
            assert(v[5] == ("total_bytes"@, JsonModel::Number(p.total_bytes)));
            assert(v[6] == ("speed_bps"@, JsonModel::Double(p.speed_bps_bits)));
            assert(v[7] == ("percent"@, JsonModel::Percent(p.bytes_transferred, p.total_bytes)));
            assert(v[8] == ("time"@, JsonModel::Text(now)));
        },
        FileTransferEvent::Completed { token, direction, file_name, bytes_transferred, sha256, elapsed_secs_bits } => {
            assert(v[1] == ("token"@, JsonModel::Text(token@)));
            assert(v[2] == ("direction"@, JsonModel::Text(match direction { TransferDirection::Send => "Send"@, TransferDirection::Receive => "Receive"@ })));
            assert(v[3] == ("file_name"@, JsonModel::Text(file_name@)));
            assert(v[4] == ("bytes_transferred"@, JsonModel::Number(bytes_transferred)));
            assert(v[5] == ("sha256"@, JsonModel::Text(sha256@)));
            assert(v[6] == ("elapsed_secs"@, JsonModel::Double(elapsed_secs_bits)));
            assert(v[7] == ("time"@, JsonModel::Text(now)));
        },
        FileTransferEvent::Rejected { token, file_name, reason } => {
            assert(v[1] == ("token"@, JsonModel::Text(token@)));
            assert(v[2] == ("file_name"@, JsonModel::Text(file_name@)));
            assert(v[3] == ("reason"@, JsonModel::Text(reason@)));
            assert(v[4] == ("time"@, JsonModel::Text(now)));
        },
        FileTransferEvent::Failed { token, direction, file_name, reason } => {
            assert(v[1] == ("token"@, JsonModel::Text(token@)));
            assert(v[2] == ("direction"@, JsonModel::Text(match direction { TransferDirection::Send => "Send"@, TransferDirection::Receive => "Receive"@ })));
            assert(v[3] == ("file_name"@, JsonModel::Text(file_name@)));
            assert(v[4] == ("reason"@, JsonModel::Text(reason@)));
            assert(v[5] == ("time"@, JsonModel::Text(now)));
        },
    }
}

/// A client that sends a file is told how much of it was digested, that its
/// peer is waited for, and how much was sent; and nothing else.
pub proof fn law_sender_is_told_its_progress(e: FileTransferEvent)
    ensures
        ({
            let j = push_progress_params(e)->0;
            match e {
                FileTransferEvent::Hashing { token: _, file_name: _, bytes_hashed, total_bytes } => {
                    &&& push_progress_params(e) is Some
                    &&& tells(j, "bytes_sent"@, JsonModel::Number(0))
                    &&& tells(j, "total_bytes"@, JsonModel::Number(total_bytes))
                    &&& tells(j, "bytes_per_second"@, JsonModel::Double(0))
                    &&& tells(j, "percent"@, JsonModel::Double(0))
                    &&& tells(j, "phase"@, JsonModel::Text("hashing"@))
                    &&& tells(j, "hash_percent"@, JsonModel::Percent(bytes_hashed, total_bytes))
                    &&& says_in_all(j) == 6
                },
                FileTransferEvent::WaitingForAccept { token: _, file_name: _ } => {
                    &&& push_progress_params(e) is Some
                    &&& tells(j, "bytes_sent"@, JsonModel::Number(0))
                    &&& tells(j, "total_bytes"@, JsonModel::Number(0))
                    &&& tells(j, "bytes_per_second"@, JsonModel::Double(0))
                    &&& tells(j, "percent"@, JsonModel::Double(0))
                    &&& tells(j, "phase"@, JsonModel::Text("waiting"@))
                    &&& says_in_all(j) == 5
                },
                FileTransferEvent::Progress(p) => {
                    &&& push_progress_params(e) is Some
                    &&& tells(j, "bytes_sent"@, JsonModel::Number(p.bytes_transferred))
                    &&& tells(j, "total_bytes"@, JsonModel::Number(p.total_bytes))
                    &&& tells(j, "bytes_per_second"@, JsonModel::Double(p.speed_bps_bits))
                    &&& tells(j, "percent"@, JsonModel::Percent(p.bytes_transferred, p.total_bytes))
                    &&& says_in_all(j) == 4
                },
                _ => push_progress_params(e) is None,
            }
        }),
{
    let v = push_progress_params(e)->0->Object_0;
    match e {
        FileTransferEvent::Hashing { token: _, file_name: _, bytes_hashed, total_bytes } => {
            assert(v[0] == ("bytes_sent"@, JsonModel::Number(0)));
            assert(v[1] == ("total_bytes"@, JsonModel::Number(total_bytes)));
            assert(v[2] == ("bytes_per_second"@, JsonModel::Double(0)));
            assert(v[3] == ("percent"@, JsonModel::Double(0)));
            assert(v[4] == ("phase"@, JsonModel::Text("hashing"@)));
            assert(v[5] == ("hash_percent"@, JsonModel::Percent(bytes_hashed, total_bytes)));
        },
        FileTransferEvent::WaitingForAccept { token: _, file_name: _ } => {
            assert(v[0] == ("bytes_sent"@, JsonModel::Number(0)));
            assert(v[1] == ("total_bytes"@, JsonModel::Number(0)));
            assert(v[2] == ("bytes_per_second"@, JsonModel::Double(0)));
            assert(v[3] == ("percent"@, JsonModel::Double(0)));
            assert(v[4] == ("phase"@, JsonModel::Text("waiting"@)));
        },
        FileTransferEvent::Progress(p) => {
            assert(v[0] == ("bytes_sent"@, JsonModel::Number(p.bytes_transferred)));
            assert(v[1] == ("total_bytes"@, JsonModel::Number(p.total_bytes)));
            assert(v[2] == ("bytes_per_second"@, JsonModel::Double(p.speed_bps_bits)));
            assert(v[3] == ("percent"@, JsonModel::Percent(p.bytes_transferred, p.total_bytes)));
        },
        _ => {},
    }
}

/// A client that fetches a file is told how much of it came, and nothing else.
pub proof fn law_fetcher_is_told_its_progress(e: FileTransferEvent)
    ensures
        ({
            let j = get_progress_params(e)->0;
            match e {
                FileTransferEvent::Progress(p) => {
                    &&& get_progress_params(e) is Some
                    &&& tells(j, "bytes_received"@, JsonModel::Number(p.bytes_transferred))
                    &&& tells(j, "total_bytes"@, JsonModel::Number(p.total_bytes))
                    &&& tells(j, "bytes_per_second"@, JsonModel::Double(p.speed_bps_bits))
                    &&& tells(j, "percent"@, JsonModel::Percent(p.bytes_transferred, p.total_bytes))
                    &&& says_in_all(j) == 4
                },
                _ => get_progress_params(e) is None,
            }
        }),
{
    let v = get_progress_params(e)->0->Object_0;
    match e {
        FileTransferEvent::Progress(p) => {
            assert(v[0] == ("bytes_received"@, JsonModel::Number(p.bytes_transferred)));
            assert(v[1] == ("total_bytes"@, JsonModel::Number(p.total_bytes)));
            assert(v[2] == ("bytes_per_second"@, JsonModel::Double(p.speed_bps_bits)));
            assert(v[3] == ("percent"@, JsonModel::Percent(p.bytes_transferred, p.total_bytes)));
        },
        _ => {},
    }
}

// ---------------------------------------------------------------------------
// Views
// ---------------------------------------------------------------------------

/// A peer as applications see it becomes an entry that says the same of it.
pub proof fn law_view_becomes_its_entry(p: PeerViewModel)
    ensures
        ({
            let s = state_of(p);
            &&& s.id == p.tailscale_id
            &&& s.generation == p.generation
            &&& s.name == p.hostname
            &&& s.ip == p.ip
            &&& s.online == p.online
            &&& s.ws_connected == p.ws_connected
            &&& s.connection_type == p.connection_type
            &&& s.os == p.os
            &&& s.last_seen == p.last_seen
            &&& s.login_name == p.login_name
            &&& device_shown(s) == p.device_id
            &&& p.device_id is Some && p.device_name is Some ==> name_shown(s)
                == p.device_name->0
            &&& p.device_id is Some && p.device_name is None ==> name_shown(s) == p.display_name
            &&& p.device_id is None ==> name_shown(s) == p.hostname
        }),
{
}

/// A fresh look reports exactly the peers that are online.
pub proof fn law_online_peers_are_reported(peers: Seq<PeerViewModel>, s: PeerModel)
    ensures
        states_online(peers).contains(s) <==> exists|i: int|
            0 <= i < peers.len() && (#[trigger] peers[i]).online && s == state_of(peers[i]),
    decreases peers.len(),
{
    if peers.len() > 0 {
        let front = peers.drop_last();
        law_online_peers_are_reported(front, s);
        let some = states_online(front);
        let all = states_online(peers);
        if all.contains(s) {
            let j = choose|j: int| 0 <= j < all.len() && all[j] == s;
            if j < some.len() {
                assert(some[j] == s);
                assert(some.contains(s));
                let i = choose|i: int|
                    0 <= i < front.len() && (#[trigger] front[i]).online && s == state_of(front[i]);
                assert(peers[i].online && s == state_of(peers[i]));
            } else {
                assert(peers[peers.len() - 1].online);
            }
        }
        if exists|i: int|
            0 <= i < peers.len() && (#[trigger] peers[i]).online && s == state_of(peers[i]) {
            let i = choose|i: int|
                0 <= i < peers.len() && (#[trigger] peers[i]).online && s == state_of(peers[i]);
            if i == peers.len() - 1 {
                assert(all[some.len() as int] == s);
            } else {
                assert(front[i].online && s == state_of(front[i]));
                assert(some.contains(s));
                let j = choose|j: int| 0 <= j < some.len() && some[j] == s;
                assert(all[j] == s);
            }
        }
    }
}

/// An answer carries the id of its request, and either the result or the code
/// and the words of the error, never both.
pub proof fn law_answers_carry_their_id(id: u64, result: JsonModel, code: ErrorCode, text: Seq<char>)
    ensures
        success_model(id, result).id == id,
        success_model(id, result).result == Ok::<JsonModel, (ErrorCode, Seq<char>)>(result),
        error_model(id, code, text).id == id,
        error_model(id, code, text).result == Err::<JsonModel, (ErrorCode, Seq<char>)>(
            (code, text),
        ),
{
}

/// What was done is confirmed under its name, and nothing else is said.
pub proof fn law_deeds_are_confirmed(key: Seq<char>)
    ensures
        tells(one_truth(key), key, JsonModel::Bool(true)),
        says_in_all(one_truth(key)) == 1,
{
    assert(one_truth(key)->Object_0[0] == (key, JsonModel::Bool(true)));
}

} // verus!
