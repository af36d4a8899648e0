//! What the daemon answers, once the node has said its part.
use vstd::prelude::*;

use crate::daemon::handler::ProxyTarget;
use crate::daemon::protocol::{error_model, success_model, DaemonResponse, ErrorCode};
use crate::json::{
    json_model, json_opt, json_text, json_texts, text_list, text_or_null, Fields, Json, JsonModel,
};
use crate::network::types::{HealthInfo, HealthModel, NodeIdentity, NodeModel, PingResult};
use crate::node::{peer_views, Peer, PeerViewModel};
use crate::text::{join2, opt_text, owned};

verus! {

// ---------------------------------------------------------------------------
// The node
// ---------------------------------------------------------------------------

/// An absent text counts as an empty one.
pub open spec fn text_or_empty(o: Option<Seq<char>>) -> JsonModel {
    match o {
        Some(s) => JsonModel::Text(s),
        None => JsonModel::Text(Seq::empty()),
    }
}

fn json_or_empty(o: &Option<String>) -> (r: Json)
    ensures
        r@ == text_or_empty(opt_text(*o)),
{
    match o {
        Some(s) => json_text(s.as_str()),
        None => {
            let e: String = String::new();
            assert(e@ =~= Seq::empty());
            Json::Text(e)
        },
    }
}

/// The status word: "online" for a healthy node, else what its network says.
pub open spec fn status_word(h: HealthModel) -> Seq<char> {
    if h.healthy {
        "online"@
    } else {
        h.state
    }
}

pub open spec fn health_json(h: HealthModel) -> JsonModel {
    JsonModel::Object(
        seq![
            ("state"@, JsonModel::Text(h.state)),
            ("healthy"@, JsonModel::Bool(h.healthy)),
            ("key_expiry"@, text_or_null(h.key_expiry)),
            ("warnings"@, text_list(h.warnings)),
        ],
    )
}

pub open spec fn status_json(i: NodeModel, peer_count: u64, h: HealthModel, uptime_secs: u64) -> JsonModel {
    JsonModel::Object(
        seq![
            ("app_id"@, JsonModel::Text(i.app_id)),
            ("device_id"@, JsonModel::Text(i.device_id)),
            ("device_name"@, JsonModel::Text(i.device_name)),
            ("tailscale_hostname"@, JsonModel::Text(i.tailscale_hostname)),
            ("tailscale_id"@, JsonModel::Text(i.tailscale_id)),
            ("ip"@, text_or_empty(i.ip)),
            ("dns_name"@, text_or_empty(i.dns_name)),
            ("login_name"@, text_or_null(i.login_name)),
            ("status"@, JsonModel::Text(status_word(h))),
            ("uptime_secs"@, JsonModel::Number(uptime_secs)),
            ("peer_count"@, JsonModel::Number(peer_count)),
            ("health"@, health_json(h)),
        ],
    )
}

fn write_health(h: &HealthInfo) -> (r: Json)
    ensures
        r@ == health_json(h@),
{
    let f: Fields = Fields::new().put("state", json_text(h.state.as_str())).put(
        "healthy",
        Json::Bool(h.healthy),
    ).put("key_expiry", json_opt(&h.key_expiry)).put("warnings", json_texts(&h.warnings));
    assert(f.model() =~= health_json(h@)->Object_0);
    f.done()
}

/// The answer to a request for the status.
pub fn handle_status(
    id: u64,
    info: &NodeIdentity,
    peer_count: u64,
    health: &HealthInfo,
    uptime_secs: u64,
) -> (r: DaemonResponse)
    ensures
        r@ == success_model(id, status_json(info@, peer_count, health@, uptime_secs)),
{
    let status: Json = if health.healthy {
        json_text("online")
    } else {
        json_text(health.state.as_str())
    };
    let f: Fields = Fields::new().put("app_id", json_text(info.app_id.as_str())).put(
        "device_id",
        json_text(info.device_id.as_str()),
    ).put("device_name", json_text(info.device_name.as_str())).put(
        "tailscale_hostname",
        json_text(info.tailscale_hostname.as_str()),
    ).put("tailscale_id", json_text(info.tailscale_id.as_str())).put(
        "ip",
        json_or_empty(&info.ip),
    ).put("dns_name", json_or_empty(&info.dns_name)).put(
        "login_name",
        json_opt(&info.login_name),
    ).put("status", status).put("uptime_secs", Json::Number(uptime_secs)).put(
        "peer_count",
        Json::Number(peer_count),
    ).put("health", write_health(health));
    assert(f.model() =~= status_json(info@, peer_count, health@, uptime_secs)->Object_0);
    DaemonResponse::success(id, f.done())
}

pub open spec fn doctor_json(i: NodeModel, peer_count: u64, h: HealthModel) -> JsonModel {
    JsonModel::Object(
        seq![
            (
                "checks"@,
                JsonModel::Object(
                    seq![
                        ("node_online"@, JsonModel::Bool(h.healthy)),
                        ("tailscale_state"@, JsonModel::Text(h.state)),
                        ("peer_count"@, JsonModel::Number(peer_count)),
                        ("key_expiry"@, text_or_null(h.key_expiry)),
                        ("warnings"@, text_list(h.warnings)),
                        ("device_id"@, JsonModel::Text(i.device_id)),
                        ("device_name"@, JsonModel::Text(i.device_name)),
                        ("tailscale_id"@, JsonModel::Text(i.tailscale_id)),
                        ("tailscale_hostname"@, JsonModel::Text(i.tailscale_hostname)),
                    ],
                ),
            ),
        ],
    )
}

/// The answer to a request for a check-up.
pub fn handle_doctor(id: u64, info: &NodeIdentity, peer_count: u64, health: &HealthInfo) -> (r:
    DaemonResponse)
    ensures
        r@ == success_model(id, doctor_json(info@, peer_count, health@)),
{
    let checks: Fields = Fields::new().put("node_online", Json::Bool(health.healthy)).put(
        "tailscale_state",
        json_text(health.state.as_str()),
    ).put("peer_count", Json::Number(peer_count)).put(
        "key_expiry",
        json_opt(&health.key_expiry),
    ).put("warnings", json_texts(&health.warnings)).put(
        "device_id",
        json_text(info.device_id.as_str()),
    ).put("device_name", json_text(info.device_name.as_str())).put(
        "tailscale_id",
        json_text(info.tailscale_id.as_str()),
    ).put("tailscale_hostname", json_text(info.tailscale_hostname.as_str()));
    assert(checks.model() =~= doctor_json(info@, peer_count, health@)->Object_0[0].1->Object_0);
    let f: Fields = Fields::new().put("checks", checks.done());
    assert(f.model() =~= doctor_json(info@, peer_count, health@)->Object_0);
    DaemonResponse::success(id, f.done())
}

// ---------------------------------------------------------------------------
// Peers
// ---------------------------------------------------------------------------

pub open spec fn peer_json(p: PeerViewModel) -> JsonModel {
    JsonModel::Object(
        seq![
            ("device_id"@, text_or_null(p.device_id)),
            ("device_name"@, text_or_null(p.device_name)),
            ("display_name"@, JsonModel::Text(p.display_name)),
            ("hostname"@, JsonModel::Text(p.hostname)),
            ("tailscale_id"@, JsonModel::Text(p.tailscale_id)),
            ("peer_ref"@, JsonModel::Text(p.peer_ref)),
            ("generation"@, JsonModel::Number(p.generation)),
            ("ip"@, JsonModel::Text(p.ip)),
            ("online"@, JsonModel::Bool(p.online)),
            ("ws_connected"@, JsonModel::Bool(p.ws_connected)),
            ("connection_type"@, JsonModel::Text(p.connection_type)),
            ("os"@, text_or_null(p.os)),
            ("last_seen"@, text_or_null(p.last_seen)),
            ("login_name"@, text_or_null(p.login_name)),
        ],
    )
}

pub open spec fn peers_json(peers: Seq<PeerViewModel>) -> JsonModel {
    JsonModel::Object(
        seq![
            (
                "peers"@,
                JsonModel::Array(Seq::new(peers.len(), |i: int| peer_json(peers[i]))),
            ),
        ],
    )
}

fn write_peer(p: &Peer) -> (r: Json)
    ensures
        r@ == peer_json(p@),
{
    let f: Fields = Fields::new().put("device_id", json_opt(&p.device_id)).put(
        "device_name",
        json_opt(&p.device_name),
    ).put("display_name", json_text(p.display_name.as_str())).put(
        "hostname",
        json_text(p.hostname.as_str()),
    ).put("tailscale_id", json_text(p.tailscale_id.as_str())).put(
        "peer_ref",
        json_text(p.peer_ref.as_str()),
    ).put("generation", Json::Number(p.generation)).put("ip", json_text(p.ip.as_str())).put(
        "online",
        Json::Bool(p.online),
    ).put("ws_connected", Json::Bool(p.ws_connected)).put(
        "connection_type",
        json_text(p.connection_type.as_str()),
    ).put("os", json_opt(&p.os)).put("last_seen", json_opt(&p.last_seen)).put(
        "login_name",
        json_opt(&p.login_name),
    );
    assert(f.model() =~= peer_json(p@)->Object_0);
    f.done()
}

/// The answer to a request for the peers.
pub fn handle_peers(id: u64, peers: &Vec<Peer>) -> (r: DaemonResponse)
    ensures
        r@ == success_model(id, peers_json(peer_views(peers@))),
{
    let n: usize = peers.len();
    let mut out: Vec<Json> = Vec::new();
    let mut i: usize = 0;
    while i < n
        invariant
            n == peers@.len(),
            i <= n,
            out@.len() == i,
            forall|j: int| 0 <= j < i ==> json_model(#[trigger] out@[j]) == peer_json(peers@[j]@),
        decreases n - i,
    {
        out.push(write_peer(&peers[i]));
        i += 1;
    }
    let list: Json = Json::Array(out);
    assert(list@->Array_0 =~= peers_json(peer_views(peers@))->Object_0[0].1->Array_0);
    let f: Fields = Fields::new().put("peers", list);
    assert(f.model() =~= peers_json(peer_views(peers@))->Object_0);
    DaemonResponse::success(id, f.done())
}

// ---------------------------------------------------------------------------
// Calls
// ---------------------------------------------------------------------------

/// An object with one truth value that holds.
pub open spec fn one_truth(key: Seq<char>) -> JsonModel {
    JsonModel::Object(seq![(key, JsonModel::Bool(true))])
}

fn write_truth(key: &str) -> (r: Json)
    ensures
        r@ == one_truth(key@),
{
    let f: Fields = Fields::new().put(key, Json::Bool(true));
    assert(f.model() =~= one_truth(key@)->Object_0);
    f.done()
}

/// The answer to something that only works or fails.
fn plain_answer(id: u64, key: &str, result: &Result<(), String>) -> (r: DaemonResponse)
    ensures
        r@ == (match *result {
            Ok(_) => success_model(id, one_truth(key@)),
            Err(e) => error_model(id, ErrorCode::InternalError, e@),
        }),
{
    match result {
        Ok(_) => DaemonResponse::success(id, write_truth(key)),
        Err(e) => DaemonResponse::error(id, ErrorCode::InternalError, e.as_str()),
    }
}

/// The answer to a message that was to be sent.
pub fn handle_send_message(id: u64, result: &Result<(), String>) -> (r: DaemonResponse)
    ensures
        r@ == (match *result {
            Ok(_) => success_model(id, one_truth("sent"@)),
            Err(e) => error_model(id, ErrorCode::InternalError, e@),
        }),
{
    plain_answer(id, "sent", result)
}

/// The answer to a request to shut down.
pub fn handle_shutdown(id: u64) -> (r: DaemonResponse)
    ensures
        r@ == success_model(id, one_truth("shutting_down"@)),
{
    DaemonResponse::success(id, write_truth("shutting_down"))
}

/// The answer to a proxy that was to be removed.
pub fn handle_proxy_remove(id: u64, result: &Result<(), String>) -> (r: DaemonResponse)
    ensures
        r@ == (match *result {
            Ok(_) => success_model(id, one_truth("removed"@)),
            Err(e) => error_model(id, ErrorCode::InternalError, e@),
        }),
{
    plain_answer(id, "removed", result)
}

pub open spec fn ping_json(p: PingResult) -> JsonModel {
    JsonModel::Object(
        seq![
            ("latency_ms"@, JsonModel::Double(p.latency_ms_bits)),
            ("connection"@, JsonModel::Text(p.connection@)),
            ("peer_addr"@, text_or_null(opt_text(p.peer_addr))),
        ],
    )
}

/// The answer to a ping.
pub fn handle_ping(id: u64, result: &Result<PingResult, String>) -> (r: DaemonResponse)
    ensures
        r@ == (match *result {
            Ok(p) => success_model(id, ping_json(p)),
            Err(e) => error_model(id, ErrorCode::NodeNotFound, e@),
        }),
{
    match result {
        Ok(p) => {
            let f: Fields = Fields::new().put("latency_ms", Json::Double(p.latency_ms_bits)).put(
                "connection",
                json_text(p.connection.as_str()),
            ).put("peer_addr", json_opt(&p.peer_addr));
            assert(f.model() =~= ping_json(*p)->Object_0);
            DaemonResponse::success(id, f.done())
        },
        Err(e) => DaemonResponse::error(id, ErrorCode::NodeNotFound, e.as_str()),
    }
}

pub open spec fn tcp_json(peer: Seq<char>, port: u16) -> JsonModel {
    JsonModel::Object(
        seq![
            ("connected"@, JsonModel::Bool(true)),
            ("peer"@, JsonModel::Text(peer)),
            ("port"@, JsonModel::Number(port as u64)),
        ],
    )
}

/// The answer to a connection that was tried.
pub fn handle_tcp_connect(id: u64, peer: &str, port: u16, result: &Result<(), String>) -> (r:
    DaemonResponse)
    ensures
        r@ == (match *result {
            Ok(_) => success_model(id, tcp_json(peer@, port)),
            Err(e) => error_model(id, ErrorCode::InternalError, e@),
        }),
{
    match result {
        Ok(_) => {
            let f: Fields = Fields::new().put("connected", Json::Bool(true)).put(
                "peer",
                json_text(peer),
            ).put("port", Json::Number(port as u64));
            assert(f.model() =~= tcp_json(peer@, port)->Object_0);
            DaemonResponse::success(id, f.done())
        },
        Err(e) => DaemonResponse::error(id, ErrorCode::InternalError, e.as_str()),
    }
}

/// A transfer that worked.
#[derive(Debug)]
pub struct TransferResult {
    pub bytes_transferred: u64,
    pub sha256: String,
    /// Seconds, as the bits of a double.
    pub elapsed_secs_bits: u64,
}

pub open spec fn transfer_json(t: TransferResult) -> JsonModel {
    JsonModel::Object(
        seq![
            ("success"@, JsonModel::Bool(true)),
            ("bytes_transferred"@, JsonModel::Number(t.bytes_transferred)),
            ("sha256"@, JsonModel::Text(t.sha256@)),
            ("elapsed_secs"@, JsonModel::Double(t.elapsed_secs_bits)),
        ],
    )
}

/// The answer to a file that was sent or fetched.
pub fn handle_transfer(id: u64, result: &Result<TransferResult, String>) -> (r: DaemonResponse)
    ensures
        r@ == (match *result {
            Ok(t) => success_model(id, transfer_json(t)),
            Err(e) => error_model(id, ErrorCode::InternalError, e@),
        }),
{
    match result {
        Ok(t) => {
            let f: Fields = Fields::new().put("success", Json::Bool(true)).put(
                "bytes_transferred",
                Json::Number(t.bytes_transferred),
            ).put("sha256", json_text(t.sha256.as_str())).put(
                "elapsed_secs",
                Json::Double(t.elapsed_secs_bits),
            );
            assert(f.model() =~= transfer_json(*t)->Object_0);
            DaemonResponse::success(id, f.done())
        },
        Err(e) => DaemonResponse::error(id, ErrorCode::InternalError, e.as_str()),
    }
}

// ---------------------------------------------------------------------------
// Proxies
// ---------------------------------------------------------------------------

/// How a proxy stands.
#[derive(Debug)]
pub enum ProxyStatus {
    Starting,
    Running,
    Stopped,
    Error(String),
}

/// A proxy.
#[derive(Debug)]
pub struct ProxyInfo {
    pub id: String,
    pub name: String,
    pub listen_port: u16,
    pub target: ProxyTarget,
    pub url: String,
    pub status: ProxyStatus,
}

pub open spec fn proxy_status_word(s: ProxyStatus) -> Seq<char> {
    match s {
        ProxyStatus::Starting => "starting"@,
        ProxyStatus::Running => "running"@,
        ProxyStatus::Stopped => "stopped"@,
        ProxyStatus::Error(m) => "error: "@ + m@,
    }
}

pub open spec fn proxy_json(p: ProxyInfo) -> JsonModel {
    JsonModel::Object(
        seq![
            ("id"@, JsonModel::Text(p.id@)),
            ("name"@, JsonModel::Text(p.name@)),
            ("listen_port"@, JsonModel::Number(p.listen_port as u64)),
            ("target_host"@, JsonModel::Text(p.target.host@)),
            ("target_port"@, JsonModel::Number(p.target.port as u64)),
            ("target_scheme"@, JsonModel::Text(p.target.scheme@)),
            ("url"@, JsonModel::Text(p.url@)),
            ("status"@, JsonModel::Text(proxy_status_word(p.status))),
        ],
    )
}

pub open spec fn proxies_json(v: Seq<ProxyInfo>) -> JsonModel {
    JsonModel::Object(
        seq![("proxies"@, JsonModel::Array(Seq::new(v.len(), |i: int| proxy_json(v[i]))))],
    )
}

fn status_text(s: &ProxyStatus) -> (r: String)
    ensures
        r@ == proxy_status_word(*s),
{
    match s {
        ProxyStatus::Starting => owned("starting"),
        ProxyStatus::Running => owned("running"),
        ProxyStatus::Stopped => owned("stopped"),
        ProxyStatus::Error(m) => join2("error: ", m.as_str()),
    }
}

fn write_proxy(p: &ProxyInfo) -> (r: Json)
    ensures
        r@ == proxy_json(*p),
{
    let status: String = status_text(&p.status);
    let f: Fields = Fields::new().put("id", json_text(p.id.as_str())).put(
        "name",
        json_text(p.name.as_str()),
    ).put("listen_port", Json::Number(p.listen_port as u64)).put(
        "target_host",
        json_text(p.target.host.as_str()),
    ).put("target_port", Json::Number(p.target.port as u64)).put(
        "target_scheme",
        json_text(p.target.scheme.as_str()),
    ).put("url", json_text(p.url.as_str())).put("status", json_text(status.as_str()));
    assert(f.model() =~= proxy_json(*p)->Object_0);
    f.done()
}

/// The answer to a proxy that was to be started.
pub fn handle_proxy_add(id: u64, result: &Result<ProxyInfo, String>) -> (r: DaemonResponse)
    ensures
        r@ == (match *result {
            Ok(p) => success_model(id, proxy_json(p)),
            Err(e) => error_model(id, ErrorCode::InternalError, e@),
        }),
{
    match result {
        Ok(p) => DaemonResponse::success(id, write_proxy(p)),
        Err(e) => DaemonResponse::error(id, ErrorCode::InternalError, e.as_str()),
    }
}

/// The answer to a request for the proxies.
pub fn handle_proxy_list(id: u64, proxies: &Vec<ProxyInfo>) -> (r: DaemonResponse)
    ensures
        r@ == success_model(id, proxies_json(proxies@)),
{
    let n: usize = proxies.len();
    let mut out: Vec<Json> = Vec::new();
    let mut i: usize = 0;
    while i < n
        invariant
            n == proxies@.len(),
            i <= n,
            out@.len() == i,
            forall|j: int| 0 <= j < i ==> json_model(#[trigger] out@[j]) == proxy_json(proxies@[j]),
        decreases n - i,
    {
        out.push(write_proxy(&proxies[i]));
        i += 1;
    }
    let list: Json = Json::Array(out);
    assert(list@->Array_0 =~= proxies_json(proxies@)->Object_0[0].1->Array_0);
    let f: Fields = Fields::new().put("proxies", list);
    assert(f.model() =~= proxies_json(proxies@)->Object_0);
    DaemonResponse::success(id, f.done())
}

} // verus!
