//! What a request asks for.
use vstd::prelude::*;
use vstd::string::*;
use vstd::utf8::encode_utf8;

use crate::daemon::protocol::{
    error_model, DaemonRequest, DaemonResponse, ErrorCode, Method, MethodNames,
};
use crate::json::{collect_texts, json_models, texts_in, Json, JsonModel};
use crate::network::types::ProxyRoute;
use crate::text::{join3, lowercase, opt_text, owned, same_text, texts, to_lower};

verus! {

// ---------------------------------------------------------------------------
// Subscriptions
// ---------------------------------------------------------------------------

/// What can be subscribed to.
#[derive(Debug, Clone, Copy, PartialEq, Eq, Structural)]
pub enum SubscribeEventType {
    Peer,
    Message,
    Transfer,
}

/// What a client subscribes to.
#[derive(Debug)]
pub struct SubscribeParams {
    pub events: Vec<SubscribeEventType>,
    /// In lower case.
    pub peer_filter: Option<String>,
}

/// The type that a word names.
pub open spec fn event_type_named(word: Seq<char>) -> Option<SubscribeEventType> {
    if word == "peer"@ {
        Some(SubscribeEventType::Peer)
    } else if word == "message"@ {
        Some(SubscribeEventType::Message)
    } else if word == "transfer"@ {
        Some(SubscribeEventType::Transfer)
    } else {
        None
    }
}

/// The types that a list names; `Err` with the first word that names none.
/// What is no text is passed over.
pub open spec fn event_types(v: Seq<JsonModel>) -> Result<Seq<SubscribeEventType>, Seq<char>>
    decreases v.len(),
{
    if v.len() == 0 {
        Ok(Seq::empty())
    } else {
        match event_types(v.drop_last()) {
            Err(word) => Err(word),
            Ok(front) => match v.last().text() {
                Some(word) => match event_type_named(word) {
                    Some(t) => Ok(front.push(t)),
                    None => Err(word),
                },
                None => Ok(front),
            },
        }
    }
}

/// All types, for who names none.
pub open spec fn all_event_types() -> Seq<SubscribeEventType> {
    seq![SubscribeEventType::Peer, SubscribeEventType::Message, SubscribeEventType::Transfer]
}

/// The list that a request holds; none is empty.
pub open spec fn listed(params: JsonModel, key: Seq<char>) -> Seq<JsonModel> {
    match params.at(key).list() {
        Some(v) => v,
        None => Seq::empty(),
    }
}

/// What a subscription names.
pub open spec fn subscribed_types(params: JsonModel) -> Result<
    Seq<SubscribeEventType>,
    Seq<char>,
> {
    match event_types(listed(params, "events"@)) {
        Ok(v) => if v.len() == 0 {
            Ok(all_event_types())
        } else {
            Ok(v)
        },
        Err(word) => Err(word),
    }
}

/// The filter that a subscription names, as it was written.
pub open spec fn subscribed_filter(params: JsonModel) -> Option<Seq<char>> {
    params.at("filter"@).at("peer"@).text()
}

pub open spec fn lowered(o: Option<Seq<char>>) -> Option<Seq<char>> {
    match o {
        Some(s) => Some(lowercase(s)),
        None => None,
    }
}

fn event_type(word: &str) -> (r: Option<SubscribeEventType>)
    ensures
        r == event_type_named(word@),
{
    if same_text(word, "peer") {
        Some(SubscribeEventType::Peer)
    } else if same_text(word, "message") {
        Some(SubscribeEventType::Message)
    } else if same_text(word, "transfer") {
        Some(SubscribeEventType::Transfer)
    } else {
        None
    }
}

fn read_event_types(v: &Vec<Json>) -> (r: Result<Vec<SubscribeEventType>, String>)
    ensures
        match r {
            Ok(ts) => event_types(json_models(v@)) == Ok::<Seq<SubscribeEventType>, Seq<char>>(
                ts@,
            ),
            Err(word) => event_types(json_models(v@)) == Err::<
                Seq<SubscribeEventType>,
                Seq<char>,
            >(word@),
        },
{
    let n: usize = v.len();
    let mut out: Vec<SubscribeEventType> = Vec::new();
    let mut i: usize = 0;
    let ghost all = json_models(v@);
    assert(out@ =~= Seq::empty());
    while i < n
        invariant
            n == v@.len() == all.len(),
            i <= n,
            all == json_models(v@),
            event_types(all.take(i as int)) == Ok::<Seq<SubscribeEventType>, Seq<char>>(out@),
        decreases n - i,
    {
        assert(all.take(i + 1).drop_last() =~= all.take(i as int));
        assert(all.take(i + 1).last() == v@[i as int]@);
        match v[i].as_text() {
            Some(word) => match event_type(word) {
                Some(t) => out.push(t),
                None => {
                    proof {
                        lemma_first_error_stays(all, i + 1);
                    }
                    return Err(owned(word));
                },
            },
            None => {},
        }
        i += 1;
    }
    assert(all.take(n as int) =~= all);
    Ok(out)
}

proof fn lemma_first_error_stays(v: Seq<JsonModel>, k: int)
    requires
        0 <= k <= v.len(),
        event_types(v.take(k)) is Err,
    ensures
        event_types(v) == event_types(v.take(k)),
    decreases v.len() - k,
{
    if k == v.len() {
        assert(v.take(k) =~= v);
    } else {
        assert(v.take(k + 1).drop_last() =~= v.take(k));
        lemma_first_error_stays(v, k + 1);
    }
}

/// Reads what a client subscribes to. A word that names no type is an error,
/// answered without the number of the request.
pub fn parse_subscribe_params(params: &Json) -> (r: Result<SubscribeParams, DaemonResponse>)
    ensures
        match r {
            Ok(p) => subscribed_types(params@) == Ok::<Seq<SubscribeEventType>, Seq<char>>(
                p.events@,
            ) && opt_text(p.peer_filter) == lowered(subscribed_filter(params@)),
            Err(resp) => subscribed_types(params@) is Err && resp@ == error_model(
                0,
                ErrorCode::InvalidParams,
                "Unknown event type: '"@ + subscribed_types(params@)->Err_0
                    + "'. Valid types: peer, message, transfer"@,
            ),
        },
{
    let mut events: Vec<SubscribeEventType> = Vec::new();
    match params.list_at("events") {
        Some(v) => match read_event_types(v) {
            Ok(ts) => events = ts,
            Err(word) => {
                let text: String = join3(
                    "Unknown event type: '",
                    word.as_str(),
                    "'. Valid types: peer, message, transfer",
                );
                return Err(DaemonResponse::error(0, ErrorCode::InvalidParams, text.as_str()));
            },
        },
        None => {
            assert(events@ =~= Seq::empty());
        },
    }
    if events.len() == 0 {
        assert(events@ =~= Seq::empty());
        events.push(SubscribeEventType::Peer);
        events.push(SubscribeEventType::Message);
        events.push(SubscribeEventType::Transfer);
        assert(events@ =~= all_event_types());
    }
    let peer_filter: Option<String> = match params.at("filter") {
        Some(f) => match f.text_at("peer") {
            Some(s) => Some(to_lower(s)),
            None => None,
        },
        None => None,
    };
    Ok(SubscribeParams { events, peer_filter })
}

impl SubscribeParams {
    /// Whether the client subscribes to a type.
    pub fn wants(&self, t: SubscribeEventType) -> (r: bool)
        ensures
            r == self.events@.contains(t),
    {
        let n: usize = self.events.len();
        let mut i: usize = 0;
        while i < n
            invariant
                n == self.events@.len(),
                i <= n,
                forall|j: int| 0 <= j < i ==> self.events@[j] != t,
            decreases n - i,
        {
            if self.events[i] == t {
                return true;
            }
            i += 1;
        }
        false
    }
}

/// What happens on a stream of events to a client.
#[derive(Debug, Clone, Copy, PartialEq, Eq, Structural)]
pub enum StreamNews {
    /// An event that the client is not told.
    PassedOver,
    /// The client was told.
    Told,
    /// The client is gone.
    Gone,
    /// Events were missed.
    Lagged,
    /// There are no more events.
    Closed,
}

/// Whether a stream of events goes on.
pub fn stream_goes_on(news: StreamNews) -> (r: bool)
    ensures
        r == (news != StreamNews::Gone && news != StreamNews::Closed),
{
    match news {
        StreamNews::Gone => false,
        StreamNews::Closed => false,
        _ => true,
    }
}

// ---------------------------------------------------------------------------
// Calls
// ---------------------------------------------------------------------------

/// Where a proxy's requests go.
#[derive(Debug)]
pub struct ProxyTarget {
    pub host: String,
    pub port: u16,
    pub scheme: String,
}

/// What a proxy is to do.
#[derive(Debug)]
pub struct ProxyConfig {
    pub id: String,
    pub name: String,
    pub listen_port: u16,
    pub target: ProxyTarget,
    /// Tell the peers of it.
    pub announce: bool,
    pub tls: bool,
    pub allow_non_loopback: bool,
    pub allow: Vec<String>,
    pub routes: Vec<ProxyRoute>,
}

/// What is asked of the node.
#[derive(Debug)]
#[allow(inconsistent_fields)]
pub enum NodeCall {
    Status,
    Peers,
    Ping { peer: String },
    Send { peer: String, namespace: String, message: String },
    Shutdown,
    TcpConnect { peer: String, port: u16 },
    PushFile { peer: String, local_path: String, remote_path: String },
    GetFile { peer: String, remote_path: String, local_path: String },
    Doctor,
    ProxyAdd(ProxyConfig),
    ProxyRemove { id: String },
    ProxyList,
}

/// What comes of a request.
#[derive(Debug)]
pub enum DispatchResult {
    /// It is answered at once.
    Response(DaemonResponse),
    /// Events are streamed to the client.
    Subscribe(SubscribeParams),
    /// The node is asked, and the answer made of what it says.
    Call(NodeCall),
}

/// The texts of a [`ProxyConfig`]; its routes are those that were read.
pub struct ProxyConfigModel {
    pub id: Seq<char>,
    pub name: Seq<char>,
    pub listen_port: u16,
    pub host: Seq<char>,
    pub port: u16,
    pub scheme: Seq<char>,
    pub announce: bool,
    pub tls: bool,
    pub allow_non_loopback: bool,
    pub allow: Seq<Seq<char>>,
    pub routes: Seq<ProxyRoute>,
}

impl View for ProxyConfig {
    type V = ProxyConfigModel;

    open spec fn view(&self) -> ProxyConfigModel {
        ProxyConfigModel {
            id: self.id@,
            name: self.name@,
            listen_port: self.listen_port,
            host: self.target.host@,
            port: self.target.port,
            scheme: self.target.scheme@,
            announce: self.announce,
            tls: self.tls,
            allow_non_loopback: self.allow_non_loopback,
            allow: texts(self.allow@),
            routes: self.routes@,
        }
    }
}

/// The texts of a [`NodeCall`].
#[allow(inconsistent_fields)]
pub enum CallModel {
    Status,
    Peers,
    Ping(Seq<char>),
    Send { peer: Seq<char>, namespace: Seq<char>, message: Seq<char> },
    Shutdown,
    TcpConnect(Seq<char>, u16),
    PushFile { peer: Seq<char>, local_path: Seq<char>, remote_path: Seq<char> },
    GetFile { peer: Seq<char>, remote_path: Seq<char>, local_path: Seq<char> },
    Doctor,
    ProxyAdd(ProxyConfigModel),
    ProxyRemove(Seq<char>),
    ProxyList,
}

impl View for NodeCall {
    type V = CallModel;

    open spec fn view(&self) -> CallModel {
        match self {
            NodeCall::Status => CallModel::Status,
            NodeCall::Peers => CallModel::Peers,
            NodeCall::Ping { peer } => CallModel::Ping(peer@),
            NodeCall::Send { peer, namespace, message } => CallModel::Send {
                peer: peer@,
                namespace: namespace@,
                message: message@,
            },
            NodeCall::Shutdown => CallModel::Shutdown,
            NodeCall::TcpConnect { peer, port } => CallModel::TcpConnect(peer@, *port),
            NodeCall::PushFile { peer, local_path, remote_path } => CallModel::PushFile {
                peer: peer@,
                local_path: local_path@,
                remote_path: remote_path@,
            },
            NodeCall::GetFile { peer, remote_path, local_path } => CallModel::GetFile {
                peer: peer@,
                remote_path: remote_path@,
                local_path: local_path@,
            },
            NodeCall::Doctor => CallModel::Doctor,
            NodeCall::ProxyAdd(c) => CallModel::ProxyAdd(c@),
            NodeCall::ProxyRemove { id } => CallModel::ProxyRemove(id@),
            NodeCall::ProxyList => CallModel::ProxyList,
        }
    }
}

pub open spec fn text_or(o: Option<Seq<char>>, otherwise: Seq<char>) -> Seq<char> {
    match o {
        Some(s) => s,
        None => otherwise,
    }
}

/// A port as a number states it: its lower sixteen bits.
pub open spec fn low_port(o: Option<u64>) -> u16 {
    match o {
        Some(n) => (n % 65536) as u16,
        None => 0,
    }
}

pub open spec fn truth_or(o: Option<bool>, otherwise: bool) -> bool {
    match o {
        Some(b) => b,
        None => otherwise,
    }
}

/// The call that a request for a ping means; `Err` with what is missing.
pub open spec fn ping_call(p: JsonModel) -> Result<CallModel, Seq<char>> {
    match p.at("node"@).text() {
        Some(peer) => Ok(CallModel::Ping(peer)),
        None => Err("Missing 'node' parameter"@),
    }
}

pub open spec fn send_call(p: JsonModel) -> Result<CallModel, Seq<char>> {
    let peer = match p.at("peer_id"@).text() {
        Some(s) => Some(s),
        None => p.at("device_id"@).text(),
    };
    match peer {
        Some(peer) => Ok(
            CallModel::Send {
                peer,
                namespace: text_or(p.at("namespace"@).text(), "chat"@),
                message: text_or(
                    p.at("message"@).text(),
                    text_or(p.at("payload"@).text(), ""@),
                ),
            },
        ),
        None => Err("Missing 'peer_id' parameter"@),
    }
}

pub open spec fn tcp_call(p: JsonModel) -> Result<CallModel, Seq<char>> {
    match p.at("node"@).text() {
        Some(peer) => if low_port(p.at("port"@).number()) == 0 {
            Err("Missing or invalid 'port' parameter"@)
        } else {
            Ok(CallModel::TcpConnect(peer, low_port(p.at("port"@).number())))
        },
        None => Err("Missing 'node' parameter"@),
    }
}

pub open spec fn push_call(p: JsonModel) -> Result<CallModel, Seq<char>> {
    match p.at("peer_id"@).text() {
        Some(peer) => match p.at("local_path"@).text() {
            Some(local_path) => match p.at("remote_path"@).text() {
                Some(remote_path) => Ok(CallModel::PushFile { peer, local_path, remote_path }),
                None => Err("Missing 'remote_path' parameter"@),
            },
            None => Err("Missing 'local_path' parameter"@),
        },
        None => Err("Missing 'peer_id' parameter"@),
    }
}

pub open spec fn get_call(p: JsonModel) -> Result<CallModel, Seq<char>> {
    match p.at("peer_id"@).text() {
        Some(peer) => match p.at("remote_path"@).text() {
            Some(remote_path) => match p.at("local_path"@).text() {
                Some(local_path) => Ok(CallModel::GetFile { peer, remote_path, local_path }),
                None => Err("Missing 'local_path' parameter"@),
            },
            None => Err("Missing 'remote_path' parameter"@),
        },
        None => Err("Missing 'peer_id' parameter"@),
    }
}

/// What a proxy is to do, with what holds where nothing is said.
pub open spec fn proxy_config(p: JsonModel, routes: Seq<ProxyRoute>) -> ProxyConfigModel {
    let id = text_or(p.at("id"@).text(), ""@);
    ProxyConfigModel {
        id,
        name: text_or(p.at("name"@).text(), id),
        listen_port: low_port(p.at("listen_port"@).number()),
        host: text_or(p.at("target_host"@).text(), "localhost"@),
        port: low_port(p.at("target_port"@).number()),
        scheme: text_or(p.at("target_scheme"@).text(), "http"@),
        announce: truth_or(p.at("announce"@).truth(), true),
        tls: truth_or(p.at("tls"@).truth(), true),
        allow_non_loopback: truth_or(p.at("allow_non_loopback"@).truth(), false),
        allow: texts_in(listed(p, "allow"@)),
        routes,
    }
}

/// The proxy that a request means. `routes` are those that it holds, or why
/// they could not be read. A proxy without routes needs a target.
pub open spec fn proxy_call(p: JsonModel, routes: Result<Vec<ProxyRoute>, String>) -> Result<
    CallModel,
    Seq<char>,
> {
    match routes {
        Err(why) => Err("Invalid 'routes' parameter: "@ + why@),
        Ok(rs) => {
            let c = proxy_config(p, rs@);
            if c.id.len() == 0 {
                Err("Missing 'id' parameter"@)
            } else if c.listen_port == 0 {
                Err("Missing or invalid 'listen_port' parameter"@)
            } else if rs@.len() == 0 && c.port == 0 {
                Err("Missing or invalid 'target_port' parameter"@)
            } else {
                Ok(CallModel::ProxyAdd(c))
            }
        },
    }
}

pub open spec fn remove_call(p: JsonModel) -> Result<CallModel, Seq<char>> {
    match p.at("id"@).text() {
        Some(id) => Ok(CallModel::ProxyRemove(id)),
        None => Err("Missing 'id' parameter"@),
    }
}

/// The call that a request means, for every method but a subscription.
pub open spec fn call_of(m: Method, p: JsonModel, routes: Result<Vec<ProxyRoute>, String>) -> Result<
    CallModel,
    Seq<char>,
> {
    match m {
        Method::Status => Ok(CallModel::Status),
        Method::Peers => Ok(CallModel::Peers),
        Method::Ping => ping_call(p),
        Method::SendMessage => send_call(p),
        Method::Shutdown => Ok(CallModel::Shutdown),
        Method::TcpConnect => tcp_call(p),
        Method::PushFile => push_call(p),
        Method::GetFile => get_call(p),
        Method::Doctor => Ok(CallModel::Doctor),
        Method::ProxyAdd => proxy_call(p, routes),
        Method::ProxyRemove => remove_call(p),
        Method::ProxyList => Ok(CallModel::ProxyList),
        Method::Subscribe => Err(Seq::empty()),
    }
}

fn text_of(p: &Json, key: &str, otherwise: &str) -> (r: String)
    ensures
        r@ == text_or(p@.at(key@).text(), otherwise@),
{
    match p.text_at(key) {
        Some(s) => owned(s),
        None => owned(otherwise),
    }
}

fn port_of(p: &Json, key: &str) -> (r: u16)
    ensures
        r == low_port(p@.at(key@).number()),
{
    match p.number_at(key) {
        Some(n) => (n % 65536) as u16,
        None => 0,
    }
}

fn truth_of(p: &Json, key: &str, otherwise: bool) -> (r: bool)
    ensures
        r == truth_or(p@.at(key@).truth(), otherwise),
{
    match p.truth_at(key) {
        Some(b) => b,
        None => otherwise,
    }
}

fn need(p: &Json, key: &str, missing: &str) -> (r: Result<String, String>)
    ensures
        match r {
            Ok(s) => p@.at(key@).text() == Some(s@),
            Err(e) => p@.at(key@).text() is None && e@ == missing@,
        },
{
    match p.text_at(key) {
        Some(s) => Ok(owned(s)),
        None => Err(owned(missing)),
    }
}

pub open spec fn call_result(r: Result<NodeCall, String>) -> Result<CallModel, Seq<char>> {
    match r {
        Ok(c) => Ok(c@),
        Err(e) => Err(e@),
    }
}

fn read_send(p: &Json) -> (r: Result<NodeCall, String>)
    ensures
        call_result(r) == send_call(p@),
{
    let peer: String = match p.text_at("peer_id") {
        Some(s) => owned(s),
        None => match p.text_at("device_id") {
            Some(s) => owned(s),
            None => return Err(owned("Missing 'peer_id' parameter")),
        },
    };
    let payload: String = text_of(p, "payload", "");
    Ok(
        NodeCall::Send {
            peer,
            namespace: text_of(p, "namespace", "chat"),
            message: text_of(p, "message", payload.as_str()),
        },
    )
}

fn read_tcp(p: &Json) -> (r: Result<NodeCall, String>)
    ensures
        call_result(r) == tcp_call(p@),
{
    match need(p, "node", "Missing 'node' parameter") {
        Ok(peer) => {
            let port: u16 = port_of(p, "port");
            if port == 0 {
                Err(owned("Missing or invalid 'port' parameter"))
            } else {
                Ok(NodeCall::TcpConnect { peer, port })
            }
        },
        Err(e) => Err(e),
    }
}

fn read_push(p: &Json) -> (r: Result<NodeCall, String>)
    ensures
        call_result(r) == push_call(p@),
{
    match need(p, "peer_id", "Missing 'peer_id' parameter") {
        Ok(peer) => match need(p, "local_path", "Missing 'local_path' parameter") {
            Ok(local_path) => match need(p, "remote_path", "Missing 'remote_path' parameter") {
                Ok(remote_path) => Ok(NodeCall::PushFile { peer, local_path, remote_path }),
                Err(e) => Err(e),
            },
            Err(e) => Err(e),
        },
        Err(e) => Err(e),
    }
}

fn read_get(p: &Json) -> (r: Result<NodeCall, String>)
    ensures
        call_result(r) == get_call(p@),
{
    match need(p, "peer_id", "Missing 'peer_id' parameter") {
        Ok(peer) => match need(p, "remote_path", "Missing 'remote_path' parameter") {
            Ok(remote_path) => match need(p, "local_path", "Missing 'local_path' parameter") {
                Ok(local_path) => Ok(NodeCall::GetFile { peer, remote_path, local_path }),
                Err(e) => Err(e),
            },
            Err(e) => Err(e),
        },
        Err(e) => Err(e),
    }
}

fn read_proxy(p: &Json, routes: Result<Vec<ProxyRoute>, String>) -> (r: Result<NodeCall, String>)
    ensures
        call_result(r) == proxy_call(p@, routes),
{
    let routes: Vec<ProxyRoute> = match routes {
        Ok(rs) => rs,
        Err(why) => {
            let text: String = crate::text::join2("Invalid 'routes' parameter: ", why.as_str());
            return Err(text);
        },
    };
    let id: String = text_of(p, "id", "");
    let name: String = text_of(p, "name", id.as_str());
    let listen_port: u16 = port_of(p, "listen_port");
    let port: u16 = port_of(p, "target_port");
    let allow: Vec<String> = match p.list_at("allow") {
        Some(v) => collect_texts(v),
        None => {
            let none: Vec<String> = Vec::new();
            assert(texts(none@) =~= texts_in(Seq::empty()));
            none
        },
    };
    if id.as_str().is_empty() {
        return Err(owned("Missing 'id' parameter"));
    }
    if listen_port == 0 {
        return Err(owned("Missing or invalid 'listen_port' parameter"));
    }
    if routes.len() == 0 && port == 0 {
        return Err(owned("Missing or invalid 'target_port' parameter"));
    }
    Ok(
        NodeCall::ProxyAdd(
            ProxyConfig {
                id,
                name,
                listen_port,
                target: ProxyTarget {
                    host: text_of(p, "target_host", "localhost"),
                    port,
                    scheme: text_of(p, "target_scheme", "http"),
                },
                announce: truth_of(p, "announce", true),
                tls: truth_of(p, "tls", true),
                allow_non_loopback: truth_of(p, "allow_non_loopback", false),
                allow,
                routes,
            },
        ),
    )
}

fn read_call(m: Method, p: &Json, routes: Result<Vec<ProxyRoute>, String>) -> (r: Result<
    NodeCall,
    String,
>)
    ensures
        call_result(r) == call_of(m, p@, routes),
{
    match m {
        Method::Status => Ok(NodeCall::Status),
        Method::Peers => Ok(NodeCall::Peers),
        Method::Ping => match need(p, "node", "Missing 'node' parameter") {
            Ok(peer) => Ok(NodeCall::Ping { peer }),
            Err(e) => Err(e),
        },
        Method::SendMessage => read_send(p),
        Method::Shutdown => Ok(NodeCall::Shutdown),
        Method::TcpConnect => read_tcp(p),
        Method::PushFile => read_push(p),
        Method::GetFile => read_get(p),
        Method::Doctor => Ok(NodeCall::Doctor),
        Method::ProxyAdd => read_proxy(p, routes),
        Method::ProxyRemove => match need(p, "id", "Missing 'id' parameter") {
            Ok(id) => Ok(NodeCall::ProxyRemove { id }),
            Err(e) => Err(e),
        },
        Method::ProxyList => Ok(NodeCall::ProxyList),
        Method::Subscribe => {
            let e: String = String::new();
            assert(e@ =~= Seq::empty());
            Err(e)
        },
    }
}

/// Reads a request: what is asked of the node, what is subscribed to, or the
/// error it is answered with. `routes` are the routes that a request for a
/// proxy holds, or why they could not be read.
pub fn dispatch(
    request: &DaemonRequest,
    names: &MethodNames,
    routes: Result<Vec<ProxyRoute>, String>,
) -> (r: DispatchResult)
    ensures
        match crate::daemon::protocol::method_named(*names, request.method@) {
            None => r is Response && r->Response_0@ == error_model(
                request.id,
                ErrorCode::MethodNotFound,
                "Method '"@ + request.method@ + "' not found"@,
            ),
            Some(Method::Subscribe) => match subscribed_types(request.params@) {
                Ok(types) => r is Subscribe && r->Subscribe_0.events@ == types && opt_text(
                    r->Subscribe_0.peer_filter,
                ) == lowered(subscribed_filter(request.params@)),
                Err(word) => r is Response && r->Response_0@ == error_model(
                    0,
                    ErrorCode::InvalidParams,
                    "Unknown event type: '"@ + word + "'. Valid types: peer, message, transfer"@,
                ),
            },
            Some(m) => match call_of(m, request.params@, routes) {
                Ok(call) => r is Call && r->Call_0@ == call,
                Err(text) => r is Response && r->Response_0@ == error_model(
                    request.id,
                    ErrorCode::InvalidParams,
                    text,
                ),
            },
        },
{
    match names.method(request.method.as_str()) {
        None => {
            let text: String = join3("Method '", request.method.as_str(), "' not found");
            DispatchResult::Response(
                DaemonResponse::error(request.id, ErrorCode::MethodNotFound, text.as_str()),
            )
        },
        Some(Method::Subscribe) => match parse_subscribe_params(&request.params) {
            Ok(params) => DispatchResult::Subscribe(params),
            Err(resp) => DispatchResult::Response(resp),
        },
        Some(m) => match read_call(m, &request.params, routes) {
            Ok(call) => DispatchResult::Call(call),
            Err(text) => DispatchResult::Response(
                DaemonResponse::error(request.id, ErrorCode::InvalidParams, text.as_str()),
            ),
        },
    }
}

// ---------------------------------------------------------------------------
// Payloads
// ---------------------------------------------------------------------------

/// Whether a text is a JSON value.
pub uninterp spec fn is_json(text: Seq<char>) -> bool;

/// `serde_json::from_str` into `serde_json::Value`: whether the text parses,
/// which depends on the text alone.
#[verifier::external_body]
fn parses(text: &str) -> (r: bool)
    ensures
        r == is_json(text@),
{
    serde_json::from_str::<serde_json::Value>(text).is_ok()
}

/// How a message goes out.
#[derive(Debug)]
pub enum Payload {
    /// As the JSON value that its text is.
    Value(String),
    /// As the list of its bytes.
    Bytes(Vec<u8>),
}

pub open spec fn payload_is(message: Seq<char>, parsed: bool, p: Payload) -> bool {
    match p {
        Payload::Value(text) => parsed && text@ == message,
        Payload::Bytes(bytes) => !parsed && bytes@ == encode_utf8(message),
    }
}

/// How a message goes out, once it is known whether it is a JSON value.
pub fn payload_as(message: &str, parsed: bool) -> (r: Payload)
    ensures
        payload_is(message@, parsed, r),
{
    if parsed {
        Payload::Value(owned(message))
    } else {
        let bytes: &[u8] = message.as_bytes();
        Payload::Bytes(vstd::slice::slice_to_vec(bytes))
    }
}

/// How a message goes out: a text that is a JSON value as that value, any
/// other as its bytes.
pub fn payload_of(message: &str) -> (r: Payload)
    ensures
        payload_is(message@, is_json(message@), r),
{
    let parsed: bool = parses(message);
    payload_as(message, parsed)
}

} // verus!
