//! What requests come to, parameter by parameter.
use vstd::prelude::*;
use vstd::utf8::encode_utf8;

use crate::daemon::handler::{
    call_of, event_type_named, event_types, payload_is, subscribed_filter, subscribed_types,
    CallModel, Payload, SubscribeEventType,
};
use crate::daemon::protocol::{method_named, Method, MethodNames};
use crate::json::{texts_in, JsonModel};
use crate::network::types::ProxyRoute;

verus! {

// ---------------------------------------------------------------------------
// Values
// ---------------------------------------------------------------------------

/// A name in an object means the value of its first entry under that name, and
/// null where there is none, or no object.
pub proof fn law_first_entry_is_meant(
    v: Seq<(Seq<char>, JsonModel)>,
    key: Seq<char>,
    i: int,
)
    requires
        0 <= i <= v.len(),
        forall|j: int| 0 <= j < i ==> (#[trigger] v[j]).0 != key,
        i < v.len() ==> v[i].0 == key,
    ensures
        i < v.len() ==> JsonModel::Object(v).at(key) == v[i].1,
        i == v.len() ==> JsonModel::Object(v).at(key) == JsonModel::Null,
{
    lemma_entry(v, key, 0, i);
}

proof fn lemma_entry(v: Seq<(Seq<char>, JsonModel)>, key: Seq<char>, from: int, i: int)
    requires
        0 <= from <= i <= v.len(),
        forall|j: int| from <= j < i ==> (#[trigger] v[j]).0 != key,
        i < v.len() ==> v[i].0 == key,
    ensures
        crate::json::entry_at(v, key, from) == i,
    decreases i - from,
{
    if from < i {
        lemma_entry(v, key, from + 1, i);
    }
}

/// A list of texts gives all of them, in order, and passes over what is none.
pub proof fn law_texts_are_collected(v: Seq<JsonModel>, more: JsonModel)
    ensures
        texts_in(seq![]) == Seq::<Seq<char>>::empty(),
        more matches JsonModel::Text(s) ==> texts_in(v.push(more)) == texts_in(v).push(s),
        !(more is Text) ==> texts_in(v.push(more)) == texts_in(v),
{
    assert(v.push(more).drop_last() =~= v);
}

// ---------------------------------------------------------------------------
// Methods
// ---------------------------------------------------------------------------

/// What a method is called.
pub open spec fn name_of(names: MethodNames, m: Method) -> Seq<char> {
    match m {
        Method::Status => names.status@,
        Method::Peers => names.peers@,
        Method::Ping => names.ping@,
        Method::SendMessage => names.send_message@,
        Method::Shutdown => names.shutdown@,
        Method::TcpConnect => names.tcp_connect@,
        Method::PushFile => names.push_file@,
        Method::GetFile => names.get_file@,
        Method::Doctor => names.doctor@,
        Method::ProxyAdd => names.proxy_add@,
        Method::ProxyRemove => names.proxy_remove@,
        Method::ProxyList => names.proxy_list@,
        Method::Subscribe => names.subscribe@,
    }
}

/// Every method is found under its own name, as long as no two share one, and
/// under no other name.
pub proof fn law_methods_have_their_names(names: MethodNames, m: Method, name: Seq<char>)
    requires
        forall|a: Method, b: Method| #[trigger]
            name_of(names, a) == #[trigger] name_of(names, b) ==> a == b,
    ensures
        method_named(names, name_of(names, m)) == Some(m),
        method_named(names, name) == Some(m) <==> name == name_of(names, m),
{
    assert(name_of(names, Method::Status) == names.status@);
    assert(name_of(names, Method::Peers) == names.peers@);
    assert(name_of(names, Method::Ping) == names.ping@);
    assert(name_of(names, Method::SendMessage) == names.send_message@);
    assert(name_of(names, Method::Shutdown) == names.shutdown@);
    assert(name_of(names, Method::TcpConnect) == names.tcp_connect@);
    assert(name_of(names, Method::PushFile) == names.push_file@);
    assert(name_of(names, Method::GetFile) == names.get_file@);
    assert(name_of(names, Method::Doctor) == names.doctor@);
    assert(name_of(names, Method::ProxyAdd) == names.proxy_add@);
    assert(name_of(names, Method::ProxyRemove) == names.proxy_remove@);
    assert(name_of(names, Method::ProxyList) == names.proxy_list@);
    assert(name_of(names, Method::Subscribe) == names.subscribe@);
}

// ---------------------------------------------------------------------------
// Calls
// ---------------------------------------------------------------------------

/// The parameter is a text.
pub open spec fn says(p: JsonModel, key: Seq<char>, value: Seq<char>) -> bool {
    p.at(key) == JsonModel::Text(value)
}

/// The parameter is no text, or not there.
pub open spec fn says_nothing(p: JsonModel, key: Seq<char>) -> bool {
    !(p.at(key) is Text)
}

/// A file is sent from the local path to the remote path of the named peer.
pub proof fn law_push_goes_from_local_to_remote(
    p: JsonModel,
    routes: Result<Vec<ProxyRoute>, String>,
    to: Seq<char>,
    local: Seq<char>,
    remote: Seq<char>,
)
    requires
        says(p, "peer_id"@, to),
        says(p, "local_path"@, local),
        says(p, "remote_path"@, remote),
    ensures
        call_of(Method::PushFile, p, routes) matches Ok(
            CallModel::PushFile { peer, local_path, remote_path },
        ) && peer == to && local_path == local && remote_path == remote,
{
}

/// A file is fetched from the remote path of the named peer to the local path.
pub proof fn law_get_goes_from_remote_to_local(
    p: JsonModel,
    routes: Result<Vec<ProxyRoute>, String>,
    from: Seq<char>,
    remote: Seq<char>,
    local: Seq<char>,
)
    requires
        says(p, "peer_id"@, from),
        says(p, "remote_path"@, remote),
        says(p, "local_path"@, local),
    ensures
        call_of(Method::GetFile, p, routes) matches Ok(
            CallModel::GetFile { peer, remote_path, local_path },
        ) && peer == from && remote_path == remote && local_path == local,
{
}

/// A request to send or fetch a file that lacks a parameter is refused with
/// the name of the one that is missing.
pub proof fn law_files_need_their_parameters(
    p: JsonModel,
    routes: Result<Vec<ProxyRoute>, String>,
)
    ensures
        ({
            let push = call_of(Method::PushFile, p, routes);
            let get = call_of(Method::GetFile, p, routes);
            let whole = p.at("peer_id"@) is Text && p.at("local_path"@) is Text && p.at(
                "remote_path"@,
            ) is Text;
            &&& push is Ok <==> whole
            &&& get is Ok <==> whole
            &&& says_nothing(p, "peer_id"@) ==> push == Err::<CallModel, Seq<char>>(
                "Missing 'peer_id' parameter"@,
            ) && get == Err::<CallModel, Seq<char>>("Missing 'peer_id' parameter"@)
            &&& p.at("peer_id"@) is Text && says_nothing(p, "local_path"@) ==> push == Err::<
                CallModel,
                Seq<char>,
            >("Missing 'local_path' parameter"@)
            &&& p.at("peer_id"@) is Text && says_nothing(p, "remote_path"@) ==> get == Err::<
                CallModel,
                Seq<char>,
            >("Missing 'remote_path' parameter"@)
            &&& p.at("peer_id"@) is Text && p.at("local_path"@) is Text && says_nothing(
                p,
                "remote_path"@,
            ) ==> push == Err::<CallModel, Seq<char>>("Missing 'remote_path' parameter"@)
            &&& p.at("peer_id"@) is Text && p.at("remote_path"@) is Text && says_nothing(
                p,
                "local_path"@,
            ) ==> get == Err::<CallModel, Seq<char>>("Missing 'local_path' parameter"@)
        }),
{
}

/// A message goes to the peer that `peer_id` names, and `device_id` where that
/// says nothing; in the namespace that is named, and `chat` where none is. Its
/// text is that of `message`, or of `payload`, or empty.
pub proof fn law_message_goes_where_it_is_sent(
    p: JsonModel,
    routes: Result<Vec<ProxyRoute>, String>,
    text: Seq<char>,
)
    ensures
        ({
            let r = call_of(Method::SendMessage, p, routes);
            let sent = r->Ok_0;
            &&& says_nothing(p, "peer_id"@) && says_nothing(p, "device_id"@) <==> r is Err
            &&& r matches Err(why) ==> why == "Missing 'peer_id' parameter"@
            &&& r is Ok ==> {
                &&& sent is Send
                &&& says(p, "peer_id"@, text) ==> sent->Send_peer == text
                &&& says_nothing(p, "peer_id"@) && says(p, "device_id"@, text) ==> sent->Send_peer
                    == text
                &&& says(p, "namespace"@, text) ==> sent->namespace == text
                &&& says_nothing(p, "namespace"@) ==> sent->namespace == "chat"@
                &&& says(p, "message"@, text) ==> sent->message == text
                &&& says_nothing(p, "message"@) && says(p, "payload"@, text) ==> sent->message
                    == text
                &&& says_nothing(p, "message"@) && says_nothing(p, "payload"@) ==> sent->message
                    == ""@
            }
        }),
{
}

/// A ping and a connection go to the peer that `node` names, the connection at
/// the lower sixteen bits of `port`, which may not be zero.
pub proof fn law_node_is_reached(
    p: JsonModel,
    routes: Result<Vec<ProxyRoute>, String>,
    node: Seq<char>,
    port: u64,
)
    ensures
        says(p, "node"@, node) ==> call_of(Method::Ping, p, routes) == Ok::<CallModel, Seq<char>>(
            CallModel::Ping(node),
        ),
        says_nothing(p, "node"@) ==> call_of(Method::Ping, p, routes) == Err::<
            CallModel,
            Seq<char>,
        >("Missing 'node' parameter"@),
        says_nothing(p, "node"@) ==> call_of(Method::TcpConnect, p, routes) == Err::<
            CallModel,
            Seq<char>,
        >("Missing 'node' parameter"@),
        says(p, "node"@, node) && p.at("port"@) == JsonModel::Number(port) && port % 65536 != 0
            ==> call_of(Method::TcpConnect, p, routes) == Ok::<CallModel, Seq<char>>(
            CallModel::TcpConnect(node, (port % 65536) as u16),
        ),
        says(p, "node"@, node) && (!(p.at("port"@) is Number) || (p.at("port"@)
            == JsonModel::Number(port) && port % 65536 == 0)) ==> call_of(
            Method::TcpConnect,
            p,
            routes,
        ) == Err::<CallModel, Seq<char>>("Missing or invalid 'port' parameter"@),
{
}

/// What needs no parameters is asked of the node as it is named.
pub proof fn law_plain_calls(p: JsonModel, routes: Result<Vec<ProxyRoute>, String>)
    ensures
        call_of(Method::Status, p, routes) == Ok::<CallModel, Seq<char>>(CallModel::Status),
        call_of(Method::Peers, p, routes) == Ok::<CallModel, Seq<char>>(CallModel::Peers),
        call_of(Method::Shutdown, p, routes) == Ok::<CallModel, Seq<char>>(CallModel::Shutdown),
        call_of(Method::Doctor, p, routes) == Ok::<CallModel, Seq<char>>(CallModel::Doctor),
        call_of(Method::ProxyList, p, routes) == Ok::<CallModel, Seq<char>>(CallModel::ProxyList),
{
}

/// A proxy is removed by its id.
pub proof fn law_proxy_is_removed_by_id(
    p: JsonModel,
    routes: Result<Vec<ProxyRoute>, String>,
    id: Seq<char>,
)
    ensures
        says(p, "id"@, id) ==> call_of(Method::ProxyRemove, p, routes) == Ok::<
            CallModel,
            Seq<char>,
        >(CallModel::ProxyRemove(id)),
        says_nothing(p, "id"@) ==> call_of(Method::ProxyRemove, p, routes) == Err::<
            CallModel,
            Seq<char>,
        >("Missing 'id' parameter"@),
{
}

/// A proxy is what its parameters say, each under its own name, with what
/// holds where nothing is said: the id for a name, the local host, plain HTTP,
/// announced, encrypted, and open to this machine's own services alone.
pub proof fn law_proxy_is_as_asked_for(
    p: JsonModel,
    routes: Result<Vec<ProxyRoute>, String>,
    text: Seq<char>,
    number: u64,
    truth: bool,
    list: Seq<JsonModel>,
)
    requires
        call_of(Method::ProxyAdd, p, routes) is Ok,
    ensures
        ({
            let call = call_of(Method::ProxyAdd, p, routes)->Ok_0;
            let c = call->ProxyAdd_0;
            &&& call is ProxyAdd
            &&& says(p, "id"@, c.id) && c.id.len() > 0
            &&& says(p, "name"@, text) ==> c.name == text
            &&& says_nothing(p, "name"@) ==> c.name == c.id
            &&& p.at("listen_port"@) == JsonModel::Number(number) ==> c.listen_port == number
                % 65536
            &&& p.at("listen_port"@) is Number && c.listen_port != 0
            &&& says(p, "target_host"@, text) ==> c.host == text
            &&& says_nothing(p, "target_host"@) ==> c.host == "localhost"@
            &&& p.at("target_port"@) == JsonModel::Number(number) ==> c.port == number % 65536
            &&& !(p.at("target_port"@) is Number) ==> c.port == 0
            &&& says(p, "target_scheme"@, text) ==> c.scheme == text
            &&& says_nothing(p, "target_scheme"@) ==> c.scheme == "http"@
            &&& p.at("announce"@) == JsonModel::Bool(truth) ==> c.announce == truth
            &&& !(p.at("announce"@) is Bool) ==> c.announce
            &&& p.at("tls"@) == JsonModel::Bool(truth) ==> c.tls == truth
            &&& !(p.at("tls"@) is Bool) ==> c.tls
            &&& p.at("allow_non_loopback"@) == JsonModel::Bool(truth) ==> c.allow_non_loopback
                == truth
            &&& !(p.at("allow_non_loopback"@) is Bool) ==> !c.allow_non_loopback
            &&& p.at("allow"@) == JsonModel::Array(list) ==> c.allow == texts_in(list)
            &&& !(p.at("allow"@) is Array) ==> c.allow.len() == 0
            &&& routes is Ok && c.routes == routes->Ok_0@
            &&& c.routes.len() == 0 ==> c.port != 0
        }),
{
    reveal_strlit("");
    assert(""@.len() == 0);
}

/// A proxy is refused only for routes that could not be read, a missing id, a
/// missing port to listen at, or, without routes, a missing port to go to.
pub proof fn law_proxy_needs_its_parameters(
    p: JsonModel,
    routes: Result<Vec<ProxyRoute>, String>,
    listen: u64,
    to: u64,
)
    ensures
        routes matches Err(why) ==> call_of(Method::ProxyAdd, p, routes) == Err::<
            CallModel,
            Seq<char>,
        >("Invalid 'routes' parameter: "@ + why@),
        routes is Ok && says_nothing(p, "id"@) ==> call_of(Method::ProxyAdd, p, routes) == Err::<
            CallModel,
            Seq<char>,
        >("Missing 'id' parameter"@),
        routes matches Ok(rs) ==> (p.at("id"@) is Text && p.at("id"@)->Text_0.len() > 0 && p.at(
            "listen_port"@,
        ) == JsonModel::Number(listen) && listen % 65536 != 0 && (rs@.len() > 0 || (p.at(
            "target_port"@,
        ) == JsonModel::Number(to) && to % 65536 != 0)) ==> call_of(Method::ProxyAdd, p, routes)
            is Ok),
        routes is Ok && p.at("id"@) is Text && p.at("id"@)->Text_0.len() > 0 && !(p.at(
            "listen_port"@,
        ) is Number) ==> call_of(Method::ProxyAdd, p, routes) == Err::<CallModel, Seq<char>>(
            "Missing or invalid 'listen_port' parameter"@,
        ),
        routes matches Ok(rs) ==> (rs@.len() == 0 && p.at("id"@) is Text && p.at(
            "id"@,
        )->Text_0.len() > 0 && p.at("listen_port"@) == JsonModel::Number(listen) && listen % 65536
            != 0 && !(p.at("target_port"@) is Number) ==> call_of(Method::ProxyAdd, p, routes)
            == Err::<CallModel, Seq<char>>("Missing or invalid 'target_port' parameter"@)),
{
    reveal_strlit("");
}

// ---------------------------------------------------------------------------
// Subscriptions
// ---------------------------------------------------------------------------

/// The three words name the three types, and no other word names one.
pub proof fn law_words_name_types(word: Seq<char>)
    ensures
        event_type_named("peer"@) == Some(SubscribeEventType::Peer),
        event_type_named("message"@) == Some(SubscribeEventType::Message),
        event_type_named("transfer"@) == Some(SubscribeEventType::Transfer),
        event_type_named(word) is Some ==> word == "peer"@ || word == "message"@ || word
            == "transfer"@,
{
    reveal_strlit("peer");
    reveal_strlit("message");
    reveal_strlit("transfer");
    assert("peer"@.len() == 4 && "message"@.len() == 7 && "transfer"@.len() == 8);
}

/// The types of a list are those that its words name, in order. The first word
/// that names none is reported; what is no text is passed over.
pub proof fn law_types_are_read_in_order(v: Seq<JsonModel>, more: JsonModel)
    ensures
        event_types(seq![]) == Ok::<Seq<SubscribeEventType>, Seq<char>>(Seq::empty()),
        event_types(v) is Err ==> event_types(v.push(more)) == event_types(v),
        event_types(v) matches Ok(ts) ==> match more {
            JsonModel::Text(word) => event_types(v.push(more)) == match event_type_named(word) {
                Some(t) => Ok::<Seq<SubscribeEventType>, Seq<char>>(ts.push(t)),
                None => Err(word),
            },
            _ => event_types(v.push(more)) == event_types(v),
        },
{
    assert(v.push(more).drop_last() =~= v);
}

/// Who names no type subscribes to all three; who names some, to those. The
/// filter is the text of `peer` in `filter`.
pub proof fn law_subscription_is_as_asked_for(
    p: JsonModel,
    list: Seq<JsonModel>,
    t: SubscribeEventType,
)
    ensures
        !(p.at("events"@) is Array) ==> (subscribed_types(p) matches Ok(ts) && ts.contains(t)
            && ts.len() == 3),
        p.at("events"@) == JsonModel::Array(list) ==> match event_types(list) {
            Err(word) => subscribed_types(p) == Err::<Seq<SubscribeEventType>, Seq<char>>(word),
            Ok(named) => if named.len() > 0 {
                subscribed_types(p) == Ok::<Seq<SubscribeEventType>, Seq<char>>(named)
            } else {
                subscribed_types(p) matches Ok(ts) && ts.contains(t) && ts.len() == 3
            },
        },
        subscribed_filter(p) == match p.at("filter"@).at("peer"@) {
            JsonModel::Text(s) => Some(s),
            _ => None,
        },
{
    let all = seq![
        SubscribeEventType::Peer,
        SubscribeEventType::Message,
        SubscribeEventType::Transfer,
    ];
    assert(all[0] == SubscribeEventType::Peer && all[1] == SubscribeEventType::Message && all[2]
        == SubscribeEventType::Transfer);
    assert(all.contains(t)) by {
        match t {
            SubscribeEventType::Peer => assert(all[0] == t),
            SubscribeEventType::Message => assert(all[1] == t),
            SubscribeEventType::Transfer => assert(all[2] == t),
        }
    }
}

/// A message that is a JSON value goes out as that value, with its own text;
/// any other as its bytes.
pub proof fn law_payload_keeps_the_text(message: Seq<char>, parsed: bool, p: Payload)
    requires
        payload_is(message, parsed, p),
    ensures
        parsed ==> (p matches Payload::Value(text) && text@ == message),
        !parsed ==> (p matches Payload::Bytes(bytes) && bytes@ == encode_utf8(message)),
{
}

} // verus!
