//! What requests to the sidecar and their answers promise.
use vstd::prelude::*;

use crate::network::tailscale::protocol::{SidecarCommand, WhoisResultEventData};
use crate::network::tailscale::provider::{ProviderModel, ProviderState};
use crate::network::tailscale::rpc::{
    bind_answer, dial_answer, dial_ends, dial_means, listen_answer, overheard_means, owner_model,
    ping_answer, proxy_add_answer, proxy_list_answer, proxy_remove_answer, routed_means,
    whois_answer, DialEnd, DialNews, Outcome, OutcomeModel, Overheard, Request, Routed,
};
use crate::network::tailscale::sidecar::SidecarInternalEvent;
use crate::network::types::{
    DialOpts, ListenOpts, NetErrorModel, NetworkError, OwnerModel, ProxyAddParams,
};
use crate::text::decimal;

verus! {

/// A provider that does not run refuses, and only for that.
pub open spec fn refused_at_rest(m: ProviderModel, r: Result<SidecarCommand, NetworkError>) -> bool {
    m.state != ProviderState::Running <==> (r matches Err(e) && e@ == NetErrorModel::NotRunning)
}

/// A dial asks for the address, the port and the encryption that it was given,
/// under the id that its answer comes back with.
pub proof fn law_dials_ask_for_what_was_wished(
    m: ProviderModel,
    addr: Seq<char>,
    port: u16,
    opts: DialOpts,
    id: String,
    r: Result<SidecarCommand, NetworkError>,
)
    requires
        dial_answer(m, addr, port, opts, id, r),
    ensures
        refused_at_rest(m, r),
        m.state == ProviderState::Running ==> (r matches Ok(SidecarCommand::Dial {
            request_id,
            target,
            port: p,
            tls,
        }) && request_id == id && target@ == addr && p == port && tls == opts.tls),
{
}

/// A listener asks for its port, and for encryption only where it is wished;
/// the id goes along exactly where the sidecar speaks protocol 4 or later.
pub proof fn law_listeners_ask_for_what_was_wished(
    m: ProviderModel,
    port: u16,
    opts: ListenOpts,
    id: String,
    r: Result<SidecarCommand, NetworkError>,
)
    requires
        listen_answer(m, port, opts, id, r),
    ensures
        refused_at_rest(m, r),
        m.state == ProviderState::Running ==> (r matches Ok(SidecarCommand::Listen {
            port: p,
            tls,
            request_id,
        }) && p == port && (opts.tls ==> tls == Some(true)) && (!opts.tls ==> tls is None) && (
        m.version >= 4 ==> request_id == Some(id)) && (m.version < 4 ==> request_id is None)),
{
}

/// A ping goes to the address that it was given; the id goes along exactly
/// where the sidecar speaks protocol 2 or later.
pub proof fn law_pings_go_where_they_were_sent(
    m: ProviderModel,
    addr: Seq<char>,
    id: String,
    r: Result<SidecarCommand, NetworkError>,
)
    requires
        ping_answer(m, addr, id, r),
    ensures
        refused_at_rest(m, r),
        m.state == ProviderState::Running ==> (r matches Ok(SidecarCommand::Ping {
            target,
            ping_type,
            request_id,
        }) && target@ == addr && ping_type is None && (m.version >= 2 ==> request_id == Some(id))
            && (m.version < 2 ==> request_id is None)),
{
}

/// The owner of an address is asked for exactly where the sidecar speaks
/// protocol 3 or later; an older one is named in the refusal.
pub proof fn law_owners_are_asked_of_newer_sidecars(
    m: ProviderModel,
    addr: Seq<char>,
    id: String,
    r: Result<SidecarCommand, NetworkError>,
)
    requires
        whois_answer(m, addr, id, r),
    ensures
        refused_at_rest(m, r),
        m.state == ProviderState::Running && m.version >= 3 ==> (r matches Ok(
            SidecarCommand::Whois { addr: a, request_id },
        ) && a@ == addr && request_id == Some(id)),
        m.state == ProviderState::Running && m.version < 3 ==> (r matches Err(e) && e@
            == NetErrorModel::Unsupported(
            "sidecar protocol v"@ + decimal(m.version as nat)
                + " predates tsnet:whois; upgrade the sidecar binary (needs v3)"@,
        )),
{
}

/// A datagram port is asked for by its number; the id goes along exactly where
/// the sidecar speaks protocol 4 or later.
pub proof fn law_datagram_ports_are_asked_for(
    m: ProviderModel,
    port: u16,
    id: String,
    r: Result<SidecarCommand, NetworkError>,
)
    requires
        bind_answer(m, port, id, r),
    ensures
        refused_at_rest(m, r),
        m.state == ProviderState::Running ==> (r matches Ok(SidecarCommand::ListenPacket {
            port: p,
            request_id,
        }) && p == port && (m.version >= 4 ==> request_id == Some(id)) && (m.version < 4
            ==> request_id is None)),
{
}

/// A proxy is asked for as it was wished, each part in its own place. One that
/// is unencrypted, reaches beyond this machine, or has a list of logins or of
/// routes needs a sidecar of protocol 2, and is refused by an older one.
pub proof fn law_proxies_are_asked_for_as_wished(
    m: ProviderModel,
    p: ProxyAddParams,
    id: String,
    r: Result<SidecarCommand, NetworkError>,
)
    requires
        proxy_add_answer(m, p, id, r),
    ensures
        refused_at_rest(m, r),
        ({
            let newer = !p.tls || p.allow_non_loopback || p.allow@.len() > 0 || p.routes@.len() > 0;
            &&& m.state == ProviderState::Running && newer && m.version < 2 ==> (r matches Err(e)
                && e@ == NetErrorModel::ProxyError(
                "sidecar protocol v"@ + decimal(m.version as nat)
                    + " predates RFC 023 — routes, allow lists, tls: false, and non-loopback targets need a v2 sidecar; upgrade the sidecar binary"@,
            ))
            &&& m.state == ProviderState::Running && (!newer || m.version >= 2) ==> (r matches Ok(
                SidecarCommand::ProxyAdd(d),
            ) && {
                &&& d.id == p.id
                &&& d.name == p.name
                &&& d.listen_port == p.listen_port
                &&& d.target_host == p.target_host
                &&& d.target_port == p.target_port
                &&& d.target_scheme == p.target_scheme
                &&& d.tls == p.tls
                &&& d.allow_non_loopback == p.allow_non_loopback
                &&& d.allow == p.allow
                &&& d.routes == p.routes
                &&& m.version >= 4 ==> d.request_id == Some(id)
                &&& m.version < 4 ==> d.request_id is None
            })
        }),
{
}

/// A proxy is ended by its id, and the list of proxies is asked for as a whole;
/// the request id goes along exactly where the sidecar speaks protocol 4 or
/// later.
pub proof fn law_proxies_are_ended_and_listed(
    m: ProviderModel,
    proxy: Seq<char>,
    id: String,
    r: Result<SidecarCommand, NetworkError>,
)
    ensures
        proxy_remove_answer(m, proxy, id, r) ==> refused_at_rest(m, r) && (m.state
            == ProviderState::Running ==> (r matches Ok(SidecarCommand::ProxyRemove {
            id: i,
            request_id,
        }) && i@ == proxy && (m.version >= 4 ==> request_id == Some(id)) && (m.version < 4
            ==> request_id is None))),
        proxy_list_answer(m, id, r) ==> refused_at_rest(m, r) && (m.state == ProviderState::Running
            ==> (r matches Ok(SidecarCommand::ProxyList { request_id }) && (m.version >= 4
            ==> request_id == Some(id)) && (m.version < 4 ==> request_id is None))),
{
}

/// The answer that belongs to a request says what the sidecar reported: the
/// port that is listened on, the port of the relay, the proxy that was added,
/// that one was removed.
pub proof fn law_answers_say_what_was_reported(q: Request, e: SidecarInternalEvent, shown: Seq<char>)
    ensures
        ({
            let r = routed_means(q, Routed::Event(e), shown);
            &&& (e matches SidecarInternalEvent::Listening { port } ==> q is Listen ==> r == Ok::<
                _,
                NetErrorModel,
            >(OutcomeModel::Port(port)))
            &&& (e matches SidecarInternalEvent::ListeningPacket { port, local_port }
                ==> q is BindUdp ==> r == Ok::<_, NetErrorModel>(OutcomeModel::Port(local_port)))
            &&& (e matches SidecarInternalEvent::ProxyAdded { id, listen_port, url }
                ==> q is ProxyAdd ==> r == Ok::<_, NetErrorModel>(
                OutcomeModel::Added { id: id@, listen_port, url: url@ },
            ))
            &&& e is ProxyRemoved && q is ProxyRemove ==> r == Ok::<_, NetErrorModel>(
                OutcomeModel::Removed,
            )
            &&& (e matches SidecarInternalEvent::ProxyList { proxies } ==> q is ProxyList ==> (
            r matches Ok(OutcomeModel::Proxies(v)) && v.len() == proxies@.len() && forall|i: int|
                #![trigger v[i]]
                0 <= i < v.len() ==> v[i].id == proxies@[i].id@ && v[i].name == proxies@[i].name@
                    && v[i].listen_port == proxies@[i].listen_port && v[i].target_host
                    == proxies@[i].target_host@ && v[i].target_port == proxies@[i].target_port
                    && v[i].target_scheme == proxies@[i].target_scheme@ && v[i].url
                    == proxies@[i].url@))
        }),
{
}

/// A ping that reports an error failed with it. Any other tells the latency as
/// it was measured, the way that the packets took, and the address of the peer
/// where there is one.
pub proof fn law_pings_tell_their_way(q: Request, e: SidecarInternalEvent, shown: Seq<char>)
    requires
        q is Ping,
    ensures
        e matches SidecarInternalEvent::PingResult(d) ==> {
            let r = routed_means(q, Routed::Event(e), shown);
            &&& d.error@.len() > 0 ==> r == Err::<OutcomeModel, _>(
                NetErrorModel::PingFailed(d.error@),
            )
            &&& d.error@.len() == 0 ==> (r matches Ok(OutcomeModel::Pinged {
                latency_ms_bits,
                connection,
                peer_addr,
            }) && {
                &&& latency_ms_bits == d.latency_ms_bits
                &&& d.direct ==> connection == "direct"@
                &&& !d.direct && d.relay@.len() > 0 ==> connection == "relay:"@ + d.relay@
                &&& !d.direct && d.relay@.len() == 0 ==> connection == "unknown"@
                &&& d.peer_addr@.len() > 0 ==> peer_addr == Some(d.peer_addr@)
                &&& d.peer_addr@.len() == 0 ==> peer_addr is None
            })
        },
{
}

/// Whether an owner says anything.
pub open spec fn says_something(o: OwnerModel) -> bool {
    ||| o.dns_name is Some && o.dns_name->0.len() > 0
    ||| o.login_name is Some && o.login_name->0.len() > 0
    ||| o.display_name is Some && o.display_name->0.len() > 0
    ||| o.profile_pic_url is Some && o.profile_pic_url->0.len() > 0
    ||| o.node_id is Some && o.node_id->0.len() > 0
}

/// A question for an owner that reports an error failed with it. Otherwise
/// the owner is told where something is known, and is none where nothing is.
pub proof fn law_owners_are_told_where_known(q: Request, d: WhoisResultEventData, shown: Seq<char>)
    requires
        q is Whois,
    ensures
        ({
            let r = routed_means(q, Routed::Event(SidecarInternalEvent::WhoisResult(d)), shown);
            &&& d.error@.len() > 0 ==> r == Err::<OutcomeModel, _>(
                NetErrorModel::SidecarError(d.error@),
            )
            &&& d.error@.len() == 0 ==> (r matches Ok(OutcomeModel::Owner(o)) && {
                &&& o is Some <==> d.identity is Some && says_something(d.identity->0@)
                &&& o is Some && d.identity->0@.login_name is Some
                    && d.identity->0@.login_name->0.len() > 0 ==> o->0.login_name
                    == d.identity->0@.login_name
                &&& o is Some && d.identity->0@.node_id is Some && d.identity->0@.node_id->0.len()
                    > 0 ==> o->0.node_id == d.identity->0@.node_id
                &&& o is Some && d.identity->0@.dns_name is Some && d.identity->0@.dns_name->0.len()
                    > 0 ==> o->0.dns_name == d.identity->0@.dns_name
            })
        }),
{
}

/// The name of a request in messages.
pub open spec fn is_named(q: Request, word: Seq<char>) -> bool {
    match q {
        Request::Listen { .. } => word == "listen"@,
        Request::Ping { .. } => word == "ping"@,
        Request::Whois => word == "whois"@,
        Request::BindUdp { .. } => word == "listenPacket"@,
        Request::ProxyAdd { .. } => word == "proxy add"@,
        Request::ProxyRemove { .. } => word == "proxy remove"@,
        Request::ProxyList => word == "proxy list"@,
    }
}

/// A request that failed fails in its own kind, with the code in brackets and
/// the message of the failure.
pub proof fn law_failures_are_of_their_kind(
    q: Request,
    code: String,
    message: String,
    shown: Seq<char>,
)
    ensures
        ({
            let e = SidecarInternalEvent::Error { code, message };
            let text = "["@ + code@ + "] "@ + message@;
            let r = routed_means(q, Routed::Event(e), shown);
            &&& q is Listen ==> r == Err::<OutcomeModel, _>(NetErrorModel::ListenFailed(text))
            &&& q is Ping ==> r == Err::<OutcomeModel, _>(NetErrorModel::PingFailed(text))
            &&& q is Whois ==> r == Err::<OutcomeModel, _>(NetErrorModel::SidecarError(text))
            &&& q is BindUdp ==> r == Err::<OutcomeModel, _>(
                NetErrorModel::ListenFailed("UDP bind failed "@ + text),
            )
            &&& q is ProxyAdd || q is ProxyRemove || q is ProxyList ==> r == Err::<OutcomeModel, _>(
                NetErrorModel::ProxyError(text),
            )
        }),
{
}

/// The failure of a proxy fails a request about proxies that it is routed to; to
/// any other request it is an answer that nobody expected.
pub proof fn law_proxy_failures_reach_proxy_requests(
    q: Request,
    id: String,
    code: String,
    message: String,
    shown: Seq<char>,
    word: Seq<char>,
)
    requires
        is_named(q, word),
    ensures
        ({
            let e = SidecarInternalEvent::ProxyError { id, code, message };
            let r = routed_means(q, Routed::Event(e), shown);
            &&& q is ProxyAdd || q is ProxyRemove || q is ProxyList ==> r == Err::<OutcomeModel, _>(
                NetErrorModel::ProxyError("["@ + code@ + "] "@ + message@),
            )
            &&& q is Listen || q is Ping || q is Whois || q is BindUdp ==> r == Err::<
                OutcomeModel,
                _,
            >(NetErrorModel::SidecarError("unexpected "@ + word + " reply: "@ + shown))
        }),
{
}

/// An answer of a kind that a request does not ask for is an error that names
/// the request and shows the answer.
pub proof fn law_unexpected_answers_are_shown(
    q: Request,
    e: SidecarInternalEvent,
    shown: Seq<char>,
    word: Seq<char>,
)
    requires
        is_named(q, word),
        !(e is Error) && !(e is ProxyError),
        !(q is Listen && e is Listening),
        !(q is Ping && e is PingResult),
        !(q is Whois && e is WhoisResult),
        !(q is BindUdp && e is ListeningPacket),
        !(q is ProxyAdd && e is ProxyAdded),
        !(q is ProxyRemove && e is ProxyRemoved),
        !(q is ProxyList && e is ProxyList),
    ensures
        routed_means(q, Routed::Event(e), shown) == Err::<OutcomeModel, _>(
            NetErrorModel::SidecarError("unexpected "@ + word + " reply: "@ + shown),
        ),
        overheard_means(q, Overheard::Event(e)) is None,
{
}

/// A request that nobody answered in time says so, in its own kind and words,
/// whichever way the answer was waited for.
pub proof fn law_late_answers_are_named(q: Request, shown: Seq<char>)
    ensures
        overheard_means(q, Overheard::TimedOut) == Some(routed_means(q, Routed::TimedOut, shown)),
        ({
            let r = routed_means(q, Routed::TimedOut, shown);
            &&& q is Listen ==> r == Err::<OutcomeModel, _>(
                NetErrorModel::ListenFailed("listen confirmation timed out"@),
            )
            &&& q is Ping ==> r == Err::<OutcomeModel, _>(
                NetErrorModel::PingFailed("ping timed out"@),
            )
            &&& q is Whois ==> r == Err::<OutcomeModel, _>(
                NetErrorModel::SidecarError("whois timed out"@),
            )
            &&& q is BindUdp ==> r == Err::<OutcomeModel, _>(
                NetErrorModel::ListenFailed("UDP listenPacket confirmation timed out"@),
            )
            &&& q is ProxyAdd ==> r == Err::<OutcomeModel, _>(
                NetErrorModel::ProxyError("proxy add timed out"@),
            )
            &&& q is ProxyRemove ==> r == Err::<OutcomeModel, _>(
                NetErrorModel::ProxyError("proxy remove timed out"@),
            )
            &&& q is ProxyList ==> r == Err::<OutcomeModel, _>(
                NetErrorModel::ProxyError("proxy list timed out"@),
            )
        }),
{
}

/// A lost channel, or one that lost reports, ends the wait with an error that
/// says so.
pub proof fn law_lost_channels_end_the_wait(q: Request, shown: Seq<char>)
    ensures
        routed_means(q, Routed::Dropped, shown) == Err::<OutcomeModel, _>(
            NetErrorModel::SidecarError("reply channel closed before a result arrived"@),
        ),
        overheard_means(q, Overheard::Closed) == Some(
            Err::<OutcomeModel, _>(NetErrorModel::SidecarError("event channel closed"@)),
        ),
        q is Listen ==> overheard_means(q, Overheard::Lagged) == Some(
            Err::<OutcomeModel, _>(
                NetErrorModel::SidecarError(
                    "event channel lagged: listen confirmation may have been lost"@,
                ),
            ),
        ),
        q is Ping ==> overheard_means(q, Overheard::Lagged) == Some(
            Err::<OutcomeModel, _>(
                NetErrorModel::SidecarError(
                    "event channel lagged: ping result may have been lost"@,
                ),
            ),
        ),
        q is BindUdp ==> overheard_means(q, Overheard::Lagged) == Some(
            Err::<OutcomeModel, _>(
                NetErrorModel::SidecarError(
                    "event channel lagged: UDP bind confirmation may have been lost"@,
                ),
            ),
        ),
        q is ProxyAdd || q is ProxyRemove || q is ProxyList ==> overheard_means(
            q,
            Overheard::Lagged,
        ) == Some(
            Err::<OutcomeModel, _>(
                NetErrorModel::SidecarError(
                    "event channel lagged: proxy confirmation may have been lost"@,
                ),
            ),
        ),
{
}

/// Without a request id, an answer is recognized by what it names: the port, or
/// any where the system chose it; the target; the id of the proxy. What names
/// another is passed over.
pub proof fn law_answers_are_recognized(q: Request, e: SidecarInternalEvent, shown: Seq<char>)
    ensures
        ({
            let heard = overheard_means(q, Overheard::Event(e));
            let meant = Some(routed_means(q, Routed::Event(e), shown));
            &&& (q matches Request::Listen { port } ==> (e matches SidecarInternalEvent::Listening {
                port: p,
            } ==> (port == 0 || p == port ==> heard == meant) && (port != 0 && p != port
                ==> heard is None)))
            &&& (q matches Request::Ping { target } ==> (e matches SidecarInternalEvent::PingResult(
                d,
            ) ==> (d.target@ == target@ ==> heard == meant) && (d.target@ != target@
                ==> heard is None)))
            &&& (q matches Request::BindUdp { port }
                ==> (e matches SidecarInternalEvent::ListeningPacket { port: p, local_port } ==> (p
                == port ==> heard == meant) && (p != port ==> heard is None)))
            &&& (q matches Request::ProxyAdd { id } ==> (e matches SidecarInternalEvent::ProxyAdded {
                id: i,
                listen_port,
                url,
            } ==> (i@ == id@ ==> heard == meant) && (i@ != id@ ==> heard is None)))
            &&& (q matches Request::ProxyRemove { id }
                ==> (e matches SidecarInternalEvent::ProxyRemoved { id: i } ==> (i@ == id@
                ==> heard == meant) && (i@ != id@ ==> heard is None)))
            &&& q is ProxyList && e is ProxyList ==> heard == meant
        }),
{
}

/// A failure without a request id fails every request but a ping, which waits
/// on; the failure of a proxy fails only the request about that proxy.
pub proof fn law_unaddressed_failures(
    q: Request,
    id: String,
    code: String,
    message: String,
    shown: Seq<char>,
)
    ensures
        ({
            let e = SidecarInternalEvent::Error { code, message };
            let heard = overheard_means(q, Overheard::Event(e));
            &&& q is Ping ==> heard is None
            &&& !(q is Ping) ==> heard == Some(routed_means(q, Routed::Event(e), shown))
        }),
        ({
            let e = SidecarInternalEvent::ProxyError { id, code, message };
            let heard = overheard_means(q, Overheard::Event(e));
            let ours = q is ProxyAdd && q->ProxyAdd_id@ == id@ || q is ProxyRemove
                && q->ProxyRemove_id@ == id@;
            &&& ours ==> heard == Some(routed_means(q, Routed::Event(e), shown))
            &&& !ours ==> heard is None
        }),
{
}

/// A dial ends well exactly where the stream is delivered. It fails where it is
/// cancelled, takes too long, or the sidecar reports a failure; any other answer
/// only means that the stream is on its way.
pub proof fn law_dials_end(news: DialNews)
    ensures
        dial_means(news) == Some(Ok::<(), NetErrorModel>(())) <==> news is Delivered,
        news is Cancelled ==> dial_means(news) == Some(
            Err::<(), _>(NetErrorModel::DialFailed("dial cancelled"@)),
        ),
        news matches DialNews::TimedOut(nanos) ==> dial_means(news) == Some(
            Err::<(), _>(NetErrorModel::DialTimeout(nanos)),
        ),
        news matches DialNews::Reply(reply) ==> {
            &&& reply is None ==> dial_means(news) is None
            &&& (reply matches Some(e) ==> {
                &&& (e matches SidecarInternalEvent::DialFailed { error } ==> dial_means(news)
                    == Some(Err::<(), _>(NetErrorModel::DialFailed(error@))))
                &&& (e matches SidecarInternalEvent::Error { code, message } ==> dial_means(news)
                    == Some(
                    Err::<(), _>(NetErrorModel::DialFailed("["@ + code@ + "] "@ + message@)),
                ))
                &&& !(e is DialFailed) && !(e is Error) ==> dial_means(news) is None
            })
        },
{
}

/// The bridge forgets a dial exactly where it failed.
pub proof fn law_failed_dials_are_forgotten(end: DialEnd, r: Result<(), NetErrorModel>)
    requires
        dial_ends(end, r),
    ensures
        end.forget <==> end.result is Err,
        end.result is Ok <==> r is Ok,
        r matches Err(m) ==> end.result->Err_0@ == m,
{
}

/// An outcome shows what it holds.
pub proof fn law_outcomes_show_what_they_hold(o: Outcome)
    ensures
        o matches Outcome::Port(p) ==> o@ == OutcomeModel::Port(p),
        o matches Outcome::Removed ==> o@ == OutcomeModel::Removed,
        o matches Outcome::Pinged(p) ==> (o@ matches OutcomeModel::Pinged {
            latency_ms_bits,
            connection,
            ..
        } && latency_ms_bits == p.latency_ms_bits && connection == p.connection@),
        o matches Outcome::Added(a) ==> o@ == (OutcomeModel::Added {
            id: a.id@,
            listen_port: a.listen_port,
            url: a.url@,
        }),
        o matches Outcome::Owner(i) ==> o@ == OutcomeModel::Owner(owner_model(i)),
{
}

} // verus!
