//! Requests to the sidecar and what their answers mean.
use vstd::prelude::*;

use crate::digest::{is_random_id, random_id};
use crate::network::tailscale::protocol::{
    PingResultEventData, ProxyAddCommandData, ProxyInfoEventData, SidecarCommand,
    WhoisResultEventData,
};
use crate::network::tailscale::provider::{
    coded, coded_text, ProviderModel, ProviderState, TailscaleProvider,
};
use crate::network::tailscale::sidecar::SidecarInternalEvent;
use crate::network::types::{
    nonempty, DialOpts, ListenOpts, NetErrorModel, NetworkError, OwnerModel, PingResult,
    ProxyAddParams, ProxyAddResult, ProxyListEntry, TailscalePeerIdentity,
};
use crate::text::{decimal, decimal_text, join2, join3, join4, opt_text, owned, same_text};

verus! {

/// Earliest protocol whose ping results carry the request id.
pub const SIDECAR_V2_PING_ECHO: u32 = 2;

/// Earliest protocol that can be asked who owns an address.
pub const SIDECAR_V3_WHOIS: u32 = 3;

/// Earliest protocol whose every answer carries the request id.
pub const SIDECAR_V4_REPLY_ROUTING: u32 = 4;

/// What was asked, as far as an answer is recognized by it.
pub enum Request {
    Listen { port: u16 },
    Ping { target: String },
    Whois,
    BindUdp { port: u16 },
    ProxyAdd { id: String },
    ProxyRemove { id: String },
    ProxyList,
}

/// What was answered.
pub enum Outcome {
    /// The port that is listened on, or that of the relay.
    Port(u16),
    Pinged(PingResult),
    Owner(Option<TailscalePeerIdentity>),
    Added(ProxyAddResult),
    Removed,
    Proxies(Vec<ProxyListEntry>),
}

/// The texts of a [`ProxyListEntry`].
pub struct ProxyEntryModel {
    pub id: Seq<char>,
    pub name: Seq<char>,
    pub listen_port: u16,
    pub target_host: Seq<char>,
    pub target_port: u16,
    pub target_scheme: Seq<char>,
    pub url: Seq<char>,
}

impl View for ProxyListEntry {
    type V = ProxyEntryModel;

    open spec fn view(&self) -> ProxyEntryModel {
        ProxyEntryModel {
            id: self.id@,
            name: self.name@,
            listen_port: self.listen_port,
            target_host: self.target_host@,
            target_port: self.target_port,
            target_scheme: self.target_scheme@,
            url: self.url@,
        }
    }
}

/// The texts of an [`Outcome`].
pub enum OutcomeModel {
    Port(u16),
    Pinged { latency_ms_bits: u64, connection: Seq<char>, peer_addr: Option<Seq<char>> },
    Owner(Option<OwnerModel>),
    Added { id: Seq<char>, listen_port: u16, url: Seq<char> },
    Removed,
    Proxies(Seq<ProxyEntryModel>),
}

pub open spec fn pinged_model(p: PingResult) -> OutcomeModel {
    OutcomeModel::Pinged {
        latency_ms_bits: p.latency_ms_bits,
        connection: p.connection@,
        peer_addr: opt_text(p.peer_addr),
    }
}

pub open spec fn owner_model(o: Option<TailscalePeerIdentity>) -> Option<OwnerModel> {
    match o {
        Some(i) => Some(i@),
        None => None,
    }
}

pub open spec fn entry_models(v: Seq<ProxyListEntry>) -> Seq<ProxyEntryModel> {
    v.map_values(|e: ProxyListEntry| e@)
}

impl View for Outcome {
    type V = OutcomeModel;

    open spec fn view(&self) -> OutcomeModel {
        match self {
            Outcome::Port(p) => OutcomeModel::Port(*p),
            Outcome::Pinged(p) => pinged_model(*p),
            Outcome::Owner(o) => OutcomeModel::Owner(owner_model(*o)),
            Outcome::Added(a) => OutcomeModel::Added {
                id: a.id@,
                listen_port: a.listen_port,
                url: a.url@,
            },
            Outcome::Removed => OutcomeModel::Removed,
            Outcome::Proxies(v) => OutcomeModel::Proxies(entry_models(v@)),
        }
    }
}

pub open spec fn result_model(r: Result<Outcome, NetworkError>) -> Result<
    OutcomeModel,
    NetErrorModel,
> {
    match r {
        Ok(o) => Ok(o@),
        Err(e) => Err(e@),
    }
}

// ---------------------------------------------------------------------------
// Payloads
// ---------------------------------------------------------------------------

/// How a ping went over the network.
pub open spec fn route_of(d: PingResultEventData) -> Seq<char> {
    if d.direct {
        "direct"@
    } else if d.relay@.len() > 0 {
        "relay:"@ + d.relay@
    } else {
        "unknown"@
    }
}

pub open spec fn ping_means(d: PingResultEventData) -> Result<OutcomeModel, NetErrorModel> {
    if d.error@.len() > 0 {
        Err(NetErrorModel::PingFailed(d.error@))
    } else {
        Ok(
            OutcomeModel::Pinged {
                latency_ms_bits: d.latency_ms_bits,
                connection: route_of(d),
                peer_addr: nonempty(Some(d.peer_addr@)),
            },
        )
    }
}

/// An owner of whom nothing is known is no owner.
pub open spec fn known_owner(o: Option<OwnerModel>) -> Option<OwnerModel> {
    match o {
        Some(i) => if i.normal().blank() {
            None
        } else {
            Some(i.normal())
        },
        None => None,
    }
}

pub open spec fn whois_means(d: WhoisResultEventData) -> Result<OutcomeModel, NetErrorModel> {
    if d.error@.len() > 0 {
        Err(NetErrorModel::SidecarError(d.error@))
    } else {
        Ok(OutcomeModel::Owner(known_owner(owner_model(d.identity))))
    }
}

pub open spec fn entry_of(p: ProxyInfoEventData) -> ProxyEntryModel {
    ProxyEntryModel {
        id: p.id@,
        name: p.name@,
        listen_port: p.listen_port,
        target_host: p.target_host@,
        target_port: p.target_port,
        target_scheme: p.target_scheme@,
        url: p.url@,
    }
}

/// The result of a ping.
pub fn map_ping_result(data: PingResultEventData) -> (r: Result<PingResult, NetworkError>)
    ensures
        match r {
            Ok(p) => ping_means(data) == Ok::<OutcomeModel, NetErrorModel>(pinged_model(p)),
            Err(e) => ping_means(data) == Err::<OutcomeModel, NetErrorModel>(e@),
        },
{
    if !data.error.as_str().is_empty() {
        return Err(NetworkError::PingFailed(data.error));
    }
    let connection: String = if data.direct {
        owned("direct")
    } else if !data.relay.as_str().is_empty() {
        join2("relay:", data.relay.as_str())
    } else {
        owned("unknown")
    };
    Ok(
        PingResult {
            latency_ms_bits: data.latency_ms_bits,
            connection,
            peer_addr: if data.peer_addr.as_str().is_empty() {
                None
            } else {
                Some(data.peer_addr)
            },
        },
    )
}

/// The owner of an address, if anything is known of them.
pub fn map_whois_result(data: WhoisResultEventData) -> (r: Result<
    Option<TailscalePeerIdentity>,
    NetworkError,
>)
    ensures
        match r {
            Ok(o) => whois_means(data) == Ok::<OutcomeModel, NetErrorModel>(
                OutcomeModel::Owner(owner_model(o)),
            ),
            Err(e) => whois_means(data) == Err::<OutcomeModel, NetErrorModel>(e@),
        },
{
    if !data.error.as_str().is_empty() {
        return Err(NetworkError::SidecarError(data.error));
    }
    match data.identity {
        Some(identity) => {
            let normal: TailscalePeerIdentity = identity.normalized();
            if normal.is_empty() {
                Ok(None)
            } else {
                Ok(Some(normal))
            }
        },
        None => Ok(None),
    }
}

/// The running proxies, in the order reported.
pub fn proxy_entries(proxies: &Vec<ProxyInfoEventData>) -> (r: Vec<ProxyListEntry>)
    ensures
        entry_models(r@) == proxies@.map_values(|p: ProxyInfoEventData| entry_of(p)),
{
    let mut out: Vec<ProxyListEntry> = Vec::new();
    let n: usize = proxies.len();
    let mut i: usize = 0;
    while i < n
        invariant
            n == proxies@.len(),
            i <= n,
            out@.len() == i,
            forall|j: int| 0 <= j < i ==> (#[trigger] out@[j])@ == entry_of(proxies@[j]),
        decreases n - i,
    {
        let p: &ProxyInfoEventData = &proxies[i];
        out.push(
            ProxyListEntry {
                id: p.id.clone(),
                name: p.name.clone(),
                listen_port: p.listen_port,
                target_host: p.target_host.clone(),
                target_port: p.target_port,
                target_scheme: p.target_scheme.clone(),
                url: p.url.clone(),
            },
        );
        i += 1;
    }
    assert(entry_models(out@) =~= proxies@.map_values(|p: ProxyInfoEventData| entry_of(p)));
    out
}

// ---------------------------------------------------------------------------
// Answers
// ---------------------------------------------------------------------------

/// What the answer to a request says; `None` for reports of another kind.
pub open spec fn says(q: Request, e: SidecarInternalEvent) -> Option<
    Result<OutcomeModel, NetErrorModel>,
> {
    match (q, e) {
        (Request::Listen { .. }, SidecarInternalEvent::Listening { port }) => Some(
            Ok(OutcomeModel::Port(port)),
        ),
        (Request::Ping { .. }, SidecarInternalEvent::PingResult(d)) => Some(ping_means(d)),
        (Request::Whois, SidecarInternalEvent::WhoisResult(d)) => Some(whois_means(d)),
        (
            Request::BindUdp { .. },
            SidecarInternalEvent::ListeningPacket { local_port, .. },
        ) => Some(Ok(OutcomeModel::Port(local_port))),
        (
            Request::ProxyAdd { .. },
            SidecarInternalEvent::ProxyAdded { id, listen_port, url },
        ) => Some(Ok(OutcomeModel::Added { id: id@, listen_port, url: url@ })),
        (Request::ProxyRemove { .. }, SidecarInternalEvent::ProxyRemoved { .. }) => Some(
            Ok(OutcomeModel::Removed),
        ),
        (Request::ProxyList, SidecarInternalEvent::ProxyList { proxies }) => Some(
            Ok(
                OutcomeModel::Proxies(
                    proxies@.map_values(|p: ProxyInfoEventData| entry_of(p)),
                ),
            ),
        ),
        _ => None,
    }
}

/// Whether a report that carries no request id can be the answer: by the port,
/// target or id that it names.
pub open spec fn concerns(q: Request, e: SidecarInternalEvent) -> bool {
    match (q, e) {
        (Request::Listen { port }, SidecarInternalEvent::Listening { port: p }) => port == 0 || p
            == port,
        (Request::Ping { target }, SidecarInternalEvent::PingResult(d)) => d.target@ == target@,
        (
            Request::BindUdp { port },
            SidecarInternalEvent::ListeningPacket { port: p, .. },
        ) => p == port,
        (
            Request::ProxyAdd { id },
            SidecarInternalEvent::ProxyAdded { id: i, .. },
        ) => i@ == id@,
        (Request::ProxyRemove { id }, SidecarInternalEvent::ProxyRemoved { id: i }) => i@ == id@,
        (Request::ProxyList, SidecarInternalEvent::ProxyList { .. }) => true,
        _ => false,
    }
}

/// The error of a request that failed for a reason.
pub open spec fn failure(q: Request, text: Seq<char>) -> NetErrorModel {
    match q {
        Request::Listen { .. } => NetErrorModel::ListenFailed(text),
        Request::Ping { .. } => NetErrorModel::PingFailed(text),
        Request::Whois => NetErrorModel::SidecarError(text),
        Request::BindUdp { .. } => NetErrorModel::ListenFailed("UDP bind failed "@ + text),
        _ => NetErrorModel::ProxyError(text),
    }
}

/// The error of a request that nobody answered in time.
pub open spec fn late(q: Request) -> NetErrorModel {
    match q {
        Request::Listen { .. } => NetErrorModel::ListenFailed("listen confirmation timed out"@),
        Request::Ping { .. } => NetErrorModel::PingFailed("ping timed out"@),
        Request::Whois => NetErrorModel::SidecarError("whois timed out"@),
        Request::BindUdp { .. } => NetErrorModel::ListenFailed(
            "UDP listenPacket confirmation timed out"@,
        ),
        Request::ProxyAdd { .. } => NetErrorModel::ProxyError("proxy add timed out"@),
        Request::ProxyRemove { .. } => NetErrorModel::ProxyError("proxy remove timed out"@),
        Request::ProxyList => NetErrorModel::ProxyError("proxy list timed out"@),
    }
}

pub open spec fn request_word(q: Request) -> Seq<char> {
    match q {
        Request::Listen { .. } => "listen"@,
        Request::Ping { .. } => "ping"@,
        Request::Whois => "whois"@,
        Request::BindUdp { .. } => "listenPacket"@,
        Request::ProxyAdd { .. } => "proxy add"@,
        Request::ProxyRemove { .. } => "proxy remove"@,
        Request::ProxyList => "proxy list"@,
    }
}

/// What may have been missed when the reports came too fast.
pub open spec fn missed(q: Request) -> Seq<char> {
    match q {
        Request::Listen { .. } => "event channel lagged: listen confirmation may have been lost"@,
        Request::Ping { .. } => "event channel lagged: ping result may have been lost"@,
        Request::BindUdp { .. } => {
            "event channel lagged: UDP bind confirmation may have been lost"@
        },
        _ => "event channel lagged: proxy confirmation may have been lost"@,
    }
}

pub open spec fn is_proxy_request(q: Request) -> bool {
    q is ProxyAdd || q is ProxyRemove || q is ProxyList
}

/// What came of waiting for the answer that carries the request id.
pub enum Routed {
    Event(SidecarInternalEvent),
    /// The answer could not be read, or the sidecar shuts down.
    Dropped,
    TimedOut,
}

/// What came of waiting for any report.
pub enum Overheard {
    Event(SidecarInternalEvent),
    Closed,
    Lagged,
    TimedOut,
}

/// What an answer that was routed by its request id means. `shown` is the
/// answer as a log shows it.
pub open spec fn routed_means(q: Request, a: Routed, shown: Seq<char>) -> Result<
    OutcomeModel,
    NetErrorModel,
> {
    match a {
        Routed::TimedOut => Err(late(q)),
        Routed::Dropped => Err(
            NetErrorModel::SidecarError("reply channel closed before a result arrived"@),
        ),
        Routed::Event(e) => match says(q, e) {
            Some(r) => r,
            None => match e {
                SidecarInternalEvent::Error { code, message } => Err(
                    failure(q, coded(code@, message@)),
                ),
                SidecarInternalEvent::ProxyError { id, code, message } if is_proxy_request(
                    q,
                ) => Err(failure(q, coded(code@, message@))),
                _ => Err(
                    NetErrorModel::SidecarError(
                        "unexpected "@ + request_word(q) + " reply: "@ + shown,
                    ),
                ),
            },
        },
    }
}

/// What a report that carries no request id means for a request; `None` where
/// the wait goes on.
pub open spec fn overheard_means(q: Request, a: Overheard) -> Option<
    Result<OutcomeModel, NetErrorModel>,
> {
    match a {
        Overheard::TimedOut => Some(Err(late(q))),
        Overheard::Closed => Some(Err(NetErrorModel::SidecarError("event channel closed"@))),
        Overheard::Lagged => Some(Err(NetErrorModel::SidecarError(missed(q)))),
        Overheard::Event(e) => if concerns(q, e) {
            says(q, e)
        } else {
            match e {
                SidecarInternalEvent::Error { code, message } => if q is Ping {
                    None
                } else {
                    Some(Err(failure(q, coded(code@, message@))))
                },
                SidecarInternalEvent::ProxyError { id, code, message } => {
                    let ours = match q {
                        Request::ProxyAdd { id: i } => i@ == id@,
                        Request::ProxyRemove { id: i } => i@ == id@,
                        _ => false,
                    };
                    if ours {
                        Some(Err(failure(q, coded(code@, message@))))
                    } else {
                        None
                    }
                },
                _ => None,
            }
        },
    }
}

impl Request {
    /// How long an answer is waited for, in seconds.
    pub fn patience_secs(&self) -> (r: u64)
        ensures
            r == (if *self is Ping {
                15u64
            } else {
                10u64
            }),
    {
        match self {
            Request::Ping { .. } => 15,
            _ => 10,
        }
    }

    fn fail(&self, text: String) -> (r: NetworkError)
        ensures
            r@ == failure(*self, text@),
    {
        match self {
            Request::Listen { .. } => NetworkError::ListenFailed(text),
            Request::Ping { .. } => NetworkError::PingFailed(text),
            Request::Whois => NetworkError::SidecarError(text),
            Request::BindUdp { .. } => NetworkError::ListenFailed(
                join2("UDP bind failed ", text.as_str()),
            ),
            _ => NetworkError::ProxyError(text),
        }
    }

    fn timed_out(&self) -> (r: NetworkError)
        ensures
            r@ == late(*self),
    {
        match self {
            Request::Listen { .. } => NetworkError::ListenFailed(
                owned("listen confirmation timed out"),
            ),
            Request::Ping { .. } => NetworkError::PingFailed(owned("ping timed out")),
            Request::Whois => NetworkError::SidecarError(owned("whois timed out")),
            Request::BindUdp { .. } => NetworkError::ListenFailed(
                owned("UDP listenPacket confirmation timed out"),
            ),
            Request::ProxyAdd { .. } => NetworkError::ProxyError(owned("proxy add timed out")),
            Request::ProxyRemove { .. } => NetworkError::ProxyError(
                owned("proxy remove timed out"),
            ),
            Request::ProxyList => NetworkError::ProxyError(owned("proxy list timed out")),
        }
    }

    fn word(&self) -> (r: &'static str)
        ensures
            r@ == request_word(*self),
    {
        match self {
            Request::Listen { .. } => "listen",
            Request::Ping { .. } => "ping",
            Request::Whois => "whois",
            Request::BindUdp { .. } => "listenPacket",
            Request::ProxyAdd { .. } => "proxy add",
            Request::ProxyRemove { .. } => "proxy remove",
            Request::ProxyList => "proxy list",
        }
    }

    fn lagged(&self) -> (r: NetworkError)
        ensures
            r@ == NetErrorModel::SidecarError(missed(*self)),
    {
        let text: &str = match self {
            Request::Listen { .. } => {
                "event channel lagged: listen confirmation may have been lost"
            },
            Request::Ping { .. } => "event channel lagged: ping result may have been lost",
            Request::BindUdp { .. } => {
                "event channel lagged: UDP bind confirmation may have been lost"
            },
            _ => "event channel lagged: proxy confirmation may have been lost",
        };
        NetworkError::SidecarError(owned(text))
    }

    fn concerned_by(&self, e: &SidecarInternalEvent) -> (r: bool)
        ensures
            r == concerns(*self, *e),
    {
        match (self, e) {
            (Request::Listen { port }, SidecarInternalEvent::Listening { port: p }) => *port == 0
                || *p == *port,
            (Request::Ping { target }, SidecarInternalEvent::PingResult(d)) => same_text(
                d.target.as_str(),
                target.as_str(),
            ),
            (
                Request::BindUdp { port },
                SidecarInternalEvent::ListeningPacket { port: p, .. },
            ) => *p == *port,
            (Request::ProxyAdd { id }, SidecarInternalEvent::ProxyAdded { id: i, .. }) => same_text(
                i.as_str(),
                id.as_str(),
            ),
            (Request::ProxyRemove { id }, SidecarInternalEvent::ProxyRemoved { id: i }) => {
                same_text(i.as_str(), id.as_str())
            },
            (Request::ProxyList, SidecarInternalEvent::ProxyList { .. }) => true,
            _ => false,
        }
    }

    /// Reads the answer, or hands the report back where it is none.
    fn read(&self, e: SidecarInternalEvent) -> (r: Result<
        Result<Outcome, NetworkError>,
        SidecarInternalEvent,
    >)
        ensures
            match r {
                Ok(o) => says(*self, e) == Some(result_model(o)),
                Err(back) => says(*self, e) is None && back == e,
            },
    {
        match (self, e) {
            (Request::Listen { .. }, SidecarInternalEvent::Listening { port }) => Ok(
                Ok(Outcome::Port(port)),
            ),
            (Request::Ping { .. }, SidecarInternalEvent::PingResult(d)) => match map_ping_result(
                d,
            ) {
                Ok(p) => Ok(Ok(Outcome::Pinged(p))),
                Err(err) => Ok(Err(err)),
            },
            (Request::Whois, SidecarInternalEvent::WhoisResult(d)) => match map_whois_result(d) {
                Ok(o) => Ok(Ok(Outcome::Owner(o))),
                Err(err) => Ok(Err(err)),
            },
            (
                Request::BindUdp { .. },
                SidecarInternalEvent::ListeningPacket { local_port, .. },
            ) => Ok(Ok(Outcome::Port(local_port))),
            (
                Request::ProxyAdd { .. },
                SidecarInternalEvent::ProxyAdded { id, listen_port, url },
            ) => Ok(Ok(Outcome::Added(ProxyAddResult { id, listen_port, url }))),
            (Request::ProxyRemove { .. }, SidecarInternalEvent::ProxyRemoved { .. }) => Ok(
                Ok(Outcome::Removed),
            ),
            (Request::ProxyList, SidecarInternalEvent::ProxyList { proxies }) => Ok(
                Ok(Outcome::Proxies(proxy_entries(&proxies))),
            ),
            (_, back) => Err(back),
        }
    }

    /// What the answer with the request id means. `shown` is the answer as a
    /// log shows it; it appears in the error where the answer is of the wrong
    /// kind.
    pub fn settle_routed(&self, answer: Routed, shown: &str) -> (r: Result<Outcome, NetworkError>)
        ensures
            result_model(r) == routed_means(*self, answer, shown@),
    {
        match answer {
            Routed::TimedOut => Err(self.timed_out()),
            Routed::Dropped => Err(
                NetworkError::SidecarError(
                    owned("reply channel closed before a result arrived"),
                ),
            ),
            Routed::Event(e) => match self.read(e) {
                Ok(r) => r,
                Err(back) => match back {
                    SidecarInternalEvent::Error { code, message } => {
                        let text: String = coded_text(code.as_str(), message.as_str());
                        Err(self.fail(text))
                    },
                    SidecarInternalEvent::ProxyError { id: _, code, message } => {
                        match self {
                            Request::ProxyAdd { .. }
                            | Request::ProxyRemove { .. }
                            | Request::ProxyList => {
                                let text: String = coded_text(code.as_str(), message.as_str());
                                Err(self.fail(text))
                            },
                            _ => Err(self.unexpected_reply(shown)),
                        }
                    },
                    _ => Err(self.unexpected_reply(shown)),
                },
            },
        }
    }

    /// The error of an answer of the wrong kind.
    pub fn unexpected_reply(&self, shown: &str) -> (r: NetworkError)
        ensures
            r@ == NetErrorModel::SidecarError(
                "unexpected "@ + request_word(*self) + " reply: "@ + shown@,
            ),
    {
        NetworkError::SidecarError(join4("unexpected ", self.word(), " reply: ", shown))
    }

    /// What a report means for a request that carried no id; `None` where the
    /// wait goes on.
    pub fn settle_overheard(&self, heard: Overheard) -> (r: Option<Result<Outcome, NetworkError>>)
        ensures
            match r {
                Some(o) => overheard_means(*self, heard) == Some(result_model(o)),
                None => overheard_means(*self, heard) is None,
            },
    {
        match heard {
            Overheard::TimedOut => Some(Err(self.timed_out())),
            Overheard::Closed => Some(
                Err(NetworkError::SidecarError(owned("event channel closed"))),
            ),
            Overheard::Lagged => Some(Err(self.lagged())),
            Overheard::Event(e) => {
                if self.concerned_by(&e) {
                    return match self.read(e) {
                        Ok(r) => Some(r),
                        Err(_) => None,
                    };
                }
                match e {
                    SidecarInternalEvent::Error { code, message } => match self {
                        Request::Ping { .. } => None,
                        _ => {
                            let text: String = coded_text(code.as_str(), message.as_str());
                            Some(Err(self.fail(text)))
                        },
                    },
                    SidecarInternalEvent::ProxyError { id, code, message } => {
                        let ours: bool = match self {
                            Request::ProxyAdd { id: i } => same_text(i.as_str(), id.as_str()),
                            Request::ProxyRemove { id: i } => same_text(i.as_str(), id.as_str()),
                            _ => false,
                        };
                        if ours {
                            let text: String = coded_text(code.as_str(), message.as_str());
                            Some(Err(self.fail(text)))
                        } else {
                            None
                        }
                    },
                    _ => None,
                }
            },
        }
    }
}

// ---------------------------------------------------------------------------
// Requests of the provider
// ---------------------------------------------------------------------------

/// The request id, where the sidecar sends it back.
pub open spec fn echoed(m: ProviderModel, since: u32, id: String) -> Option<String> {
    if m.version >= since {
        Some(id)
    } else {
        None
    }
}

/// Whether a proxy needs what only newer sidecars know.
pub open spec fn needs_newer_sidecar(p: ProxyAddParams) -> bool {
    !p.tls || p.allow_non_loopback || p.allow@.len() > 0 || p.routes@.len() > 0
}

/// What a dial is answered: the command, or why there is none.
pub open spec fn dial_answer(
    m: ProviderModel,
    addr: Seq<char>,
    port: u16,
    opts: DialOpts,
    request_id: String,
    r: Result<SidecarCommand, NetworkError>,
) -> bool {
    match r {
        Ok(c) => m.state == ProviderState::Running && c is Dial && c->Dial_request_id
            == request_id && c->Dial_target@ == addr && c->Dial_port == port && c->Dial_tls
            == opts.tls,
        Err(e) => m.state != ProviderState::Running && e@ == NetErrorModel::NotRunning,
    }
}

/// What a wish to listen is answered.
pub open spec fn listen_answer(
    m: ProviderModel,
    port: u16,
    opts: ListenOpts,
    request_id: String,
    r: Result<SidecarCommand, NetworkError>,
) -> bool {
    match r {
        Ok(c) => m.state == ProviderState::Running && c == (SidecarCommand::Listen {
            port,
            tls: if opts.tls {
                Some(true)
            } else {
                None
            },
            request_id: echoed(m, SIDECAR_V4_REPLY_ROUTING, request_id),
        }),
        Err(e) => m.state != ProviderState::Running && e@ == NetErrorModel::NotRunning,
    }
}

/// What a ping is answered.
pub open spec fn ping_answer(
    m: ProviderModel,
    addr: Seq<char>,
    request_id: String,
    r: Result<SidecarCommand, NetworkError>,
) -> bool {
    match r {
        Ok(c) => m.state == ProviderState::Running && c is Ping && c->Ping_target@
            == addr && c->Ping_ping_type is None && c->Ping_request_id == echoed(
            m,
            SIDECAR_V2_PING_ECHO,
            request_id,
        ),
        Err(e) => m.state != ProviderState::Running && e@ == NetErrorModel::NotRunning,
    }
}

/// What a question for an owner is answered.
pub open spec fn whois_answer(
    m: ProviderModel,
    addr: Seq<char>,
    request_id: String,
    r: Result<SidecarCommand, NetworkError>,
) -> bool {
    match r {
        Ok(c) => m.state == ProviderState::Running && m.version >= SIDECAR_V3_WHOIS
            && c is Whois && c->Whois_addr@ == addr && c->Whois_request_id == Some(
            request_id,
        ),
        Err(e) => if m.state != ProviderState::Running {
            e@ == NetErrorModel::NotRunning
        } else {
            m.version < SIDECAR_V3_WHOIS && e@ == NetErrorModel::Unsupported(
                "sidecar protocol v"@ + decimal(m.version as nat)
                    + " predates tsnet:whois; upgrade the sidecar binary (needs v3)"@,
            )
        },
    }
}

/// What a wish for a datagram port is answered.
pub open spec fn bind_answer(
    m: ProviderModel,
    port: u16,
    request_id: String,
    r: Result<SidecarCommand, NetworkError>,
) -> bool {
    match r {
        Ok(c) => m.state == ProviderState::Running && c == (SidecarCommand::ListenPacket {
            port,
            request_id: echoed(m, SIDECAR_V4_REPLY_ROUTING, request_id),
        }),
        Err(e) => m.state != ProviderState::Running && e@ == NetErrorModel::NotRunning,
    }
}

/// What a wish for a proxy is answered.
pub open spec fn proxy_add_answer(
    m: ProviderModel,
    config: ProxyAddParams,
    request_id: String,
    r: Result<SidecarCommand, NetworkError>,
) -> bool {
    match r {
        Ok(c) => m.state == ProviderState::Running && (needs_newer_sidecar(config)
            ==> m.version >= 2) && c == SidecarCommand::ProxyAdd(
            ProxyAddCommandData {
                id: config.id,
                name: config.name,
                listen_port: config.listen_port,
                target_host: config.target_host,
                target_port: config.target_port,
                target_scheme: config.target_scheme,
                tls: config.tls,
                allow_non_loopback: config.allow_non_loopback,
                allow: config.allow,
                routes: config.routes,
                request_id: echoed(m, SIDECAR_V4_REPLY_ROUTING, request_id),
            },
        ),
        Err(e) => if m.state != ProviderState::Running {
            e@ == NetErrorModel::NotRunning
        } else {
            needs_newer_sidecar(config) && m.version < 2 && e@
                == NetErrorModel::ProxyError(
                "sidecar protocol v"@ + decimal(m.version as nat)
                    + " predates RFC 023 — routes, allow lists, tls: false, and non-loopback targets need a v2 sidecar; upgrade the sidecar binary"@,
            )
        },
    }
}

/// What a wish to end a proxy is answered.
pub open spec fn proxy_remove_answer(
    m: ProviderModel,
    id: Seq<char>,
    request_id: String,
    r: Result<SidecarCommand, NetworkError>,
) -> bool {
    match r {
        Ok(c) => m.state == ProviderState::Running && c is ProxyRemove
            && c->ProxyRemove_id@ == id && c->ProxyRemove_request_id == echoed(
            m,
            SIDECAR_V4_REPLY_ROUTING,
            request_id,
        ),
        Err(e) => m.state != ProviderState::Running && e@ == NetErrorModel::NotRunning,
    }
}

/// What a question for the proxies is answered.
pub open spec fn proxy_list_answer(
    m: ProviderModel,
    request_id: String,
    r: Result<SidecarCommand, NetworkError>,
) -> bool {
    match r {
        Ok(c) => m.state == ProviderState::Running && c == (SidecarCommand::ProxyList {
            request_id: echoed(m, SIDECAR_V4_REPLY_ROUTING, request_id),
        }),
        Err(e) => m.state != ProviderState::Running && e@ == NetErrorModel::NotRunning,
    }
}

impl TailscaleProvider {
    fn echo(&self, since: u32, id: String) -> (r: Option<String>)
        ensures
            r == echoed(self@, since, id),
    {
        if self.sidecar_version() >= since {
            Some(id)
        } else {
            None
        }
    }

    /// The command that dials.
    pub fn dial_command(&self, addr: &str, port: u16, opts: DialOpts, request_id: String) -> (r:
        Result<SidecarCommand, NetworkError>)
        ensures
            dial_answer(self@, addr@, port, opts, request_id, r),
    {
        match self.require_running() {
            Ok(_) => Ok(
                SidecarCommand::Dial { request_id, target: owned(addr), port, tls: opts.tls },
            ),
            Err(e) => Err(e),
        }
    }

    /// The command that dials, under a random id.
    pub fn dial_tcp_opts(&self, addr: &str, port: u16, opts: DialOpts) -> (r: Result<
        SidecarCommand,
        NetworkError,
    >)
        ensures
            exists|request_id: String|
                #![trigger is_random_id(request_id@)]
                is_random_id(request_id@) && dial_answer(self@, addr@, port, opts, request_id, r),
    {
        let request_id: String = random_id();
        let ghost drawn = request_id;
        let r = self.dial_command(addr, port, opts, request_id);
        assert(is_random_id(drawn@));
        r
    }

    /// The command that listens. A plain listener leaves the option out.
    pub fn listen_command(&self, port: u16, opts: ListenOpts, request_id: String) -> (r: Result<
        SidecarCommand,
        NetworkError,
    >)
        ensures
            listen_answer(self@, port, opts, request_id, r),
    {
        match self.require_running() {
            Ok(_) => {
                let tls: Option<bool> = if opts.tls {
                    Some(true)
                } else {
                    None
                };
                Ok(
                    SidecarCommand::Listen {
                        port,
                        tls,
                        request_id: self.echo(SIDECAR_V4_REPLY_ROUTING, request_id),
                    },
                )
            },
            Err(e) => Err(e),
        }
    }

    /// The command that listens, under a random id.
    pub fn listen_tcp_opts(&self, port: u16, opts: ListenOpts) -> (r: Result<
        SidecarCommand,
        NetworkError,
    >)
        ensures
            exists|request_id: String|
                #![trigger is_random_id(request_id@)]
                is_random_id(request_id@) && listen_answer(self@, port, opts, request_id, r),
    {
        let request_id: String = random_id();
        let ghost drawn = request_id;
        let r = self.listen_command(port, opts, request_id);
        assert(is_random_id(drawn@));
        r
    }

    /// The command that stops listening.
    pub fn unlisten_tcp(&self, port: u16) -> (r: Result<SidecarCommand, NetworkError>)
        ensures
            match r {
                Ok(c) => self@.state == ProviderState::Running && c == (SidecarCommand::Unlisten {
                    port,
                }),
                Err(e) => self@.state != ProviderState::Running && e@ == NetErrorModel::NotRunning,
            },
    {
        match self.require_running() {
            Ok(_) => Ok(SidecarCommand::Unlisten { port }),
            Err(e) => Err(e),
        }
    }

    /// The command that pings.
    pub fn ping_command(&self, addr: &str, request_id: String) -> (r: Result<SidecarCommand, NetworkError>)
        ensures
            ping_answer(self@, addr@, request_id, r),
    {
        match self.require_running() {
            Ok(_) => Ok(
                SidecarCommand::Ping {
                    target: owned(addr),
                    ping_type: None,
                    request_id: self.echo(SIDECAR_V2_PING_ECHO, request_id),
                },
            ),
            Err(e) => Err(e),
        }
    }

    /// The command that pings, under a random id.
    pub fn ping(&self, addr: &str) -> (r: Result<SidecarCommand, NetworkError>)
        ensures
            exists|request_id: String|
                #![trigger is_random_id(request_id@)]
                is_random_id(request_id@) && ping_answer(self@, addr@, request_id, r),
    {
        let request_id: String = random_id();
        let ghost drawn = request_id;
        let r = self.ping_command(addr, request_id);
        assert(is_random_id(drawn@));
        r
    }

    /// The command that asks who owns an address. Older sidecars would not
    /// answer it at all.
    pub fn whois_command(&self, addr: &str, request_id: String) -> (r: Result<SidecarCommand, NetworkError>)
        ensures
            whois_answer(self@, addr@, request_id, r),
    {
        match self.require_running() {
            Ok(_) => {
                let version: u32 = self.sidecar_version();
                if version < SIDECAR_V3_WHOIS {
                    let number: String = decimal_text(version as u64);
                    return Err(
                        NetworkError::Unsupported(
                            join3(
                                "sidecar protocol v",
                                number.as_str(),
                                " predates tsnet:whois; upgrade the sidecar binary (needs v3)",
                            ),
                        ),
                    );
                }
                Ok(SidecarCommand::Whois { addr: owned(addr), request_id: Some(request_id) })
            },
            Err(e) => Err(e),
        }
    }

    /// The command that asks who owns an address, under a random id.
    pub fn whois(&self, addr: &str) -> (r: Result<SidecarCommand, NetworkError>)
        ensures
            exists|request_id: String|
                #![trigger is_random_id(request_id@)]
                is_random_id(request_id@) && whois_answer(self@, addr@, request_id, r),
    {
        let request_id: String = random_id();
        let ghost drawn = request_id;
        let r = self.whois_command(addr, request_id);
        assert(is_random_id(drawn@));
        r
    }

    /// The command that binds a datagram port.
    pub fn bind_command(&self, port: u16, request_id: String) -> (r: Result<
        SidecarCommand,
        NetworkError,
    >)
        ensures
            bind_answer(self@, port, request_id, r),
    {
        match self.require_running() {
            Ok(_) => Ok(
                SidecarCommand::ListenPacket {
                    port,
                    request_id: self.echo(SIDECAR_V4_REPLY_ROUTING, request_id),
                },
            ),
            Err(e) => Err(e),
        }
    }

    /// The command that binds a datagram port, under a random id.
    pub fn bind_udp(&self, port: u16) -> (r: Result<SidecarCommand, NetworkError>)
        ensures
            exists|request_id: String|
                #![trigger is_random_id(request_id@)]
                is_random_id(request_id@) && bind_answer(self@, port, request_id, r),
    {
        let request_id: String = random_id();
        let ghost drawn = request_id;
        let r = self.bind_command(port, request_id);
        assert(is_random_id(drawn@));
        r
    }

    /// The command that starts a proxy. What an older sidecar would silently
    /// leave out, such as who is admitted, is refused instead.
    pub fn proxy_add_command(&self, config: ProxyAddParams, request_id: String) -> (r: Result<
        SidecarCommand,
        NetworkError,
    >)
        ensures
            proxy_add_answer(self@, config, request_id, r),
    {
        match self.require_running() {
            Ok(_) => {},
            Err(e) => return Err(e),
        }
        let newer: bool = !config.tls || config.allow_non_loopback || config.allow.len() > 0
            || config.routes.len() > 0;
        let version: u32 = self.sidecar_version();
        if newer && version < 2 {
            let number: String = decimal_text(version as u64);
            return Err(
                NetworkError::ProxyError(
                    join3(
                        "sidecar protocol v",
                        number.as_str(),
                        " predates RFC 023 — routes, allow lists, tls: false, and non-loopback targets need a v2 sidecar; upgrade the sidecar binary",
                    ),
                ),
            );
        }
        Ok(
            SidecarCommand::ProxyAdd(
                ProxyAddCommandData {
                    id: config.id,
                    name: config.name,
                    listen_port: config.listen_port,
                    target_host: config.target_host,
                    target_port: config.target_port,
                    target_scheme: config.target_scheme,
                    tls: config.tls,
                    allow_non_loopback: config.allow_non_loopback,
                    allow: config.allow,
                    routes: config.routes,
                    request_id: self.echo(SIDECAR_V4_REPLY_ROUTING, request_id),
                },
            ),
        )
    }

    /// The command that starts a proxy, under a random id.
    pub fn proxy_add(&self, config: ProxyAddParams) -> (r: Result<SidecarCommand, NetworkError>)
        ensures
            exists|request_id: String|
                #![trigger is_random_id(request_id@)]
                is_random_id(request_id@) && proxy_add_answer(self@, config, request_id, r),
    {
        let request_id: String = random_id();
        let ghost drawn = request_id;
        let r = self.proxy_add_command(config, request_id);
        assert(is_random_id(drawn@));
        r
    }

    /// The command that ends a proxy.
    pub fn proxy_remove_command(&self, id: &str, request_id: String) -> (r: Result<
        SidecarCommand,
        NetworkError,
    >)
        ensures
            proxy_remove_answer(self@, id@, request_id, r),
    {
        match self.require_running() {
            Ok(_) => Ok(
                SidecarCommand::ProxyRemove {
                    id: owned(id),
                    request_id: self.echo(SIDECAR_V4_REPLY_ROUTING, request_id),
                },
            ),
            Err(e) => Err(e),
        }
    }

    /// The command that ends a proxy, under a random id.
    pub fn proxy_remove(&self, id: &str) -> (r: Result<SidecarCommand, NetworkError>)
        ensures
            exists|request_id: String|
                #![trigger is_random_id(request_id@)]
                is_random_id(request_id@) && proxy_remove_answer(self@, id@, request_id, r),
    {
        let request_id: String = random_id();
        let ghost drawn = request_id;
        let r = self.proxy_remove_command(id, request_id);
        assert(is_random_id(drawn@));
        r
    }

    /// The command that lists the proxies.
    pub fn proxy_list_command(&self, request_id: String) -> (r: Result<SidecarCommand, NetworkError>)
        ensures
            proxy_list_answer(self@, request_id, r),
    {
        match self.require_running() {
            Ok(_) => Ok(
                SidecarCommand::ProxyList {
                    request_id: self.echo(SIDECAR_V4_REPLY_ROUTING, request_id),
                },
            ),
            Err(e) => Err(e),
        }
    }

    /// The command that lists the proxies, under a random id.
    pub fn proxy_list(&self) -> (r: Result<SidecarCommand, NetworkError>)
        ensures
            exists|request_id: String|
                #![trigger is_random_id(request_id@)]
                is_random_id(request_id@) && proxy_list_answer(self@, request_id, r),
    {
        let request_id: String = random_id();
        let ghost drawn = request_id;
        let r = self.proxy_list_command(request_id);
        assert(is_random_id(drawn@));
        r
    }
}

// ---------------------------------------------------------------------------
// Dials
// ---------------------------------------------------------------------------

/// What happens while a dial is waited for.
pub enum DialNews {
    /// The bridge delivered the stream.
    Delivered,
    /// The bridge gave the dial up.
    Cancelled,
    /// The sidecar's answer; `None` if the answer was dropped.
    Reply(Option<SidecarInternalEvent>),
    /// The patience, in nanoseconds, ran out.
    TimedOut(u64),
}

/// A dial that is waited for.
pub struct DialWait {
    /// The sidecar has not answered yet.
    pub reply_pending: bool,
}

/// How a dial ended.
pub struct DialEnd {
    pub result: Result<(), NetworkError>,
    /// The bridge is to forget the dial.
    pub forget: bool,
}

/// What some news mean for a dial; `None` where the wait goes on.
pub open spec fn dial_means(news: DialNews) -> Option<Result<(), NetErrorModel>> {
    match news {
        DialNews::Delivered => Some(Ok(())),
        DialNews::Cancelled => Some(Err(NetErrorModel::DialFailed("dial cancelled"@))),
        DialNews::TimedOut(nanos) => Some(Err(NetErrorModel::DialTimeout(nanos))),
        DialNews::Reply(Some(SidecarInternalEvent::DialFailed { error })) => Some(
            Err(NetErrorModel::DialFailed(error@)),
        ),
        DialNews::Reply(Some(SidecarInternalEvent::Error { code, message })) => Some(
            Err(NetErrorModel::DialFailed(coded(code@, message@))),
        ),
        DialNews::Reply(_) => None,
    }
}

/// Every failed dial is forgotten by the bridge, a delivered one is not.
pub open spec fn dial_ends(end: DialEnd, r: Result<(), NetErrorModel>) -> bool {
    match (end.result, r) {
        (Ok(_), Ok(_)) => !end.forget,
        (Err(e), Err(m)) => e@ == m && end.forget,
        _ => false,
    }
}

impl DialWait {
    pub fn new() -> (r: Self)
        ensures
            r.reply_pending,
    {
        DialWait { reply_pending: true }
    }

    /// Takes in some news. An answer that reports no failure only says that the
    /// stream is on its way.
    pub fn hear(&mut self, news: DialNews) -> (r: Option<DialEnd>)
        ensures
            match dial_means(news) {
                Some(m) => r is Some && dial_ends(r->0, m) && final(self).reply_pending == old(
                    self,
                ).reply_pending,
                None => r is None && !final(self).reply_pending,
            },
    {
        match news {
            DialNews::Delivered => Some(DialEnd { result: Ok(()), forget: false }),
            DialNews::Cancelled => Some(
                DialEnd {
                    result: Err(NetworkError::DialFailed(owned("dial cancelled"))),
                    forget: true,
                },
            ),
            DialNews::TimedOut(nanos) => Some(
                DialEnd { result: Err(NetworkError::DialTimeout(nanos)), forget: true },
            ),
            DialNews::Reply(Some(SidecarInternalEvent::DialFailed { error })) => Some(
                DialEnd { result: Err(NetworkError::DialFailed(error)), forget: true },
            ),
            DialNews::Reply(Some(SidecarInternalEvent::Error { code, message })) => {
                let text: String = coded_text(code.as_str(), message.as_str());
                Some(DialEnd { result: Err(NetworkError::DialFailed(text)), forget: true })
            },
            DialNews::Reply(_) => {
                self.reply_pending = false;
                None
            },
        }
    }
}

// ---------------------------------------------------------------------------
// Laws
// ---------------------------------------------------------------------------

/// A report that answers a request by the value it names means the same as the
/// same answer routed by its id.
pub proof fn law_both_ways_agree(q: Request, e: SidecarInternalEvent, shown: Seq<char>)
    requires
        concerns(q, e),
    ensures
        overheard_means(q, Overheard::Event(e)) == Some(routed_means(q, Routed::Event(e), shown)),
{
}

/// The confirmation of another listener, ping or proxy never ends a wait.
pub proof fn law_strangers_are_passed_over(q: Request, e: SidecarInternalEvent)
    requires
        !concerns(q, e),
        !(e is Error),
        !(e is ProxyError),
    ensures
        overheard_means(q, Overheard::Event(e)) is None,
{
}

/// An owner is never reported with an empty field, nor without any.
pub proof fn law_owner_is_absent_or_known(o: Option<OwnerModel>)
    ensures
        known_owner(o) matches Some(i) ==> !i.blank() && i.normal() == i,
{
}

} // verus!
