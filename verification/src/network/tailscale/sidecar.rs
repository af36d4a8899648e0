//! What the sidecar's reports mean, and which request a reply belongs to.
use vstd::prelude::*;

use crate::network::tailscale::debug_text::{
    opt_bool_text, opt_list_text, opt_number_text, opt_texts, quoted, quoted_text, redacted,
    secret_text, show_opt_bool, show_opt_list, show_opt_number, show_secret, struct_text,
    FieldModel, StructText,
};
use crate::network::tailscale::protocol::{
    event_kind, kind_of, EventKind, EventPayload, PeerChangedEventData, PingResultEventData,
    ProxyInfoEventData, SidecarCommand, SidecarPeer, StartCommandData, StatusEventData,
    WhoisResultEventData,
};
use crate::text::{copy_opt, copy_texts, decimal, decimal_text, owned, same_text};
use crate::text_map::TextMap;

verus! {

/// How the sidecar is started.
pub struct SidecarConfig {
    pub binary_path: String,
    pub hostname: String,
    pub state_dir: String,
    pub auth_key: Option<String>,
    pub bridge_port: u16,
    /// Secret of the bridge, in hexadecimal.
    pub session_token_hex: String,
    pub ephemeral: Option<bool>,
    pub tags: Option<Vec<String>>,
    pub idle_timeout_secs: Option<u64>,
}

/// The fields of the configuration as a log shows them.
pub open spec fn sidecar_fields(c: SidecarConfig) -> Seq<FieldModel> {
    seq![
        FieldModel { name: "binary_path"@, value: quoted(c.binary_path@) },
        FieldModel { name: "hostname"@, value: quoted(c.hostname@) },
        FieldModel { name: "state_dir"@, value: quoted(c.state_dir@) },
        FieldModel { name: "auth_key"@, value: secret_text(c.auth_key is Some) },
        FieldModel { name: "bridge_port"@, value: decimal(c.bridge_port as nat) },
        FieldModel { name: "session_token_hex"@, value: redacted() },
        FieldModel { name: "ephemeral"@, value: opt_bool_text(c.ephemeral) },
        FieldModel { name: "tags"@, value: opt_list_text(opt_texts(c.tags)) },
        FieldModel { name: "idle_timeout_secs"@, value: opt_number_text(c.idle_timeout_secs) },
    ]
}

impl SidecarConfig {
    /// The configuration for a log, without the auth key and the token.
    pub fn debug_text(&self) -> (r: String)
        ensures
            r@ == struct_text("SidecarConfig"@, sidecar_fields(*self)),
    {
        let binary_path: String = quoted_text(self.binary_path.as_str());
        let hostname: String = quoted_text(self.hostname.as_str());
        let state_dir: String = quoted_text(self.state_dir.as_str());
        let auth_key: String = show_secret(&self.auth_key);
        let port: String = decimal_text(self.bridge_port as u64);
        let ephemeral: String = show_opt_bool(self.ephemeral);
        let tags: String = show_opt_list(&self.tags);
        let idle: String = show_opt_number(self.idle_timeout_secs);
        let t = StructText::new().field("binary_path", binary_path.as_str()).field(
            "hostname",
            hostname.as_str(),
        ).field("state_dir", state_dir.as_str()).field("auth_key", auth_key.as_str()).field(
            "bridge_port",
            port.as_str(),
        ).field("session_token_hex", "\"[REDACTED]\"").field(
            "ephemeral",
            ephemeral.as_str(),
        ).field("tags", tags.as_str()).field("idle_timeout_secs", idle.as_str());
        assert(t.fields() =~= sidecar_fields(*self));
        t.finish("SidecarConfig")
    }

    /// The command that starts the sidecar. It carries the secrets.
    pub fn start_command(&self) -> (r: SidecarCommand)
        ensures
            match r {
                SidecarCommand::Start(d) => d.hostname == self.hostname && d.state_dir
                    == self.state_dir && d.auth_key == self.auth_key && d.bridge_port
                    == self.bridge_port && d.session_token == self.session_token_hex && d.ephemeral
                    == self.ephemeral && opt_texts(d.tags) == opt_texts(self.tags)
                    && d.idle_timeout_secs == self.idle_timeout_secs,
                _ => false,
            },
    {
        SidecarCommand::Start(
            StartCommandData {
                hostname: self.hostname.clone(),
                state_dir: self.state_dir.clone(),
                auth_key: copy_opt(&self.auth_key),
                bridge_port: self.bridge_port,
                session_token: self.session_token_hex.clone(),
                ephemeral: self.ephemeral,
                tags: match &self.tags {
                    Some(v) => Some(copy_texts(v)),
                    None => None,
                },
                idle_timeout_secs: self.idle_timeout_secs,
            },
        )
    }
}

/// The text of a configuration in a log does not depend on the secrets.
pub proof fn law_sidecar_text_hides_secrets(a: SidecarConfig, b: SidecarConfig)
    requires
        a.binary_path == b.binary_path,
        a.hostname == b.hostname,
        a.state_dir == b.state_dir,
        a.bridge_port == b.bridge_port,
        a.ephemeral == b.ephemeral,
        a.tags == b.tags,
        a.idle_timeout_secs == b.idle_timeout_secs,
        a.auth_key is Some == b.auth_key is Some,
    ensures
        struct_text("SidecarConfig"@, sidecar_fields(a)) == struct_text(
            "SidecarConfig"@,
            sidecar_fields(b),
        ),
{
}

/// What the sidecar reported.
#[derive(Debug, Clone)]
pub enum SidecarInternalEvent {
    Started {
        hostname: String,
        dns_name: String,
        ip: Option<String>,
        node_id: String,
        login_name: Option<String>,
        protocol_version: Option<u32>,
    },
    Stopped,
    AuthRequired { auth_url: String },
    NeedsApproval,
    StateChange { state: String },
    KeyExpiring { expires_at: String },
    HealthWarning { warnings: Vec<String> },
    PeersReceived(Vec<SidecarPeer>),
    PeerChanged(PeerChangedEventData),
    DialSucceeded,
    DialFailed { error: String },
    Listening { port: u16 },
    Unlistened { port: u16 },
    ListeningPacket { port: u16, local_port: u16 },
    PingResult(PingResultEventData),
    WhoisResult(WhoisResultEventData),
    Error { code: String, message: String },
    ProxyAdded { id: String, listen_port: u16, url: String },
    ProxyRemoved { id: String },
    ProxyList { proxies: Vec<ProxyInfoEventData> },
    ProxyError { id: String, code: String, message: String },
    ProcessExited { exit_code: Option<i32> },
}

/// What a status means: the node runs, it failed, or it is on the way.
pub open spec fn status_means(d: StatusEventData, e: SidecarInternalEvent) -> bool {
    if d.state@ == "running"@ {
        e == (SidecarInternalEvent::Started {
            hostname: d.hostname,
            dns_name: d.dns_name,
            ip: d.ip,
            node_id: d.node_id,
            login_name: d.login_name,
            protocol_version: d.protocol_version,
        })
    } else if d.state@ == "error"@ {
        e is Error && e->Error_code@ == "STATUS_ERROR"@ && e->Error_message == d.error
    } else {
        e == (SidecarInternalEvent::StateChange { state: d.state })
    }
}

/// What a report of a kind with some data means. Data that do not belong to
/// the kind mean nothing.
pub open spec fn report_means(
    kind: EventKind,
    payload: EventPayload,
    r: Option<SidecarInternalEvent>,
) -> bool {
    match (kind, payload) {
        (EventKind::Status, EventPayload::Status(d)) => r is Some && status_means(d, r->0),
        (EventKind::Stopped, _) => r == Some(SidecarInternalEvent::Stopped),
        (EventKind::AuthRequired, EventPayload::AuthRequired { auth_url }) => r == Some(
            SidecarInternalEvent::AuthRequired { auth_url },
        ),
        (EventKind::NeedsApproval, _) => r == Some(SidecarInternalEvent::NeedsApproval),
        (EventKind::StateChange, EventPayload::StateChange { state }) => r == Some(
            SidecarInternalEvent::StateChange { state },
        ),
        (EventKind::KeyExpiring, EventPayload::KeyExpiring { expires_at }) => r == Some(
            SidecarInternalEvent::KeyExpiring { expires_at },
        ),
        (EventKind::HealthWarning, EventPayload::HealthWarning { warnings }) => r == Some(
            SidecarInternalEvent::HealthWarning { warnings },
        ),
        (EventKind::Peers, EventPayload::Peers(peers)) => r == Some(
            SidecarInternalEvent::PeersReceived(peers),
        ),
        (EventKind::PeerChanged, EventPayload::PeerChanged(d)) => r == Some(
            SidecarInternalEvent::PeerChanged(d),
        ),
        (EventKind::DialResult, EventPayload::DialResult { success, error }) => r == Some(
            if success {
                SidecarInternalEvent::DialSucceeded
            } else {
                SidecarInternalEvent::DialFailed { error }
            },
        ),
        (EventKind::Listening, EventPayload::Listening { port }) => r == Some(
            SidecarInternalEvent::Listening { port },
        ),
        (EventKind::Unlistened, EventPayload::Unlistened { port }) => r == Some(
            SidecarInternalEvent::Unlistened { port },
        ),
        (EventKind::ListeningPacket, EventPayload::ListeningPacket { port, local_port }) => r
            == Some(SidecarInternalEvent::ListeningPacket { port, local_port }),
        (EventKind::PingResult, EventPayload::PingResult(d)) => r == Some(
            SidecarInternalEvent::PingResult(d),
        ),
        (EventKind::WhoisResult, EventPayload::WhoisResult(d)) => r == Some(
            SidecarInternalEvent::WhoisResult(d),
        ),
        (EventKind::Error, EventPayload::Error { code, message }) => r == Some(
            SidecarInternalEvent::Error { code, message },
        ),
        (EventKind::ProxyAdded, EventPayload::ProxyAdded { id, listen_port, url }) => r == Some(
            SidecarInternalEvent::ProxyAdded { id, listen_port, url },
        ),
        (EventKind::ProxyRemoved, EventPayload::ProxyRemoved { id }) => r == Some(
            SidecarInternalEvent::ProxyRemoved { id },
        ),
        (EventKind::ProxyList, EventPayload::ProxyList(proxies)) => r == Some(
            SidecarInternalEvent::ProxyList { proxies },
        ),
        (EventKind::ProxyError, EventPayload::ProxyError { id, code, message }) => r == Some(
            SidecarInternalEvent::ProxyError { id, code, message },
        ),
        _ => r is None,
    }
}

fn map_status(data: StatusEventData) -> (r: SidecarInternalEvent)
    ensures
        status_means(data, r),
{
    if same_text(data.state.as_str(), "running") {
        SidecarInternalEvent::Started {
            hostname: data.hostname,
            dns_name: data.dns_name,
            ip: data.ip,
            node_id: data.node_id,
            login_name: data.login_name,
            protocol_version: data.protocol_version,
        }
    } else if same_text(data.state.as_str(), "error") {
        SidecarInternalEvent::Error { code: owned("STATUS_ERROR"), message: data.error }
    } else {
        SidecarInternalEvent::StateChange { state: data.state }
    }
}

/// What the report `name` with some data means.
pub fn map_event(name: &str, payload: EventPayload) -> (r: Option<SidecarInternalEvent>)
    ensures
        report_means(kind_of(name@), payload, r),
{
    match (event_kind(name), payload) {
        (EventKind::Status, EventPayload::Status(d)) => Some(map_status(d)),
        (EventKind::Stopped, _) => Some(SidecarInternalEvent::Stopped),
        (EventKind::AuthRequired, EventPayload::AuthRequired { auth_url }) => Some(
            SidecarInternalEvent::AuthRequired { auth_url },
        ),
        (EventKind::NeedsApproval, _) => Some(SidecarInternalEvent::NeedsApproval),
        (EventKind::StateChange, EventPayload::StateChange { state }) => Some(
            SidecarInternalEvent::StateChange { state },
        ),
        (EventKind::KeyExpiring, EventPayload::KeyExpiring { expires_at }) => Some(
            SidecarInternalEvent::KeyExpiring { expires_at },
        ),
        (EventKind::HealthWarning, EventPayload::HealthWarning { warnings }) => Some(
            SidecarInternalEvent::HealthWarning { warnings },
        ),
        (EventKind::Peers, EventPayload::Peers(peers)) => Some(
            SidecarInternalEvent::PeersReceived(peers),
        ),
        (EventKind::PeerChanged, EventPayload::PeerChanged(d)) => Some(
            SidecarInternalEvent::PeerChanged(d),
        ),
        (EventKind::DialResult, EventPayload::DialResult { success, error }) => Some(
            if success {
                SidecarInternalEvent::DialSucceeded
            } else {
                SidecarInternalEvent::DialFailed { error }
            },
        ),
        (EventKind::Listening, EventPayload::Listening { port }) => Some(
            SidecarInternalEvent::Listening { port },
        ),
        (EventKind::Unlistened, EventPayload::Unlistened { port }) => Some(
            SidecarInternalEvent::Unlistened { port },
        ),
        (EventKind::ListeningPacket, EventPayload::ListeningPacket { port, local_port }) => Some(
            SidecarInternalEvent::ListeningPacket { port, local_port },
        ),
        (EventKind::PingResult, EventPayload::PingResult(d)) => Some(
            SidecarInternalEvent::PingResult(d),
        ),
        (EventKind::WhoisResult, EventPayload::WhoisResult(d)) => Some(
            SidecarInternalEvent::WhoisResult(d),
        ),
        (EventKind::Error, EventPayload::Error { code, message }) => Some(
            SidecarInternalEvent::Error { code, message },
        ),
        (EventKind::ProxyAdded, EventPayload::ProxyAdded { id, listen_port, url }) => Some(
            SidecarInternalEvent::ProxyAdded { id, listen_port, url },
        ),
        (EventKind::ProxyRemoved, EventPayload::ProxyRemoved { id }) => Some(
            SidecarInternalEvent::ProxyRemoved { id },
        ),
        (EventKind::ProxyList, EventPayload::ProxyList(proxies)) => Some(
            SidecarInternalEvent::ProxyList { proxies },
        ),
        (EventKind::ProxyError, EventPayload::ProxyError { id, code, message }) => Some(
            SidecarInternalEvent::ProxyError { id, code, message },
        ),
        _ => None,
    }
}

// ---------------------------------------------------------------------------
// Replies
// ---------------------------------------------------------------------------

/// The requests that wait for a reply: request id and the number of the
/// waiter.
pub struct PendingReplies {
    slots: TextMap<u64>,
}

impl View for PendingReplies {
    type V = Map<Seq<char>, u64>;

    closed spec fn view(&self) -> Map<Seq<char>, u64> {
        self.slots@
    }
}

impl PendingReplies {
    pub fn new() -> (r: Self)
        ensures
            r@ == Map::<Seq<char>, u64>::empty(),
    {
        PendingReplies { slots: TextMap::new() }
    }

    /// A request waits for its reply. This comes before the request is sent.
    pub fn register_reply(&mut self, request_id: &str, waiter: u64)
        ensures
            final(self)@ == old(self)@.insert(request_id@, waiter),
    {
        self.slots.insert(owned(request_id), waiter);
    }

    /// The request does not wait any more.
    pub fn unregister(&mut self, request_id: &str)
        ensures
            final(self)@ == old(self)@.remove(request_id@),
    {
        let _waiter: Option<u64> = self.slots.remove(request_id);
    }

    /// The waiter that a report with this request id goes to, which waits no
    /// more. An empty request id is none.
    pub fn dispatch_event(&mut self, request_id: Option<&str>) -> (r: Option<u64>)
        ensures
            match request_id {
                Some(id) => if id@.len() > 0 && old(self)@.dom().contains(id@) {
                    r == Some(old(self)@[id@]) && final(self)@ == old(self)@.remove(id@)
                } else {
                    r is None && final(self)@ == old(self)@
                },
                None => r is None && final(self)@ == old(self)@,
            },
    {
        match request_id {
            Some(id) => {
                if id.is_empty() {
                    return None;
                }
                let ghost before = self@;
                let r: Option<u64> = self.slots.remove(id);
                proof {
                    if !before.dom().contains(id@) {
                        assert(before.remove(id@) =~= before);
                    }
                }
                r
            },
            None => None,
        }
    }
}

/// A reply reaches its waiter, and once only.
pub proof fn law_reply_is_routed_once(slots: Map<Seq<char>, u64>, id: Seq<char>, waiter: u64)
    ensures
        slots.insert(id, waiter).dom().contains(id),
        slots.insert(id, waiter)[id] == waiter,
        !slots.insert(id, waiter).remove(id).dom().contains(id),
{
}

} // verus!
