//! Commands to the sidecar and what it reports.
use vstd::prelude::*;

use crate::network::tailscale::debug_text::{
    opt_bool_text, opt_list_text, opt_number_text, opt_texts, quoted, quoted_text, redacted,
    secret_text, show_opt_bool, show_opt_list, show_opt_number, show_secret, struct_text,
    FieldModel, StructText,
};
use crate::network::types::{ProxyRoute, TailscalePeerIdentity};
use crate::text::{decimal, decimal_text, same_text};

verus! {

// ---------------------------------------------------------------------------
// Commands
// ---------------------------------------------------------------------------

/// What the sidecar needs to start.
pub struct StartCommandData {
    pub hostname: String,
    pub state_dir: String,
    pub auth_key: Option<String>,
    pub bridge_port: u16,
    pub session_token: String,
    pub ephemeral: Option<bool>,
    pub tags: Option<Vec<String>>,
    pub idle_timeout_secs: Option<u64>,
}

/// What the sidecar is asked for a reverse proxy.
#[derive(Debug)]
pub struct ProxyAddCommandData {
    pub id: String,
    pub name: String,
    pub listen_port: u16,
    pub target_host: String,
    pub target_port: u16,
    pub target_scheme: String,
    pub tls: bool,
    pub allow_non_loopback: bool,
    pub allow: Vec<String>,
    pub routes: Vec<ProxyRoute>,
    pub request_id: Option<String>,
}

/// A command to the sidecar. A request id, where there is one, comes back on
/// the reply.
#[allow(inconsistent_fields)]
pub enum SidecarCommand {
    Start(StartCommandData),
    Stop,
    GetPeers,
    Dial { request_id: String, target: String, port: u16, tls: Option<bool> },
    Listen { port: u16, tls: Option<bool>, request_id: Option<String> },
    Unlisten { port: u16 },
    Ping { target: String, ping_type: Option<String>, request_id: Option<String> },
    Whois { addr: String, request_id: Option<String> },
    WatchPeers { include_all: Option<bool> },
    ListenPacket { port: u16, request_id: Option<String> },
    ProxyAdd(ProxyAddCommandData),
    ProxyRemove { id: String, request_id: Option<String> },
    ProxyList { request_id: Option<String> },
}

/// The name of a command on the wire.
pub open spec fn command_word(c: SidecarCommand) -> Seq<char> {
    match c {
        SidecarCommand::Start(_) => "tsnet:start"@,
        SidecarCommand::Stop => "tsnet:stop"@,
        SidecarCommand::GetPeers => "tsnet:getPeers"@,
        SidecarCommand::Dial { .. } => "bridge:dial"@,
        SidecarCommand::Listen { .. } => "tsnet:listen"@,
        SidecarCommand::Unlisten { .. } => "tsnet:unlisten"@,
        SidecarCommand::Ping { .. } => "tsnet:ping"@,
        SidecarCommand::Whois { .. } => "tsnet:whois"@,
        SidecarCommand::WatchPeers { .. } => "tsnet:watchPeers"@,
        SidecarCommand::ListenPacket { .. } => "tsnet:listenPacket"@,
        SidecarCommand::ProxyAdd(_) => "proxy:add"@,
        SidecarCommand::ProxyRemove { .. } => "proxy:remove"@,
        SidecarCommand::ProxyList { .. } => "proxy:list"@,
    }
}

/// Whether a command carries data. A list of proxies without a request id is
/// asked for with none.
pub open spec fn carries_data(c: SidecarCommand) -> bool {
    match c {
        SidecarCommand::Stop => false,
        SidecarCommand::GetPeers => false,
        SidecarCommand::ProxyList { request_id } => request_id is Some,
        _ => true,
    }
}

impl SidecarCommand {
    /// The name of the command on the wire.
    pub fn command(&self) -> (r: &'static str)
        ensures
            r@ == command_word(*self),
    {
        match self {
            SidecarCommand::Start(_) => "tsnet:start",
            SidecarCommand::Stop => "tsnet:stop",
            SidecarCommand::GetPeers => "tsnet:getPeers",
            SidecarCommand::Dial { .. } => "bridge:dial",
            SidecarCommand::Listen { .. } => "tsnet:listen",
            SidecarCommand::Unlisten { .. } => "tsnet:unlisten",
            SidecarCommand::Ping { .. } => "tsnet:ping",
            SidecarCommand::Whois { .. } => "tsnet:whois",
            SidecarCommand::WatchPeers { .. } => "tsnet:watchPeers",
            SidecarCommand::ListenPacket { .. } => "tsnet:listenPacket",
            SidecarCommand::ProxyAdd(_) => "proxy:add",
            SidecarCommand::ProxyRemove { .. } => "proxy:remove",
            SidecarCommand::ProxyList { .. } => "proxy:list",
        }
    }

    /// Whether the command carries data.
    pub fn has_data(&self) -> (r: bool)
        ensures
            r == carries_data(*self),
    {
        match self {
            SidecarCommand::Stop => false,
            SidecarCommand::GetPeers => false,
            SidecarCommand::ProxyList { request_id } => request_id.is_some(),
            _ => true,
        }
    }

    /// The command for a log: of its data only that there are some.
    pub fn debug_text(&self) -> (r: String)
        ensures
            r@ == struct_text(
                "SidecarCommand"@,
                seq![
                    FieldModel { name: "command"@, value: quoted(command_word(*self)) },
                    FieldModel { name: "data"@, value: secret_text(carries_data(*self)) },
                ],
            ),
    {
        let word: String = quoted_text(self.command());
        let shown: Option<String> = if self.has_data() {
            Some(String::new())
        } else {
            None
        };
        let data: String = show_secret(&shown);
        let t = StructText::new().field("command", word.as_str()).field("data", data.as_str());
        proof {
            assert(t.fields() =~= seq![
                FieldModel { name: "command"@, value: quoted(command_word(*self)) },
                FieldModel { name: "data"@, value: secret_text(carries_data(*self)) },
            ]);
        }
        t.finish("SidecarCommand")
    }
}

/// The fields of the start data as a log shows them.
pub open spec fn start_fields(d: StartCommandData) -> Seq<FieldModel> {
    seq![
        FieldModel { name: "hostname"@, value: quoted(d.hostname@) },
        FieldModel { name: "state_dir"@, value: quoted(d.state_dir@) },
        FieldModel { name: "auth_key"@, value: secret_text(d.auth_key is Some) },
        FieldModel { name: "bridge_port"@, value: decimal(d.bridge_port as nat) },
        FieldModel { name: "session_token"@, value: redacted() },
        FieldModel { name: "ephemeral"@, value: opt_bool_text(d.ephemeral) },
        FieldModel { name: "tags"@, value: opt_list_text(opt_texts(d.tags)) },
        FieldModel { name: "idle_timeout_secs"@, value: opt_number_text(d.idle_timeout_secs) },
    ]
}

impl StartCommandData {
    /// The data for a log, without the auth key and the session token.
    pub fn debug_text(&self) -> (r: String)
        ensures
            r@ == struct_text("StartCommandData"@, start_fields(*self)),
    {
        let hostname: String = quoted_text(self.hostname.as_str());
        let state_dir: String = quoted_text(self.state_dir.as_str());
        let auth_key: String = show_secret(&self.auth_key);
        let port: String = decimal_text(self.bridge_port as u64);
        let ephemeral: String = show_opt_bool(self.ephemeral);
        let tags: String = show_opt_list(&self.tags);
        let idle: String = show_opt_number(self.idle_timeout_secs);
        let t = StructText::new().field("hostname", hostname.as_str()).field(
            "state_dir",
            state_dir.as_str(),
        ).field("auth_key", auth_key.as_str()).field("bridge_port", port.as_str()).field(
            "session_token",
            "\"[REDACTED]\"",
        ).field("ephemeral", ephemeral.as_str()).field("tags", tags.as_str()).field(
            "idle_timeout_secs",
            idle.as_str(),
        );
        assert(t.fields() =~= start_fields(*self));
        t.finish("StartCommandData")
    }
}

// ---------------------------------------------------------------------------
// Reports
// ---------------------------------------------------------------------------

/// A peer as the sidecar reports it.
#[derive(Debug, Clone)]
pub struct SidecarPeer {
    pub id: String,
    pub hostname: String,
    pub dns_name: String,
    /// Canonical text of the first address of the row, if it is an address.
    pub ip: Option<String>,
    pub online: bool,
    pub os: String,
    pub cur_addr: String,
    pub relay: String,
    pub last_seen: Option<String>,
    pub key_expiry: Option<String>,
    pub expired: bool,
    /// Login of the owner, where the sidecar can name it.
    pub login_name: Option<String>,
}

/// The node's own status.
#[derive(Debug)]
pub struct StatusEventData {
    pub state: String,
    pub hostname: String,
    pub dns_name: String,
    /// Canonical text of the address, if there is one.
    pub ip: Option<String>,
    pub node_id: String,
    pub error: String,
    pub login_name: Option<String>,
    pub protocol_version: Option<u32>,
}

/// A change of one peer.
#[derive(Debug, Clone)]
pub struct PeerChangedEventData {
    /// "joined", "left" or "updated".
    pub change_type: String,
    pub peer: Option<SidecarPeer>,
    pub peer_id: String,
}

/// What a ping came to.
#[derive(Debug, Clone)]
pub struct PingResultEventData {
    pub target: String,
    /// Round trip in milliseconds, as the bits of a double.
    pub latency_ms_bits: u64,
    pub direct: bool,
    pub relay: String,
    pub peer_addr: String,
    pub error: String,
}

/// Who owns an address.
#[derive(Debug, Clone)]
pub struct WhoisResultEventData {
    pub addr: String,
    pub identity: Option<TailscalePeerIdentity>,
    pub error: String,
}

/// A running proxy.
#[derive(Debug, Clone)]
pub struct ProxyInfoEventData {
    pub id: String,
    pub name: String,
    pub listen_port: u16,
    pub target_host: String,
    pub target_port: u16,
    pub target_scheme: String,
    pub url: String,
}

/// The kinds of report.
#[derive(Debug, Clone, Copy, PartialEq, Eq, Structural)]
pub enum EventKind {
    Status,
    Stopped,
    AuthRequired,
    NeedsApproval,
    StateChange,
    KeyExpiring,
    HealthWarning,
    Peers,
    PeerChanged,
    DialResult,
    Listening,
    Unlistened,
    ListeningPacket,
    PingResult,
    WhoisResult,
    Error,
    ProxyAdded,
    ProxyRemoved,
    ProxyList,
    ProxyError,
    Unknown,
}

/// The kind that a name on the wire stands for.
pub open spec fn kind_of(name: Seq<char>) -> EventKind {
    if name == "tsnet:status"@ || name == "tsnet:started"@ {
        EventKind::Status
    } else if name == "tsnet:stopped"@ {
        EventKind::Stopped
    } else if name == "tsnet:authRequired"@ {
        EventKind::AuthRequired
    } else if name == "tsnet:needsApproval"@ {
        EventKind::NeedsApproval
    } else if name == "tsnet:stateChange"@ {
        EventKind::StateChange
    } else if name == "tsnet:keyExpiring"@ {
        EventKind::KeyExpiring
    } else if name == "tsnet:healthWarning"@ {
        EventKind::HealthWarning
    } else if name == "tsnet:peers"@ {
        EventKind::Peers
    } else if name == "tsnet:peerChanged"@ {
        EventKind::PeerChanged
    } else if name == "bridge:dialResult"@ {
        EventKind::DialResult
    } else if name == "tsnet:listening"@ {
        EventKind::Listening
    } else if name == "tsnet:unlistened"@ {
        EventKind::Unlistened
    } else if name == "tsnet:listeningPacket"@ {
        EventKind::ListeningPacket
    } else if name == "tsnet:pingResult"@ {
        EventKind::PingResult
    } else if name == "tsnet:whoisResult"@ {
        EventKind::WhoisResult
    } else if name == "tsnet:error"@ {
        EventKind::Error
    } else if name == "proxy:added"@ {
        EventKind::ProxyAdded
    } else if name == "proxy:removed"@ {
        EventKind::ProxyRemoved
    } else if name == "proxy:list"@ {
        EventKind::ProxyList
    } else if name == "proxy:error"@ {
        EventKind::ProxyError
    } else {
        EventKind::Unknown
    }
}

/// The kind that a name on the wire stands for.
pub fn event_kind(name: &str) -> (r: EventKind)
    ensures
        r == kind_of(name@),
{
    if same_text(name, "tsnet:status") || same_text(name, "tsnet:started") {
        EventKind::Status
    } else if same_text(name, "tsnet:stopped") {
        EventKind::Stopped
    } else if same_text(name, "tsnet:authRequired") {
        EventKind::AuthRequired
    } else if same_text(name, "tsnet:needsApproval") {
        EventKind::NeedsApproval
    } else if same_text(name, "tsnet:stateChange") {
        EventKind::StateChange
    } else if same_text(name, "tsnet:keyExpiring") {
        EventKind::KeyExpiring
    } else if same_text(name, "tsnet:healthWarning") {
        EventKind::HealthWarning
    } else if same_text(name, "tsnet:peers") {
        EventKind::Peers
    } else if same_text(name, "tsnet:peerChanged") {
        EventKind::PeerChanged
    } else if same_text(name, "bridge:dialResult") {
        EventKind::DialResult
    } else if same_text(name, "tsnet:listening") {
        EventKind::Listening
    } else if same_text(name, "tsnet:unlistened") {
        EventKind::Unlistened
    } else if same_text(name, "tsnet:listeningPacket") {
        EventKind::ListeningPacket
    } else if same_text(name, "tsnet:pingResult") {
        EventKind::PingResult
    } else if same_text(name, "tsnet:whoisResult") {
        EventKind::WhoisResult
    } else if same_text(name, "tsnet:error") {
        EventKind::Error
    } else if same_text(name, "proxy:added") {
        EventKind::ProxyAdded
    } else if same_text(name, "proxy:removed") {
        EventKind::ProxyRemoved
    } else if same_text(name, "proxy:list") {
        EventKind::ProxyList
    } else if same_text(name, "proxy:error") {
        EventKind::ProxyError
    } else {
        EventKind::Unknown
    }
}

/// The data of a report, read as its kind asks for.
#[derive(Debug)]
pub enum EventPayload {
    Status(StatusEventData),
    AuthRequired { auth_url: String },
    StateChange { state: String },
    KeyExpiring { expires_at: String },
    HealthWarning { warnings: Vec<String> },
    Peers(Vec<SidecarPeer>),
    PeerChanged(PeerChangedEventData),
    DialResult { success: bool, error: String },
    Listening { port: u16 },
    Unlistened { port: u16 },
    ListeningPacket { port: u16, local_port: u16 },
    PingResult(PingResultEventData),
    WhoisResult(WhoisResultEventData),
    Error { code: String, message: String },
    ProxyAdded { id: String, listen_port: u16, url: String },
    ProxyRemoved { id: String },
    ProxyList(Vec<ProxyInfoEventData>),
    ProxyError { id: String, code: String, message: String },
    /// The data could not be read, or the kind has none.
    Nothing,
}

/// The start data shown in a log do not depend on the secrets.
pub proof fn law_start_text_hides_secrets(a: StartCommandData, b: StartCommandData)
    requires
        a.hostname == b.hostname,
        a.state_dir == b.state_dir,
        a.bridge_port == b.bridge_port,
        a.ephemeral == b.ephemeral,
        a.tags == b.tags,
        a.idle_timeout_secs == b.idle_timeout_secs,
        a.auth_key is Some == b.auth_key is Some,
    ensures
        struct_text("StartCommandData"@, start_fields(a)) == struct_text(
            "StartCommandData"@,
            start_fields(b),
        ),
{
}

} // verus!
