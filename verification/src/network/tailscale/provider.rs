//! The provider: what it knows of itself and its peers, as a state machine
//! over the sidecar's reports.
use vstd::prelude::*;

use crate::digest::{hex, hex_text, random_bytes};
use crate::network::tailscale::debug_text::{
    list_text, opt_bool_text, opt_list_text, opt_number_text, opt_texts, quoted, quoted_text,
    secret_text, show_list, show_opt_bool, show_opt_list, show_opt_number, show_secret,
    struct_text, FieldModel, StructText,
};
use crate::network::tailscale::protocol::PeerChangedEventData;
use crate::network::tailscale::rows::{
    apply_peer_row, apply_snapshot, is_self, login_gate_supported, net_events, reports_change,
    row_applied, snapshot_peers, LOGIN_NAME_PROTOCOL_VERSION,
};
use crate::network::tailscale::sidecar::{SidecarConfig, SidecarInternalEvent};
use crate::network::types::{
    AddrModel, HealthInfo, HealthModel, NetErrorModel, NetworkError, NetworkEventModel, NetworkPeer,
    NetworkPeerEvent, NetworkPeerModel, NodeIdentity, NodeModel, PeerAddr, ProxyRuntimeError,
};
use crate::text::{
    copy_opt, copy_texts, decimal, decimal_text, join2, join3, join4, opt_text, owned, same_text,
    texts,
};
use crate::text_map::{lists_keys, TextMap};

verus! {

/// How a provider is set up.
pub struct TailscaleConfig {
    pub binary_path: String,
    pub app_id: String,
    pub device_id: String,
    pub device_name: String,
    pub hostname: String,
    pub state_dir: String,
    pub auth_key: Option<String>,
    pub ephemeral: Option<bool>,
    pub tags: Option<Vec<String>>,
    pub idle_timeout_secs: Option<u64>,
    /// Login globs; empty admits the whole tailnet.
    pub login_allow: Vec<String>,
}

/// The fields of the configuration as a log shows them.
pub open spec fn config_fields(c: TailscaleConfig) -> Seq<FieldModel> {
    seq![
        FieldModel { name: "binary_path"@, value: quoted(c.binary_path@) },
        FieldModel { name: "app_id"@, value: quoted(c.app_id@) },
        FieldModel { name: "device_id"@, value: quoted(c.device_id@) },
        FieldModel { name: "device_name"@, value: quoted(c.device_name@) },
        FieldModel { name: "hostname"@, value: quoted(c.hostname@) },
        FieldModel { name: "state_dir"@, value: quoted(c.state_dir@) },
        FieldModel { name: "auth_key"@, value: secret_text(c.auth_key is Some) },
        FieldModel { name: "ephemeral"@, value: opt_bool_text(c.ephemeral) },
        FieldModel { name: "tags"@, value: opt_list_text(opt_texts(c.tags)) },
        FieldModel { name: "idle_timeout_secs"@, value: opt_number_text(c.idle_timeout_secs) },
        FieldModel { name: "login_allow"@, value: list_text(texts(c.login_allow@)) },
    ]
}

impl TailscaleConfig {
    /// The configuration for a log, without the auth key.
    pub fn debug_text(&self) -> (r: String)
        ensures
            r@ == struct_text("TailscaleConfig"@, config_fields(*self)),
    {
        let binary_path: String = quoted_text(self.binary_path.as_str());
        let app_id: String = quoted_text(self.app_id.as_str());
        let device_id: String = quoted_text(self.device_id.as_str());
        let device_name: String = quoted_text(self.device_name.as_str());
        let hostname: String = quoted_text(self.hostname.as_str());
        let state_dir: String = quoted_text(self.state_dir.as_str());
        let auth_key: String = show_secret(&self.auth_key);
        let ephemeral: String = show_opt_bool(self.ephemeral);
        let tags: String = show_opt_list(&self.tags);
        let idle: String = show_opt_number(self.idle_timeout_secs);
        let login_allow: String = show_list(&self.login_allow);
        let t = StructText::new().field("binary_path", binary_path.as_str()).field(
            "app_id",
            app_id.as_str(),
        ).field("device_id", device_id.as_str()).field("device_name", device_name.as_str()).field(
            "hostname",
            hostname.as_str(),
        ).field("state_dir", state_dir.as_str()).field("auth_key", auth_key.as_str()).field(
            "ephemeral",
            ephemeral.as_str(),
        ).field("tags", tags.as_str()).field("idle_timeout_secs", idle.as_str()).field(
            "login_allow",
            login_allow.as_str(),
        );
        assert(t.fields() =~= config_fields(*self));
        t.finish("TailscaleConfig")
    }
}

/// The text of a configuration in a log does not depend on the auth key.
pub proof fn law_config_text_hides_auth_key(a: TailscaleConfig, b: TailscaleConfig)
    requires
        a.auth_key is Some == b.auth_key is Some,
        b == (TailscaleConfig { auth_key: b.auth_key, ..a }),
    ensures
        struct_text("TailscaleConfig"@, config_fields(a)) == struct_text(
            "TailscaleConfig"@,
            config_fields(b),
        ),
{
}

/// Where the provider is in its life.
#[derive(Debug, Clone, Copy, PartialEq, Eq, Structural)]
pub enum ProviderState {
    Stopped,
    Starting,
    Running,
    Stopping,
}

/// All that a provider knows.
pub struct ProviderModel {
    pub app_id: Seq<char>,
    pub login_allow: Seq<Seq<char>>,
    pub state: ProviderState,
    pub identity: NodeModel,
    pub local_addr: AddrModel,
    pub peers: Map<Seq<char>, NetworkPeerModel>,
    pub health: HealthModel,
    /// Node id of this node, once told.
    pub local_id: Option<Seq<char>>,
    /// Protocol that the sidecar speaks; zero while unknown.
    pub version: u32,
    /// Somebody waits for the start to end.
    pub waiting: bool,
}

/// What a report asks for, besides a change of the provider.
pub struct ReportModel {
    pub events: Seq<NetworkEventModel>,
    /// How the start ended, told once.
    pub started: Option<Result<(), NetErrorModel>>,
    /// Id, code and message of a proxy's failure.
    pub proxy_error: Option<(Seq<char>, Seq<char>, Seq<char>)>,
    /// No more reports are to come.
    pub ended: bool,
}

pub open spec fn quiet() -> ReportModel {
    ReportModel { events: seq![], started: None, proxy_error: None, ended: false }
}

pub open spec fn reported(events: Seq<NetworkEventModel>) -> ReportModel {
    ReportModel { events, ..quiet() }
}

/// A code and a message, as errors show them.
pub open spec fn coded(code: Seq<char>, message: Seq<char>) -> Seq<char> {
    "["@ + code + "] "@ + message
}

/// A number with its sign.
pub open spec fn signed_text(n: int) -> Seq<char> {
    if n < 0 {
        "-"@ + decimal((-n) as nat)
    } else {
        decimal(n as nat)
    }
}

pub open spec fn exit_text(code: Option<i32>) -> Seq<char> {
    match code {
        Some(n) => "Some("@ + signed_text(n as int) + ")"@,
        None => "None"@,
    }
}

/// The waiting start is told, if there is one.
pub open spec fn told(m: ProviderModel, r: Result<(), NetErrorModel>) -> Option<
    Result<(), NetErrorModel>,
> {
    if m.waiting {
        Some(r)
    } else {
        None
    }
}

/// The node runs. Its own login and node id stay when a later status leaves
/// them out.
pub open spec fn node_started(
    m: ProviderModel,
    hostname: Seq<char>,
    dns_name: Seq<char>,
    ip: Option<Seq<char>>,
    node_id: Seq<char>,
    login_name: Option<Seq<char>>,
    version: Option<u32>,
) -> ProviderModel {
    ProviderModel {
        version: match version {
            Some(v) => v,
            None => 0,
        },
        identity: NodeModel {
            tailscale_hostname: hostname,
            dns_name: Some(dns_name),
            ip,
            tailscale_id: if node_id.len() > 0 {
                node_id
            } else {
                m.identity.tailscale_id
            },
            login_name: if login_name is Some {
                login_name
            } else {
                m.identity.login_name
            },
            ..m.identity
        },
        local_id: if node_id.len() > 0 {
            Some(node_id)
        } else {
            m.local_id
        },
        local_addr: AddrModel { ip, hostname, dns_name: Some(dns_name) },
        health: HealthModel { state: "running"@, healthy: true, ..m.health },
        state: ProviderState::Running,
        waiting: false,
        ..m
    }
}

/// A change of one peer. Rows about this node itself are passed over.
pub open spec fn peer_changed(m: ProviderModel, change: PeerChangedEventData) -> (
    ProviderModel,
    ReportModel,
) {
    let word = change.change_type@;
    if word == "joined"@ || word == "updated"@ {
        match change.peer {
            Some(row) => if is_self(row, m.local_id) {
                (m, quiet())
            } else {
                let (peers, events) = row_applied(m.peers, row, m.app_id, m.login_allow);
                (ProviderModel { peers, ..m }, reported(events))
            },
            None => (m, quiet()),
        }
    } else if word == "left"@ && m.peers.dom().contains(change.peer_id@) {
        (
            ProviderModel { peers: m.peers.remove(change.peer_id@), ..m },
            reported(seq![NetworkEventModel::Left(change.peer_id@)]),
        )
    } else {
        (m, quiet())
    }
}

/// What a report does to a provider.
pub open spec fn processes(
    m: ProviderModel,
    e: SidecarInternalEvent,
    after: ProviderModel,
    r: ReportModel,
) -> bool {
    match e {
        SidecarInternalEvent::Started {
            hostname,
            dns_name,
            ip,
            node_id,
            login_name,
            protocol_version,
        } => after == node_started(
            m,
            hostname@,
            dns_name@,
            opt_text(ip),
            node_id@,
            opt_text(login_name),
            protocol_version,
        ) && r == (ReportModel { started: told(m, Ok(())), ..quiet() }),
        SidecarInternalEvent::AuthRequired { auth_url } => after == m && r == reported(
            seq![NetworkEventModel::AuthRequired(auth_url@)],
        ),
        SidecarInternalEvent::Stopped => after == (ProviderModel {
            state: ProviderState::Stopped,
            health: HealthModel { state: "stopped"@, healthy: false, ..m.health },
            ..m
        }) && r == (ReportModel { ended: true, ..quiet() }),
        SidecarInternalEvent::StateChange { state } => after == (ProviderModel {
            health: HealthModel { state: state@, ..m.health },
            ..m
        }) && r == quiet(),
        SidecarInternalEvent::KeyExpiring { expires_at } => after == (ProviderModel {
            health: HealthModel { key_expiry: Some(expires_at@), ..m.health },
            ..m
        }) && r == quiet(),
        SidecarInternalEvent::HealthWarning { warnings } => after == (ProviderModel {
            health: HealthModel {
                warnings: texts(warnings@),
                healthy: warnings@.len() == 0,
                ..m.health
            },
            ..m
        }) && r == quiet(),
        SidecarInternalEvent::PeersReceived(rows) => {
            let peers = snapshot_peers(m.peers, rows@, m.local_id, m.app_id, m.login_allow);
            after == (ProviderModel { peers, ..m }) && r == reported(r.events) && reports_change(
                m.peers,
                peers,
                r.events,
            )
        },
        SidecarInternalEvent::PeerChanged(change) => (after, r) == peer_changed(m, change),
        SidecarInternalEvent::Error { code, message } => after == (ProviderModel {
            waiting: false,
            ..m
        }) && r == (ReportModel {
            started: told(m, Err(NetErrorModel::SidecarError(coded(code@, message@)))),
            ..quiet()
        }),
        SidecarInternalEvent::ProcessExited { exit_code } => after == (ProviderModel {
            state: ProviderState::Stopped,
            health: HealthModel { state: "crashed"@, healthy: false, ..m.health },
            waiting: false,
            ..m
        }) && r == (ReportModel {
            started: told(
                m,
                Err(
                    NetErrorModel::SidecarError(
                        "process exited with code "@ + exit_text(exit_code),
                    ),
                ),
            ),
            ended: true,
            ..quiet()
        }),
        SidecarInternalEvent::ProxyError { id, code, message } => after == m && r == (ReportModel {
            proxy_error: Some((id@, code@, message@)),
            ..quiet()
        }),
        _ => after == m && r == quiet(),
    }
}

/// What a report asks for.
pub struct Report {
    pub events: Vec<NetworkPeerEvent>,
    pub started: Option<Result<(), NetworkError>>,
    pub proxy_error: Option<ProxyRuntimeError>,
    pub ended: bool,
}

/// The model of how a start ended.
pub open spec fn started_model(o: Option<Result<(), NetworkError>>) -> Option<
    Result<(), NetErrorModel>,
> {
    match o {
        Some(Ok(_)) => Some(Ok(())),
        Some(Err(e)) => Some(Err(e@)),
        None => None,
    }
}

impl View for Report {
    type V = ReportModel;

    open spec fn view(&self) -> ReportModel {
        ReportModel {
            events: net_events(self.events@),
            started: started_model(self.started),
            proxy_error: match self.proxy_error {
                Some(p) => Some((p.id@, p.code@, p.message@)),
                None => None,
            },
            ended: self.ended,
        }
    }
}

fn calm() -> (r: Report)
    ensures
        r@ == quiet(),
{
    let r = Report { events: Vec::new(), started: None, proxy_error: None, ended: false };
    assert(r@.events =~= seq![]);
    r
}

pub fn coded_text(code: &str, message: &str) -> (r: String)
    ensures
        r@ == coded(code@, message@),
{
    join4("[", code, "] ", message)
}

fn show_exit(code: Option<i32>) -> (r: String)
    ensures
        r@ == exit_text(code),
{
    match code {
        None => owned("None"),
        Some(n) => {
            let wide: i64 = n as i64;
            let number: String = if wide < 0 {
                let d: String = decimal_text((-wide) as u64);
                join2("-", d.as_str())
            } else {
                decimal_text(wide as u64)
            };
            join3("Some(", number.as_str(), ")")
        },
    }
}

/// The provider.
pub struct TailscaleProvider {
    app_id: String,
    login_allow: Vec<String>,
    state: ProviderState,
    identity: NodeIdentity,
    local_addr: PeerAddr,
    peers: TextMap<NetworkPeer>,
    health: HealthInfo,
    local_id: Option<String>,
    version: u32,
    waiting: bool,
}

impl View for TailscaleProvider {
    type V = ProviderModel;

    closed spec fn view(&self) -> ProviderModel {
        ProviderModel {
            app_id: self.app_id@,
            login_allow: texts(self.login_allow@),
            state: self.state,
            identity: self.identity@,
            local_addr: self.local_addr@,
            peers: self.peers@,
            health: self.health@,
            local_id: opt_text(self.local_id),
            version: self.version,
            waiting: self.waiting,
        }
    }
}

/// The state of a provider that was never started.
pub open spec fn idle_provider(c: TailscaleConfig) -> ProviderModel {
    ProviderModel {
        app_id: c.app_id@,
        login_allow: texts(c.login_allow@),
        state: ProviderState::Stopped,
        identity: NodeModel {
            app_id: c.app_id@,
            device_id: c.device_id@,
            device_name: c.device_name@,
            tailscale_hostname: c.hostname@,
            tailscale_id: Seq::empty(),
            dns_name: None,
            ip: None,
            login_name: None,
        },
        local_addr: AddrModel { ip: None, hostname: Seq::empty(), dns_name: None },
        peers: Map::empty(),
        health: HealthModel {
            state: "stopped"@,
            key_expiry: None,
            warnings: seq![],
            healthy: false,
        },
        local_id: None,
        version: 0,
        waiting: false,
    }
}

impl TailscaleProvider {
    /// A provider that is not started.
    pub fn new(config: &TailscaleConfig) -> (r: Self)
        ensures
            r@ == idle_provider(*config),
    {
        let r = TailscaleProvider {
            app_id: config.app_id.clone(),
            login_allow: copy_texts(&config.login_allow),
            state: ProviderState::Stopped,
            identity: NodeIdentity {
                app_id: config.app_id.clone(),
                device_id: config.device_id.clone(),
                device_name: config.device_name.clone(),
                tailscale_hostname: config.hostname.clone(),
                tailscale_id: String::new(),
                dns_name: None,
                ip: None,
                login_name: None,
            },
            local_addr: PeerAddr::default(),
            peers: TextMap::new(),
            health: HealthInfo {
                state: owned("stopped"),
                key_expiry: None,
                warnings: Vec::new(),
                healthy: false,
            },
            local_id: None,
            version: 0,
            waiting: false,
        };
        assert(r@.health.warnings =~= seq![]);
        r
    }

    // -----------------------------------------------------------------------
    // Life
    // -----------------------------------------------------------------------

    /// The start begins, unless the provider is not stopped.
    pub fn start(&mut self) -> (r: Result<(), NetworkError>)
        ensures
            if old(self)@.state == ProviderState::Stopped {
                r is Ok && final(self)@ == (ProviderModel {
                    state: ProviderState::Starting,
                    waiting: true,
                    ..old(self)@
                })
            } else {
                r is Err && r->Err_0@ == NetErrorModel::AlreadyRunning && final(self)@ == old(
                    self,
                )@
            },
    {
        if self.state != ProviderState::Stopped {
            return Err(NetworkError::AlreadyRunning);
        }
        self.state = ProviderState::Starting;
        self.waiting = true;
        Ok(())
    }

    /// The start ended as `result` says. A gated node whose sidecar cannot
    /// report logins is refused and stopped.
    pub fn start_ended(&mut self, result: Result<(), NetworkError>) -> (r: Result<
        (),
        NetworkError,
    >)
        ensures
            match result {
                Ok(_) => if old(self)@.login_allow.len() == 0 || old(self)@.version
                    >= LOGIN_NAME_PROTOCOL_VERSION {
                    r is Ok && final(self)@ == old(self)@
                } else {
                    r is Err && r->Err_0@ == NetErrorModel::StartFailed(
                        "login_allow requires sidecar protocol 5 (loginName on peers); this sidecar speaks "@
                            + decimal(old(self)@.version as nat),
                    ) && final(self)@ == stopped(old(self)@)
                },
                Err(e) => r is Err && r->Err_0@ == e@ && final(self)@ == (ProviderModel {
                    state: ProviderState::Stopped,
                    ..old(self)@
                }),
            },
    {
        match result {
            Ok(_) => {
                assert(texts(self.login_allow@).len() == self.login_allow@.len());
                match login_gate_supported(self.login_allow.as_slice(), self.version) {
                    Ok(_) => Ok(()),
                    Err(e) => {
                        self.stop();
                        Err(e)
                    },
                }
            },
            Err(e) => {
                self.state = ProviderState::Stopped;
                Err(e)
            },
        }
    }

    /// The provider begins to stop: nothing more can be asked of it.
    pub fn begin_stop(&mut self)
        ensures
            final(self)@ == (ProviderModel { state: ProviderState::Stopping, ..old(self)@ }),
    {
        self.state = ProviderState::Stopping;
    }

    /// The provider stopped, and knows no peers any more.
    pub fn stop(&mut self)
        ensures
            final(self)@ == stopped(old(self)@),
    {
        self.peers = TextMap::new();
        self.state = ProviderState::Stopped;
        self.health.state = owned("stopped");
        self.health.healthy = false;
    }

    /// The secret of the bridge: 32 random bytes. Which ones, and whether the
    /// system gives any, is chance; what is made of them is not.
    pub fn generate_session_token() -> (r: Result<[u8; 32], NetworkError>)
        ensures
            exists|drawn: Result<[u8; 32], String>| #[trigger] token_answer(drawn, r),
    {
        Self::token_of(random_bytes())
    }

    /// What is made of the random bytes that were drawn, or of the error in
    /// their place: the bytes as they are, or the error that names it.
    pub fn token_of(drawn: Result<[u8; 32], String>) -> (r: Result<[u8; 32], NetworkError>)
        ensures
            token_answer(drawn, r),
    {
        match drawn {
            Ok(token) => Ok(token),
            Err(why) => Err(
                NetworkError::Internal(join2("failed to generate session token: ", why.as_str())),
            ),
        }
    }

    /// How the sidecar is started: the configuration, the port of the bridge
    /// and its secret in hexadecimal.
    pub fn sidecar_config(config: &TailscaleConfig, bridge_port: u16, token: &[u8; 32]) -> (r:
        SidecarConfig)
        ensures
            r.binary_path == config.binary_path,
            r.hostname == config.hostname,
            r.state_dir == config.state_dir,
            r.auth_key == config.auth_key,
            r.bridge_port == bridge_port,
            r.session_token_hex@ == hex(token@),
            r.session_token_hex@.len() == 64,
            r.ephemeral == config.ephemeral,
            opt_texts(r.tags) == opt_texts(config.tags),
            r.idle_timeout_secs == config.idle_timeout_secs,
    {
        let bytes: &[u8] = token.as_slice();
        SidecarConfig {
            binary_path: config.binary_path.clone(),
            hostname: config.hostname.clone(),
            state_dir: config.state_dir.clone(),
            auth_key: copy_opt(&config.auth_key),
            bridge_port,
            session_token_hex: hex_text(bytes),
            ephemeral: config.ephemeral,
            tags: match &config.tags {
                Some(v) => Some(copy_texts(v)),
                None => None,
            },
            idle_timeout_secs: config.idle_timeout_secs,
        }
    }

    // -----------------------------------------------------------------------
    // Reports
    // -----------------------------------------------------------------------

    fn on_change(&mut self, change: &PeerChangedEventData) -> (r: Report)
        ensures
            (final(self)@, r@) == peer_changed(old(self)@, *change),
    {
        let mut r: Report = calm();
        let word: &str = change.change_type.as_str();
        if same_text(word, "joined") || same_text(word, "updated") {
            match &change.peer {
                Some(row) => {
                    let mine: bool = match &self.local_id {
                        Some(me) => same_text(row.id.as_str(), me.as_str()),
                        None => false,
                    };
                    if !mine {
                        r.events = apply_peer_row(
                            &mut self.peers,
                            row,
                            self.app_id.as_str(),
                            self.login_allow.as_slice(),
                        );
                    }
                },
                None => {},
            }
        } else if same_text(word, "left") {
            match self.peers.remove(change.peer_id.as_str()) {
                Some(_) => {
                    let mut events: Vec<NetworkPeerEvent> = Vec::new();
                    events.push(NetworkPeerEvent::Left(change.peer_id.clone()));
                    assert(net_events(events@) =~= seq![NetworkEventModel::Left(change.peer_id@)]);
                    r.events = events;
                },
                None => {
                    assert(old(self)@.peers.remove(change.peer_id@) =~= old(self)@.peers);
                },
            }
        }
        r
    }

    fn tell(&mut self, result: Result<(), NetworkError>) -> (r: Report)
        ensures
            r@ == (ReportModel {
                started: told(
                    old(self)@,
                    match result {
                        Ok(_) => Ok(()),
                        Err(e) => Err(e@),
                    },
                ),
                ..quiet()
            }),
            final(self)@ == (ProviderModel { waiting: false, ..old(self)@ }),
    {
        let mut r: Report = calm();
        if self.waiting {
            r.started = Some(result);
            self.waiting = false;
        }
        r
    }

    /// Handles one report of the sidecar.
    pub fn process_event(&mut self, event: SidecarInternalEvent) -> (r: Report)
        ensures
            processes(old(self)@, event, final(self)@, r@),
    {
        match event {
            SidecarInternalEvent::Started {
                hostname,
                dns_name,
                ip,
                node_id,
                login_name,
                protocol_version,
            } => {
                self.version = match protocol_version {
                    Some(v) => v,
                    None => 0,
                };
                self.identity.tailscale_hostname = hostname.clone();
                self.identity.dns_name = Some(dns_name.clone());
                self.identity.ip = copy_opt(&ip);
                if !node_id.as_str().is_empty() {
                    self.identity.tailscale_id = node_id.clone();
                    self.local_id = Some(node_id);
                }
                if login_name.is_some() {
                    self.identity.login_name = login_name;
                }
                self.local_addr = PeerAddr { ip, hostname, dns_name: Some(dns_name) };
                self.health.state = owned("running");
                self.health.healthy = true;
                self.state = ProviderState::Running;
                self.tell(Ok(()))
            },
            SidecarInternalEvent::AuthRequired { auth_url } => {
                let mut r: Report = calm();
                let mut events: Vec<NetworkPeerEvent> = Vec::new();
                events.push(NetworkPeerEvent::AuthRequired { url: auth_url });
                assert(net_events(events@) =~= seq![NetworkEventModel::AuthRequired(auth_url@)]);
                r.events = events;
                r
            },
            SidecarInternalEvent::Stopped => {
                self.state = ProviderState::Stopped;
                self.health.state = owned("stopped");
                self.health.healthy = false;
                let mut r: Report = calm();
                r.ended = true;
                r
            },
            SidecarInternalEvent::StateChange { state } => {
                self.health.state = state;
                calm()
            },
            SidecarInternalEvent::KeyExpiring { expires_at } => {
                self.health.key_expiry = Some(expires_at);
                calm()
            },
            SidecarInternalEvent::HealthWarning { warnings } => {
                self.health.healthy = warnings.len() == 0;
                self.health.warnings = warnings;
                calm()
            },
            SidecarInternalEvent::PeersReceived(rows) => {
                let mut r: Report = calm();
                r.events = apply_snapshot(
                    &mut self.peers,
                    &rows,
                    &self.local_id,
                    self.app_id.as_str(),
                    self.login_allow.as_slice(),
                );
                r
            },
            SidecarInternalEvent::PeerChanged(change) => self.on_change(&change),
            SidecarInternalEvent::Error { code, message } => {
                let text: String = coded_text(code.as_str(), message.as_str());
                self.tell(Err(NetworkError::SidecarError(text)))
            },
            SidecarInternalEvent::ProcessExited { exit_code } => {
                self.state = ProviderState::Stopped;
                self.health.state = owned("crashed");
                self.health.healthy = false;
                let code: String = show_exit(exit_code);
                let text: String = join2("process exited with code ", code.as_str());
                let mut r: Report = self.tell(Err(NetworkError::SidecarError(text)));
                r.ended = true;
                r
            },
            SidecarInternalEvent::ProxyError { id, code, message } => {
                let mut r: Report = calm();
                r.proxy_error = Some(ProxyRuntimeError { id, code, message });
                r
            },
            _ => calm(),
        }
    }

    // -----------------------------------------------------------------------
    // Queries
    // -----------------------------------------------------------------------

    pub fn local_identity(&self) -> (r: NodeIdentity)
        ensures
            r@ == self@.identity,
    {
        self.identity.clone()
    }

    pub fn local_addr(&self) -> (r: PeerAddr)
        ensures
            r@ == self@.local_addr,
    {
        self.local_addr.clone()
    }

    pub fn health(&self) -> (r: HealthInfo)
        ensures
            r@ == self@.health,
    {
        self.health.clone()
    }

    /// The protocol that the sidecar speaks; zero while unknown.
    pub fn sidecar_version(&self) -> (r: u32)
        ensures
            r == self@.version,
    {
        self.version
    }

    /// The peers, each once.
    pub fn peers(&self) -> (r: Vec<NetworkPeer>)
        ensures
            exists|order: Seq<Seq<char>>| #[trigger]
                lists_keys(order, self@.peers) && order.len() == r@.len() && forall|i: int|
                    0 <= i < r@.len() ==> (#[trigger] r@[i])@ == self@.peers[order[i]],
    {
        let n: usize = self.peers.len();
        let ghost order = self.peers.order();
        let mut out: Vec<NetworkPeer> = Vec::new();
        let mut i: usize = 0;
        while i < n
            invariant
                n == self.peers.count(),
                order == self.peers.order(),
                i <= n,
                out@.len() == i,
                forall|j: int| 0 <= j < i ==> (#[trigger] out@[j])@ == self.peers@[order[j]],
            decreases n - i,
        {
            let (_key, p) = self.peers.entry(i);
            out.push(p.clone());
            i += 1;
        }
        assert(lists_keys(order, self@.peers));
        out
    }

    /// The peer with this node id.
    pub fn peer(&self, id: &str) -> (r: Option<NetworkPeer>)
        ensures
            match r {
                Some(p) => self@.peers.dom().contains(id@) && p@ == self@.peers[id@],
                None => !self@.peers.dom().contains(id@),
            },
    {
        match self.peers.get(id) {
            Some(p) => Some(p.clone()),
            None => None,
        }
    }

    /// Refuses what needs a running provider while it does not run.
    pub fn require_running(&self) -> (r: Result<(), NetworkError>)
        ensures
            match r {
                Ok(_) => self@.state == ProviderState::Running,
                Err(e) => self@.state != ProviderState::Running && e@ == NetErrorModel::NotRunning,
            },
    {
        if self.state != ProviderState::Running {
            Err(NetworkError::NotRunning)
        } else {
            Ok(())
        }
    }
}

/// Why the end of a start was not heard.
#[derive(Debug, Clone, Copy, PartialEq, Eq, Structural)]
pub enum StartSilence {
    TimedOut,
    /// The reports ended without a word.
    Dropped,
}

/// How long the end of a start is waited for, in seconds: long enough for
/// somebody to log in by browser.
pub const AUTH_TIMEOUT_SECS: u64 = 300;

/// The error of a start whose end was not heard. The provider stays as it is.
pub fn start_unheard(why: StartSilence) -> (r: NetworkError)
    ensures
        r@ == NetErrorModel::StartFailed(
            match why {
                StartSilence::TimedOut => {
                    "timed out waiting for authentication (5 min). Subscribe to peer_events() to display auth URLs."@
                },
                StartSilence::Dropped => "start signal channel dropped"@,
            },
        ),
{
    match why {
        StartSilence::TimedOut => NetworkError::StartFailed(
            owned(
                "timed out waiting for authentication (5 min). Subscribe to peer_events() to display auth URLs.",
            ),
        ),
        StartSilence::Dropped => NetworkError::StartFailed(owned("start signal channel dropped")),
    }
}

/// A stopped provider.
pub open spec fn stopped(m: ProviderModel) -> ProviderModel {
    ProviderModel {
        peers: Map::empty(),
        state: ProviderState::Stopped,
        health: HealthModel { state: "stopped"@, healthy: false, ..m.health },
        ..m
    }
}

pub open spec fn token_failure(why: Seq<char>) -> Seq<char> {
    "failed to generate session token: "@ + why
}

/// The secret is what was drawn; where nothing was, the error says why.
pub open spec fn token_answer(
    drawn: Result<[u8; 32], String>,
    r: Result<[u8; 32], NetworkError>,
) -> bool {
    match drawn {
        Ok(token) => r == Ok::<[u8; 32], NetworkError>(token),
        Err(why) => r is Err && r->Err_0@ == NetErrorModel::Internal(token_failure(why@)),
    }
}

// ---------------------------------------------------------------------------
// Laws
// ---------------------------------------------------------------------------

/// No report makes this node its own peer, once its node id is known.
pub proof fn law_never_its_own_peer(
    m: ProviderModel,
    e: SidecarInternalEvent,
    after: ProviderModel,
    r: ReportModel,
)
    requires
        processes(m, e, after, r),
        m.local_id is Some,
        !m.peers.dom().contains(m.local_id->0),
        e is PeersReceived || e is PeerChanged,
    ensures
        !after.peers.dom().contains(m.local_id->0),
{
    match e {
        SidecarInternalEvent::PeersReceived(rows) => {
            let me = m.local_id->0;
            if after.peers.dom().contains(me) {
                crate::network::tailscale::rows::law_snapshot_admits_only_the_admissible(
                    m.peers,
                    rows@,
                    m.local_id,
                    m.app_id,
                    m.login_allow,
                    me,
                );
            }
        },
        _ => {},
    }
}

/// A start is told its end at most once.
pub proof fn law_start_is_told_once(
    m: ProviderModel,
    e: SidecarInternalEvent,
    after: ProviderModel,
    r: ReportModel,
)
    requires
        processes(m, e, after, r),
    ensures
        r.started is Some ==> m.waiting && !after.waiting,
        !m.waiting ==> r.started is None && !after.waiting,
{
}

/// A status that leaves out the node's login or id does not make it forget
/// them.
pub proof fn law_own_login_is_never_cleared(
    m: ProviderModel,
    e: SidecarInternalEvent,
    after: ProviderModel,
    r: ReportModel,
)
    requires
        processes(m, e, after, r),
        m.identity.login_name is Some,
    ensures
        after.identity.login_name is Some,
        m.identity.tailscale_id.len() > 0 ==> after.identity.tailscale_id.len() > 0,
{
}

} // verus!
