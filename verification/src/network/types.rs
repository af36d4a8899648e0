//! Values that cross the boundary between the network and what stands on it.
use vstd::prelude::*;

use crate::session::error::{duration_debug, duration_text};
use crate::text::{copy_opt, copy_texts, join2, opt_text, owned, texts};

verus! {

/// A peer as the network reports it.
#[derive(Debug)]
pub struct NetworkPeer {
    /// Stable node id.
    pub id: String,
    pub hostname: String,
    /// Address in its canonical text form.
    pub ip: String,
    pub online: bool,
    /// Direct endpoint, if the path is direct.
    pub cur_addr: Option<String>,
    /// Relay name, if the path is relayed.
    pub relay: Option<String>,
    pub os: Option<String>,
    pub last_seen: Option<String>,
    pub key_expiry: Option<String>,
    pub dns_name: Option<String>,
    /// Login of the peer's owner; absent when the network cannot state it.
    pub login_name: Option<String>,
}

/// The texts of a [`NetworkPeer`].
pub struct NetworkPeerModel {
    pub id: Seq<char>,
    pub hostname: Seq<char>,
    pub ip: Seq<char>,
    pub online: bool,
    pub cur_addr: Option<Seq<char>>,
    pub relay: Option<Seq<char>>,
    pub os: Option<Seq<char>>,
    pub last_seen: Option<Seq<char>>,
    pub key_expiry: Option<Seq<char>>,
    pub dns_name: Option<Seq<char>>,
    pub login_name: Option<Seq<char>>,
}

impl View for NetworkPeer {
    type V = NetworkPeerModel;

    open spec fn view(&self) -> NetworkPeerModel {
        NetworkPeerModel {
            id: self.id@,
            hostname: self.hostname@,
            ip: self.ip@,
            online: self.online,
            cur_addr: opt_text(self.cur_addr),
            relay: opt_text(self.relay),
            os: opt_text(self.os),
            last_seen: opt_text(self.last_seen),
            key_expiry: opt_text(self.key_expiry),
            dns_name: opt_text(self.dns_name),
            login_name: opt_text(self.login_name),
        }
    }
}

impl Clone for NetworkPeer {
    fn clone(&self) -> (r: Self)
        ensures
            r == *self,
    {
        NetworkPeer {
            id: self.id.clone(),
            hostname: self.hostname.clone(),
            ip: self.ip.clone(),
            online: self.online,
            cur_addr: copy_opt(&self.cur_addr),
            relay: copy_opt(&self.relay),
            os: copy_opt(&self.os),
            last_seen: copy_opt(&self.last_seen),
            key_expiry: copy_opt(&self.key_expiry),
            dns_name: copy_opt(&self.dns_name),
            login_name: copy_opt(&self.login_name),
        }
    }
}

/// What the network reports about its peers.
#[derive(Debug)]
pub enum NetworkPeerEvent {
    Joined(NetworkPeer),
    /// The node id of a peer that left.
    Left(String),
    Updated(NetworkPeer),
    /// The user has to open `url` to log in.
    AuthRequired { url: String },
}

impl Clone for NetworkPeerEvent {
    fn clone(&self) -> (r: Self)
        ensures
            r == *self,
    {
        match self {
            NetworkPeerEvent::Joined(p) => NetworkPeerEvent::Joined(p.clone()),
            NetworkPeerEvent::Left(id) => NetworkPeerEvent::Left(id.clone()),
            NetworkPeerEvent::Updated(p) => NetworkPeerEvent::Updated(p.clone()),
            NetworkPeerEvent::AuthRequired { url } => NetworkPeerEvent::AuthRequired {
                url: url.clone(),
            },
        }
    }
}

/// The texts of a [`NetworkPeerEvent`].
pub enum NetworkEventModel {
    Joined(NetworkPeerModel),
    Left(Seq<char>),
    Updated(NetworkPeerModel),
    AuthRequired(Seq<char>),
}

impl View for NetworkPeerEvent {
    type V = NetworkEventModel;

    open spec fn view(&self) -> NetworkEventModel {
        match self {
            NetworkPeerEvent::Joined(p) => NetworkEventModel::Joined(p@),
            NetworkPeerEvent::Left(id) => NetworkEventModel::Left(id@),
            NetworkPeerEvent::Updated(p) => NetworkEventModel::Updated(p@),
            NetworkPeerEvent::AuthRequired { url } => NetworkEventModel::AuthRequired(url@),
        }
    }
}

/// Where a peer is dialed.
#[derive(Debug)]
pub struct PeerAddr {
    pub ip: Option<String>,
    pub hostname: String,
    pub dns_name: Option<String>,
}

/// The texts of a [`PeerAddr`].
pub struct AddrModel {
    pub ip: Option<Seq<char>>,
    pub hostname: Seq<char>,
    pub dns_name: Option<Seq<char>>,
}

impl View for PeerAddr {
    type V = AddrModel;

    open spec fn view(&self) -> AddrModel {
        AddrModel {
            ip: opt_text(self.ip),
            hostname: self.hostname@,
            dns_name: opt_text(self.dns_name),
        }
    }
}

impl Clone for PeerAddr {
    fn clone(&self) -> (r: Self)
        ensures
            r == *self,
    {
        PeerAddr {
            ip: copy_opt(&self.ip),
            hostname: self.hostname.clone(),
            dns_name: copy_opt(&self.dns_name),
        }
    }
}

impl Default for PeerAddr {
    fn default() -> (r: Self)
        ensures
            r@ == (AddrModel { ip: None, hostname: Seq::empty(), dns_name: None }),
    {
        PeerAddr { ip: None, hostname: String::new(), dns_name: None }
    }
}

/// Who the local node is.
#[derive(Debug)]
pub struct NodeIdentity {
    pub app_id: String,
    pub device_id: String,
    pub device_name: String,
    pub tailscale_hostname: String,
    /// Empty until the network has told.
    pub tailscale_id: String,
    pub dns_name: Option<String>,
    /// Address in its canonical text form.
    pub ip: Option<String>,
    /// Login of the node's owner, once the network has told.
    pub login_name: Option<String>,
}

/// The texts of a [`NodeIdentity`].
pub struct NodeModel {
    pub app_id: Seq<char>,
    pub device_id: Seq<char>,
    pub device_name: Seq<char>,
    pub tailscale_hostname: Seq<char>,
    pub tailscale_id: Seq<char>,
    pub dns_name: Option<Seq<char>>,
    pub ip: Option<Seq<char>>,
    pub login_name: Option<Seq<char>>,
}

impl View for NodeIdentity {
    type V = NodeModel;

    open spec fn view(&self) -> NodeModel {
        NodeModel {
            app_id: self.app_id@,
            device_id: self.device_id@,
            device_name: self.device_name@,
            tailscale_hostname: self.tailscale_hostname@,
            tailscale_id: self.tailscale_id@,
            dns_name: opt_text(self.dns_name),
            ip: opt_text(self.ip),
            login_name: opt_text(self.login_name),
        }
    }
}

impl Clone for NodeIdentity {
    fn clone(&self) -> (r: Self)
        ensures
            r == *self,
    {
        NodeIdentity {
            app_id: self.app_id.clone(),
            device_id: self.device_id.clone(),
            device_name: self.device_name.clone(),
            tailscale_hostname: self.tailscale_hostname.clone(),
            tailscale_id: self.tailscale_id.clone(),
            dns_name: copy_opt(&self.dns_name),
            ip: copy_opt(&self.ip),
            login_name: copy_opt(&self.login_name),
        }
    }
}

/// Options of a dial.
#[derive(Debug, Clone, Copy)]
pub struct DialOpts {
    /// Forces TLS on or off; `None` leaves it off.
    pub tls: Option<bool>,
}

impl Default for DialOpts {
    fn default() -> (r: Self)
        ensures
            r.tls is None,
    {
        DialOpts { tls: None }
    }
}

/// Options of a listener.
#[derive(Debug, Clone, Copy)]
pub struct ListenOpts {
    /// Terminate TLS with the network's certificates.
    pub tls: bool,
}

impl Default for ListenOpts {
    fn default() -> (r: Self)
        ensures
            !r.tls,
    {
        ListenOpts { tls: false }
    }
}

/// What a ping found.
#[derive(Debug)]
pub struct PingResult {
    /// Round trip in milliseconds, as the bits of a double.
    pub latency_ms_bits: u64,
    /// "direct", "relay:..." or "unknown".
    pub connection: String,
    pub peer_addr: Option<String>,
}

/// How the network is.
#[derive(Debug)]
pub struct HealthInfo {
    pub state: String,
    pub key_expiry: Option<String>,
    pub warnings: Vec<String>,
    pub healthy: bool,
}

/// The texts of a [`HealthInfo`].
pub struct HealthModel {
    pub state: Seq<char>,
    pub key_expiry: Option<Seq<char>>,
    pub warnings: Seq<Seq<char>>,
    pub healthy: bool,
}

impl View for HealthInfo {
    type V = HealthModel;

    open spec fn view(&self) -> HealthModel {
        HealthModel {
            state: self.state@,
            key_expiry: opt_text(self.key_expiry),
            warnings: texts(self.warnings@),
            healthy: self.healthy,
        }
    }
}

impl Clone for HealthInfo {
    fn clone(&self) -> (r: Self)
        ensures
            r@ == self@,
    {
        HealthInfo {
            state: self.state.clone(),
            key_expiry: copy_opt(&self.key_expiry),
            warnings: copy_texts(&self.warnings),
            healthy: self.healthy,
        }
    }
}

/// What the tailnet says of the owner of a connection.
#[derive(Debug, Clone)]
pub struct TailscalePeerIdentity {
    pub dns_name: Option<String>,
    pub login_name: Option<String>,
    pub display_name: Option<String>,
    pub profile_pic_url: Option<String>,
    pub node_id: Option<String>,
}

/// A present but empty field says as little as an absent one.
pub open spec fn nonempty(o: Option<Seq<char>>) -> Option<Seq<char>> {
    match o {
        Some(s) => if s.len() == 0 {
            None
        } else {
            Some(s)
        },
        None => None,
    }
}

/// The texts of a [`TailscalePeerIdentity`].
pub struct OwnerModel {
    pub dns_name: Option<Seq<char>>,
    pub login_name: Option<Seq<char>>,
    pub display_name: Option<Seq<char>>,
    pub profile_pic_url: Option<Seq<char>>,
    pub node_id: Option<Seq<char>>,
}

impl OwnerModel {
    /// Every empty field absent.
    pub open spec fn normal(self) -> OwnerModel {
        OwnerModel {
            dns_name: nonempty(self.dns_name),
            login_name: nonempty(self.login_name),
            display_name: nonempty(self.display_name),
            profile_pic_url: nonempty(self.profile_pic_url),
            node_id: nonempty(self.node_id),
        }
    }

    /// No field says anything.
    pub open spec fn blank(self) -> bool {
        self.dns_name is None && self.login_name is None && self.display_name is None
            && self.profile_pic_url is None && self.node_id is None
    }
}

impl View for TailscalePeerIdentity {
    type V = OwnerModel;

    open spec fn view(&self) -> OwnerModel {
        OwnerModel {
            dns_name: opt_text(self.dns_name),
            login_name: opt_text(self.login_name),
            display_name: opt_text(self.display_name),
            profile_pic_url: opt_text(self.profile_pic_url),
            node_id: opt_text(self.node_id),
        }
    }
}

/// The field without an empty text.
pub fn drop_empty(field: Option<String>) -> (r: Option<String>)
    ensures
        opt_text(r) == nonempty(opt_text(field)),
{
    match field {
        Some(s) => if s.as_str().is_empty() {
            None
        } else {
            Some(s)
        },
        None => None,
    }
}

impl TailscalePeerIdentity {
    /// Makes every present but empty field absent.
    pub fn normalized(self) -> (r: Self)
        ensures
            r@ == self@.normal(),
    {
        TailscalePeerIdentity {
            dns_name: drop_empty(self.dns_name),
            login_name: drop_empty(self.login_name),
            display_name: drop_empty(self.display_name),
            profile_pic_url: drop_empty(self.profile_pic_url),
            node_id: drop_empty(self.node_id),
        }
    }

    /// Whether no field says anything.
    pub fn is_empty(&self) -> (r: bool)
        ensures
            r == self@.blank(),
    {
        self.dns_name.is_none() && self.login_name.is_none() && self.display_name.is_none()
            && self.profile_pic_url.is_none() && self.node_id.is_none()
    }
}

/// Normalizing twice is normalizing once, and leaves no empty field.
pub proof fn law_normalized_is_idempotent(o: OwnerModel)
    ensures
        o.normal().normal() == o.normal(),
        o.normal().dns_name matches Some(d) ==> d.len() > 0,
        o.normal().login_name matches Some(l) ==> l.len() > 0,
        o.normal().display_name matches Some(d) ==> d.len() > 0,
        o.normal().profile_pic_url matches Some(u) ==> u.len() > 0,
        o.normal().node_id matches Some(n) ==> n.len() > 0,
{
}

// ---------------------------------------------------------------------------
// Reverse proxies
// ---------------------------------------------------------------------------

/// What a reverse proxy is to do.
#[derive(Debug)]
pub struct ProxyAddParams {
    pub id: String,
    pub name: String,
    pub listen_port: u16,
    pub target_host: String,
    pub target_port: u16,
    pub target_scheme: String,
    /// Terminate TLS on the listener.
    pub tls: bool,
    pub allow_non_loopback: bool,
    /// Login globs; empty admits the whole tailnet.
    pub allow: Vec<String>,
    /// Routes by path prefix; empty for a single target.
    pub routes: Vec<ProxyRoute>,
}

/// One route of a reverse proxy.
#[derive(Debug, Clone)]
pub struct ProxyRoute {
    pub prefix: String,
    pub target_url: Option<String>,
    pub dir: Option<String>,
    pub fallback: Option<String>,
    pub strip_prefix: bool,
    pub allow: Vec<String>,
}

/// A proxy failed after it was started.
#[derive(Debug, Clone)]
pub struct ProxyRuntimeError {
    pub id: String,
    pub code: String,
    pub message: String,
}

/// A proxy was started.
#[derive(Debug)]
pub struct ProxyAddResult {
    pub id: String,
    pub listen_port: u16,
    pub url: String,
}

/// A running proxy.
#[derive(Debug)]
pub struct ProxyListEntry {
    pub id: String,
    pub name: String,
    pub listen_port: u16,
    pub target_host: String,
    pub target_port: u16,
    pub target_scheme: String,
    pub url: String,
}

// ---------------------------------------------------------------------------
// Errors
// ---------------------------------------------------------------------------

/// Errors of network operations.
#[derive(Debug)]
pub enum NetworkError {
    NotRunning,
    AlreadyRunning,
    StartFailed(String),
    StopFailed(String),
    AuthRequired { url: String },
    DialFailed(String),
    /// How long the dial was waited for, in nanoseconds.
    DialTimeout(u64),
    ListenFailed(String),
    PingFailed(String),
    SidecarError(String),
    BridgeError(String),
    Io(String),
    Serialize(String),
    Internal(String),
    Unsupported(String),
    ProxyError(String),
}

/// The texts of a [`NetworkError`].
pub enum NetErrorModel {
    NotRunning,
    AlreadyRunning,
    StartFailed(Seq<char>),
    StopFailed(Seq<char>),
    AuthRequired(Seq<char>),
    DialFailed(Seq<char>),
    DialTimeout(u64),
    ListenFailed(Seq<char>),
    PingFailed(Seq<char>),
    SidecarError(Seq<char>),
    BridgeError(Seq<char>),
    Io(Seq<char>),
    Serialize(Seq<char>),
    Internal(Seq<char>),
    Unsupported(Seq<char>),
    ProxyError(Seq<char>),
}

impl View for NetworkError {
    type V = NetErrorModel;

    open spec fn view(&self) -> NetErrorModel {
        match self {
            NetworkError::NotRunning => NetErrorModel::NotRunning,
            NetworkError::AlreadyRunning => NetErrorModel::AlreadyRunning,
            NetworkError::StartFailed(s) => NetErrorModel::StartFailed(s@),
            NetworkError::StopFailed(s) => NetErrorModel::StopFailed(s@),
            NetworkError::AuthRequired { url } => NetErrorModel::AuthRequired(url@),
            NetworkError::DialFailed(s) => NetErrorModel::DialFailed(s@),
            NetworkError::DialTimeout(n) => NetErrorModel::DialTimeout(*n),
            NetworkError::ListenFailed(s) => NetErrorModel::ListenFailed(s@),
            NetworkError::PingFailed(s) => NetErrorModel::PingFailed(s@),
            NetworkError::SidecarError(s) => NetErrorModel::SidecarError(s@),
            NetworkError::BridgeError(s) => NetErrorModel::BridgeError(s@),
            NetworkError::Io(s) => NetErrorModel::Io(s@),
            NetworkError::Serialize(s) => NetErrorModel::Serialize(s@),
            NetworkError::Internal(s) => NetErrorModel::Internal(s@),
            NetworkError::Unsupported(s) => NetErrorModel::Unsupported(s@),
            NetworkError::ProxyError(s) => NetErrorModel::ProxyError(s@),
        }
    }
}

impl NetErrorModel {
    /// The message shown to a user.
    pub open spec fn text(self) -> Seq<char> {
        match self {
            NetErrorModel::NotRunning => "network provider not running"@,
            NetErrorModel::AlreadyRunning => "network provider already running"@,
            NetErrorModel::StartFailed(s) => "start failed: "@ + s,
            NetErrorModel::StopFailed(s) => "stop failed: "@ + s,
            NetErrorModel::AuthRequired(s) => "authentication required: "@ + s,
            NetErrorModel::DialFailed(s) => "dial failed: "@ + s,
            NetErrorModel::DialTimeout(n) => "dial timed out after "@ + duration_debug(n),
            NetErrorModel::ListenFailed(s) => "listen failed: "@ + s,
            NetErrorModel::PingFailed(s) => "ping failed: "@ + s,
            NetErrorModel::SidecarError(s) => "sidecar error: "@ + s,
            NetErrorModel::BridgeError(s) => "bridge error: "@ + s,
            NetErrorModel::Io(s) => "io error: "@ + s,
            NetErrorModel::Serialize(s) => "serialization error: "@ + s,
            NetErrorModel::Internal(s) => "internal error: "@ + s,
            NetErrorModel::Unsupported(s) => "unsupported: "@ + s,
            NetErrorModel::ProxyError(s) => "proxy error: "@ + s,
        }
    }
}

impl NetworkError {
    /// The message shown to a user.
    pub fn message(&self) -> (r: String)
        ensures
            r@ == self@.text(),
    {
        match self {
            NetworkError::NotRunning => owned("network provider not running"),
            NetworkError::AlreadyRunning => owned("network provider already running"),
            NetworkError::StartFailed(s) => join2("start failed: ", s.as_str()),
            NetworkError::StopFailed(s) => join2("stop failed: ", s.as_str()),
            NetworkError::AuthRequired { url } => join2("authentication required: ", url.as_str()),
            NetworkError::DialFailed(s) => join2("dial failed: ", s.as_str()),
            NetworkError::DialTimeout(n) => {
                let d: String = duration_text(*n);
                join2("dial timed out after ", d.as_str())
            },
            NetworkError::ListenFailed(s) => join2("listen failed: ", s.as_str()),
            NetworkError::PingFailed(s) => join2("ping failed: ", s.as_str()),
            NetworkError::SidecarError(s) => join2("sidecar error: ", s.as_str()),
            NetworkError::BridgeError(s) => join2("bridge error: ", s.as_str()),
            NetworkError::Io(s) => join2("io error: ", s.as_str()),
            NetworkError::Serialize(s) => join2("serialization error: ", s.as_str()),
            NetworkError::Internal(s) => join2("internal error: ", s.as_str()),
            NetworkError::Unsupported(s) => join2("unsupported: ", s.as_str()),
            NetworkError::ProxyError(s) => join2("proxy error: ", s.as_str()),
        }
    }
}

} // verus!
