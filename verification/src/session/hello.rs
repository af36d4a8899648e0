//! The hello envelope: the first frame each side sends on a fresh link.
use vstd::prelude::*;

use crate::text::same_text;

verus! {

/// The remote's `app_id` is not ours.
pub const CLOSE_APP_MISMATCH: u16 = 4001;

/// The remote sent a malformed hello, or none in time.
pub const CLOSE_HELLO_PROTOCOL: u16 = 4002;

/// The hello claims a node id that the connection does not authenticate.
pub const CLOSE_IDENTITY_MISMATCH: u16 = 4003;

/// The caller's login is not on the accepting node's allow-list.
pub const CLOSE_LOGIN_REFUSED: u16 = 4004;

/// How long the first hello may take, in seconds.
pub const HELLO_TIMEOUT_SECS: u64 = 5;

/// Tag of a [`HelloEnvelope`] on the wire.
#[derive(Debug, Clone, Copy, PartialEq, Eq, Structural)]
pub enum HelloKind {
    Hello,
}

/// What a node says of itself in its hello.
#[derive(Debug)]
pub struct PeerIdentity {
    /// Application namespace.
    pub app_id: String,
    /// Durable id of the device.
    pub device_id: String,
    /// Device name as its owner wrote it.
    pub device_name: String,
    /// Operating system.
    pub os: String,
    /// Node id on the tailnet, the routing key of the session layer.
    pub tailscale_id: String,
}

/// The texts of a [`PeerIdentity`].
pub struct IdentityModel {
    pub app_id: Seq<char>,
    pub device_id: Seq<char>,
    pub device_name: Seq<char>,
    pub os: Seq<char>,
    pub tailscale_id: Seq<char>,
}

impl View for PeerIdentity {
    type V = IdentityModel;

    open spec fn view(&self) -> IdentityModel {
        IdentityModel {
            app_id: self.app_id@,
            device_id: self.device_id@,
            device_name: self.device_name@,
            os: self.os@,
            tailscale_id: self.tailscale_id@,
        }
    }
}

impl Clone for PeerIdentity {
    fn clone(&self) -> (r: Self)
        ensures
            r == *self,
    {
        PeerIdentity {
            app_id: self.app_id.clone(),
            device_id: self.device_id.clone(),
            device_name: self.device_name.clone(),
            os: self.os.clone(),
            tailscale_id: self.tailscale_id.clone(),
        }
    }
}

impl PeerIdentity {
    /// Whether two identities say the same.
    pub fn same(&self, other: &PeerIdentity) -> (r: bool)
        ensures
            r == (self@ == other@),
    {
        same_text(self.app_id.as_str(), other.app_id.as_str()) && same_text(
            self.device_id.as_str(),
            other.device_id.as_str(),
        ) && same_text(self.device_name.as_str(), other.device_name.as_str()) && same_text(
            self.os.as_str(),
            other.os.as_str(),
        ) && same_text(self.tailscale_id.as_str(), other.tailscale_id.as_str())
    }
}

/// The identity block that each side sends once when a link comes up.
#[derive(Debug)]
pub struct HelloEnvelope {
    pub kind: HelloKind,
    /// Schema version of the envelope.
    pub version: u32,
    pub identity: PeerIdentity,
}

impl HelloEnvelope {
    /// The version this build sends.
    pub const CURRENT_VERSION: u32 = 2;

    /// The oldest version this build accepts.
    pub const MIN_SUPPORTED_VERSION: u32 = 2;

    /// An envelope of the current version that carries `identity`.
    pub fn new(identity: PeerIdentity) -> (r: Self)
        ensures
            r.kind == HelloKind::Hello,
            r.version == HelloEnvelope::CURRENT_VERSION,
            r.identity == identity,
    {
        HelloEnvelope { kind: HelloKind::Hello, version: Self::CURRENT_VERSION, identity }
    }
}

} // verus!
