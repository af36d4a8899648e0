//! Peers as the session layer knows them, and the events it reports.
use vstd::prelude::*;

use crate::network::types::{NetworkPeer, NetworkPeerModel};
use crate::session::hello::{IdentityModel, PeerIdentity};
use crate::text::{
    all_digits, chars_of, copy_opt, decimal, decimal_text, decimal_value, join2, join3,
    lemma_decimal_reads_back, opt_text, owned, parse_digits,
};
use vstd::string::*;

verus! {

/// A peer's entry in the session registry.
#[derive(Debug)]
pub struct PeerState {
    /// Stable node id, the routing key.
    pub id: String,
    /// How often this node id has joined in this process.
    pub generation: u64,
    /// Host name on the tailnet.
    pub name: String,
    /// Address in its canonical text form.
    pub ip: String,
    pub online: bool,
    pub ws_connected: bool,
    /// "direct", "relay:..." or "unknown".
    pub connection_type: String,
    pub os: Option<String>,
    pub last_seen: Option<String>,
    /// What the peer said of itself in its hello, once it did.
    pub identity: Option<PeerIdentity>,
    /// The identity is kept but not published: another live peer owns its
    /// device id.
    pub identity_suppressed: bool,
    /// Login of the peer's owner as the network states it.
    pub login_name: Option<String>,
}

/// The texts of a [`PeerState`].
pub struct PeerModel {
    pub id: Seq<char>,
    pub generation: u64,
    pub name: Seq<char>,
    pub ip: Seq<char>,
    pub online: bool,
    pub ws_connected: bool,
    pub connection_type: Seq<char>,
    pub os: Option<Seq<char>>,
    pub last_seen: Option<Seq<char>>,
    pub identity: Option<IdentityModel>,
    pub identity_suppressed: bool,
    pub login_name: Option<Seq<char>>,
}

/// The model of an optional identity.
pub open spec fn opt_identity(o: Option<PeerIdentity>) -> Option<IdentityModel> {
    match o {
        Some(i) => Some(i@),
        None => None,
    }
}

impl View for PeerState {
    type V = PeerModel;

    open spec fn view(&self) -> PeerModel {
        PeerModel {
            id: self.id@,
            generation: self.generation,
            name: self.name@,
            ip: self.ip@,
            online: self.online,
            ws_connected: self.ws_connected,
            connection_type: self.connection_type@,
            os: opt_text(self.os),
            last_seen: opt_text(self.last_seen),
            identity: opt_identity(self.identity),
            identity_suppressed: self.identity_suppressed,
            login_name: opt_text(self.login_name),
        }
    }
}

impl PeerModel {
    /// The device id that the entry publishes.
    pub open spec fn published(self) -> Option<Seq<char>> {
        if self.identity_suppressed {
            None
        } else {
            match self.identity {
                Some(i) => Some(i.device_id),
                None => None,
            }
        }
    }

    /// The peer is online and its device id is not known yet.
    pub open spec fn lacks_identity(self) -> bool {
        self.online && self.published() is None
    }
}

/// A copy of an optional identity.
pub fn copy_identity(o: &Option<PeerIdentity>) -> (r: Option<PeerIdentity>)
    ensures
        r == *o,
{
    match o {
        Some(i) => Some(i.clone()),
        None => None,
    }
}

impl Clone for PeerState {
    fn clone(&self) -> (r: Self)
        ensures
            r == *self,
    {
        PeerState {
            id: self.id.clone(),
            generation: self.generation,
            name: self.name.clone(),
            ip: self.ip.clone(),
            online: self.online,
            ws_connected: self.ws_connected,
            connection_type: self.connection_type.clone(),
            os: copy_opt(&self.os),
            last_seen: copy_opt(&self.last_seen),
            identity: copy_identity(&self.identity),
            identity_suppressed: self.identity_suppressed,
            login_name: copy_opt(&self.login_name),
        }
    }
}

impl PeerState {
    /// The handle `{id}:{generation}` of this entry.
    pub fn peer_ref(&self) -> (r: String)
        ensures
            r@ == peer_ref_text(self.id@, self.generation as nat),
    {
        format_peer_ref(self.id.as_str(), self.generation)
    }

    /// The device id that the entry publishes, if any.
    pub fn published_device_id(&self) -> (r: Option<&str>)
        ensures
            match r {
                Some(s) => self@.published() == Some(s@),
                None => self@.published() is None,
            },
    {
        if self.identity_suppressed {
            return None;
        }
        match &self.identity {
            Some(i) => Some(i.device_id.as_str()),
            None => None,
        }
    }

    /// Whether the peer is online and its device id is not known yet.
    pub fn lacks_identity(&self) -> (r: bool)
        ensures
            r == self@.lacks_identity(),
    {
        self.online && self.published_device_id().is_none()
    }
}

// ---------------------------------------------------------------------------
// Peer refs
// ---------------------------------------------------------------------------

/// The handle of the `generation`-th stay of node `id`.
pub open spec fn peer_ref_text(id: Seq<char>, generation: nat) -> Seq<char> {
    id + seq![':'] + decimal(generation)
}

/// `s` is `{id}:{digits}` with a non-empty id, exactly one colon and at least
/// one digit, and its number fits the generation counter.
pub open spec fn is_peer_ref(s: Seq<char>, id: Seq<char>, generation: nat) -> bool {
    exists|at: int| #[trigger] splits_ref(s, at, id, generation)
}

pub open spec fn splits_ref(s: Seq<char>, at: int, id: Seq<char>, generation: nat) -> bool {
    &&& 0 < at < s.len() - 1
    &&& s[at] == ':'
    &&& id == s.take(at)
    &&& !id.contains(':')
    &&& all_digits(s.skip(at + 1))
    &&& generation == decimal_value(s.skip(at + 1))
    &&& generation <= u64::MAX
}

/// A text is the handle of at most one entry.
pub proof fn law_peer_ref_is_unambiguous(
    s: Seq<char>,
    id1: Seq<char>,
    g1: nat,
    id2: Seq<char>,
    g2: nat,
)
    requires
        is_peer_ref(s, id1, g1),
        is_peer_ref(s, id2, g2),
    ensures
        id1 == id2,
        g1 == g2,
{
    let a = choose|at: int| #[trigger] splits_ref(s, at, id1, g1);
    let b = choose|at: int| #[trigger] splits_ref(s, at, id2, g2);
    if a < b {
        assert(s.take(b)[a] == ':');
        assert(id2.contains(':'));
    }
    if b < a {
        assert(s.take(a)[b] == ':');
        assert(id1.contains(':'));
    }
}

/// Every handle of a non-empty, colon-free node id reads back as its parts.
pub proof fn law_peer_ref_round_trip(id: Seq<char>, generation: nat)
    requires
        id.len() > 0,
        !id.contains(':'),
        generation <= u64::MAX,
    ensures
        is_peer_ref(peer_ref_text(id, generation), id, generation),
{
    lemma_decimal_reads_back(generation);
    let s = peer_ref_text(id, generation);
    let at = id.len() as int;
    assert(s.take(at) =~= id);
    assert(s.skip(at + 1) =~= decimal(generation));
    assert(splits_ref(s, at, id, generation));
}

/// The handle of a node's `generation`-th stay.
pub fn format_peer_ref(tailscale_id: &str, generation: u64) -> (r: String)
    ensures
        r@ == peer_ref_text(tailscale_id@, generation as nat),
{
    let digits: String = decimal_text(generation);
    proof {
        reveal_strlit(":");
        assert(":"@ =~= seq![':']);
    }
    join3(tailscale_id, ":", digits.as_str())
}

/// The parts of a handle; `None` for any other text.
pub fn parse_peer_ref(s: &str) -> (r: Option<(&str, u64)>)
    ensures
        match r {
            Some((id, g)) => is_peer_ref(s@, id@, g as nat),
            None => forall|id: Seq<char>, g: nat| !is_peer_ref(s@, id, g),
        },
{
    let cs: Vec<char> = chars_of(s);
    let mut i: usize = cs.len();
    // The last colon.
    while i > 0 && cs[i - 1] != ':'
        invariant
            cs@ == s@,
            i <= cs@.len(),
            forall|j: int| i <= j < cs@.len() ==> cs@[j] != ':',
        decreases i,
    {
        i -= 1;
    }
    if i <= 1 {
        proof {
            assert forall|id: Seq<char>, g: nat| !is_peer_ref(s@, id, g) by {
                assert forall|at: int| !#[trigger] splits_ref(s@, at, id, g) by {}
            }
        }
        return None;
    }
    let at: usize = i - 1;
    let mut j: usize = 0;
    while j < at
        invariant
            cs@ == s@,
            at < cs@.len(),
            j <= at,
            cs@[at as int] == ':',
            forall|k: int| 0 <= k < j ==> cs@[k] != ':',
        decreases at - j,
    {
        if cs[j] == ':' {
            proof {
                assert forall|id: Seq<char>, g: nat| !is_peer_ref(s@, id, g) by {
                    assert forall|x: int| !#[trigger] splits_ref(s@, x, id, g) by {
                        if splits_ref(s@, x, id, g) {
                            if x > j {
                                assert(s@.take(x)[j as int] == ':');
                            } else {
                                assert(s@.skip(x + 1)[at - x - 1] == ':');
                            }
                        }
                    }
                }
            }
            return None;
        }
        j += 1;
    }
    proof {
        assert forall|id: Seq<char>, g: nat, x: int| #[trigger] splits_ref(s@, x, id, g) implies x
            == at by {}
        assert(cs@.subrange(at + 1, cs@.len() as int) =~= s@.skip(at + 1));
    }
    match parse_digits(&cs, at + 1, cs.len(), u64::MAX) {
        Some(g) => {
            let id: &str = s.substring_char(0, at);
            proof {
                assert(s@.subrange(0, at as int) =~= s@.take(at as int));
                assert(splits_ref(s@, at as int, id@, g as nat));
            }
            Some((id, g))
        },
        None => {
            proof {
                assert forall|id: Seq<char>, g: nat| !is_peer_ref(s@, id, g) by {
                    assert forall|x: int| !#[trigger] splits_ref(s@, x, id, g) by {}
                }
            }
            None
        },
    }
}

// ---------------------------------------------------------------------------
// From network peers
// ---------------------------------------------------------------------------

/// How a peer's path is named.
pub open spec fn path_name(relay: Option<Seq<char>>, cur_addr: Option<Seq<char>>) -> Seq<char> {
    match relay {
        Some(r) => "relay:"@ + r,
        None => if cur_addr is Some {
            "direct"@
        } else {
            "unknown"@
        },
    }
}

/// The fresh entry of a network peer.
pub open spec fn state_of(peer: NetworkPeerModel, generation: u64) -> PeerModel {
    PeerModel {
        id: peer.id,
        generation,
        name: peer.hostname,
        ip: peer.ip,
        online: peer.online,
        ws_connected: false,
        connection_type: path_name(peer.relay, peer.cur_addr),
        os: peer.os,
        last_seen: peer.last_seen,
        identity: None,
        identity_suppressed: false,
        login_name: peer.login_name,
    }
}

/// The fresh entry of a network peer, without a connection and an identity.
pub fn network_peer_to_state(peer: &NetworkPeer, generation: u64) -> (r: PeerState)
    ensures
        r@ == state_of(peer@, generation),
{
    let connection_type: String = match &peer.relay {
        Some(relay) => join2("relay:", relay.as_str()),
        None => if peer.cur_addr.is_some() {
            owned("direct")
        } else {
            owned("unknown")
        },
    };
    PeerState {
        id: peer.id.clone(),
        generation,
        name: peer.hostname.clone(),
        ip: peer.ip.clone(),
        online: peer.online,
        ws_connected: false,
        connection_type,
        os: copy_opt(&peer.os),
        last_seen: copy_opt(&peer.last_seen),
        identity: None,
        identity_suppressed: false,
        login_name: copy_opt(&peer.login_name),
    }
}

// ---------------------------------------------------------------------------
// Events
// ---------------------------------------------------------------------------

/// What the session layer reports when a peer changes.
#[derive(Debug)]
pub enum PeerEvent {
    Joined(PeerState),
    /// The entry's final state, offline and disconnected.
    Left(PeerState),
    Updated(PeerState),
    /// The entry's device id was first published or changed.
    Identity(PeerState),
    /// Node id of a peer that got a connection.
    WsConnected(String),
    /// Node id of a peer that lost its connection.
    WsDisconnected(String),
    AuthRequired { url: String },
}

impl Clone for PeerEvent {
    fn clone(&self) -> (r: Self)
        ensures
            r == *self,
    {
        match self {
            PeerEvent::Joined(s) => PeerEvent::Joined(s.clone()),
            PeerEvent::Left(s) => PeerEvent::Left(s.clone()),
            PeerEvent::Updated(s) => PeerEvent::Updated(s.clone()),
            PeerEvent::Identity(s) => PeerEvent::Identity(s.clone()),
            PeerEvent::WsConnected(id) => PeerEvent::WsConnected(id.clone()),
            PeerEvent::WsDisconnected(id) => PeerEvent::WsDisconnected(id.clone()),
            PeerEvent::AuthRequired { url } => PeerEvent::AuthRequired { url: url.clone() },
        }
    }
}

/// The texts of a [`PeerEvent`].
pub enum EventModel {
    Joined(PeerModel),
    Left(PeerModel),
    Updated(PeerModel),
    Identity(PeerModel),
    WsConnected(Seq<char>),
    WsDisconnected(Seq<char>),
    AuthRequired(Seq<char>),
}

impl View for PeerEvent {
    type V = EventModel;

    open spec fn view(&self) -> EventModel {
        match self {
            PeerEvent::Joined(s) => EventModel::Joined(s@),
            PeerEvent::Left(s) => EventModel::Left(s@),
            PeerEvent::Updated(s) => EventModel::Updated(s@),
            PeerEvent::Identity(s) => EventModel::Identity(s@),
            PeerEvent::WsConnected(id) => EventModel::WsConnected(id@),
            PeerEvent::WsDisconnected(id) => EventModel::WsDisconnected(id@),
            PeerEvent::AuthRequired { url } => EventModel::AuthRequired(url@),
        }
    }
}

/// The models of a list of events.
pub open spec fn event_models(v: Seq<PeerEvent>) -> Seq<EventModel> {
    Seq::new(v.len(), |i: int| v[i]@)
}

} // verus!
