//! What every registry operation does, over mathematical maps.
use vstd::prelude::*;

use crate::network::types::{AddrModel, NetworkEventModel, NetworkPeerModel};
use crate::session::error::ErrorModel;
use crate::session::hello::IdentityModel;
use crate::session::identity::{departed, identity_applied, Claims};
use crate::session::peer::{is_peer_ref, state_of, EventModel, PeerModel};
use crate::text::text_before;

verus! {

/// Which side opened a connection.
#[derive(Debug, Clone, Copy, PartialEq, Eq, Structural)]
pub enum ConnectionDirection {
    Inbound,
    Outbound,
}

/// The connection that carries a peer's traffic.
#[derive(Debug, Clone, Copy)]
pub struct Connection {
    /// Number that the transport knows the connection by.
    pub id: u64,
    pub direction: ConnectionDirection,
}

impl View for Connection {
    type V = Connection;

    open spec fn view(&self) -> Connection {
        *self
    }
}

/// The state of a registry.
pub struct RegistryModel {
    /// Node id of this node.
    pub local_id: Seq<char>,
    /// This node admits listed logins only.
    pub login_gated: bool,
    /// Identities are asked for as soon as a peer is online.
    pub eager_identity: bool,
    /// How many identities may be asked for at once; at least one.
    pub concurrency: usize,
    /// Window of the delay before an identity is asked for, in milliseconds.
    pub jitter_ms: u64,
    /// Peers by node id.
    pub peers: Map<Seq<char>, PeerModel>,
    /// The node that publishes a device id.
    pub by_device: Map<Seq<char>, Seq<char>>,
    /// How often a node id has joined.
    pub generations: Map<Seq<char>, u64>,
    /// Open connections by node id.
    pub connections: Map<Seq<char>, Connection>,
    /// Identities of connected nodes that the network has not announced.
    pub pending: Map<Seq<char>, IdentityModel>,
    /// Nodes that are being dialed.
    pub connecting: Set<Seq<char>>,
    /// Nodes whose identity is being asked for.
    pub inflight: Set<Seq<char>>,
}

/// What an operation asks its caller to do, besides changing the registry.
pub struct EffectsModel {
    /// Events to report, in order.
    pub events: Seq<EventModel>,
    /// Connections to close.
    pub close: Seq<u64>,
    /// The peer's identity is to be asked for.
    pub schedule: bool,
}

pub open spec fn no_effects() -> EffectsModel {
    EffectsModel { events: seq![], close: seq![], schedule: false }
}

// ---------------------------------------------------------------------------
// Network events
// ---------------------------------------------------------------------------

impl RegistryModel {
    /// How often `id` has joined so far.
    pub open spec fn stays(self, id: Seq<char>) -> u64 {
        if self.generations.dom().contains(id) {
            self.generations[id]
        } else {
            0
        }
    }

    pub open spec fn connected(self, id: Seq<char>) -> bool {
        self.connections.dom().contains(id)
    }

    /// The claims after `id`'s entry became `entry`, and its pending identity,
    /// if there is one, was applied.
    pub open spec fn entered(self, id: Seq<char>, entry: PeerModel) -> Claims {
        let peers = self.peers.insert(id, entry);
        if self.pending.dom().contains(id) {
            identity_applied(peers, self.by_device, id, self.pending[id])
        } else {
            Claims { peers, by_device: self.by_device, events: seq![] }
        }
    }
}

/// The entry that a peer gets when it joins.
pub open spec fn joined_entry(m: RegistryModel, p: NetworkPeerModel) -> PeerModel {
    PeerModel {
        ws_connected: m.connected(p.id),
        ..state_of(p, (m.stays(p.id) + 1) as u64)
    }
}

/// A peer joined.
pub open spec fn joined(m: RegistryModel, p: NetworkPeerModel) -> (RegistryModel, EffectsModel) {
    let entry = joined_entry(m, p);
    let c = m.entered(p.id, entry);
    (
        RegistryModel {
            peers: c.peers,
            by_device: c.by_device,
            generations: m.generations.insert(p.id, entry.generation),
            pending: m.pending.remove(p.id),
            ..m
        },
        EffectsModel {
            events: seq![EventModel::Joined(entry)] + c.events,
            close: seq![],
            schedule: m.eager_identity && c.peers[p.id].lacks_identity(),
        },
    )
}

/// The entry of a peer whose network data changed. What the session layer
/// knows of it stays.
pub open spec fn updated_entry(m: RegistryModel, p: NetworkPeerModel) -> PeerModel {
    if m.peers.dom().contains(p.id) {
        let known = m.peers[p.id];
        PeerModel {
            ws_connected: m.connected(p.id),
            identity: known.identity,
            identity_suppressed: known.identity_suppressed,
            ..state_of(p, known.generation)
        }
    } else {
        joined_entry(m, p)
    }
}

/// A peer's network data changed.
pub open spec fn updated(m: RegistryModel, p: NetworkPeerModel) -> (RegistryModel, EffectsModel) {
    let entry = updated_entry(m, p);
    let known = m.peers.dom().contains(p.id);
    let c = m.entered(p.id, entry);
    (
        RegistryModel {
            peers: c.peers,
            by_device: c.by_device,
            generations: if known {
                m.generations
            } else {
                m.generations.insert(p.id, entry.generation)
            },
            pending: m.pending.remove(p.id),
            ..m
        },
        EffectsModel {
            events: c.events + seq![EventModel::Updated(c.peers[p.id])],
            close: seq![],
            schedule: m.eager_identity && (if m.pending.dom().contains(p.id) {
                c.peers[p.id].lacks_identity()
            } else if known {
                !m.peers[p.id].online && entry.lacks_identity()
            } else {
                entry.lacks_identity()
            }),
        },
    )
}

/// `p` waits for `device` to become free.
pub open spec fn waits_for(p: PeerModel, device: Seq<char>) -> bool {
    &&& p.online
    &&& p.identity_suppressed
    &&& p.identity is Some
    &&& p.identity->0.device_id == device
}

/// The device id that becomes free when `id` leaves.
pub open spec fn freed(m: RegistryModel, id: Seq<char>) -> Option<Seq<char>> {
    if !m.peers.dom().contains(id) {
        None
    } else {
        match m.peers[id].published() {
            Some(d) => if m.by_device.dom().contains(d) && m.by_device[d] == id {
                Some(d)
            } else {
                None
            },
            None => None,
        }
    }
}

/// `heir` may take over the device id that `id` gives up: it is one of the
/// peers that wait for it, and nobody only if nobody waits.
pub open spec fn may_inherit(m: RegistryModel, id: Seq<char>, heir: Option<Seq<char>>) -> bool {
    match freed(m, id) {
        None => heir is None,
        Some(d) => match heir {
            Some(k) => k != id && m.peers.dom().contains(k) && waits_for(m.peers[k], d),
            None => forall|k: Seq<char>|
                k != id && #[trigger] m.peers.dom().contains(k) ==> !waits_for(m.peers[k], d),
        },
    }
}

/// A peer left, and `heir` took over its device id.
pub open spec fn left(m: RegistryModel, id: Seq<char>, heir: Option<Seq<char>>) -> (
    RegistryModel,
    EffectsModel,
) {
    let quiet = if m.connected(id) {
        seq![EventModel::WsDisconnected(id)]
    } else {
        seq![]
    };
    let close = if m.connected(id) {
        seq![m.connections[id].id]
    } else {
        seq![]
    };
    let rest = m.peers.remove(id);
    let owners = match freed(m, id) {
        Some(d) => m.by_device.remove(d),
        None => m.by_device,
    };
    let base = RegistryModel {
        peers: rest,
        by_device: owners,
        connections: m.connections.remove(id),
        pending: m.pending.remove(id),
        ..m
    };
    if !m.peers.dom().contains(id) {
        (base, EffectsModel { events: quiet, close, schedule: false })
    } else {
        let gone = EventModel::Left(departed(m.peers[id]));
        match heir {
            None => (base, EffectsModel { events: quiet + seq![gone], close, schedule: false }),
            Some(k) => {
                let promoted = PeerModel { identity_suppressed: false, ..rest[k] };
                (
                    RegistryModel {
                        peers: rest.insert(k, promoted),
                        by_device: owners.insert(freed(m, id)->0, k),
                        ..base
                    },
                    EffectsModel {
                        events: quiet + seq![EventModel::Identity(promoted), gone],
                        close,
                        schedule: false,
                    },
                )
            },
        }
    }
}

/// A peer left, and one of those that may took over its device id.
pub open spec fn leaves(
    m: RegistryModel,
    id: Seq<char>,
    after: RegistryModel,
    effects: EffectsModel,
) -> bool {
    exists|heir: Option<Seq<char>>| #[trigger]
        may_inherit(m, id, heir) && (after, effects) == left(m, id, heir)
}

/// One event of the network, handled.
pub open spec fn handles(
    m: RegistryModel,
    event: NetworkEventModel,
    after: RegistryModel,
    effects: EffectsModel,
) -> bool {
    match event {
        NetworkEventModel::Joined(p) => (after, effects) == joined(m, p),
        NetworkEventModel::Updated(p) => (after, effects) == updated(m, p),
        NetworkEventModel::Left(id) => leaves(m, id, after, effects),
        NetworkEventModel::AuthRequired(url) => after == m && effects == (EffectsModel {
            events: seq![EventModel::AuthRequired(url)],
            ..no_effects()
        }),
    }
}

// ---------------------------------------------------------------------------
// Connections
// ---------------------------------------------------------------------------

/// The direction of the connection that both ends keep when they dial each
/// other at once: the end with the smaller node id keeps the one it opened.
pub open spec fn preferred_direction(local: Seq<char>, peer: Seq<char>) -> Option<
    ConnectionDirection,
> {
    if local.len() == 0 || local == peer {
        None
    } else if text_before(local, peer) {
        Some(ConnectionDirection::Outbound)
    } else {
        Some(ConnectionDirection::Inbound)
    }
}

/// A candidate takes the place of an existing connection when it alone has
/// the preferred direction.
pub open spec fn replaces(
    existing: ConnectionDirection,
    candidate: ConnectionDirection,
    preferred: Option<ConnectionDirection>,
) -> bool {
    preferred == Some(candidate) && preferred != Some(existing)
}

/// A new connection to `peer` is kept.
pub open spec fn installs(
    m: RegistryModel,
    peer: Seq<char>,
    direction: ConnectionDirection,
) -> bool {
    !m.connected(peer) || replaces(
        m.connections[peer].direction,
        direction,
        preferred_direction(m.local_id, peer),
    )
}

/// `peer` got the connection `conn`, and its hello said `identity`.
pub open spec fn attached(
    m: RegistryModel,
    peer: Seq<char>,
    conn: Connection,
    identity: Option<IdentityModel>,
) -> (RegistryModel, EffectsModel) {
    let known = m.peers.dom().contains(peer);
    let peers = if known {
        m.peers.insert(peer, PeerModel { ws_connected: true, ..m.peers[peer] })
    } else {
        m.peers
    };
    let c = match identity {
        Some(i) => identity_applied(peers, m.by_device, peer, i),
        None => Claims { peers, by_device: m.by_device, events: seq![] },
    };
    (
        RegistryModel {
            peers: c.peers,
            by_device: c.by_device,
            connections: m.connections.insert(peer, conn),
            ..m
        },
        EffectsModel {
            events: c.events + seq![EventModel::WsConnected(peer)],
            close: if m.connected(peer) {
                seq![m.connections[peer].id]
            } else {
                seq![]
            },
            schedule: false,
        },
    )
}

/// `peer` connected to us. The identity of a peer that the network has not
/// announced waits for the announcement.
pub open spec fn accepted(
    m: RegistryModel,
    peer: Seq<char>,
    conn: u64,
    identity: Option<IdentityModel>,
) -> (RegistryModel, EffectsModel) {
    if !installs(m, peer, ConnectionDirection::Inbound) {
        (m, EffectsModel { close: seq![conn], ..no_effects() })
    } else {
        let (after, effects) = attached(
            m,
            peer,
            Connection { id: conn, direction: ConnectionDirection::Inbound },
            identity,
        );
        (
            RegistryModel {
                pending: match identity {
                    Some(i) => if m.peers.dom().contains(peer) {
                        m.pending
                    } else {
                        m.pending.insert(peer, i)
                    },
                    None => m.pending,
                },
                ..after
            },
            effects,
        )
    }
}

/// The entries with `id`'s connection flag off.
pub open spec fn unflagged(peers: Map<Seq<char>, PeerModel>, id: Seq<char>) -> Map<
    Seq<char>,
    PeerModel,
> {
    if peers.dom().contains(id) {
        peers.insert(id, PeerModel { ws_connected: false, ..peers[id] })
    } else {
        peers
    }
}

/// The connection of `id` is given up on request.
pub open spec fn disconnected(m: RegistryModel, id: Seq<char>) -> (RegistryModel, EffectsModel) {
    (
        RegistryModel {
            connections: m.connections.remove(id),
            peers: unflagged(m.peers, id),
            ..m
        },
        EffectsModel {
            events: seq![EventModel::WsDisconnected(id)],
            close: if m.connected(id) {
                seq![m.connections[id].id]
            } else {
                seq![]
            },
            schedule: false,
        },
    )
}

/// The connection `conn` of `peer` broke. Nothing changes if another
/// connection has taken its place.
pub open spec fn lost(m: RegistryModel, peer: Seq<char>, conn: u64) -> (
    RegistryModel,
    EffectsModel,
) {
    if m.connected(peer) && m.connections[peer].id == conn {
        (
            RegistryModel {
                connections: m.connections.remove(peer),
                peers: unflagged(m.peers, peer),
                ..m
            },
            EffectsModel {
                events: seq![EventModel::WsDisconnected(peer)],
                ..no_effects()
            },
        )
    } else {
        (m, no_effects())
    }
}

/// The entries with every connection flag off.
pub open spec fn all_unflagged(peers: Map<Seq<char>, PeerModel>) -> Map<Seq<char>, PeerModel> {
    Map::new(
        |k: Seq<char>| peers.dom().contains(k),
        |k: Seq<char>| PeerModel { ws_connected: false, ..peers[k] },
    )
}

/// Every connection is given up, in the order `order`.
pub open spec fn shut_down(m: RegistryModel, order: Seq<Seq<char>>) -> (
    RegistryModel,
    EffectsModel,
) {
    (
        RegistryModel {
            connections: Map::empty(),
            peers: all_unflagged(m.peers),
            ..m
        },
        EffectsModel {
            events: Seq::new(order.len(), |i: int| EventModel::WsDisconnected(order[i])),
            close: Seq::new(order.len(), |i: int| m.connections[order[i]].id),
            schedule: false,
        },
    )
}

// ---------------------------------------------------------------------------
// Dialing
// ---------------------------------------------------------------------------

/// What to do about a connection that is wanted.
pub enum DialModel {
    /// There is one.
    Done,
    Fail(ErrorModel),
    /// Another dial is under way: look again in a moment.
    Wait(AddrModel),
    Dial(AddrModel),
}

/// How often a caller looks again while another dial is under way.
pub const DIAL_POLLS: u32 = 50;

/// Where a peer is dialed.
pub open spec fn addr_of(p: PeerModel) -> AddrModel {
    AddrModel { ip: Some(p.ip), hostname: p.name, dns_name: None }
}

/// Why `id` may not be dialed now; `backoff` is the time to wait after failed
/// dials, if any is left.
pub open spec fn refusal(m: RegistryModel, id: Seq<char>, backoff: Option<u64>) -> Option<
    ErrorModel,
> {
    if !m.peers.dom().contains(id) {
        Some(ErrorModel::UnknownPeer(id))
    } else if !m.peers[id].online {
        Some(ErrorModel::PeerOffline(id))
    } else if m.login_gated && m.peers[id].login_name is None {
        Some(ErrorModel::LoginUnknown(id))
    } else {
        match backoff {
            Some(n) => Some(ErrorModel::ReconnectBackoff(n)),
            None => None,
        }
    }
}

/// A connection to `id` is wanted.
pub open spec fn wants_connection(m: RegistryModel, id: Seq<char>, backoff: Option<u64>) -> DialModel {
    if m.connected(id) {
        DialModel::Done
    } else {
        match refusal(m, id, backoff) {
            Some(e) => DialModel::Fail(e),
            None => if m.connecting.contains(id) {
                DialModel::Wait(addr_of(m.peers[id]))
            } else {
                DialModel::Dial(addr_of(m.peers[id]))
            },
        }
    }
}

/// The caller looked again for the `polls`-th time.
pub open spec fn looked_again(m: RegistryModel, id: Seq<char>, addr: AddrModel, polls: u32) -> DialModel {
    if m.connected(id) {
        DialModel::Done
    } else if !m.connecting.contains(id) {
        DialModel::Dial(addr)
    } else if polls < DIAL_POLLS {
        DialModel::Wait(addr)
    } else {
        DialModel::Fail(ErrorModel::ConnectFailed("connection already in progress"@))
    }
}

/// The identity of `id` is wanted before any traffic.
pub open spec fn wants_identity(m: RegistryModel, id: Seq<char>, backoff: Option<u64>) -> DialModel {
    if m.connected(id) || (m.peers.dom().contains(id) && m.peers[id].online && m.peers[id].published()
        is Some) {
        DialModel::Done
    } else {
        match refusal(m, id, backoff) {
            Some(e) => DialModel::Fail(e),
            None => if m.connecting.contains(id) {
                DialModel::Fail(ErrorModel::ConnectFailed("connection already in progress"@))
            } else {
                DialModel::Dial(addr_of(m.peers[id]))
            },
        }
    }
}

/// A dial that starts is noted, so that no second one starts.
pub open spec fn dial_noted(m: RegistryModel, id: Seq<char>, d: DialModel) -> RegistryModel {
    if d is Dial {
        RegistryModel { connecting: m.connecting.insert(id), ..m }
    } else {
        m
    }
}

/// What a finished dial comes to.
pub struct DialedModel {
    pub result: Result<(), ErrorModel>,
    pub effects: EffectsModel,
}

/// The answer of a node that is not the one dialed.
pub open spec fn mismatch_text(dialed: Seq<char>, claimed: Seq<char>) -> Seq<char> {
    "hello identity mismatch: dialed "@ + dialed + ", answerer claims "@ + claimed
}

/// The dial of `id` brought the connection `conn`, whose hello said
/// `identity`.
pub open spec fn dialed(
    m: RegistryModel,
    id: Seq<char>,
    conn: u64,
    identity: Option<IdentityModel>,
) -> (RegistryModel, DialedModel) {
    let idle = RegistryModel { connecting: m.connecting.remove(id), ..m };
    if identity is Some && identity->0.tailscale_id != id {
        (
            idle,
            DialedModel {
                result: Err(
                    ErrorModel::ConnectFailed(mismatch_text(id, identity->0.tailscale_id)),
                ),
                effects: EffectsModel { close: seq![conn], ..no_effects() },
            },
        )
    } else if !installs(m, id, ConnectionDirection::Outbound) {
        (
            idle,
            DialedModel {
                result: Ok(()),
                effects: EffectsModel { close: seq![conn], ..no_effects() },
            },
        )
    } else {
        let (after, effects) = attached(
            idle,
            id,
            Connection { id: conn, direction: ConnectionDirection::Outbound },
            identity,
        );
        (after, DialedModel { result: Ok(()), effects })
    }
}

// ---------------------------------------------------------------------------
// Routing
// ---------------------------------------------------------------------------

/// The entry answers to `name`: its host name, or the device name that it
/// publishes.
pub open spec fn answers_to(p: PeerModel, name: Seq<char>) -> bool {
    p.name == name || (!p.identity_suppressed && p.identity is Some && p.identity->0.device_name
        == name)
}

/// Some peer answers to `name`.
pub open spec fn is_name(m: RegistryModel, name: Seq<char>) -> bool {
    exists|k: Seq<char>| #[trigger] m.peers.dom().contains(k) && answers_to(m.peers[k], name)
}

/// `target` is the handle of a live entry, which is that of `id`.
pub open spec fn is_live_ref(m: RegistryModel, target: Seq<char>, id: Seq<char>) -> bool {
    exists|g: nat| #[trigger]
        is_peer_ref(target, id, g) && m.peers.dom().contains(id) && m.peers[id].generation == g
}

pub open spec fn is_some_ref(target: Seq<char>) -> bool {
    exists|id: Seq<char>, g: nat| is_peer_ref(target, id, g)
}

/// What a target resolves to: a node id, a published device id, a name, and
/// last a handle, in this order.
pub open spec fn routes(
    m: RegistryModel,
    target: Seq<char>,
    result: Result<Seq<char>, ErrorModel>,
) -> bool {
    if m.peers.dom().contains(target) {
        result == Ok::<Seq<char>, ErrorModel>(target)
    } else if m.by_device.dom().contains(target) {
        result == Ok::<Seq<char>, ErrorModel>(m.by_device[target])
    } else if is_name(m, target) {
        result is Ok && m.peers.dom().contains(result->Ok_0) && answers_to(
            m.peers[result->Ok_0],
            target,
        )
    } else if is_some_ref(target) {
        match result {
            Ok(id) => is_live_ref(m, target, id),
            Err(e) => e == ErrorModel::PeerGone(target) && forall|id: Seq<char>|
                !is_live_ref(m, target, id),
        }
    } else {
        result == Err::<Seq<char>, ErrorModel>(ErrorModel::UnknownPeer(target))
    }
}

/// The device id that traffic of `id` may speak for: what its entry
/// publishes; without an entry, what the hello of its standing connection
/// said, unless another node publishes that device id.
pub open spec fn speaks_for(m: RegistryModel, id: Seq<char>) -> Option<Seq<char>> {
    if m.peers.dom().contains(id) {
        m.peers[id].published()
    } else if m.connected(id) && m.pending.dom().contains(id) && !m.by_device.dom().contains(
        m.pending[id].device_id,
    ) {
        Some(m.pending[id].device_id)
    } else {
        None
    }
}

} // verus!
