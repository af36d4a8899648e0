//! What is known and reported after something happened to a peer, field by
//! field.
use vstd::prelude::*;

use crate::network::types::NetworkPeerModel;
use crate::session::error::ErrorModel;
use crate::session::hello::IdentityModel;
use crate::session::identity::identity_applied;
use crate::session::model::{
    accepted, dialed, disconnected, freed, installs, joined, left, lost, may_inherit, shut_down,
    updated, ConnectionDirection, RegistryModel,
};
use crate::session::peer::{EventModel, PeerModel};
use crate::text_map::lists_keys;

verus! {

/// The entry says of a peer what the network says of it.
pub open spec fn says_the_same(e: PeerModel, p: NetworkPeerModel) -> bool {
    &&& e.id == p.id
    &&& e.name == p.hostname
    &&& e.ip == p.ip
    &&& e.online == p.online
    &&& e.os == p.os
    &&& e.last_seen == p.last_seen
    &&& e.login_name == p.login_name
    &&& e.connection_type == (match p.relay {
        Some(relay) => "relay:"@ + relay,
        None => match p.cur_addr {
            Some(_) => "direct"@,
            None => "unknown"@,
        },
    })
}

// ---------------------------------------------------------------------------
// The network
// ---------------------------------------------------------------------------

/// A peer that joins gets an entry that says what the network says of it, has
/// no identity yet, and counts as connected if it is. It is reported first, no
/// connection is closed, and its identity is asked for if it is online and
/// that is wanted. No other peer is touched.
pub proof fn law_joined_peer_is_entered(m: RegistryModel, p: NetworkPeerModel, other: Seq<char>)
    requires
        m.stays(p.id) < u64::MAX,
        !m.pending.dom().contains(p.id),
    ensures
        ({
            let (after, effects) = joined(m, p);
            let e = after.peers[p.id];
            &&& after.peers.dom().contains(p.id)
            &&& says_the_same(e, p)
            &&& e.generation == m.stays(p.id) + 1
            &&& e.ws_connected == m.connections.dom().contains(p.id)
            &&& e.identity is None
            &&& !e.identity_suppressed
            &&& effects.events == seq![EventModel::Joined(e)]
            &&& effects.close == Seq::<u64>::empty()
            &&& effects.schedule == (m.eager_identity && p.online)
            &&& after.by_device == m.by_device
            &&& after.connections == m.connections
            &&& after.connecting == m.connecting
            &&& after.inflight == m.inflight
            &&& after.local_id == m.local_id
            &&& after.stays(p.id) == m.stays(p.id) + 1
            &&& other != p.id ==> after.peers.dom().contains(other) == m.peers.dom().contains(other)
                && after.peers[other] == m.peers[other] && after.stays(other) == m.stays(other)
        }),
{
    assert(joined(m, p).1.events =~= seq![EventModel::Joined(joined(m, p).0.peers[p.id])]);
}

/// A peer whose hello came before the network announced it gets the identity
/// of that hello as soon as it joins.
pub proof fn law_waiting_identity_is_applied(m: RegistryModel, p: NetworkPeerModel)
    requires
        m.stays(p.id) < u64::MAX,
        m.pending.dom().contains(p.id),
    ensures
        ({
            let (after, effects) = joined(m, p);
            let e = after.peers[p.id];
            &&& after.peers.dom().contains(p.id)
            &&& says_the_same(e, p)
            &&& e.identity == Some(m.pending[p.id])
            &&& !after.pending.dom().contains(p.id)
            &&& effects.events.len() > 0
            &&& effects.events[0] matches EventModel::Joined(first) && says_the_same(first, p)
                && first.identity is None
            &&& !m.by_device.dom().contains(m.pending[p.id].device_id) ==> after.by_device.dom().contains(
                m.pending[p.id].device_id,
            ) && after.by_device[m.pending[p.id].device_id] == p.id && effects.events
                == seq![effects.events[0], EventModel::Identity(e)]
            &&& effects.schedule == (m.eager_identity && p.online && e.identity_suppressed)
        }),
{
    let (after, effects) = joined(m, p);
    if !m.by_device.dom().contains(m.pending[p.id].device_id) {
        assert(effects.events =~= seq![effects.events[0], EventModel::Identity(after.peers[p.id])]);
    }
}

/// New data of the network replace what was known from it; what the session
/// knows of the peer stays. The change is reported. A peer that just came
/// online without a device id is asked for it.
pub proof fn law_updated_peer_is_renewed(m: RegistryModel, p: NetworkPeerModel, other: Seq<char>)
    requires
        m.peers.dom().contains(p.id),
        !m.pending.dom().contains(p.id),
    ensures
        ({
            let (after, effects) = updated(m, p);
            let e = after.peers[p.id];
            let before = m.peers[p.id];
            &&& after.peers.dom().contains(p.id)
            &&& says_the_same(e, p)
            &&& e.generation == before.generation
            &&& e.identity == before.identity
            &&& e.identity_suppressed == before.identity_suppressed
            &&& e.ws_connected == m.connections.dom().contains(p.id)
            &&& effects.events == seq![EventModel::Updated(e)]
            &&& effects.close == Seq::<u64>::empty()
            &&& effects.schedule == (m.eager_identity && p.online && !before.online && (
            before.identity is None || before.identity_suppressed))
            &&& after.by_device == m.by_device
            &&& after.connections == m.connections
            &&& after.generations == m.generations
            &&& other != p.id ==> after.peers.dom().contains(other) == m.peers.dom().contains(other)
                && after.peers[other] == m.peers[other]
        }),
{
    assert(updated(m, p).1.events =~= seq![EventModel::Updated(updated(m, p).0.peers[p.id])]);
}

/// Data about a peer that is not known make it known, as if it had joined, and
/// are reported as a change.
pub proof fn law_update_of_a_stranger_enters_it(m: RegistryModel, p: NetworkPeerModel)
    requires
        !m.peers.dom().contains(p.id),
        !m.pending.dom().contains(p.id),
        m.stays(p.id) < u64::MAX,
    ensures
        ({
            let (after, effects) = updated(m, p);
            let e = after.peers[p.id];
            &&& after.peers.dom().contains(p.id)
            &&& says_the_same(e, p)
            &&& e.generation == m.stays(p.id) + 1
            &&& after.stays(p.id) == m.stays(p.id) + 1
            &&& e.identity is None
            &&& effects.events == seq![EventModel::Updated(e)]
            &&& effects.schedule == (m.eager_identity && p.online)
        }),
{
    assert(updated(m, p).1.events =~= seq![EventModel::Updated(updated(m, p).0.peers[p.id])]);
}

/// A peer that leaves is known no more, and its connection is closed. First
/// the end of the connection is reported, then the peer that inherits the
/// device id, and last the peer that left, offline and as it was else. No
/// other peer is touched but the heir, which publishes from then on.
pub proof fn law_leaving_is_reported(
    m: RegistryModel,
    id: Seq<char>,
    heir: Option<Seq<char>>,
    other: Seq<char>,
)
    requires
        m.peers.dom().contains(id),
        may_inherit(m, id, heir),
    ensures
        ({
            let (after, effects) = left(m, id, heir);
            let gone = EventModel::Left(
                PeerModel { online: false, ws_connected: false, ..m.peers[id] },
            );
            let quiet = m.connections.dom().contains(id);
            let tail = match heir {
                Some(k) => seq![EventModel::Identity(after.peers[k]), gone],
                None => seq![gone],
            };
            &&& !after.peers.dom().contains(id)
            &&& !after.connections.dom().contains(id)
            &&& quiet ==> effects.close == seq![m.connections[id].id] && effects.events == seq![
                EventModel::WsDisconnected(id),
            ] + tail
            &&& !quiet ==> effects.close == Seq::<u64>::empty() && effects.events == tail
            &&& !effects.schedule
            &&& heir matches Some(k) ==> after.peers.dom().contains(k) && after.peers[k] == (
            PeerModel { identity_suppressed: false, ..m.peers[k] })
            &&& other != id && heir != Some(other) ==> after.peers.dom().contains(other)
                == m.peers.dom().contains(other) && after.peers[other] == m.peers[other]
            &&& other != id ==> after.connections.dom().contains(other)
                == m.connections.dom().contains(other) && after.connections[other]
                == m.connections[other]
        }),
{
    let (after, effects) = left(m, id, heir);
    let gone = EventModel::Left(PeerModel { online: false, ws_connected: false, ..m.peers[id] });
    let tail = match heir {
        Some(k) => seq![EventModel::Identity(after.peers[k]), gone],
        None => seq![gone],
    };
    if m.connections.dom().contains(id) {
        assert(effects.events =~= seq![EventModel::WsDisconnected(id)] + tail);
    } else {
        assert(effects.events =~= tail);
    }
}

/// The device id that a leaving peer publishes is the one that becomes free.
pub proof fn law_leaving_frees_the_device(m: RegistryModel, id: Seq<char>, device: Seq<char>)
    requires
        m.peers.dom().contains(id),
        m.by_device.dom().contains(device),
        m.by_device[device] == id,
        m.peers[id].identity matches Some(i) && i.device_id == device,
        !m.peers[id].identity_suppressed,
    ensures
        freed(m, id) == Some(device),
{
}

// ---------------------------------------------------------------------------
// Identities
// ---------------------------------------------------------------------------

/// A peer that says a device id which nobody holds publishes it from then on,
/// and that is reported. Its entry keeps everything else.
pub proof fn law_free_device_is_published(
    peers: Map<Seq<char>, PeerModel>,
    by_device: Map<Seq<char>, Seq<char>>,
    id: Seq<char>,
    identity: IdentityModel,
)
    requires
        peers.dom().contains(id),
        !by_device.dom().contains(identity.device_id),
        peers[id].identity is None,
    ensures
        ({
            let c = identity_applied(peers, by_device, id, identity);
            let e = PeerModel {
                identity: Some(identity),
                identity_suppressed: false,
                ..peers[id]
            };
            &&& c.peers.dom().contains(id)
            &&& c.peers[id] == e
            &&& c.by_device.dom().contains(identity.device_id)
            &&& c.by_device[identity.device_id] == id
            &&& c.events == seq![EventModel::Identity(e)]
        }),
{
}

/// What a peer says of itself is what is known of it afterwards, whoever holds
/// its device id; a peer that is not known is passed over.
pub proof fn law_identity_is_kept(
    peers: Map<Seq<char>, PeerModel>,
    by_device: Map<Seq<char>, Seq<char>>,
    id: Seq<char>,
    identity: IdentityModel,
)
    ensures
        ({
            let c = identity_applied(peers, by_device, id, identity);
            &&& peers.dom().contains(id) ==> c.peers.dom().contains(id) && c.peers[id] == (
            PeerModel {
                identity: Some(identity),
                identity_suppressed: c.peers[id].identity_suppressed,
                ..peers[id]
            })
            &&& !peers.dom().contains(id) ==> c.peers == peers && c.by_device == by_device
                && c.events == Seq::<EventModel>::empty()
        }),
{
}

/// A new name or system under the same device id is reported as a change.
pub proof fn law_change_of_name_is_reported(
    peers: Map<Seq<char>, PeerModel>,
    by_device: Map<Seq<char>, Seq<char>>,
    id: Seq<char>,
    was: IdentityModel,
    identity: IdentityModel,
)
    requires
        peers.dom().contains(id),
        peers[id].identity == Some(was),
        !peers[id].identity_suppressed,
        was.device_id == identity.device_id,
        was != identity,
    ensures
        ({
            let c = identity_applied(peers, by_device, id, identity);
            &&& c.peers[id].identity == Some(identity)
            &&& !c.peers[id].identity_suppressed
            &&& c.by_device == by_device
            &&& c.events == seq![EventModel::Updated(c.peers[id])]
        }),
{
}

// ---------------------------------------------------------------------------
// Connections
// ---------------------------------------------------------------------------

/// A connection that a peer opened, and that is kept, carries its traffic from
/// then on. It is reported, and the one that it replaces is closed. One that
/// is not kept is closed, and nothing else happens.
pub proof fn law_accepted_connection_is_noted(
    m: RegistryModel,
    peer: Seq<char>,
    conn: u64,
    identity: Option<IdentityModel>,
    other: Seq<char>,
)
    ensures
        ({
            let (after, effects) = accepted(m, peer, conn, identity);
            let kept = installs(m, peer, ConnectionDirection::Inbound);
            &&& kept ==> {
                &&& after.connections.dom().contains(peer)
                &&& after.connections[peer].id == conn
                &&& after.connections[peer].direction == ConnectionDirection::Inbound
                &&& effects.events.len() > 0
                &&& effects.events.last() == EventModel::WsConnected(peer)
                &&& effects.close == if m.connections.dom().contains(peer) {
                    seq![m.connections[peer].id]
                } else {
                    Seq::<u64>::empty()
                }
                &&& m.peers.dom().contains(peer) ==> after.peers.dom().contains(peer)
                    && after.peers[peer].ws_connected && (identity matches Some(i)
                    ==> after.peers[peer].identity == Some(i))
                &&& !m.peers.dom().contains(peer) ==> after.peers == m.peers && (
                identity matches Some(i) ==> after.pending.dom().contains(peer)
                    && after.pending[peer] == i)
                &&& identity is None ==> effects.events == seq![EventModel::WsConnected(peer)]
                    && after.by_device == m.by_device && after.pending == m.pending
            }
            &&& !kept ==> after == m && effects.close == seq![conn] && effects.events == Seq::<
                EventModel,
            >::empty()
            &&& !effects.schedule
            &&& other != peer ==> after.connections.dom().contains(other)
                == m.connections.dom().contains(other) && after.connections[other]
                == m.connections[other]
        }),
{
    let (after, effects) = accepted(m, peer, conn, identity);
    if identity is None && installs(m, peer, ConnectionDirection::Inbound) {
        assert(effects.events =~= seq![EventModel::WsConnected(peer)]);
    }
}

/// A dial is over when it brought a connection. The connection is kept, noted
/// and reported like an accepted one, unless who answered says that it is
/// another node.
pub proof fn law_dialed_connection_is_noted(
    m: RegistryModel,
    id: Seq<char>,
    conn: u64,
    identity: Option<IdentityModel>,
)
    ensures
        ({
            let (after, d) = dialed(m, id, conn, identity);
            let right = identity matches Some(i) ==> i.tailscale_id == id;
            let kept = right && installs(m, id, ConnectionDirection::Outbound);
            &&& !after.connecting.contains(id)
            &&& right ==> d.result is Ok
            &&& !right ==> d.result == Err::<(), ErrorModel>(
                ErrorModel::ConnectFailed(
                    "hello identity mismatch: dialed "@ + id + ", answerer claims "@
                        + identity->0.tailscale_id,
                ),
            )
            &&& kept ==> {
                &&& after.connections.dom().contains(id)
                &&& after.connections[id].id == conn
                &&& after.connections[id].direction == ConnectionDirection::Outbound
                &&& d.effects.events.len() > 0
                &&& d.effects.events.last() == EventModel::WsConnected(id)
                &&& d.effects.close == if m.connections.dom().contains(id) {
                    seq![m.connections[id].id]
                } else {
                    Seq::<u64>::empty()
                }
                &&& m.peers.dom().contains(id) ==> after.peers.dom().contains(id)
                    && after.peers[id].ws_connected && (identity matches Some(i)
                    ==> after.peers[id].identity == Some(i))
            }
            &&& !kept ==> d.effects.close == seq![conn] && d.effects.events == Seq::<
                EventModel,
            >::empty() && after.peers == m.peers && after.connections == m.connections
        }),
{
}

/// A connection that is given up is closed and reported, and its peer no
/// longer connected; nothing else of any peer changes.
pub proof fn law_disconnection_is_noted(m: RegistryModel, id: Seq<char>, other: Seq<char>)
    ensures
        ({
            let (after, effects) = disconnected(m, id);
            &&& !after.connections.dom().contains(id)
            &&& effects.events == seq![EventModel::WsDisconnected(id)]
            &&& effects.close == if m.connections.dom().contains(id) {
                seq![m.connections[id].id]
            } else {
                Seq::<u64>::empty()
            }
            &&& m.peers.dom().contains(id) ==> after.peers.dom().contains(id) && after.peers[id]
                == (PeerModel { ws_connected: false, ..m.peers[id] })
            &&& other != id ==> after.peers.dom().contains(other) == m.peers.dom().contains(other)
                && after.peers[other] == m.peers[other] && after.connections.dom().contains(other)
                == m.connections.dom().contains(other) && after.connections[other]
                == m.connections[other]
            &&& after.by_device == m.by_device
            &&& !effects.schedule
            &&& after.pending == m.pending && after.generations == m.generations
            &&& after.connecting == m.connecting && after.inflight == m.inflight
            &&& after.local_id == m.local_id && after.login_gated == m.login_gated
        }),
{
}

/// A connection that breaks is reported, and its peer no longer connected; one
/// that was replaced before breaks without a trace.
pub proof fn law_loss_is_noted(m: RegistryModel, peer: Seq<char>, conn: u64, other: Seq<char>)
    ensures
        ({
            let (after, effects) = lost(m, peer, conn);
            let stood = m.connections.dom().contains(peer) && m.connections[peer].id == conn;
            &&& stood ==> !after.connections.dom().contains(peer) && effects.events == seq![
                EventModel::WsDisconnected(peer),
            ] && (m.peers.dom().contains(peer) ==> after.peers.dom().contains(peer)
                && after.peers[peer] == (PeerModel { ws_connected: false, ..m.peers[peer] }))
            &&& !stood ==> after == m && effects.events == Seq::<EventModel>::empty()
            &&& effects.close == Seq::<u64>::empty()
            &&& other != peer ==> after.peers.dom().contains(other) == m.peers.dom().contains(other)
                && after.peers[other] == m.peers[other] && after.connections.dom().contains(other)
                == m.connections.dom().contains(other)
            &&& after.by_device == m.by_device
            &&& !effects.schedule
            &&& after.pending == m.pending && after.generations == m.generations
            &&& after.connecting == m.connecting && after.inflight == m.inflight
            &&& after.local_id == m.local_id && after.login_gated == m.login_gated
        }),
{
}

/// The end closes every connection once, reports each, and leaves no peer
/// connected; who is known stays known.
pub proof fn law_shutdown_closes_all(m: RegistryModel, order: Seq<Seq<char>>, id: Seq<char>)
    requires
        lists_keys(order, m.connections),
    ensures
        ({
            let (after, effects) = shut_down(m, order);
            &&& !after.connections.dom().contains(id)
            &&& effects.events.len() == order.len() == effects.close.len()
            &&& m.connections.dom().contains(id) ==> effects.events.contains(
                EventModel::WsDisconnected(id),
            ) && effects.close.contains(m.connections[id].id)
            &&& after.peers.dom().contains(id) == m.peers.dom().contains(id)
            &&& m.peers.dom().contains(id) ==> after.peers[id] == (PeerModel {
                ws_connected: false,
                ..m.peers[id]
            })
            &&& after.by_device == m.by_device
            &&& !effects.schedule
            &&& after.pending == m.pending && after.generations == m.generations
            &&& after.connecting == m.connecting && after.inflight == m.inflight
            &&& after.local_id == m.local_id && after.login_gated == m.login_gated
        }),
{
    let (after, effects) = shut_down(m, order);
    if m.connections.dom().contains(id) {
        assert(order.contains(id));
        let i = choose|i: int| 0 <= i < order.len() && order[i] == id;
        assert(effects.events[i] == EventModel::WsDisconnected(id));
        assert(effects.close[i] == m.connections[id].id);
    }
}

} // verus!
