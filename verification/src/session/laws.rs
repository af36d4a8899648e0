//! What holds of a registry whatever happens to it.
use vstd::prelude::*;

use crate::network::types::{AddrModel, NetworkEventModel, NetworkPeerModel};
use crate::session::error::ErrorModel;
use crate::session::hello::IdentityModel;
use crate::session::identity::{departed, identity_applied, with_identity};
use crate::session::model::{
    accepted, attached, dial_noted, dialed, disconnected, freed, handles, installs, is_live_ref,
    is_name, is_some_ref, joined, joined_entry, leaves, left, looked_again, lost, may_inherit,
    preferred_direction, routes, shut_down, speaks_for, unflagged, updated, updated_entry,
    waits_for, wants_connection, wants_identity, Connection, ConnectionDirection, DialModel,
    EffectsModel, RegistryModel,
};
use crate::session::peer::{
    is_peer_ref, law_peer_ref_is_unambiguous, law_peer_ref_round_trip, peer_ref_text,
    EventModel, PeerModel,
};
use crate::session::registry::{fresh, PeerRegistryOptions};
use crate::text::lemma_text_before_total;
use crate::text_map::lists_keys;

verus! {

// ---------------------------------------------------------------------------
// Invariants
// ---------------------------------------------------------------------------

/// A peer that publishes a device id is the one on record for it.
pub open spec fn published_on_record(
    peers: Map<Seq<char>, PeerModel>,
    by_device: Map<Seq<char>, Seq<char>>,
) -> bool {
    forall|k: Seq<char>| #[trigger]
        peers.dom().contains(k) && peers[k].published() is Some ==> by_device.dom().contains(
            peers[k].published()->0,
        ) && by_device[peers[k].published()->0] == k
}

/// A peer on record for a device id is known and publishes it.
pub open spec fn record_is_live(
    peers: Map<Seq<char>, PeerModel>,
    by_device: Map<Seq<char>, Seq<char>>,
) -> bool {
    forall|d: Seq<char>| #[trigger]
        by_device.dom().contains(d) ==> peers.dom().contains(by_device[d])
            && peers[by_device[d]].published() == Some(d)
}

/// Every entry stands under its own node id, in a stay that was counted, and
/// its connection flag is right.
pub open spec fn entries_agree(m: RegistryModel) -> bool {
    forall|k: Seq<char>| #[trigger]
        m.peers.dom().contains(k) ==> m.peers[k].id == k && m.peers[k].ws_connected == m.connected(k)
            && 1 <= m.peers[k].generation <= m.stays(k)
}

/// The invariant of a registry.
pub open spec fn consistent(m: RegistryModel) -> bool {
    published_on_record(m.peers, m.by_device) && entries_agree(m)
}

/// A registry that has seen nothing is consistent, and its record is live.
pub proof fn law_fresh_is_consistent(local_id: Seq<char>, options: PeerRegistryOptions)
    ensures
        consistent(fresh(local_id, options)),
        record_is_live(fresh(local_id, options).peers, fresh(local_id, options).by_device),
{
}

/// No two peers publish the same device id.
pub proof fn law_one_publisher(m: RegistryModel, a: Seq<char>, b: Seq<char>)
    requires
        consistent(m),
        m.peers.dom().contains(a),
        m.peers.dom().contains(b),
        m.peers[a].published() is Some,
        m.peers[a].published() == m.peers[b].published(),
    ensures
        a == b,
{
}

// ---------------------------------------------------------------------------
// Identities
// ---------------------------------------------------------------------------

/// Applying an identity keeps the publishers on record.
pub proof fn law_identity_keeps_record(
    peers: Map<Seq<char>, PeerModel>,
    by_device: Map<Seq<char>, Seq<char>>,
    id: Seq<char>,
    identity: IdentityModel,
)
    requires
        published_on_record(peers, by_device),
    ensures
        ({
            let c = identity_applied(peers, by_device, id, identity);
            published_on_record(c.peers, c.by_device)
        }),
{
    let c = identity_applied(peers, by_device, id, identity);
    assert forall|k: Seq<char>| #[trigger]
        c.peers.dom().contains(k) && c.peers[k].published() is Some implies c.by_device.dom().contains(
        c.peers[k].published()->0,
    ) && c.by_device[c.peers[k].published()->0] == k by {
        if k != id {
            assert(peers.dom().contains(k));
            assert(c.peers[k] == peers[k]);
        } else if peers.dom().contains(id) {
            assert(peers.dom().contains(id));
        }
    }
}

/// Applying an identity keeps the record live.
pub proof fn law_identity_keeps_record_live(
    peers: Map<Seq<char>, PeerModel>,
    by_device: Map<Seq<char>, Seq<char>>,
    id: Seq<char>,
    identity: IdentityModel,
)
    requires
        published_on_record(peers, by_device),
        record_is_live(peers, by_device),
    ensures
        ({
            let c = identity_applied(peers, by_device, id, identity);
            record_is_live(c.peers, c.by_device)
        }),
{
    let c = identity_applied(peers, by_device, id, identity);
    if peers.dom().contains(id) {
        assert forall|d: Seq<char>| #[trigger] c.by_device.dom().contains(d) implies c.peers.dom().contains(
            c.by_device[d],
        ) && c.peers[c.by_device[d]].published() == Some(d) by {
            if d != identity.device_id {
                assert(by_device.dom().contains(d));
                assert(c.by_device[d] == by_device[d]);
                if by_device.dom().contains(identity.device_id) {
                    assert(peers[by_device[identity.device_id]].published() == Some(identity.device_id));
                }
            } else if by_device.dom().contains(d) {
                assert(peers[by_device[d]].published() == Some(d));
            }
        }
    }
}

/// Applying an identity touches no entry but the speaker's and, when it is
/// offline, that of the former holder of the device id, which goes.
pub proof fn law_identity_touches_two(
    peers: Map<Seq<char>, PeerModel>,
    by_device: Map<Seq<char>, Seq<char>>,
    id: Seq<char>,
    identity: IdentityModel,
    other: Seq<char>,
)
    requires
        other != id,
        peers.dom().contains(other),
    ensures
        ({
            let c = identity_applied(peers, by_device, id, identity);
            ||| c.peers.dom().contains(other) && c.peers[other] == peers[other]
            ||| !c.peers.dom().contains(other) && !peers[other].online && by_device.dom().contains(
                identity.device_id,
            ) && by_device[identity.device_id] == other
        }),
{
}

/// First come, first served: a device id that an online peer holds stays
/// with it, the claimant publishes nothing, and nothing is reported.
pub proof fn law_first_wins(
    peers: Map<Seq<char>, PeerModel>,
    by_device: Map<Seq<char>, Seq<char>>,
    id: Seq<char>,
    identity: IdentityModel,
)
    requires
        peers.dom().contains(id),
        by_device.dom().contains(identity.device_id),
        by_device[identity.device_id] != id,
        peers.dom().contains(by_device[identity.device_id]),
        peers[by_device[identity.device_id]].online,
        published_on_record(peers, by_device),
    ensures
        ({
            let c = identity_applied(peers, by_device, id, identity);
            let holder = by_device[identity.device_id];
            &&& c.by_device.dom().contains(identity.device_id)
            &&& c.by_device[identity.device_id] == holder
            &&& c.peers[holder] == peers[holder]
            &&& c.peers[id] == with_identity(peers[id], identity, true)
            &&& c.peers[id].published() is None
            &&& c.events == Seq::<EventModel>::empty()
        }),
{
    assert(peers.dom().contains(id));
}

/// An offline holder gives way: it is retired, and the claimant publishes the
/// device id.
pub proof fn law_ghost_is_retired(
    peers: Map<Seq<char>, PeerModel>,
    by_device: Map<Seq<char>, Seq<char>>,
    id: Seq<char>,
    identity: IdentityModel,
)
    requires
        peers.dom().contains(id),
        by_device.dom().contains(identity.device_id),
        by_device[identity.device_id] != id,
        peers.dom().contains(by_device[identity.device_id]),
        !peers[by_device[identity.device_id]].online,
        published_on_record(peers, by_device),
    ensures
        ({
            let c = identity_applied(peers, by_device, id, identity);
            let holder = by_device[identity.device_id];
            &&& !c.peers.dom().contains(holder)
            &&& c.by_device[identity.device_id] == id
            &&& c.peers[id].published() == Some(identity.device_id)
            &&& c.events.len() == 2
            &&& c.events[0] is Left
            &&& c.events[1] == EventModel::Identity(c.peers[id])
        }),
{
    assert(peers.dom().contains(id));
}

/// A peer whose device id changes gives up the old one.
pub proof fn law_rotation_frees_old_device(
    peers: Map<Seq<char>, PeerModel>,
    by_device: Map<Seq<char>, Seq<char>>,
    id: Seq<char>,
    identity: IdentityModel,
)
    requires
        peers.dom().contains(id),
        peers[id].published() is Some,
        peers[id].published() != Some(identity.device_id),
    ensures
        !identity_applied(peers, by_device, id, identity).by_device.dom().contains(
            peers[id].published()->0,
        ),
{
}

/// Saying the same again changes nothing and is not reported again.
pub proof fn law_identity_is_idempotent(
    peers: Map<Seq<char>, PeerModel>,
    by_device: Map<Seq<char>, Seq<char>>,
    id: Seq<char>,
    identity: IdentityModel,
)
    ensures
        ({
            let once = identity_applied(peers, by_device, id, identity);
            let twice = identity_applied(once.peers, once.by_device, id, identity);
            &&& twice.peers == once.peers
            &&& twice.by_device == once.by_device
            &&& twice.events == Seq::<EventModel>::empty()
        }),
{
    let once = identity_applied(peers, by_device, id, identity);
    let twice = identity_applied(once.peers, once.by_device, id, identity);
    if peers.dom().contains(id) {
        assert(once.peers.insert(id, once.peers[id]) =~= once.peers);
        assert(with_identity(once.peers[id], identity, once.peers[id].identity_suppressed)
            == once.peers[id]);
    }
}

// ---------------------------------------------------------------------------
// Every operation keeps the invariant
// ---------------------------------------------------------------------------

proof fn lemma_entered(m: RegistryModel, id: Seq<char>, entry: PeerModel)
    requires
        published_on_record(m.peers, m.by_device),
        forall|k: Seq<char>| #[trigger]
            m.peers.dom().contains(k) ==> m.peers[k].id == k && m.peers[k].ws_connected
                == m.connected(k) && 1 <= m.peers[k].generation <= m.stays(k),
        entry.published() is Some ==> m.by_device.dom().contains(entry.published()->0)
            && m.by_device[entry.published()->0] == id,
    ensures
        ({
            let c = m.entered(id, entry);
            &&& published_on_record(c.peers, c.by_device)
            &&& c.peers.dom().contains(id)
            &&& c.peers[id].id == entry.id
            &&& c.peers[id].ws_connected == entry.ws_connected
            &&& c.peers[id].generation == entry.generation
            &&& c.peers[id].online == entry.online
            &&& forall|k: Seq<char>|
                k != id && #[trigger] c.peers.dom().contains(k) ==> m.peers.dom().contains(k)
                    && c.peers[k] == m.peers[k]
        }),
{
    let peers = m.peers.insert(id, entry);
    assert(published_on_record(peers, m.by_device)) by {
        assert forall|k: Seq<char>| #[trigger]
            peers.dom().contains(k) && peers[k].published() is Some implies m.by_device.dom().contains(
            peers[k].published()->0,
        ) && m.by_device[peers[k].published()->0] == k by {
            if k != id {
                assert(m.peers.dom().contains(k));
            }
        }
    }
    if m.pending.dom().contains(id) {
        law_identity_keeps_record(peers, m.by_device, id, m.pending[id]);
    }
}

/// A joining peer keeps the registry consistent.
pub proof fn law_joined_keeps_invariant(m: RegistryModel, p: NetworkPeerModel)
    requires
        consistent(m),
        m.stays(p.id) < u64::MAX,
    ensures
        consistent(joined(m, p).0),
{
    let entry = joined_entry(m, p);
    lemma_entered(m, p.id, entry);
    let after = joined(m, p).0;
    assert(entries_agree(after)) by {
        assert forall|k: Seq<char>| #[trigger]
            after.peers.dom().contains(k) implies after.peers[k].id == k
            && after.peers[k].ws_connected == after.connected(k) && 1 <= after.peers[k].generation
            <= after.stays(k) by {
            if k != p.id {
                assert(m.peers.dom().contains(k));
                assert(after.stays(k) == m.stays(k));
            }
        }
    }
}

/// A peer's new network data keep the registry consistent.
pub proof fn law_updated_keeps_invariant(m: RegistryModel, p: NetworkPeerModel)
    requires
        consistent(m),
        m.peers.dom().contains(p.id) || m.stays(p.id) < u64::MAX,
    ensures
        consistent(updated(m, p).0),
{
    let entry = updated_entry(m, p);
    if m.peers.dom().contains(p.id) {
        assert(entry.published() == m.peers[p.id].published());
    }
    lemma_entered(m, p.id, entry);
    let after = updated(m, p).0;
    assert(entries_agree(after)) by {
        assert forall|k: Seq<char>| #[trigger]
            after.peers.dom().contains(k) implies after.peers[k].id == k
            && after.peers[k].ws_connected == after.connected(k) && 1 <= after.peers[k].generation
            <= after.stays(k) by {
            if k != p.id {
                assert(m.peers.dom().contains(k));
                assert(after.stays(k) == m.stays(k));
            }
        }
    }
}

/// A leaving peer keeps the registry consistent, whoever inherits.
pub proof fn law_left_keeps_invariant(m: RegistryModel, id: Seq<char>, heir: Option<Seq<char>>)
    requires
        consistent(m),
        may_inherit(m, id, heir),
    ensures
        consistent(left(m, id, heir).0),
{
    let after = left(m, id, heir).0;
    assert forall|k: Seq<char>| #[trigger]
        after.peers.dom().contains(k) && after.peers[k].published() is Some implies after.by_device.dom().contains(
    after.peers[k].published()->0) && after.by_device[after.peers[k].published()->0] == k by {
        assert(m.peers.dom().contains(k));
        if heir != Some(k) {
            assert(after.peers[k] == m.peers[k]);
        }
        if m.peers.dom().contains(id) {
            assert(m.peers.dom().contains(id));
        }
    }
    assert forall|k: Seq<char>| #[trigger] after.peers.dom().contains(k) implies after.peers[k].id
        == k && after.peers[k].ws_connected == after.connected(k) && 1 <= after.peers[k].generation
        <= after.stays(k) by {
        assert(m.peers.dom().contains(k));
        assert(after.stays(k) == m.stays(k));
    }
}

/// Every event of the network keeps the registry consistent.
pub proof fn law_network_event_keeps_invariant(
    m: RegistryModel,
    event: NetworkEventModel,
    after: RegistryModel,
    effects: EffectsModel,
)
    requires
        consistent(m),
        handles(m, event, after, effects),
        event matches NetworkEventModel::Joined(p) ==> m.stays(p.id) < u64::MAX,
        event matches NetworkEventModel::Updated(p) ==> m.peers.dom().contains(p.id) || m.stays(
            p.id,
        ) < u64::MAX,
    ensures
        consistent(after),
{
    match event {
        NetworkEventModel::Joined(p) => law_joined_keeps_invariant(m, p),
        NetworkEventModel::Updated(p) => law_updated_keeps_invariant(m, p),
        NetworkEventModel::Left(id) => {
            let heir = choose|heir: Option<Seq<char>>| #[trigger]
                may_inherit(m, id, heir) && (after, effects) == left(m, id, heir);
            law_left_keeps_invariant(m, id, heir);
        },
        NetworkEventModel::AuthRequired(_) => {},
    }
}

proof fn lemma_attached(
    m: RegistryModel,
    peer: Seq<char>,
    conn: Connection,
    identity: Option<IdentityModel>,
)
    requires
        consistent(m),
    ensures
        consistent(attached(m, peer, conn, identity).0),
{
    let after = attached(m, peer, conn, identity).0;
    let known = m.peers.dom().contains(peer);
    let peers = if known {
        m.peers.insert(peer, PeerModel { ws_connected: true, ..m.peers[peer] })
    } else {
        m.peers
    };
    assert(published_on_record(peers, m.by_device)) by {
        assert forall|k: Seq<char>| #[trigger]
            peers.dom().contains(k) && peers[k].published() is Some implies m.by_device.dom().contains(
            peers[k].published()->0,
        ) && m.by_device[peers[k].published()->0] == k by {
            assert(m.peers.dom().contains(k));
        }
    }
    match identity {
        Some(i) => law_identity_keeps_record(peers, m.by_device, peer, i),
        None => {},
    }
    assert forall|k: Seq<char>| #[trigger] after.peers.dom().contains(k) implies after.peers[k].id
        == k && after.peers[k].ws_connected == after.connected(k) && 1 <= after.peers[k].generation
        <= after.stays(k) by {
        assert(m.peers.dom().contains(k));
        assert(after.stays(k) == m.stays(k));
    }
}

/// An accepted connection keeps the registry consistent.
pub proof fn law_accepted_keeps_invariant(
    m: RegistryModel,
    peer: Seq<char>,
    conn: u64,
    identity: Option<IdentityModel>,
)
    requires
        consistent(m),
    ensures
        consistent(accepted(m, peer, conn, identity).0),
{
    let c = Connection { id: conn, direction: ConnectionDirection::Inbound };
    lemma_attached(m, peer, c, identity);
    let a = attached(m, peer, c, identity).0;
    let after = accepted(m, peer, conn, identity).0;
    if installs(m, peer, ConnectionDirection::Inbound) {
        assert forall|k: Seq<char>| #[trigger]
            after.peers.dom().contains(k) implies after.peers[k].id == k
            && after.peers[k].ws_connected == after.connected(k) && 1 <= after.peers[k].generation
            <= after.stays(k) by {
            assert(a.peers.dom().contains(k));
        }
    }
}

/// A dial, whatever comes of it, keeps the registry consistent.
pub proof fn law_dialed_keeps_invariant(
    m: RegistryModel,
    id: Seq<char>,
    conn: u64,
    identity: Option<IdentityModel>,
)
    requires
        consistent(m),
    ensures
        consistent(dialed(m, id, conn, identity).0),
{
    let idle = RegistryModel { connecting: m.connecting.remove(id), ..m };
    assert(consistent(idle)) by {
        assert forall|k: Seq<char>| #[trigger] idle.peers.dom().contains(k) implies idle.peers[k].id
            == k && idle.peers[k].ws_connected == idle.connected(k) && 1 <= idle.peers[k].generation
            <= idle.stays(k) by {
            assert(m.peers.dom().contains(k));
        }
    }
    lemma_attached(
        idle,
        id,
        Connection { id: conn, direction: ConnectionDirection::Outbound },
        identity,
    );
}

proof fn lemma_unflagged(m: RegistryModel, id: Seq<char>)
    requires
        consistent(m),
    ensures
        consistent(
            RegistryModel {
                connections: m.connections.remove(id),
                peers: unflagged(m.peers, id),
                ..m
            },
        ),
{
    let after = RegistryModel {
        connections: m.connections.remove(id),
        peers: unflagged(m.peers, id),
        ..m
    };
    assert forall|k: Seq<char>| #[trigger]
        after.peers.dom().contains(k) && after.peers[k].published() is Some implies after.by_device.dom().contains(
    after.peers[k].published()->0) && after.by_device[after.peers[k].published()->0] == k by {
        assert(m.peers.dom().contains(k));
    }
    assert forall|k: Seq<char>| #[trigger] after.peers.dom().contains(k) implies after.peers[k].id
        == k && after.peers[k].ws_connected == after.connected(k) && 1 <= after.peers[k].generation
        <= after.stays(k) by {
        assert(m.peers.dom().contains(k));
        assert(after.stays(k) == m.stays(k));
    }
}

/// Giving up a connection keeps the registry consistent.
pub proof fn law_disconnected_keeps_invariant(m: RegistryModel, id: Seq<char>)
    requires
        consistent(m),
    ensures
        consistent(disconnected(m, id).0),
{
    lemma_unflagged(m, id);
}

/// Losing a connection keeps the registry consistent.
pub proof fn law_lost_keeps_invariant(m: RegistryModel, peer: Seq<char>, conn: u64)
    requires
        consistent(m),
    ensures
        consistent(lost(m, peer, conn).0),
{
    lemma_unflagged(m, peer);
}

/// Shutting down keeps the registry consistent, and a second time there is
/// nothing left to report or close.
pub proof fn law_shutdown_is_final(m: RegistryModel, order: Seq<Seq<char>>, again: Seq<Seq<char>>)
    requires
        consistent(m),
        lists_keys(order, m.connections),
        lists_keys(again, shut_down(m, order).0.connections),
    ensures
        consistent(shut_down(m, order).0),
        shut_down(shut_down(m, order).0, again).0 == shut_down(m, order).0,
        shut_down(shut_down(m, order).0, again).1.events == Seq::<EventModel>::empty(),
        shut_down(shut_down(m, order).0, again).1.close == Seq::<u64>::empty(),
{
    let once = shut_down(m, order).0;
    assert forall|k: Seq<char>| #[trigger]
        once.peers.dom().contains(k) && once.peers[k].published() is Some implies once.by_device.dom().contains(
    once.peers[k].published()->0) && once.by_device[once.peers[k].published()->0] == k by {
        assert(m.peers.dom().contains(k));
    }
    assert forall|k: Seq<char>| #[trigger] once.peers.dom().contains(k) implies once.peers[k].id == k
        && once.peers[k].ws_connected == once.connected(k) && 1 <= once.peers[k].generation
        <= once.stays(k) by {
        assert(m.peers.dom().contains(k));
        assert(once.stays(k) == m.stays(k));
    }
    if again.len() > 0 {
        assert(again.contains(again[0]));
        assert(!once.connections.dom().contains(again[0]));
    }
    let twice = shut_down(once, again).0;
    assert(twice.peers =~= once.peers);
    assert(twice.connections =~= once.connections);
}

// ---------------------------------------------------------------------------
// The record stays live
// ---------------------------------------------------------------------------

/// As long as peers join only while they are not known, the record of device
/// ids stays live when one joins.
pub proof fn law_joined_keeps_record_live(m: RegistryModel, p: NetworkPeerModel)
    requires
        consistent(m),
        record_is_live(m.peers, m.by_device),
        !m.peers.dom().contains(p.id),
    ensures
        record_is_live(joined(m, p).0.peers, joined(m, p).0.by_device),
{
    let entry = joined_entry(m, p);
    let peers = m.peers.insert(p.id, entry);
    assert(record_is_live(peers, m.by_device));
    assert(published_on_record(peers, m.by_device)) by {
        assert forall|k: Seq<char>| #[trigger]
            peers.dom().contains(k) && peers[k].published() is Some implies m.by_device.dom().contains(
            peers[k].published()->0,
        ) && m.by_device[peers[k].published()->0] == k by {
            assert(m.peers.dom().contains(k));
        }
    }
    if m.pending.dom().contains(p.id) {
        law_identity_keeps_record_live(peers, m.by_device, p.id, m.pending[p.id]);
    }
}

/// New network data keep the record live.
pub proof fn law_updated_keeps_record_live(m: RegistryModel, p: NetworkPeerModel)
    requires
        consistent(m),
        record_is_live(m.peers, m.by_device),
    ensures
        record_is_live(updated(m, p).0.peers, updated(m, p).0.by_device),
{
    let entry = updated_entry(m, p);
    let peers = m.peers.insert(p.id, entry);
    if m.peers.dom().contains(p.id) {
        assert(entry.published() == m.peers[p.id].published());
    }
    assert(record_is_live(peers, m.by_device));
    assert(published_on_record(peers, m.by_device)) by {
        assert forall|k: Seq<char>| #[trigger]
            peers.dom().contains(k) && peers[k].published() is Some implies m.by_device.dom().contains(
            peers[k].published()->0,
        ) && m.by_device[peers[k].published()->0] == k by {
            assert(m.peers.dom().contains(k));
        }
    }
    if m.pending.dom().contains(p.id) {
        law_identity_keeps_record_live(peers, m.by_device, p.id, m.pending[p.id]);
    }
}

/// A leaving peer keeps the record live; it is known no more, on record for
/// nothing, and its last state is reported offline.
pub proof fn law_left_forgets(m: RegistryModel, id: Seq<char>, heir: Option<Seq<char>>)
    requires
        consistent(m),
        record_is_live(m.peers, m.by_device),
        may_inherit(m, id, heir),
    ensures
        record_is_live(left(m, id, heir).0.peers, left(m, id, heir).0.by_device),
        !left(m, id, heir).0.peers.dom().contains(id),
        !left(m, id, heir).0.connected(id),
        !left(m, id, heir).0.pending.dom().contains(id),
        forall|d: Seq<char>| #[trigger]
            left(m, id, heir).0.by_device.dom().contains(d) ==> left(m, id, heir).0.by_device[d]
                != id,
        m.peers.dom().contains(id) ==> left(m, id, heir).1.events.last() == EventModel::Left(
            departed(m.peers[id]),
        ),
        !m.peers.dom().contains(id) ==> forall|i: int|
            0 <= i < left(m, id, heir).1.events.len() ==> !((#[trigger] left(
                m,
                id,
                heir,
            ).1.events[i]) is Left),
{
    let after = left(m, id, heir).0;
    assert forall|d: Seq<char>| #[trigger] after.by_device.dom().contains(d) implies after.by_device[d]
        != id && after.peers.dom().contains(after.by_device[d])
        && after.peers[after.by_device[d]].published() == Some(d) by {
        if heir is Some && d == freed(m, id)->0 {
            assert(m.peers.dom().contains(heir->0));
        } else {
            assert(m.by_device.dom().contains(d));
            assert(m.peers[m.by_device[d]].published() == Some(d));
            if m.by_device[d] == id {
                assert(freed(m, id) == Some(d));
            }
            if heir is Some && m.by_device[d] == heir->0 {
                assert(m.peers[heir->0].identity_suppressed);
            }
        }
    }
}

/// A peer that gives up a device id leaves it to a peer that waits for it,
/// if there is one, which then publishes it.
pub proof fn law_waiting_peer_inherits(
    m: RegistryModel,
    id: Seq<char>,
    heir: Option<Seq<char>>,
    waiting: Seq<char>,
    device: Seq<char>,
)
    requires
        freed(m, id) == Some(device),
        may_inherit(m, id, heir),
        waiting != id,
        m.peers.dom().contains(waiting),
        waits_for(m.peers[waiting], device),
    ensures
        heir is Some,
        left(m, id, heir).0.by_device[device] == heir->0,
        left(m, id, heir).0.peers[heir->0].published() == Some(device),
{
}

// ---------------------------------------------------------------------------
// Stays
// ---------------------------------------------------------------------------

/// Each stay of a node gets a larger number than every stay before it.
pub proof fn law_generations_grow(m: RegistryModel, p: NetworkPeerModel)
    requires
        consistent(m),
        m.stays(p.id) < u64::MAX,
    ensures
        joined(m, p).0.peers.dom().contains(p.id),
        joined(m, p).0.peers[p.id].generation == m.stays(p.id) + 1,
        joined(m, p).0.stays(p.id) == m.stays(p.id) + 1,
        m.peers.dom().contains(p.id) ==> joined(m, p).0.peers[p.id].generation
            > m.peers[p.id].generation,
{
    lemma_entered(m, p.id, joined_entry(m, p));
}

/// No event of the network takes a stay back.
pub proof fn law_stays_never_shrink(
    m: RegistryModel,
    event: NetworkEventModel,
    after: RegistryModel,
    effects: EffectsModel,
    id: Seq<char>,
)
    requires
        handles(m, event, after, effects),
        event matches NetworkEventModel::Joined(p) ==> m.stays(p.id) < u64::MAX,
        event matches NetworkEventModel::Updated(p) ==> m.peers.dom().contains(p.id) || m.stays(
            p.id,
        ) < u64::MAX,
    ensures
        m.stays(id) <= after.stays(id),
{
}

/// A handle never reaches another stay than its own: unless its text happens
/// to be a node id, a device id or a name, the handle of a stay that is over
/// is refused as gone.
pub proof fn law_stale_handle_is_gone(
    m: RegistryModel,
    id: Seq<char>,
    generation: u64,
    result: Result<Seq<char>, ErrorModel>,
)
    requires
        id.len() > 0,
        !id.contains(':'),
        !m.peers.dom().contains(id) || m.peers[id].generation != generation,
        !m.peers.dom().contains(peer_ref_text(id, generation as nat)),
        !m.by_device.dom().contains(peer_ref_text(id, generation as nat)),
        !is_name(m, peer_ref_text(id, generation as nat)),
        routes(m, peer_ref_text(id, generation as nat), result),
    ensures
        result == Err::<Seq<char>, ErrorModel>(
            ErrorModel::PeerGone(peer_ref_text(id, generation as nat)),
        ),
{
    let t = peer_ref_text(id, generation as nat);
    law_peer_ref_round_trip(id, generation as nat);
    assert(is_some_ref(t));
    match result {
        Ok(other) => {
            let g = choose|g: nat| #[trigger]
                is_peer_ref(t, other, g) && m.peers.dom().contains(other)
                    && m.peers[other].generation == g;
            law_peer_ref_is_unambiguous(t, id, generation as nat, other, g);
        },
        Err(_) => {},
    }
}

/// The handle of a stay that is not over reaches it.
pub proof fn law_live_handle_routes(
    m: RegistryModel,
    id: Seq<char>,
    result: Result<Seq<char>, ErrorModel>,
)
    requires
        id.len() > 0,
        !id.contains(':'),
        m.peers.dom().contains(id),
        !m.peers.dom().contains(peer_ref_text(id, m.peers[id].generation as nat)),
        !m.by_device.dom().contains(peer_ref_text(id, m.peers[id].generation as nat)),
        !is_name(m, peer_ref_text(id, m.peers[id].generation as nat)),
        routes(m, peer_ref_text(id, m.peers[id].generation as nat), result),
    ensures
        result == Ok::<Seq<char>, ErrorModel>(id),
{
    let g = m.peers[id].generation as nat;
    let t = peer_ref_text(id, g);
    law_peer_ref_round_trip(id, g);
    assert(is_some_ref(t));
    assert(is_live_ref(m, t, id));
    match result {
        Ok(other) => {
            let h = choose|h: nat| #[trigger]
                is_peer_ref(t, other, h) && m.peers.dom().contains(other)
                    && m.peers[other].generation == h;
            law_peer_ref_is_unambiguous(t, id, g, other, h);
        },
        Err(_) => {},
    }
}

/// What resolves, in a registry whose record is live, resolves to a known
/// peer.
pub proof fn law_routes_reach_known_peers(
    m: RegistryModel,
    target: Seq<char>,
    result: Result<Seq<char>, ErrorModel>,
)
    requires
        record_is_live(m.peers, m.by_device),
        routes(m, target, result),
        result is Ok,
    ensures
        m.peers.dom().contains(result->Ok_0),
{
}

/// A device id never routes to a peer that does not publish it.
pub proof fn law_device_routes_to_publisher(
    m: RegistryModel,
    device: Seq<char>,
    result: Result<Seq<char>, ErrorModel>,
)
    requires
        record_is_live(m.peers, m.by_device),
        !m.peers.dom().contains(device),
        m.by_device.dom().contains(device),
        routes(m, device, result),
    ensures
        result is Ok,
        m.peers[result->Ok_0].published() == Some(device),
{
}

// ---------------------------------------------------------------------------
// Connections and dialing
// ---------------------------------------------------------------------------

/// Two nodes that dial each other at once keep the same physical connection:
/// what one prefers to have opened, the other prefers to have accepted.
pub proof fn law_cross_dials_agree(a: Seq<char>, b: Seq<char>)
    requires
        a.len() > 0,
        b.len() > 0,
        a != b,
    ensures
        preferred_direction(a, b) is Some,
        preferred_direction(b, a) is Some,
        (preferred_direction(a, b)->0 == ConnectionDirection::Outbound) <==> (preferred_direction(
            b,
            a,
        )->0 == ConnectionDirection::Inbound),
{
    lemma_text_before_total(a, b);
}

/// A connection of the preferred direction is never replaced.
pub proof fn law_preferred_connection_stands(
    m: RegistryModel,
    peer: Seq<char>,
    direction: ConnectionDirection,
)
    requires
        m.connected(peer),
        preferred_direction(m.local_id, peer) == Some(m.connections[peer].direction),
    ensures
        !installs(m, peer, direction),
{
}

/// A node that admits listed logins only never dials a peer whose login is
/// unknown, for traffic or for its identity.
pub proof fn law_gate_never_dials_unknown_login(
    m: RegistryModel,
    id: Seq<char>,
    backoff: Option<u64>,
)
    requires
        m.login_gated,
        m.peers.dom().contains(id),
        m.peers[id].login_name is None,
    ensures
        !(wants_connection(m, id, backoff) is Dial),
        !(wants_connection(m, id, backoff) is Wait),
        !(wants_identity(m, id, backoff) is Dial),
        m.peers[id].online && !m.connected(id) ==> wants_connection(m, id, backoff)
            == DialModel::Fail(ErrorModel::LoginUnknown(id)),
{
}

/// An open connection is used whatever is known of the peer's login.
pub proof fn law_open_connection_is_used(m: RegistryModel, id: Seq<char>, backoff: Option<u64>)
    requires
        m.connected(id),
    ensures
        wants_connection(m, id, backoff) == DialModel::Done,
        wants_identity(m, id, backoff) == DialModel::Done,
{
}

/// A node that admits every login dials the same, whatever is known of the
/// peer's login.
pub proof fn law_ungated_ignores_login(
    m: RegistryModel,
    id: Seq<char>,
    login: Option<Seq<char>>,
    backoff: Option<u64>,
)
    requires
        !m.login_gated,
        m.peers.dom().contains(id),
    ensures
        ({
            let other = RegistryModel {
                peers: m.peers.insert(id, PeerModel { login_name: login, ..m.peers[id] }),
                ..m
            };
            &&& wants_connection(other, id, backoff) == wants_connection(m, id, backoff)
            &&& wants_identity(other, id, backoff) == wants_identity(m, id, backoff)
        }),
{
}

/// While one dial of a node is under way no second one starts.
pub proof fn law_one_dial_at_a_time(
    m: RegistryModel,
    id: Seq<char>,
    first: Option<u64>,
    second: Option<u64>,
    addr: AddrModel,
    polls: u32,
)
    requires
        wants_connection(m, id, first) is Dial || wants_identity(m, id, first) is Dial,
    ensures
        ({
            let noted = dial_noted(m, id, DialModel::Dial(addr));
            &&& !(wants_connection(noted, id, second) is Dial)
            &&& !(wants_identity(noted, id, second) is Dial)
            &&& !(looked_again(noted, id, addr, polls) is Dial)
        }),
{
}

/// An answerer that says it is another node than the one dialed changes
/// nothing: its connection is closed and nothing is reported.
pub proof fn law_impostor_changes_nothing(
    m: RegistryModel,
    id: Seq<char>,
    conn: u64,
    identity: IdentityModel,
)
    requires
        identity.tailscale_id != id,
    ensures
        ({
            let (after, d) = dialed(m, id, conn, Some(identity));
            &&& after.peers == m.peers
            &&& after.by_device == m.by_device
            &&& after.connections == m.connections
            &&& d.result is Err
            &&& d.effects.events == Seq::<EventModel>::empty()
            &&& d.effects.close == seq![conn]
        }),
{
}

/// A node without an entry never speaks for a device id that a known peer
/// publishes.
pub proof fn law_unannounced_never_steals(
    m: RegistryModel,
    id: Seq<char>,
    owner: Seq<char>,
)
    requires
        consistent(m),
        !m.peers.dom().contains(id),
        m.peers.dom().contains(owner),
        m.peers[owner].published() is Some,
    ensures
        speaks_for(m, id) != m.peers[owner].published(),
{
}

/// A node without an entry speaks for nothing once its connection is gone.
pub proof fn law_departed_connection_is_silent(m: RegistryModel, id: Seq<char>)
    requires
        !m.peers.dom().contains(id),
    ensures
        speaks_for(disconnected(m, id).0, id) is None,
{
}

/// Network data alone never connect a peer or teach its identity: an update
/// keeps what the session layer knows.
pub proof fn law_update_keeps_session_state(m: RegistryModel, p: NetworkPeerModel)
    requires
        consistent(m),
        m.peers.dom().contains(p.id),
        !m.pending.dom().contains(p.id),
    ensures
        ({
            let after = updated(m, p).0.peers[p.id];
            let before = m.peers[p.id];
            &&& after.generation == before.generation
            &&& after.ws_connected == before.ws_connected
            &&& after.identity == before.identity
            &&& after.identity_suppressed == before.identity_suppressed
            &&& after.login_name == p.login_name
            &&& after.online == p.online
        }),
{
}

} // verus!
