//! Whom a target reaches, and when a peer is dialed for it.
use vstd::prelude::*;

use crate::network::types::{AddrModel, NetworkPeerModel};
use crate::session::eager::{eager_step, EagerStep};
use crate::session::error::ErrorModel;
use crate::session::model::{
    installs, joined, looked_again, preferred_direction, routes, speaks_for,
    wants_connection, wants_identity, ConnectionDirection, DialModel, RegistryModel,
};
use crate::session::peer::{is_peer_ref, PeerModel};
use crate::session::registry::not_taken;
use crate::text::text_before;

verus! {

// ---------------------------------------------------------------------------
// Routing
// ---------------------------------------------------------------------------

/// A node id reaches its own node, whatever else has that text for a name.
pub proof fn law_node_id_routes_to_itself(
    m: RegistryModel,
    id: Seq<char>,
    result: Result<Seq<char>, ErrorModel>,
)
    requires
        m.peers.dom().contains(id),
        routes(m, id, result),
    ensures
        result == Ok::<Seq<char>, ErrorModel>(id),
{
}

/// A device id on record reaches the node on record, unless a node has the
/// text for its id.
pub proof fn law_device_id_routes_to_its_node(
    m: RegistryModel,
    device: Seq<char>,
    result: Result<Seq<char>, ErrorModel>,
)
    requires
        !m.peers.dom().contains(device),
        m.by_device.dom().contains(device),
        routes(m, device, result),
    ensures
        result == Ok::<Seq<char>, ErrorModel>(m.by_device[device]),
{
}

/// The peer has the host name, or publishes the device name.
pub open spec fn is_called(p: PeerModel, name: Seq<char>) -> bool {
    ||| p.name == name
    ||| (p.identity matches Some(i) && i.device_name == name && !p.identity_suppressed)
}

/// The host name of a known peer, and the device name that it publishes, reach
/// a peer of that name, unless a node or a device has the text for its id.
pub proof fn law_names_route(
    m: RegistryModel,
    peer: Seq<char>,
    name: Seq<char>,
    result: Result<Seq<char>, ErrorModel>,
)
    requires
        !m.peers.dom().contains(name),
        !m.by_device.dom().contains(name),
        m.peers.dom().contains(peer),
        m.peers[peer].name == name || (m.peers[peer].identity matches Some(i) && i.device_name
            == name && !m.peers[peer].identity_suppressed),
        routes(m, name, result),
    ensures
        result is Ok,
        m.peers.dom().contains(result->Ok_0),
        is_called(m.peers[result->Ok_0], name),
{
}

/// The only known peer of a name is the one that is reached.
pub proof fn law_only_peer_of_a_name_is_meant(
    m: RegistryModel,
    peer: Seq<char>,
    name: Seq<char>,
    result: Result<Seq<char>, ErrorModel>,
)
    requires
        !m.peers.dom().contains(name),
        !m.by_device.dom().contains(name),
        m.peers.dom().contains(peer),
        is_called(m.peers[peer], name),
        forall|k: Seq<char>| #[trigger]
            m.peers.dom().contains(k) && is_called(m.peers[k], name) ==> k == peer,
        routes(m, name, result),
    ensures
        result == Ok::<Seq<char>, ErrorModel>(peer),
{
    law_names_route(m, peer, name, result);
}

/// A peer that has just joined is reached by its host name, which is all that
/// it is called by then.
pub proof fn law_joined_peer_is_reached(
    m: RegistryModel,
    p: NetworkPeerModel,
    result: Result<Seq<char>, ErrorModel>,
)
    requires
        !m.pending.dom().contains(p.id),
        !joined(m, p).0.peers.dom().contains(p.hostname),
        !joined(m, p).0.by_device.dom().contains(p.hostname),
        routes(joined(m, p).0, p.hostname, result),
    ensures
        result is Ok,
        joined(m, p).0.peers.dom().contains(result->Ok_0),
        is_called(joined(m, p).0.peers[result->Ok_0], p.hostname),
{
    law_names_route(joined(m, p).0, p.id, p.hostname, result);
}

/// What nobody is called reaches nobody: a text that is no node id, no device
/// id, no name, and no handle, is refused as unknown.
pub proof fn law_unknown_target_is_refused(
    m: RegistryModel,
    target: Seq<char>,
    result: Result<Seq<char>, ErrorModel>,
)
    requires
        !m.peers.dom().contains(target),
        !m.by_device.dom().contains(target),
        forall|k: Seq<char>| #[trigger] m.peers.dom().contains(k) ==> !is_called(m.peers[k], target),
        !target.contains(':'),
        routes(m, target, result),
    ensures
        result == Err::<Seq<char>, ErrorModel>(ErrorModel::UnknownPeer(target)),
{
    assert forall|id: Seq<char>, g: nat| !is_peer_ref(target, id, g) by {
        assert forall|at: int| !#[trigger] crate::session::peer::splits_ref(target, at, id, g) by {
            if 0 <= at < target.len() {
                assert(target[at] != ':');
            }
        }
    }
}

// ---------------------------------------------------------------------------
// Dialing
// ---------------------------------------------------------------------------

/// A peer with a connection needs no dial. One without is dialed, at its
/// address, if it is known and online, its login is known where that matters,
/// and its dials need not pause; a dial that is under way is waited for. Else
/// the dial is refused with the first of these reasons that holds.
pub proof fn law_dial_or_reason(m: RegistryModel, id: Seq<char>, backoff: Option<u64>)
    ensures
        ({
            let d = wants_connection(m, id, backoff);
            let p = m.peers[id];
            &&& m.connections.dom().contains(id) ==> d == DialModel::Done
            &&& !m.connections.dom().contains(id) ==> {
                &&& !m.peers.dom().contains(id) ==> d == DialModel::Fail(
                    ErrorModel::UnknownPeer(id),
                )
                &&& m.peers.dom().contains(id) && !p.online ==> d == DialModel::Fail(
                    ErrorModel::PeerOffline(id),
                )
                &&& m.peers.dom().contains(id) && p.online ==> {
                    &&& m.login_gated && p.login_name is None ==> d == DialModel::Fail(
                        ErrorModel::LoginUnknown(id),
                    )
                    &&& !m.login_gated || p.login_name is Some ==> match backoff {
                        Some(nanos) => d == DialModel::Fail(ErrorModel::ReconnectBackoff(nanos)),
                        None => {
                            let addr = AddrModel {
                                ip: Some(p.ip),
                                hostname: p.name,
                                dns_name: None,
                            };
                            if m.connecting.contains(id) {
                                d == DialModel::Wait(addr)
                            } else {
                                d == DialModel::Dial(addr)
                            }
                        },
                    }
                }
            }
        }),
{
}

/// To learn an identity a peer is dialed as for traffic, but not where its
/// device id is known already, nor beside another dial.
pub proof fn law_identity_is_dialed_for(m: RegistryModel, id: Seq<char>, backoff: Option<u64>)
    ensures
        ({
            let d = wants_identity(m, id, backoff);
            let p = m.peers[id];
            let known = m.peers.dom().contains(id) && p.online && p.identity is Some
                && !p.identity_suppressed;
            &&& m.connections.dom().contains(id) || known ==> d == DialModel::Done
            &&& !m.connections.dom().contains(id) && !known ==> d == match wants_connection(
                m,
                id,
                backoff,
            ) {
                DialModel::Wait(_) => DialModel::Fail(
                    ErrorModel::ConnectFailed("connection already in progress"@),
                ),
                other => other,
            }
        }),
{
}

/// Who waits for another dial uses its connection, dials itself when the other
/// failed, and gives up after fifty looks.
pub proof fn law_waiting_ends(m: RegistryModel, id: Seq<char>, addr: AddrModel, polls: u32)
    ensures
        m.connections.dom().contains(id) ==> looked_again(m, id, addr, polls) == DialModel::Done,
        !m.connections.dom().contains(id) && !m.connecting.contains(id) ==> looked_again(
            m,
            id,
            addr,
            polls,
        ) == DialModel::Dial(addr),
        !m.connections.dom().contains(id) && m.connecting.contains(id) ==> looked_again(
            m,
            id,
            addr,
            polls,
        ) == if polls < 50 {
            DialModel::Wait(addr)
        } else {
            DialModel::Fail(ErrorModel::ConnectFailed("connection already in progress"@))
        },
{
}

/// A search for an identity ends with success, or with a peer that is unknown
/// or offline; any other failure is followed by another try, after the pause
/// that is asked for, a tenth of a second where none is, and never less than a
/// fortieth.
pub proof fn law_search_goes_on(result: Result<(), ErrorModel>, pause: Option<u64>)
    ensures
        eager_step(result, pause) == EagerStep::Stop <==> (match result {
            Ok(_) => true,
            Err(ErrorModel::UnknownPeer(_)) => true,
            Err(ErrorModel::PeerOffline(_)) => true,
            Err(_) => false,
        }),
        eager_step(result, pause) matches EagerStep::RetryAfter(n) ==> n >= 25_000_000 && (
        pause matches Some(w) ==> n == w || (w < 25_000_000 && n == 25_000_000)) && (pause is None
            ==> n == 100_000_000),
{
}

// ---------------------------------------------------------------------------
// Two connections at once
// ---------------------------------------------------------------------------

proof fn lemma_before(common: Seq<char>, a: Seq<char>, b: Seq<char>)
    requires
        b.len() > 0,
        a.len() == 0 || (a[0] as int) < (b[0] as int),
    ensures
        text_before(common + a, common + b),
        !text_before(common + b, common + a),
    decreases common.len(),
{
    let x = common + a;
    let y = common + b;
    if common.len() == 0 {
        assert(x =~= a);
        assert(y =~= b);
    } else {
        assert(x.drop_first() =~= common.drop_first() + a);
        assert(y.drop_first() =~= common.drop_first() + b);
        lemma_before(common.drop_first(), a, b);
    }
}

/// The node whose id comes first in the order of texts keeps the connection
/// that it opened, and the other the one that it accepted.
pub proof fn law_first_id_keeps_its_dial(common: Seq<char>, a: Seq<char>, b: Seq<char>)
    requires
        common.len() + a.len() > 0,
        b.len() > 0,
        a.len() == 0 || (a[0] as int) < (b[0] as int),
    ensures
        preferred_direction(common + a, common + b) == Some(ConnectionDirection::Outbound),
        preferred_direction(common + b, common + a) == Some(ConnectionDirection::Inbound),
{
    lemma_before(common, a, b);
    let x = common + a;
    let y = common + b;
    if x == y {
        assert(x.len() == y.len());
        assert(x[common.len() as int] == a[0]);
        assert(y[common.len() as int] == b[0]);
    }
}

/// The first connection of a peer is kept. A second one is kept only where it
/// has the preferred direction and the first has not; a node without an id
/// prefers none.
pub proof fn law_second_connection_needs_preference(
    m: RegistryModel,
    peer: Seq<char>,
    direction: ConnectionDirection,
)
    ensures
        !m.connections.dom().contains(peer) ==> installs(m, peer, direction),
        m.connections.dom().contains(peer) ==> (installs(m, peer, direction) <==> (
        m.connections[peer].direction != direction && preferred_direction(m.local_id, peer) == Some(
            direction,
        ))),
        m.connections.dom().contains(peer) && m.local_id.len() == 0 ==> !installs(
            m,
            peer,
            direction,
        ),
{
}

// ---------------------------------------------------------------------------
// Traffic
// ---------------------------------------------------------------------------

/// Traffic of a known peer speaks for the device id that the peer publishes,
/// and for none where it publishes none.
pub proof fn law_known_peer_speaks_for_itself(m: RegistryModel, id: Seq<char>)
    requires
        m.peers.dom().contains(id),
    ensures
        speaks_for(m, id) == match m.peers[id].identity {
            Some(i) => if m.peers[id].identity_suppressed {
                None
            } else {
                Some(i.device_id)
            },
            None => None,
        },
{
}

/// Traffic of a node that the network has not announced yet speaks for the
/// device id of its hello, as long as it is connected and nobody publishes
/// that id.
pub proof fn law_unannounced_speaks_by_its_hello(m: RegistryModel, id: Seq<char>)
    requires
        !m.peers.dom().contains(id),
    ensures
        speaks_for(m, id) is Some <==> m.connections.dom().contains(id) && m.pending.dom().contains(
            id,
        ) && !m.by_device.dom().contains(m.pending[id].device_id),
        speaks_for(m, id) matches Some(d) ==> d == m.pending[id].device_id,
{
}

/// The report of a broadcast names exactly the peers that did not take their
/// message.
pub proof fn law_report_names_the_failed(
    targets: Seq<(String, u64)>,
    taken: Seq<bool>,
    name: Seq<char>,
)
    requires
        targets.len() <= taken.len(),
    ensures
        not_taken(targets, taken).contains(name) <==> exists|i: int|
            0 <= i < targets.len() && !taken[i] && (#[trigger] targets[i]).0@ == name,
    decreases targets.len(),
{
    if targets.len() > 0 {
        let front = targets.drop_last();
        let last = targets.len() - 1;
        law_report_names_the_failed(front, taken, name);
        let some = not_taken(front, taken);
        let all = not_taken(targets, taken);
        if all.contains(name) {
            let j = choose|j: int| 0 <= j < all.len() && all[j] == name;
            if j < some.len() {
                assert(some[j] == name);
                assert(some.contains(name));
                let i = choose|i: int|
                    0 <= i < front.len() && !taken[i] && (#[trigger] front[i]).0@ == name;
                assert(targets[i].0@ == name);
            } else {
                assert(targets[last].0@ == name);
            }
        }
        if exists|i: int| 0 <= i < targets.len() && !taken[i] && (#[trigger] targets[i]).0@ == name {
            let i = choose|i: int|
                0 <= i < targets.len() && !taken[i] && (#[trigger] targets[i]).0@ == name;
            if i == last {
                assert(all[some.len() as int] == name);
            } else {
                assert(front[i].0@ == name);
                assert(some.contains(name));
                let j = choose|j: int| 0 <= j < some.len() && some[j] == name;
                assert(all[j] == name);
            }
        }
    }
}

} // verus!
