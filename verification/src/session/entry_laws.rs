//! What entries of the registry, its errors and its options promise.
use vstd::prelude::*;

use crate::network::types::NetworkPeerModel;
use crate::session::eager::folded;
use crate::session::error::{duration_debug, ErrorModel};
use crate::session::hello::IdentityModel;
use crate::session::identity::{departed, with_identity};
use crate::session::model::{preferred_direction, ConnectionDirection};
use crate::session::peer::{peer_ref_text, state_of, PeerModel};
use crate::session::registry::{default_options, fresh, PeerRegistryOptions};
use crate::text::{decimal, text_before};

verus! {

/// A fresh entry says what the network says, each thing in its own place. It
/// has no connection and no identity yet.
pub proof fn law_fresh_entry_is_as_reported(p: NetworkPeerModel, generation: u64)
    ensures
        ({
            let e = state_of(p, generation);
            &&& e.id == p.id
            &&& e.generation == generation
            &&& e.name == p.hostname
            &&& e.ip == p.ip
            &&& e.online == p.online
            &&& e.os == p.os
            &&& e.last_seen == p.last_seen
            &&& e.login_name == p.login_name
            &&& !e.ws_connected
            &&& e.identity is None && !e.identity_suppressed
            &&& (p.relay matches Some(r) ==> e.connection_type == "relay:"@ + r)
            &&& p.relay is None && p.cur_addr is Some ==> e.connection_type == "direct"@
            &&& p.relay is None && p.cur_addr is None ==> e.connection_type == "unknown"@
        }),
{
}

/// An entry publishes the device id of its identity, unless that is suppressed.
pub proof fn law_identity_is_published(p: PeerModel, i: IdentityModel)
    ensures
        with_identity(p, i, false).published() == Some(i.device_id),
        with_identity(p, i, true).published() is None,
        with_identity(p, i, true).identity == Some(i),
        p.identity is None ==> p.published() is None,
        p.lacks_identity() <==> p.online && p.published() is None,
{
}

/// An entry that is gone is offline and unconnected, and otherwise as it was.
pub proof fn law_departed_entry_is_offline(p: PeerModel)
    ensures
        ({
            let d = departed(p);
            &&& !d.online && !d.ws_connected
            &&& d.id == p.id && d.generation == p.generation && d.name == p.name && d.ip == p.ip
            &&& d.identity == p.identity && d.identity_suppressed == p.identity_suppressed
            &&& d.login_name == p.login_name && d.os == p.os && d.last_seen == p.last_seen
            &&& d.connection_type == p.connection_type
        }),
{
}

/// A handle is the node id, a colon and the number of the stay.
pub proof fn law_handle_names_node_and_stay(id: Seq<char>, generation: nat)
    ensures
        peer_ref_text(id, generation).len() == id.len() + 1 + decimal(generation).len(),
        peer_ref_text(id, generation).take(id.len() as int) == id,
        peer_ref_text(id, generation)[id.len() as int] == ':',
        peer_ref_text(id, generation).skip(id.len() + 1int) == decimal(generation),
{
    assert(peer_ref_text(id, generation).take(id.len() as int) =~= id);
    assert(peer_ref_text(id, generation).skip(id.len() + 1int) =~= decimal(generation));
}

/// Of two nodes that dial each other, the one whose id comes first keeps the
/// connection that it opened, and the other the one that it accepted.
pub proof fn law_smaller_id_keeps_its_dial(local: Seq<char>, peer: Seq<char>)
    requires
        local.len() > 0,
    ensures
        local != peer && text_before(local, peer) ==> preferred_direction(local, peer) == Some(
            ConnectionDirection::Outbound,
        ),
        local != peer && !text_before(local, peer) ==> preferred_direction(local, peer) == Some(
            ConnectionDirection::Inbound,
        ),
        local == peer ==> preferred_direction(local, peer) is None,
        preferred_direction(Seq::empty(), peer) is None,
{
}

/// Every error names its kind first and then its cause.
pub proof fn law_session_errors_name_kind_and_cause(s: Seq<char>, n: u64)
    ensures
        ErrorModel::UnknownPeer(s).text() == "unknown peer: "@ + s,
        ErrorModel::PeerGone(s).text() == "peer gone: "@ + s,
        ErrorModel::PeerOffline(s).text() == "peer offline: "@ + s,
        ErrorModel::ConnectFailed(s).text() == "connect failed: "@ + s,
        ErrorModel::SendFailed(s).text() == "send failed: "@ + s,
        ErrorModel::ReconnectBackoff(n).text() == "reconnect backoff: retry after "@
            + duration_debug(n),
        ErrorModel::LoginUnknown(s).text() == "login unknown for peer: "@ + s,
        ErrorModel::Transport(s).text() == "transport error: "@ + s,
{
}

/// A delay falls into its window, and two hashes that differ by a whole window
/// have the same; a window of zero has none.
pub proof fn law_delays_fall_into_the_window(hash: u64, other: u64, window_ms: u64)
    ensures
        window_ms == 0 ==> folded(hash, window_ms) == 0,
        window_ms > 0 ==> folded(hash, window_ms) < window_ms,
        hash < window_ms ==> folded(hash, window_ms) == hash,
        window_ms > 0 && hash + window_ms == other ==> folded(other, window_ms) == folded(
            hash,
            window_ms,
        ),
{
    if window_ms > 0 && hash < window_ms {
        assert(hash as int % window_ms as int == hash) by (nonlinear_arith)
            requires
                0 <= hash < window_ms,
        ;
    }
    if window_ms > 0 && hash + window_ms == other {
        vstd::arithmetic::div_mod::lemma_mod_add_multiples_vanish(hash as int, window_ms as int);
    }
}

/// Unless told otherwise a registry learns identities by itself, four at a time
/// and spread over a quarter of a second, and lets every login in.
pub proof fn law_default_options()
    ensures
        default_options().eager_identity,
        default_options().eager_identity_concurrency == 4,
        default_options().eager_identity_jitter_ms == 250,
        !default_options().login_gated,
{
}

/// A registry that was just made knows nobody and does as its options say; it
/// learns at least one identity at a time.
pub proof fn law_fresh_registry_knows_nobody(
    local_id: Seq<char>,
    options: PeerRegistryOptions,
    id: Seq<char>,
)
    ensures
        ({
            let m = fresh(local_id, options);
            &&& m.local_id == local_id
            &&& m.login_gated == options.login_gated
            &&& m.eager_identity == options.eager_identity
            &&& m.jitter_ms == options.eager_identity_jitter_ms
            &&& options.eager_identity_concurrency > 0 ==> m.concurrency
                == options.eager_identity_concurrency
            &&& options.eager_identity_concurrency == 0 ==> m.concurrency == 1
            &&& !m.peers.dom().contains(id) && !m.by_device.dom().contains(id)
            &&& !m.connections.dom().contains(id) && !m.pending.dom().contains(id)
            &&& !m.generations.dom().contains(id)
            &&& !m.connecting.contains(id) && !m.inflight.contains(id)
        }),
{
}

} // verus!
