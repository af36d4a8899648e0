//! What the rows of the sidecar promise.
use vstd::prelude::*;

use crate::network::login_allow::login_passes;
use crate::network::tailscale::protocol::SidecarPeer;
use crate::network::tailscale::rows::{
    gone, is_app_host, present_event, reports_change, row_applied, row_peer, snapshot_peers,
};
use crate::network::types::{NetworkEventModel, NetworkPeerModel};
use crate::text_map::lists_keys;

verus! {

/// A host name is one of the application exactly where it is "truffle-", the
/// application's id, a hyphen, and something more.
pub proof fn law_hosts_of_the_application(hostname: Seq<char>, app_id: Seq<char>)
    ensures
        is_app_host(hostname, app_id) <==> exists|rest: Seq<char>|
            rest.len() > 0 && hostname == #[trigger] ("truffle-"@ + app_id + "-"@ + rest),
{
    let prefix = "truffle-"@ + app_id + "-"@;
    if is_app_host(hostname, app_id) {
        let rest = hostname.skip(prefix.len() as int);
        assert(hostname =~= hostname.take(prefix.len() as int) + rest);
        assert(hostname == "truffle-"@ + app_id + "-"@ + rest);
    }
    if exists|rest: Seq<char>|
        rest.len() > 0 && hostname == #[trigger] ("truffle-"@ + app_id + "-"@ + rest) {
        let rest = choose|rest: Seq<char>|
            rest.len() > 0 && hostname == #[trigger] ("truffle-"@ + app_id + "-"@ + rest);
        assert(hostname.take(prefix.len() as int) =~= prefix);
    }
}

/// A text of a row that is empty is absent from the peer; any other is there.
pub open spec fn carried(said: Seq<char>, kept: Option<Seq<char>>) -> bool {
    &&& said.len() == 0 ==> kept is None
    &&& said.len() > 0 ==> kept == Some(said)
}

/// A peer says what its row says, each thing in its own place. A row without an
/// address gives the unspecified one.
pub proof fn law_peers_say_what_rows_say(row: SidecarPeer)
    ensures
        ({
            let p = row_peer(row);
            &&& p.id == row.id@
            &&& p.hostname == row.hostname@
            &&& p.online == row.online
            &&& p.dns_name == Some(row.dns_name@)
            &&& (row.ip matches Some(ip) ==> p.ip == ip@)
            &&& row.ip is None ==> p.ip == "0.0.0.0"@
            &&& carried(row.cur_addr@, p.cur_addr)
            &&& carried(row.relay@, p.relay)
            &&& carried(row.os@, p.os)
            &&& (row.last_seen matches Some(t) ==> p.last_seen == Some(t@))
            &&& row.last_seen is None ==> p.last_seen is None
            &&& (row.key_expiry matches Some(t) ==> p.key_expiry == Some(t@))
            &&& row.key_expiry is None ==> p.key_expiry is None
            &&& (row.login_name matches Some(l) ==> carried(l@, p.login_name))
            &&& row.login_name is None ==> p.login_name is None
        }),
{
}

/// A login of a row that the list lets pass, or any row where there is no list.
pub open spec fn passes(row: SidecarPeer, allow: Seq<Seq<char>>) -> bool {
    allow.len() == 0 || (row.login_name matches Some(l) && l@.len() > 0 && login_passes(
        allow,
        Some(l@),
    ))
}

/// A row of the application that passes is a peer after it: a stranger joins,
/// a peer is updated, and the report carries what the row says.
pub proof fn law_passing_rows_are_peers(
    peers: Map<Seq<char>, NetworkPeerModel>,
    row: SidecarPeer,
    app_id: Seq<char>,
    allow: Seq<Seq<char>>,
)
    requires
        is_app_host(row.hostname@, app_id),
        passes(row, allow),
    ensures
        ({
            let (after, events) = row_applied(peers, row, app_id, allow);
            &&& after == peers.insert(row.id@, row_peer(row))
            &&& events.len() == 1
            &&& peers.dom().contains(row.id@) ==> events[0] == NetworkEventModel::Updated(
                row_peer(row),
            )
            &&& !peers.dom().contains(row.id@) ==> events[0] == NetworkEventModel::Joined(
                row_peer(row),
            )
        }),
{
}

/// A row without a login under a list: a peer stays and is updated, a stranger
/// stays outside, and nothing is reported of it.
pub proof fn law_rows_without_login(
    peers: Map<Seq<char>, NetworkPeerModel>,
    row: SidecarPeer,
    app_id: Seq<char>,
    allow: Seq<Seq<char>>,
)
    requires
        is_app_host(row.hostname@, app_id),
        allow.len() > 0,
        row.login_name is None || row.login_name->0@.len() == 0,
    ensures
        ({
            let (after, events) = row_applied(peers, row, app_id, allow);
            &&& peers.dom().contains(row.id@) ==> after == peers.insert(row.id@, row_peer(row))
                && events == seq![NetworkEventModel::Updated(row_peer(row))]
            &&& !peers.dom().contains(row.id@) ==> after == peers && events.len() == 0
        }),
{
}

/// A row of another application, or with a login that is refused, is no peer
/// after it; one that was a peer is reported as gone, once.
pub proof fn law_other_rows_are_no_peers(
    peers: Map<Seq<char>, NetworkPeerModel>,
    row: SidecarPeer,
    app_id: Seq<char>,
    allow: Seq<Seq<char>>,
)
    requires
        !is_app_host(row.hostname@, app_id) || (!passes(row, allow) && row.login_name is Some
            && row.login_name->0@.len() > 0),
    ensures
        ({
            let (after, events) = row_applied(peers, row, app_id, allow);
            &&& after == peers.remove(row.id@)
            &&& peers.dom().contains(row.id@) ==> events == seq![
                NetworkEventModel::Left(row.id@),
            ]
            &&& !peers.dom().contains(row.id@) ==> events.len() == 0
        }),
{
    let after = row_applied(peers, row, app_id, allow).0;
    assert(after =~= peers.remove(row.id@));
}

/// A row that stays in a snapshot: of the application, not this node itself,
/// and either passing or, where it names no login, of a peer held before.
pub open spec fn stays(
    held: Map<Seq<char>, NetworkPeerModel>,
    row: SidecarPeer,
    self_id: Option<Seq<char>>,
    app_id: Seq<char>,
    allow: Seq<Seq<char>>,
) -> bool {
    &&& is_app_host(row.hostname@, app_id)
    &&& self_id != Some(row.id@)
    &&& passes(row, allow) || ((row.login_name is None || row.login_name->0@.len() == 0)
        && held.dom().contains(row.id@))
}

/// After a snapshot the peers are the nodes that a row of it lets stay, and each
/// is as the last such row says; no other node is a peer.
pub proof fn law_snapshot_is_the_whole_truth(
    held: Map<Seq<char>, NetworkPeerModel>,
    rows: Seq<SidecarPeer>,
    self_id: Option<Seq<char>>,
    app_id: Seq<char>,
    allow: Seq<Seq<char>>,
    id: Seq<char>,
    i: int,
)
    requires
        -1 <= i < rows.len(),
        i >= 0 ==> rows[i].id@ == id && stays(held, rows[i], self_id, app_id, allow),
        forall|j: int|
            i < j < rows.len() ==> !((#[trigger] rows[j]).id@ == id && stays(
                held,
                rows[j],
                self_id,
                app_id,
                allow,
            )),
    ensures
        ({
            let after = snapshot_peers(held, rows, self_id, app_id, allow);
            &&& i >= 0 ==> after.dom().contains(id) && after[id] == row_peer(rows[i])
            &&& i < 0 ==> !after.dom().contains(id)
        }),
    decreases rows.len(),
{
    if rows.len() > 0 && i < rows.len() - 1 {
        let shorter = rows.drop_last();
        assert forall|j: int| i < j < shorter.len() implies !((#[trigger] shorter[j]).id@ == id
            && stays(held, shorter[j], self_id, app_id, allow)) by {
            assert(shorter[j] == rows[j]);
        }
        law_snapshot_is_the_whole_truth(held, shorter, self_id, app_id, allow, id, i);
        let last = rows[rows.len() - 1];
        assert(!(last.id@ == id && stays(held, last, self_id, app_id, allow)));
    }
}

/// The report of a snapshot: a node that is a peer now is reported once, as
/// updated where it was one before and as joined where it was not, and with what
/// is known of it now.
pub proof fn law_snapshot_reports_who_is_there(
    before: Map<Seq<char>, NetworkPeerModel>,
    after: Map<Seq<char>, NetworkPeerModel>,
    events: Seq<NetworkEventModel>,
    id: Seq<char>,
)
    requires
        reports_change(before, after, events),
        after.dom().contains(id),
    ensures
        before.dom().contains(id) ==> events.contains(NetworkEventModel::Updated(after[id])),
        !before.dom().contains(id) ==> events.contains(NetworkEventModel::Joined(after[id])),
{
    let (here, away) = choose|here: Seq<Seq<char>>, away: Seq<Seq<char>>|
        #![trigger lists_keys(here, after), lists_keys(away, gone(before, after))]
        {
            &&& lists_keys(here, after)
            &&& lists_keys(away, gone(before, after))
            &&& events == Seq::new(here.len(), |i: int| present_event(before, after, here[i]))
                + Seq::new(away.len(), |i: int| NetworkEventModel::Left(away[i]))
        };
    assert(here.contains(id));
    let i = choose|i: int| 0 <= i < here.len() && here[i] == id;
    assert(events[i] == present_event(before, after, id));
}

/// A node is a peer, and this is what is known of it.
pub open spec fn is_known_as(
    peers: Map<Seq<char>, NetworkPeerModel>,
    id: Seq<char>,
    p: NetworkPeerModel,
) -> bool {
    peers.dom().contains(id) && peers[id] == p
}

/// An event that a change of the peers calls for.
pub open spec fn is_due(
    before: Map<Seq<char>, NetworkPeerModel>,
    after: Map<Seq<char>, NetworkPeerModel>,
    e: NetworkEventModel,
) -> bool {
    match e {
        NetworkEventModel::Left(id) => before.dom().contains(id) && !after.dom().contains(id),
        NetworkEventModel::Joined(p) => exists|k: Seq<char>| #[trigger]
            is_known_as(after, k, p) && !before.dom().contains(k),
        NetworkEventModel::Updated(p) => exists|k: Seq<char>| #[trigger]
            is_known_as(after, k, p) && before.dom().contains(k),
        NetworkEventModel::AuthRequired(_) => false,
    }
}

/// A node that was a peer and is none any more is reported as gone; nothing is
/// reported of any other node.
pub proof fn law_snapshot_reports_who_is_gone(
    before: Map<Seq<char>, NetworkPeerModel>,
    after: Map<Seq<char>, NetworkPeerModel>,
    events: Seq<NetworkEventModel>,
)
    requires
        reports_change(before, after, events),
    ensures
        forall|id: Seq<char>|
            #[trigger] before.dom().contains(id) && !after.dom().contains(id) ==> events.contains(
                NetworkEventModel::Left(id),
            ),
        forall|i: int| 0 <= i < events.len() ==> is_due(before, after, #[trigger] events[i]),
{
    let (here, away) = choose|here: Seq<Seq<char>>, away: Seq<Seq<char>>|
        #![trigger lists_keys(here, after), lists_keys(away, gone(before, after))]
        {
            &&& lists_keys(here, after)
            &&& lists_keys(away, gone(before, after))
            &&& events == Seq::new(here.len(), |i: int| present_event(before, after, here[i]))
                + Seq::new(away.len(), |i: int| NetworkEventModel::Left(away[i]))
        };
    assert forall|id: Seq<char>|
        #[trigger] before.dom().contains(id) && !after.dom().contains(id) implies events.contains(
        NetworkEventModel::Left(id),
    ) by {
        assert(gone(before, after).dom().contains(id));
        assert(away.contains(id));
        let i = choose|i: int| 0 <= i < away.len() && away[i] == id;
        assert(events[here.len() + i] == NetworkEventModel::Left(id));
    }
    assert forall|i: int| 0 <= i < events.len() implies is_due(
        before,
        after,
        #[trigger] events[i],
    ) by {
        if i < here.len() {
            let id = here[i];
            assert(here.contains(id));
            assert(after.dom().contains(id));
            assert(events[i] == present_event(before, after, id));
            assert(is_known_as(after, id, after[id]));
        } else {
            let id = away[i - here.len()];
            assert(away.contains(id));
            assert(gone(before, after).dom().contains(id));
        }
    }
}

} // verus!
