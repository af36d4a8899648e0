//! Which rows of the sidecar become peers, stay peers, or leave.
use vstd::prelude::*;

use crate::network::login_allow::{login_allowed, login_passes};
use crate::network::tailscale::protocol::SidecarPeer;
use crate::network::types::{
    nonempty, NetErrorModel, NetworkError, NetworkEventModel, NetworkPeer, NetworkPeerEvent,
    NetworkPeerModel,
};
use crate::text::{
    begins_with, copy_opt, decimal, decimal_text, join2, join3, opt_text, owned, starts_with_text,
    texts,
};
use crate::text_map::{lists_keys, TextMap};
use vstd::string::*;

verus! {

/// The first sidecar protocol that reports logins.
pub const LOGIN_NAME_PROTOCOL_VERSION: u32 = 5;

/// What a row means under the login list.
#[derive(Debug, Clone, Copy, PartialEq, Eq, Structural)]
pub enum RowVerdict {
    /// One of ours, and its login passes, or there is no gate.
    Allowed,
    /// One of ours, with a login that the list refuses.
    LoginRefused,
    /// One of ours, and the row names no owner.
    LoginUnknown,
    /// Not a node of this application.
    NotOurApp,
}

/// A host name of this application: the prefix, and at least one character.
pub open spec fn is_app_host(hostname: Seq<char>, app_id: Seq<char>) -> bool {
    let prefix = "truffle-"@ + app_id + "-"@;
    begins_with(hostname, prefix) && hostname.len() > prefix.len()
}

/// What a row means.
pub open spec fn verdict(row: SidecarPeer, app_id: Seq<char>, allow: Seq<Seq<char>>) -> RowVerdict {
    if !is_app_host(row.hostname@, app_id) {
        RowVerdict::NotOurApp
    } else if allow.len() == 0 {
        RowVerdict::Allowed
    } else {
        match nonempty(opt_text(row.login_name)) {
            None => RowVerdict::LoginUnknown,
            Some(login) => if login_passes(allow, Some(login)) {
                RowVerdict::Allowed
            } else {
                RowVerdict::LoginRefused
            },
        }
    }
}

/// The row stays, or becomes, a peer. A row that names no owner keeps a peer,
/// and admits none.
pub open spec fn keeps(v: RowVerdict, held: bool) -> bool {
    match v {
        RowVerdict::Allowed => true,
        RowVerdict::LoginUnknown => held,
        _ => false,
    }
}

/// A text that says nothing when it is empty.
pub open spec fn unless_empty(s: Seq<char>) -> Option<Seq<char>> {
    nonempty(Some(s))
}

/// The peer of a row. What the row does not say is absent.
pub open spec fn row_peer(row: SidecarPeer) -> NetworkPeerModel {
    NetworkPeerModel {
        id: row.id@,
        hostname: row.hostname@,
        ip: match row.ip {
            Some(a) => a@,
            None => "0.0.0.0"@,
        },
        online: row.online,
        cur_addr: unless_empty(row.cur_addr@),
        relay: unless_empty(row.relay@),
        os: unless_empty(row.os@),
        last_seen: opt_text(row.last_seen),
        key_expiry: opt_text(row.key_expiry),
        dns_name: Some(row.dns_name@),
        login_name: nonempty(opt_text(row.login_name)),
    }
}

/// The models of a list of network events.
pub open spec fn net_events(v: Seq<NetworkPeerEvent>) -> Seq<NetworkEventModel> {
    Seq::new(v.len(), |i: int| v[i]@)
}

/// The peers after one row, and what is reported: a row that newly passes
/// joins, a passing row of a peer updates, and a refused one leaves.
pub open spec fn row_applied(
    peers: Map<Seq<char>, NetworkPeerModel>,
    row: SidecarPeer,
    app_id: Seq<char>,
    allow: Seq<Seq<char>>,
) -> (Map<Seq<char>, NetworkPeerModel>, Seq<NetworkEventModel>) {
    let held = peers.dom().contains(row.id@);
    if keeps(verdict(row, app_id, allow), held) {
        (
            peers.insert(row.id@, row_peer(row)),
            seq![
                if held {
                    NetworkEventModel::Updated(row_peer(row))
                } else {
                    NetworkEventModel::Joined(row_peer(row))
                },
            ],
        )
    } else if held {
        (peers.remove(row.id@), seq![NetworkEventModel::Left(row.id@)])
    } else {
        (peers, seq![])
    }
}

/// The row is about this node itself.
pub open spec fn is_self(row: SidecarPeer, self_id: Option<Seq<char>>) -> bool {
    self_id == Some(row.id@)
}

/// The peers that a list of rows leaves, given those held before. Of several
/// rows of one node the last that stays counts.
pub open spec fn snapshot_peers(
    held: Map<Seq<char>, NetworkPeerModel>,
    rows: Seq<SidecarPeer>,
    self_id: Option<Seq<char>>,
    app_id: Seq<char>,
    allow: Seq<Seq<char>>,
) -> Map<Seq<char>, NetworkPeerModel>
    decreases rows.len(),
{
    if rows.len() == 0 {
        Map::empty()
    } else {
        let before = snapshot_peers(held, rows.drop_last(), self_id, app_id, allow);
        let row = rows.last();
        if !is_self(row, self_id) && keeps(
            verdict(row, app_id, allow),
            held.dom().contains(row.id@),
        ) {
            before.insert(row.id@, row_peer(row))
        } else {
            before
        }
    }
}

/// The peers of `before` that are not in `after`.
pub open spec fn gone(
    before: Map<Seq<char>, NetworkPeerModel>,
    after: Map<Seq<char>, NetworkPeerModel>,
) -> Map<Seq<char>, NetworkPeerModel> {
    Map::new(
        |k: Seq<char>| before.dom().contains(k) && !after.dom().contains(k),
        |k: Seq<char>| before[k],
    )
}

/// The report of a peer of a snapshot.
pub open spec fn present_event(
    before: Map<Seq<char>, NetworkPeerModel>,
    after: Map<Seq<char>, NetworkPeerModel>,
    k: Seq<char>,
) -> NetworkEventModel {
    if before.dom().contains(k) {
        NetworkEventModel::Updated(after[k])
    } else {
        NetworkEventModel::Joined(after[k])
    }
}

/// The events report the change from `before` to `after`: each peer that is
/// there once, then each that is gone once.
pub open spec fn reports_change(
    before: Map<Seq<char>, NetworkPeerModel>,
    after: Map<Seq<char>, NetworkPeerModel>,
    events: Seq<NetworkEventModel>,
) -> bool {
    exists|here: Seq<Seq<char>>, away: Seq<Seq<char>>|
        #![trigger lists_keys(here, after), lists_keys(away, gone(before, after))]
        {
            &&& lists_keys(here, after)
            &&& lists_keys(away, gone(before, after))
            &&& events == Seq::new(here.len(), |i: int| present_event(before, after, here[i]))
                + Seq::new(away.len(), |i: int| NetworkEventModel::Left(away[i]))
        }
}

// ---------------------------------------------------------------------------
// Decisions
// ---------------------------------------------------------------------------

/// Whether a host name belongs to a node of the application.
pub fn is_app_peer(hostname: &str, app_id: &str) -> (r: bool)
    ensures
        r == is_app_host(hostname@, app_id@),
{
    let prefix: String = join3("truffle-", app_id, "-");
    hostname.unicode_len() > prefix.as_str().unicode_len() && starts_with_text(
        hostname,
        prefix.as_str(),
    )
}

/// Whether a node with this allow-list may run on a sidecar that speaks this
/// protocol. A sidecar that cannot report logins would leave a gated node
/// without peers, so it is refused.
pub fn login_gate_supported(login_allow: &[String], protocol_version: u32) -> (r: Result<
    (),
    NetworkError,
>)
    ensures
        r is Ok <==> (login_allow@.len() == 0 || protocol_version >= LOGIN_NAME_PROTOCOL_VERSION),
        r matches Err(e) ==> e@ == NetErrorModel::StartFailed(
            "login_allow requires sidecar protocol 5 (loginName on peers); this sidecar speaks "@
                + decimal(protocol_version as nat),
        ),
{
    if login_allow.len() == 0 || protocol_version >= LOGIN_NAME_PROTOCOL_VERSION {
        return Ok(());
    }
    let v: String = decimal_text(protocol_version as u64);
    Err(
        NetworkError::StartFailed(
            join2(
                "login_allow requires sidecar protocol 5 (loginName on peers); this sidecar speaks ",
                v.as_str(),
            ),
        ),
    )
}

/// What a row means under the login list.
pub fn classify_row(peer: &SidecarPeer, app_id: &str, login_allow: &[String]) -> (r: RowVerdict)
    ensures
        r == verdict(*peer, app_id@, texts(login_allow@)),
{
    if !is_app_peer(peer.hostname.as_str(), app_id) {
        return RowVerdict::NotOurApp;
    }
    if login_allow.len() == 0 {
        return RowVerdict::Allowed;
    }
    match &peer.login_name {
        None => RowVerdict::LoginUnknown,
        Some(login) => {
            if login.as_str().is_empty() {
                RowVerdict::LoginUnknown
            } else if login_allowed(login_allow, Some(login.as_str())) {
                RowVerdict::Allowed
            } else {
                RowVerdict::LoginRefused
            }
        },
    }
}

/// Whether a row may become a peer.
pub fn admit_peer(peer: &SidecarPeer, app_id: &str, login_allow: &[String]) -> (r: bool)
    ensures
        r == keeps(verdict(*peer, app_id@, texts(login_allow@)), false),
{
    match classify_row(peer, app_id, login_allow) {
        RowVerdict::Allowed => true,
        _ => false,
    }
}

/// Whether a row lets a peer stay.
pub fn row_keeps_peer(peer: &SidecarPeer, app_id: &str, login_allow: &[String]) -> (r: bool)
    ensures
        r == keeps(verdict(*peer, app_id@, texts(login_allow@)), true),
{
    match classify_row(peer, app_id, login_allow) {
        RowVerdict::Allowed => true,
        RowVerdict::LoginUnknown => true,
        _ => false,
    }
}

fn said(s: &String) -> (r: Option<String>)
    ensures
        opt_text(r) == unless_empty(s@),
{
    if s.as_str().is_empty() {
        None
    } else {
        Some(s.clone())
    }
}

/// The peer of a row.
pub fn sidecar_peer_to_network_peer(peer: &SidecarPeer) -> (r: NetworkPeer)
    ensures
        r@ == row_peer(*peer),
{
    NetworkPeer {
        id: peer.id.clone(),
        hostname: peer.hostname.clone(),
        ip: match &peer.ip {
            Some(a) => a.clone(),
            None => owned("0.0.0.0"),
        },
        online: peer.online,
        cur_addr: said(&peer.cur_addr),
        relay: said(&peer.relay),
        os: said(&peer.os),
        last_seen: copy_opt(&peer.last_seen),
        key_expiry: copy_opt(&peer.key_expiry),
        dns_name: Some(peer.dns_name.clone()),
        login_name: match &peer.login_name {
            Some(l) => said(l),
            None => None,
        },
    }
}

/// Applies the row of a change to the peers, and says what to report.
pub fn apply_peer_row(
    peers: &mut TextMap<NetworkPeer>,
    peer: &SidecarPeer,
    app_id: &str,
    login_allow: &[String],
) -> (events: Vec<NetworkPeerEvent>)
    ensures
        (final(peers)@, net_events(events@)) == row_applied(
            old(peers)@,
            *peer,
            app_id@,
            texts(login_allow@),
        ),
{
    let held: bool = peers.contains(peer.id.as_str());
    let keep: bool = match classify_row(peer, app_id, login_allow) {
        RowVerdict::Allowed => true,
        RowVerdict::LoginUnknown => held,
        _ => false,
    };
    let ghost want = row_applied(peers@, *peer, app_id@, texts(login_allow@));
    let mut events: Vec<NetworkPeerEvent> = Vec::new();
    if keep {
        let np: NetworkPeer = sidecar_peer_to_network_peer(peer);
        peers.insert(peer.id.clone(), np.clone());
        events.push(
            if held {
                NetworkPeerEvent::Updated(np)
            } else {
                NetworkPeerEvent::Joined(np)
            },
        );
    } else if held {
        let _old: Option<NetworkPeer> = peers.remove(peer.id.as_str());
        events.push(NetworkPeerEvent::Left(peer.id.clone()));
    }
    assert(net_events(events@) =~= want.1);
    events
}

/// The peers that a list of rows leaves.
fn collect_rows(
    held: &TextMap<NetworkPeer>,
    rows: &Vec<SidecarPeer>,
    self_id: &Option<String>,
    app_id: &str,
    login_allow: &[String],
) -> (r: TextMap<NetworkPeer>)
    ensures
        r@ == snapshot_peers(
            held@,
            rows@,
            opt_text(*self_id),
            app_id@,
            texts(login_allow@),
        ),
{
    let mut fresh: TextMap<NetworkPeer> = TextMap::new();
    let mut i: usize = 0;
    assert(rows@.take(0) =~= seq![]);
    while i < rows.len()
        invariant
            i <= rows@.len(),
            fresh@ == snapshot_peers(
                held@,
                rows@.take(i as int),
                opt_text(*self_id),
                app_id@,
                texts(login_allow@),
            ),
        decreases rows@.len() - i,
    {
        let row: &SidecarPeer = &rows[i];
        proof {
            assert(rows@.take(i + 1).drop_last() =~= rows@.take(i as int));
            assert(rows@.take(i + 1).last() == *row);
        }
        let mine: bool = match self_id {
            Some(me) => crate::text::same_text(row.id.as_str(), me.as_str()),
            None => false,
        };
        if !mine {
            let keep: bool = if held.contains(row.id.as_str()) {
                row_keeps_peer(row, app_id, login_allow)
            } else {
                admit_peer(row, app_id, login_allow)
            };
            if keep {
                fresh.insert(row.id.clone(), sidecar_peer_to_network_peer(row));
            }
        }
        i += 1;
    }
    assert(rows@.take(rows@.len() as int) =~= rows@);
    fresh
}

/// Takes a list of rows for the whole truth, and says what changed.
pub fn apply_snapshot(
    peers: &mut TextMap<NetworkPeer>,
    rows: &Vec<SidecarPeer>,
    self_id: &Option<String>,
    app_id: &str,
    login_allow: &[String],
) -> (events: Vec<NetworkPeerEvent>)
    ensures
        final(peers)@ == snapshot_peers(
            old(peers)@,
            rows@,
            opt_text(*self_id),
            app_id@,
            texts(login_allow@),
        ),
        reports_change(old(peers)@, final(peers)@, net_events(events@)),
{
    let ghost before = peers@;
    let fresh: TextMap<NetworkPeer> = collect_rows(peers, rows, self_id, app_id, login_allow);
    let ghost after = fresh@;
    let mut events: Vec<NetworkPeerEvent> = Vec::new();
    let n: usize = fresh.len();
    let ghost here = fresh.order();
    let mut i: usize = 0;
    while i < n
        invariant
            n == fresh.count(),
            here == fresh.order(),
            peers@ == before,
            fresh@ == after,
            i <= n,
            events@.len() == i,
            forall|j: int|
                0 <= j < i ==> (#[trigger] events@[j])@ == present_event(before, after, here[j]),
        decreases n - i,
    {
        let (key, p) = fresh.entry(i);
        events.push(
            if peers.contains(key.as_str()) {
                NetworkPeerEvent::Updated(p.clone())
            } else {
                NetworkPeerEvent::Joined(p.clone())
            },
        );
        i += 1;
    }
    let ghost first = net_events(events@);
    assert(first =~= Seq::new(here.len(), |i: int| present_event(before, after, here[i])));
    let m: usize = peers.len();
    let ghost old_order = peers.order();
    let ghost mut away: Seq<Seq<char>> = Seq::empty();
    let mut j: usize = 0;
    while j < m
        invariant
            m == peers.count(),
            old_order == peers.order(),
            lists_keys(old_order, before),
            peers@ == before,
            fresh@ == after,
            j <= m,
            events@.len() == first.len() + away.len(),
            forall|x: int| 0 <= x < first.len() ==> (#[trigger] events@[x])@ == first[x],
            forall|x: int|
                first.len() <= x < events@.len() ==> (#[trigger] events@[x])@
                    == NetworkEventModel::Left(away[x - first.len()]),
            away.no_duplicates(),
            forall|x: int|
                0 <= x < away.len() ==> old_order.take(j as int).contains(#[trigger] away[x])
                    && !after.dom().contains(away[x]),
            forall|x: int|
                0 <= x < j && !after.dom().contains(#[trigger] old_order[x]) ==> away.contains(
                    old_order[x],
                ),
        decreases m - j,
    {
        let (key, _p) = peers.entry(j);
        let ghost prev = away;
        proof {
            assert(old_order[j as int] == key@);
            assert forall|x: int| 0 <= x < prev.len() implies old_order.take(j + 1).contains(
                #[trigger] prev[x],
            ) by {
                let y = choose|y: int|
                    0 <= y < old_order.take(j as int).len() && old_order.take(j as int)[y]
                        == prev[x];
                assert(old_order.take(j + 1)[y] == prev[x]);
            }
            assert(old_order.take(j + 1)[j as int] == key@);
        }
        if !fresh.contains(key.as_str()) {
            events.push(NetworkPeerEvent::Left(key.clone()));
            proof {
                away = prev.push(key@);
                assert forall|a: int, b: int|
                    0 <= a < away.len() && 0 <= b < away.len() && a != b implies away[a]
                    != away[b] by {
                    if a == prev.len() || b == prev.len() {
                        let c = if a == prev.len() { b } else { a };
                        assert(old_order.take(j as int).contains(prev[c]));
                        let y = choose|y: int|
                            0 <= y < old_order.take(j as int).len() && old_order.take(j as int)[y]
                                == prev[c];
                        assert(old_order[y] == prev[c]);
                        assert(old_order[y] != old_order[j as int]);
                    }
                }
                assert forall|x: int| 0 <= x < j + 1 && !after.dom().contains(
                    #[trigger] old_order[x],
                ) implies away.contains(old_order[x]) by {
                    if x < j {
                        let y = choose|y: int| 0 <= y < prev.len() && prev[y] == old_order[x];
                        assert(away[y] == old_order[x]);
                    } else {
                        assert(away[prev.len() as int] == old_order[x]);
                    }
                }
            }
        }
        j += 1;
    }
    proof {
        let g = gone(before, after);
        assert(lists_keys(away, g)) by {
            assert forall|k: Seq<char>| #[trigger] g.dom().contains(k) == away.contains(k) by {
                if g.dom().contains(k) {
                    assert(before.dom().contains(k));
                    assert(old_order.contains(k));
                    let y = choose|y: int| 0 <= y < old_order.len() && old_order[y] == k;
                    assert(!after.dom().contains(old_order[y]));
                }
                if away.contains(k) {
                    let x = choose|x: int| 0 <= x < away.len() && away[x] == k;
                    assert(old_order.take(j as int).contains(away[x]));
                    let y = choose|y: int|
                        0 <= y < old_order.take(j as int).len() && old_order.take(j as int)[y]
                            == away[x];
                    assert(old_order[y] == k);
                    assert(old_order.contains(k));
                    assert(before.dom().contains(k));
                }
            }
        }
        assert(net_events(events@) =~= Seq::new(
            here.len(),
            |i: int| present_event(before, after, here[i]),
        ) + Seq::new(away.len(), |i: int| NetworkEventModel::Left(away[i])));
        assert(lists_keys(here, after));
        assert(reports_change(before, after, net_events(events@)));
    }
    *peers = fresh;
    events
}

// ---------------------------------------------------------------------------
// Laws
// ---------------------------------------------------------------------------

/// Under a gate a row that names no owner never makes a peer of a stranger,
/// and never drops a peer.
pub proof fn law_unknown_login_keeps_but_never_admits(
    peers: Map<Seq<char>, NetworkPeerModel>,
    row: SidecarPeer,
    app_id: Seq<char>,
    allow: Seq<Seq<char>>,
)
    requires
        allow.len() > 0,
        is_app_host(row.hostname@, app_id),
        nonempty(opt_text(row.login_name)) is None,
    ensures
        row_applied(peers, row, app_id, allow).0.dom() == peers.dom(),
        peers.dom().contains(row.id@) ==> row_applied(peers, row, app_id, allow).0[row.id@]
            == row_peer(row) && row_applied(peers, row, app_id, allow).0[row.id@].login_name
            is None,
{
    let after = row_applied(peers, row, app_id, allow).0;
    assert(after.dom() =~= peers.dom());
}

/// Under a gate a login that is refused drops the peer, and no row with such
/// a login makes one.
pub proof fn law_refused_login_is_no_peer(
    peers: Map<Seq<char>, NetworkPeerModel>,
    row: SidecarPeer,
    app_id: Seq<char>,
    allow: Seq<Seq<char>>,
)
    requires
        allow.len() > 0,
        nonempty(opt_text(row.login_name)) is Some,
        !login_passes(allow, nonempty(opt_text(row.login_name))),
    ensures
        !row_applied(peers, row, app_id, allow).0.dom().contains(row.id@),
        peers.dom().contains(row.id@) ==> row_applied(peers, row, app_id, allow).1 == seq![
            NetworkEventModel::Left(row.id@),
        ],
        !peers.dom().contains(row.id@) ==> row_applied(peers, row, app_id, allow).1.len() == 0,
{
}

/// Without a gate a row of ours is a peer whatever it says of its owner.
pub proof fn law_ungated_row_is_a_peer(
    peers: Map<Seq<char>, NetworkPeerModel>,
    row: SidecarPeer,
    app_id: Seq<char>,
)
    requires
        is_app_host(row.hostname@, app_id),
    ensures
        row_applied(peers, row, app_id, Seq::empty()).0 == peers.insert(row.id@, row_peer(row)),
{
}

/// A node of another application is never a peer, and one that becomes such a
/// node leaves.
pub proof fn law_other_application_is_no_peer(
    peers: Map<Seq<char>, NetworkPeerModel>,
    row: SidecarPeer,
    app_id: Seq<char>,
    allow: Seq<Seq<char>>,
)
    requires
        !is_app_host(row.hostname@, app_id),
    ensures
        row_applied(peers, row, app_id, allow).0 == peers.remove(row.id@),
        row_applied(peers, row, app_id, allow).1 == (if peers.dom().contains(row.id@) {
            seq![NetworkEventModel::Left(row.id@)]
        } else {
            seq![]
        }),
{
    assert(row_applied(peers, row, app_id, allow).0 =~= peers.remove(row.id@));
}

/// No host name is one of two applications, unless the id of one goes on, after
/// a hyphen, from that of the other.
pub proof fn law_applications_are_apart(hostname: Seq<char>, a: Seq<char>, b: Seq<char>)
    requires
        !begins_with(a + "-"@, b + "-"@),
        !begins_with(b + "-"@, a + "-"@),
    ensures
        !(is_app_host(hostname, a) && is_app_host(hostname, b)),
{
    reveal_strlit("truffle-");
    reveal_strlit("-");
    if is_app_host(hostname, a) && is_app_host(hostname, b) {
        let pa = "truffle-"@ + a + "-"@;
        let pb = "truffle-"@ + b + "-"@;
        let rest = hostname.skip(8);
        assert(rest.take(a.len() as int + 1) =~= a + "-"@) by {
            assert forall|i: int| 0 <= i < a.len() + 1 implies rest[i] == (a + "-"@)[i] by {
                assert(hostname.take(pa.len() as int)[i + 8] == pa[i + 8]);
            }
        }
        assert(rest.take(b.len() as int + 1) =~= b + "-"@) by {
            assert forall|i: int| 0 <= i < b.len() + 1 implies rest[i] == (b + "-"@)[i] by {
                assert(hostname.take(pb.len() as int)[i + 8] == pb[i + 8]);
            }
        }
        if a.len() <= b.len() {
            assert((b + "-"@).take(a.len() as int + 1) =~= a + "-"@);
        } else {
            assert((a + "-"@).take(b.len() as int + 1) =~= b + "-"@);
        }
    }
}

/// A row touches no other peer.
pub proof fn law_row_touches_one_peer(
    peers: Map<Seq<char>, NetworkPeerModel>,
    row: SidecarPeer,
    app_id: Seq<char>,
    allow: Seq<Seq<char>>,
    other: Seq<char>,
)
    requires
        other != row.id@,
    ensures
        row_applied(peers, row, app_id, allow).0.dom().contains(other) == peers.dom().contains(
            other,
        ),
        peers.dom().contains(other) ==> row_applied(peers, row, app_id, allow).0[other]
            == peers[other],
{
}

/// This node is never its own peer after a snapshot, and under a gate every
/// peer of a snapshot either passed or was held before.
pub proof fn law_snapshot_admits_only_the_admissible(
    held: Map<Seq<char>, NetworkPeerModel>,
    rows: Seq<SidecarPeer>,
    self_id: Option<Seq<char>>,
    app_id: Seq<char>,
    allow: Seq<Seq<char>>,
    k: Seq<char>,
)
    requires
        snapshot_peers(held, rows, self_id, app_id, allow).dom().contains(k),
    ensures
        self_id != Some(k),
        exists|i: int|
            #![trigger rows[i]]
            0 <= i < rows.len() && rows[i].id@ == k && is_app_host(rows[i].hostname@, app_id)
                && keeps(verdict(rows[i], app_id, allow), held.dom().contains(k))
                && snapshot_peers(held, rows, self_id, app_id, allow)[k] == row_peer(rows[i]),
    decreases rows.len(),
{
    if rows.len() > 0 {
        let shorter = rows.drop_last();
        let row = rows.last();
        let kept = !is_self(row, self_id) && keeps(
            verdict(row, app_id, allow),
            held.dom().contains(row.id@),
        );
        if kept && row.id@ == k {
            assert(rows[rows.len() - 1] == row);
        } else {
            law_snapshot_admits_only_the_admissible(held, shorter, self_id, app_id, allow, k);
            let i = choose|i: int|
                #![trigger shorter[i]]
                0 <= i < shorter.len() && shorter[i].id@ == k && is_app_host(
                    shorter[i].hostname@,
                    app_id,
                ) && keeps(verdict(shorter[i], app_id, allow), held.dom().contains(k))
                    && snapshot_peers(held, shorter, self_id, app_id, allow)[k] == row_peer(
                    shorter[i],
                );
            assert(rows[i] == shorter[i]);
        }
    }
}

} // verus!
