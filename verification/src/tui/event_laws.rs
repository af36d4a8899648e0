//! What events promise.
use vstd::prelude::*;

use crate::node::{Peer, PeerViewModel};
use crate::tui::events::{event_handled, last_transfer, still_fresh, AppEvent};
use crate::tui::keys::Seen;
use crate::tui::offer_laws::same_rest;
use crate::tui::peers::{name_answering, row_answering, row_of, with_peers, PeerNews};
use crate::tui::state::{
    started, AppModel, ItemModel, PeerEventKind, PeerInfoModel, StatusModel, ToastModel,
};

verus! {

/// What news of peers and messages never touch.
pub open spec fn same_but_shown(a: AppModel, b: AppModel) -> bool {
    &&& a.input == b.input
    &&& a.history == b.history
    &&& a.history_index == b.history_index
    &&& a.scroll_offset == b.scroll_offset
    &&& a.auto_scroll == b.auto_scroll
    &&& a.should_quit == b.should_quit
    &&& a.autocomplete == b.autocomplete
    &&& a.download_dir == b.download_dir
    &&& a.dialog == b.dialog
    &&& a.pending_offers == b.pending_offers
    &&& a.auto_accept_peers == b.auto_accept_peers
    &&& a.picker_open == b.picker_open
}

/// A row is the first with a node id.
pub open spec fn first_row(peers: Seq<PeerInfoModel>, id: Seq<char>, i: int) -> bool {
    &&& 0 <= i < peers.len()
    &&& peers[i].tailscale_id == id
    &&& forall|j: int| 0 <= j < i ==> (#[trigger] peers[j]).tailscale_id != id
}

/// No row has a node id.
pub open spec fn no_row(peers: Seq<PeerInfoModel>, id: Seq<char>) -> bool {
    forall|j: int| 0 <= j < peers.len() ==> (#[trigger] peers[j]).tailscale_id != id
}

proof fn lemma_row(peers: Seq<PeerInfoModel>, id: Seq<char>, from: int)
    requires
        0 <= from <= peers.len(),
    ensures
        from <= row_of(peers, id, from) <= peers.len(),
        row_of(peers, id, from) < peers.len() ==> peers[row_of(peers, id, from)].tailscale_id == id,
        forall|j: int|
            from <= j < row_of(peers, id, from) ==> (#[trigger] peers[j]).tailscale_id != id,
    decreases peers.len() - from,
{
    if from < peers.len() && peers[from].tailscale_id != id {
        lemma_row(peers, id, from + 1);
    }
}

/// A peer that has a row is brought up to date in it: what is told replaces
/// what was known, and what is not told stays. No other row changes.
pub proof fn law_known_peers_are_renewed(m: AppModel, p: Peer, seen: Seen, now: u64, i: int)
    requires
        first_row(m.peers, p@.tailscale_id, i),
    ensures
        ({
            let after = event_handled(m, AppEvent::PeerEvent(PeerNews::Seen(p)), seen, now).0;
            &&& after.peers.len() == m.peers.len()
            &&& forall|j: int|
                0 <= j < m.peers.len() && j != i ==> #[trigger] after.peers[j] == m.peers[j]
            &&& after.peers[i].tailscale_id == p@.tailscale_id
            &&& after.peers[i].device_name == p@.display_name
            &&& after.peers[i].ip == p@.ip
            &&& after.peers[i].online == p@.online
            &&& p@.device_id is Some ==> after.peers[i].device_id == p@.device_id
            &&& p@.device_id is None ==> after.peers[i].device_id == m.peers[i].device_id
            &&& p@.connection_type.len() > 0 ==> after.peers[i].connection == Some(
                p@.connection_type,
            )
            &&& p@.connection_type.len() == 0 ==> after.peers[i].connection
                == m.peers[i].connection
            &&& same_but_shown(after, m)
            &&& after.notifications == m.notifications
        }),
        event_handled(m, AppEvent::PeerEvent(PeerNews::Seen(p)), seen, now).1.len() == 0,
{
    lemma_row(m.peers, p@.tailscale_id, 0);
}

/// A peer without a row gets one, at the end.
pub proof fn law_new_peers_are_added(m: AppModel, p: Peer, seen: Seen, now: u64)
    requires
        no_row(m.peers, p@.tailscale_id),
    ensures
        ({
            let after = event_handled(m, AppEvent::PeerEvent(PeerNews::Seen(p)), seen, now).0;
            let row = after.peers.last();
            &&& after.peers.len() == m.peers.len() + 1
            &&& after.peers.drop_last() == m.peers
            &&& row.tailscale_id == p@.tailscale_id
            &&& row.device_id == p@.device_id
            &&& row.device_name == p@.display_name
            &&& row.ip == p@.ip
            &&& row.online == p@.online
            &&& row.connection is Some <==> p@.connection_type.len() > 0
            &&& row.connection is Some ==> row.connection->0 == p@.connection_type
            &&& same_but_shown(after, m)
        }),
{
    lemma_row(m.peers, p@.tailscale_id, 0);
    let after = event_handled(m, AppEvent::PeerEvent(PeerNews::Seen(p)), seen, now).0;
    assert(after.peers.drop_last() =~= m.peers);
}

/// A list of peers is taken in one after the other: each has a row after it
/// that says what was last said of it, and no row of another node changes.
pub proof fn law_lists_of_peers_are_taken_in(
    peers: Seq<PeerInfoModel>,
    list: Seq<PeerViewModel>,
    p: PeerViewModel,
)
    ensures
        with_peers(peers, Seq::empty()) == peers,
        ({
            let before = with_peers(peers, list);
            let after = with_peers(peers, list.push(p));
            &&& before.len() <= after.len() <= before.len() + 1
            &&& exists|i: int|
                0 <= i < after.len() && (#[trigger] after[i]).tailscale_id == p.tailscale_id
                    && after[i].device_name == p.display_name && after[i].ip == p.ip
                    && after[i].online == p.online
            &&& forall|j: int|
                0 <= j < before.len() && (#[trigger] before[j]).tailscale_id != p.tailscale_id
                    ==> after[j] == before[j]
        }),
{
    let before = with_peers(peers, list);
    assert(list.push(p).drop_last() =~= list);
    lemma_row(before, p.tailscale_id, 0);
    let i = row_of(before, p.tailscale_id, 0);
    let after = with_peers(peers, list.push(p));
    assert(after[i].tailscale_id == p.tailscale_id);
}

/// An entry of the feed about a peer.
pub open spec fn tells_of(
    item: ItemModel,
    now: u64,
    kind: PeerEventKind,
    name: Seq<char>,
    detail: Seq<char>,
) -> bool {
    item matches ItemModel::PeerEvent { time, kind: k, peer_name, detail: d } && time == now && k
        == kind && peer_name == name && d == detail
}

/// The feed says that a peer joined when it is first seen online, that it
/// connected when it comes back, and that it disconnected when it goes; where
/// its state is what it was, or it is first seen offline, the feed is silent.
pub proof fn law_feed_tells_changes(m: AppModel, p: Peer, seen: Seen, now: u64, i: int)
    requires
        first_row(m.peers, p@.tailscale_id, i) || no_row(m.peers, p@.tailscale_id),
    ensures
        ({
            let after = event_handled(m, AppEvent::PeerEvent(PeerNews::Seen(p)), seen, now).0;
            let known = first_row(m.peers, p@.tailscale_id, i);
            let silent = known && m.peers[i].online == p@.online || !known && !p@.online;
            &&& silent ==> after.items == m.items
            &&& !silent ==> after.items.len() == m.items.len() + 1 && after.items.drop_last()
                == m.items
            &&& !known && p@.online ==> tells_of(
                after.items.last(),
                now,
                PeerEventKind::Joined,
                p@.display_name,
                p@.ip,
            )
            &&& known && !m.peers[i].online && p@.online ==> tells_of(
                after.items.last(),
                now,
                PeerEventKind::Connected,
                p@.display_name,
                p@.ip,
            )
            &&& known && m.peers[i].online && !p@.online ==> tells_of(
                after.items.last(),
                now,
                PeerEventKind::Disconnected,
                p@.display_name,
                Seq::empty(),
            )
        }),
{
    lemma_row(m.peers, p@.tailscale_id, 0);
    let after = event_handled(m, AppEvent::PeerEvent(PeerNews::Seen(p)), seen, now).0;
    if after.items.len() == m.items.len() + 1 {
        assert(after.items.drop_last() =~= m.items);
    }
}

/// A name in the feed is that of the first row with the id, or the id itself
/// where no row has it.
pub open spec fn is_name_of(peers: Seq<PeerInfoModel>, id: Seq<char>, name: Seq<char>) -> bool {
    &&& no_row(peers, id) ==> name == id
    &&& forall|i: int| #[trigger] first_row(peers, id, i) ==> name == peers[i].device_name
}

/// A node that left is offline, and the feed says so; that a connection opened
/// or closed is said too, and changes no row. A login page changes nothing.
pub proof fn law_departures_are_told(m: AppModel, news: PeerNews, seen: Seen, now: u64)
    ensures
        ({
            let (after, effects) = event_handled(m, AppEvent::PeerEvent(news), seen, now);
            &&& effects.len() == 0
            &&& same_but_shown(after, m)
            &&& after.notifications == m.notifications
            &&& (news matches PeerNews::Left(id) ==> {
                &&& after.peers.len() == m.peers.len()
                &&& forall|i: int| #[trigger]
                    first_row(m.peers, id@, i) ==> !after.peers[i].online && after.peers[i]
                        == (PeerInfoModel { online: false, ..m.peers[i] })
                &&& forall|i: int|
                    0 <= i < m.peers.len() && !first_row(m.peers, id@, i)
                        ==> #[trigger] after.peers[i] == m.peers[i]
                &&& after.items.len() == m.items.len() + 1
                &&& after.items.drop_last() == m.items
                &&& after.items.last() is PeerEvent
                &&& is_name_of(m.peers, id@, after.items.last()->peer_name)
                &&& tells_of(
                    after.items.last(),
                    now,
                    PeerEventKind::Left,
                    after.items.last()->peer_name,
                    Seq::empty(),
                )
            })
            &&& (news matches PeerNews::WsConnected(id) ==> {
                &&& after.peers == m.peers
                &&& after.items.len() == m.items.len() + 1
                &&& after.items.drop_last() == m.items
                &&& is_name_of(m.peers, id@, after.items.last()->peer_name)
                &&& tells_of(
                    after.items.last(),
                    now,
                    PeerEventKind::Connected,
                    after.items.last()->peer_name,
                    Seq::empty(),
                )
            })
            &&& (news matches PeerNews::WsDisconnected(id) ==> {
                &&& after.peers == m.peers
                &&& after.items.len() == m.items.len() + 1
                &&& after.items.drop_last() == m.items
                &&& is_name_of(m.peers, id@, after.items.last()->peer_name)
                &&& tells_of(
                    after.items.last(),
                    now,
                    PeerEventKind::Disconnected,
                    after.items.last()->peer_name,
                    Seq::empty(),
                )
            })
            &&& news is AuthRequired ==> after == m
        }),
{
    let after = event_handled(m, AppEvent::PeerEvent(news), seen, now).0;
    match news {
        PeerNews::Left(id) => {
            lemma_row(m.peers, id@, 0);
            assert(after.items.drop_last() =~= m.items);
            assert(row_of(m.peers, id@, 0) < m.peers.len() ==> first_row(
                m.peers,
                id@,
                row_of(m.peers, id@, 0),
            ));
        },
        PeerNews::WsConnected(id) => {
            lemma_row(m.peers, id@, 0);
            assert(after.items.drop_last() =~= m.items);
        },
        PeerNews::WsDisconnected(id) => {
            lemma_row(m.peers, id@, 0);
            assert(after.items.drop_last() =~= m.items);
        },
        PeerNews::Seen(p) => {
            lemma_row(m.peers, p@.tailscale_id, 0);
        },
        _ => {},
    }
}

proof fn lemma_answering(peers: Seq<PeerInfoModel>, id: Seq<char>, from: int)
    requires
        0 <= from <= peers.len(),
    ensures
        from <= row_answering(peers, id, from) <= peers.len(),
        row_answering(peers, id, from) < peers.len() ==> (peers[row_answering(
            peers,
            id,
            from,
        )].tailscale_id == id || peers[row_answering(peers, id, from)].device_id == Some(id)),
        forall|j: int|
            from <= j < row_answering(peers, id, from) ==> (#[trigger] peers[j]).tailscale_id != id
                && peers[j].device_id != Some(id),
    decreases peers.len() - from,
{
    if from < peers.len() && !(peers[from].tailscale_id == id || peers[from].device_id == Some(
        id,
    )) {
        lemma_answering(peers, id, from + 1);
    }
}

/// A name that is shown for an id is that of the first peer whose node id or
/// device id it is; where there is no such peer it is what stands in for it.
pub proof fn law_names_are_found(
    peers: Seq<PeerInfoModel>,
    id: Seq<char>,
    otherwise: Seq<char>,
    i: int,
)
    requires
        0 <= i <= peers.len(),
        i < peers.len() ==> peers[i].tailscale_id == id || peers[i].device_id == Some(id),
        forall|j: int|
            0 <= j < i ==> (#[trigger] peers[j]).tailscale_id != id && peers[j].device_id != Some(
                id,
            ),
    ensures
        i < peers.len() ==> name_answering(peers, id, otherwise) == peers[i].device_name,
        i == peers.len() ==> name_answering(peers, id, otherwise) == otherwise,
{
    lemma_answering(peers, id, 0);
}

/// A message comes at the end of the feed under the name of its sender. Only
/// who does not follow the feed is told by a note, which says the same.
pub proof fn law_messages_are_shown(m: AppModel, from_id: String, text: String, seen: Seen, now: u64)
    ensures
        ({
            let (after, effects) = event_handled(
                m,
                AppEvent::IncomingMessage { from_id, text },
                seen,
                now,
            );
            let name = name_answering(m.peers, from_id@, from_id@);
            &&& effects.len() == 0
            &&& after.items.len() == m.items.len() + 1
            &&& after.items.drop_last() == m.items
            &&& after.items.last() == (ItemModel::ChatIncoming { time: now, from: name, text: text@
            })
            &&& m.auto_scroll ==> after.notifications == m.notifications
            &&& !m.auto_scroll ==> {
                &&& after.notifications.len() == m.notifications.len() + 1
                &&& after.notifications.drop_last() == m.notifications
                &&& after.notifications.last().text == name + ": "@ + text@
                &&& after.notifications.last().created_at == now
            }
            &&& after.peers == m.peers
            &&& same_but_shown(after, m)
        }),
{
    let after = event_handled(m, AppEvent::IncomingMessage { from_id, text }, seen, now).0;
    assert(after.items.drop_last() =~= m.items);
    if !m.auto_scroll {
        assert(after.notifications.drop_last() =~= m.notifications);
    }
}

/// An entry of the feed is about a transfer of a file.
pub open spec fn is_about(item: ItemModel, name: Seq<char>) -> bool {
    item matches ItemModel::FileTransfer { file_name, .. } && file_name == name
}

proof fn lemma_last_about(items: Seq<ItemModel>, name: Seq<char>)
    ensures
        -1 <= last_transfer(items, name) < items.len(),
        last_transfer(items, name) >= 0 ==> is_about(items[last_transfer(items, name)], name),
        forall|j: int|
            last_transfer(items, name) < j < items.len() ==> !is_about(#[trigger] items[j], name),
    decreases items.len(),
{
    if items.len() > 0 && !is_about(items.last(), name) {
        lemma_last_about(items.drop_last(), name);
        assert forall|j: int| last_transfer(items, name) < j < items.len() implies !is_about(
            #[trigger] items[j],
            name,
        ) by {
            if j < items.len() - 1 {
                assert(items.drop_last()[j] == items[j]);
            }
        }
    }
}

/// The status that a report about a transfer carries, and the file it names.
pub open spec fn reports(e: AppEvent, name: Seq<char>, status: StatusModel) -> bool {
    match e {
        AppEvent::TransferProgress { file_name, percent_bits, speed_bps_bits } => file_name@ == name
            && status == (StatusModel::InProgress { percent_bits, speed_bps_bits }),
        AppEvent::TransferComplete { file_name, sha256 } => file_name@ == name && status
            == StatusModel::Complete(sha256@),
        AppEvent::TransferFailed { file_name, reason } => file_name@ == name && status
            == StatusModel::Failed(reason@),
        _ => false,
    }
}

/// A report about a transfer changes the status of the newest entry about the
/// file, and nothing else; a file that has no entry is ignored.
pub proof fn law_reports_reach_the_newest_entry(
    m: AppModel,
    e: AppEvent,
    seen: Seen,
    now: u64,
    name: Seq<char>,
    status: StatusModel,
    i: int,
)
    requires
        reports(e, name, status),
        -1 <= i < m.items.len(),
        i >= 0 ==> is_about(m.items[i], name),
        forall|j: int| i < j < m.items.len() ==> !is_about(#[trigger] m.items[j], name),
    ensures
        ({
            let (after, effects) = event_handled(m, e, seen, now);
            &&& effects.len() == 0
            &&& i < 0 ==> after == m
            &&& i >= 0 ==> {
                &&& after.items.len() == m.items.len()
                &&& forall|j: int|
                    0 <= j < m.items.len() && j != i ==> #[trigger] after.items[j] == m.items[j]
                &&& after.items[i] is FileTransfer
                &&& after.items[i]->status == status
                &&& after.items[i]->file_name == name
                &&& after.items[i]->size == m.items[i]->size
                &&& after.items[i]->direction == m.items[i]->direction
                &&& after.items[i]->FileTransfer_time == m.items[i]->FileTransfer_time
            }
            &&& after.peers == m.peers
            &&& after.notifications == m.notifications
            &&& same_but_shown(after, m)
        }),
{
    lemma_last_about(m.items, name);
    let k = last_transfer(m.items, name);
    if k < i {
        assert(!is_about(m.items[i], name));
    }
    if i < k {
        assert(!is_about(m.items[k], name));
    }
}

proof fn lemma_fresh(toasts: Seq<ToastModel>, now: u64) -> (k: int)
    ensures
        0 <= k <= toasts.len(),
        still_fresh(toasts, now) == toasts.skip(k),
        forall|j: int| 0 <= j < k ==> now - (#[trigger] toasts[j]).created_at >= 4_000_000_000,
        k < toasts.len() ==> now - toasts[k].created_at < 4_000_000_000,
    decreases toasts.len(),
{
    if toasts.len() > 0 && now - toasts[0].created_at >= 4_000_000_000 {
        let r = lemma_fresh(toasts.skip(1), now);
        assert(toasts.skip(1).skip(r) =~= toasts.skip(r + 1));
        assert forall|j: int| 0 <= j < r + 1 implies now - (#[trigger] toasts[j]).created_at
            >= 4_000_000_000 by {
            if j > 0 {
                assert(toasts.skip(1)[j - 1] == toasts[j]);
            }
        }
        r + 1
    } else {
        assert(toasts.skip(0) =~= toasts);
        0
    }
}

/// A note stays four seconds: a tick takes the notes at the front that are that
/// old, and no others.
pub proof fn law_notes_fade(m: AppModel, seen: Seen, now: u64, k: int)
    requires
        0 <= k <= m.notifications.len(),
        forall|j: int|
            0 <= j < k ==> now - (#[trigger] m.notifications[j]).created_at >= 4_000_000_000,
        k < m.notifications.len() ==> now - m.notifications[k].created_at < 4_000_000_000,
    ensures
        event_handled(m, AppEvent::Tick, seen, now).0.notifications == m.notifications.skip(k),
        same_rest(event_handled(m, AppEvent::Tick, seen, now).0, m),
        m.dialog is None ==> event_handled(m, AppEvent::Tick, seen, now).0.items == m.items
            && event_handled(m, AppEvent::Tick, seen, now).1.len() == 0,
{
    let r = lemma_fresh(m.notifications, now);
    if r < k {
        assert(now - m.notifications[r].created_at >= 4_000_000_000);
    }
    if k < r {
        assert(now - m.notifications[k].created_at >= 4_000_000_000);
    }
}

/// A new size of the terminal changes nothing.
pub proof fn law_resizing_changes_nothing(m: AppModel, seen: Seen, now: u64)
    ensures
        event_handled(m, AppEvent::Resize, seen, now).0 == m,
        event_handled(m, AppEvent::Resize, seen, now).1.len() == 0,
{
}

/// An interface that was just started shows nothing and follows the feed; it
/// knows the lines and the trusted senders of earlier sessions.
pub proof fn law_start_is_empty(history: Seq<Seq<char>>, trusted: Seq<Seq<char>>, dir: Seq<char>)
    ensures
        ({
            let m = started(history, trusted, dir);
            &&& m.input.text.len() == 0 && m.input.cursor == 0
            &&& m.history == history && m.history_index is None
            &&& m.items.len() == 0 && m.peers.len() == 0 && m.notifications.len() == 0
            &&& m.scroll_offset == 0 && m.auto_scroll
            &&& !m.should_quit
            &&& m.auto_accept_peers == trusted
            &&& m.dialog is None && m.pending_offers.len() == 0
            &&& m.autocomplete is None && !m.picker_open
            &&& m.download_dir == dir
        }),
{
}

} // verus!
