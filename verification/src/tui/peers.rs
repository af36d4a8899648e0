//! The list of peers, and what the feed says of them.
use vstd::prelude::*;

use crate::node::{peer_views, Peer, PeerViewModel};
use crate::text::{copy_opt, opt_text, owned, same_text};
use crate::tui::state::{
    info_models, pushed, AppModel, AppState, DisplayItem, ItemModel, PeerEventKind, PeerInfo,
    PeerInfoModel,
};

verus! {

/// News of a peer.
pub enum PeerNews {
    /// It joined, said who it is, or changed.
    Seen(Peer),
    /// The node with this id left.
    Left(String),
    WsConnected(String),
    WsDisconnected(String),
    /// Somebody has to log in.
    AuthRequired { url: String },
}

/// The first row with a node id, from `from` on; the number of rows if none.
pub open spec fn row_of(peers: Seq<PeerInfoModel>, id: Seq<char>, from: int) -> int
    decreases peers.len() - from,
{
    if from >= peers.len() {
        peers.len() as int
    } else if peers[from].tailscale_id == id {
        from
    } else {
        row_of(peers, id, from + 1)
    }
}

/// The first row that answers to an id, from `from` on.
pub open spec fn row_answering(peers: Seq<PeerInfoModel>, id: Seq<char>, from: int) -> int
    decreases peers.len() - from,
{
    if from >= peers.len() {
        peers.len() as int
    } else if peers[from].answers_to(id) {
        from
    } else {
        row_answering(peers, id, from + 1)
    }
}

/// The name of the peer with a node id; the id itself where it is unknown.
pub open spec fn name_of(peers: Seq<PeerInfoModel>, id: Seq<char>) -> Seq<char> {
    let i = row_of(peers, id, 0);
    if i < peers.len() {
        peers[i].device_name
    } else {
        id
    }
}

/// The name of the peer that answers to an id.
pub open spec fn name_answering(
    peers: Seq<PeerInfoModel>,
    id: Seq<char>,
    otherwise: Seq<char>,
) -> Seq<char> {
    let i = row_answering(peers, id, 0);
    if i < peers.len() {
        peers[i].device_name
    } else {
        otherwise
    }
}

/// The connection of a peer, where one is told.
pub open spec fn told_connection(connection_type: Seq<char>) -> Option<Seq<char>> {
    if connection_type.len() == 0 {
        None
    } else {
        Some(connection_type)
    }
}

/// A new row.
pub open spec fn new_row(p: PeerViewModel) -> PeerInfoModel {
    PeerInfoModel {
        device_id: p.device_id,
        device_name: p.display_name,
        tailscale_id: p.tailscale_id,
        ip: p.ip,
        online: p.online,
        connection: told_connection(p.connection_type),
    }
}

/// A row brought up to date. A device id or a connection that was known stays
/// where nothing newer is told.
pub open spec fn renewed_row(row: PeerInfoModel, p: PeerViewModel) -> PeerInfoModel {
    PeerInfoModel {
        device_id: if p.device_id is Some {
            p.device_id
        } else {
            row.device_id
        },
        device_name: p.display_name,
        tailscale_id: row.tailscale_id,
        ip: p.ip,
        online: p.online,
        connection: if p.connection_type.len() > 0 {
            Some(p.connection_type)
        } else {
            row.connection
        },
    }
}

/// The list with a peer brought up to date.
pub open spec fn with_peer(peers: Seq<PeerInfoModel>, p: PeerViewModel) -> Seq<PeerInfoModel> {
    let i = row_of(peers, p.tailscale_id, 0);
    if i < peers.len() {
        peers.update(i, renewed_row(peers[i], p))
    } else {
        peers.push(new_row(p))
    }
}

/// The list with several peers brought up to date, in order.
pub open spec fn with_peers(peers: Seq<PeerInfoModel>, list: Seq<PeerViewModel>) -> Seq<
    PeerInfoModel,
>
    decreases list.len(),
{
    if list.len() == 0 {
        peers
    } else {
        with_peer(with_peers(peers, list.drop_last()), list.last())
    }
}

/// Whether the peer was online before, if it was known.
pub open spec fn was_online(peers: Seq<PeerInfoModel>, id: Seq<char>) -> Option<bool> {
    let i = row_of(peers, id, 0);
    if i < peers.len() {
        Some(peers[i].online)
    } else {
        None
    }
}

/// What the feed says of a peer that was seen: only that it came, went or came
/// back.
pub open spec fn seen_line(was: Option<bool>, p: PeerViewModel, now: u64) -> Option<ItemModel> {
    match (was, p.online) {
        (None, true) => Some(
            ItemModel::PeerEvent {
                time: now,
                kind: PeerEventKind::Joined,
                peer_name: p.display_name,
                detail: p.ip,
            },
        ),
        (Some(true), false) => Some(
            ItemModel::PeerEvent {
                time: now,
                kind: PeerEventKind::Disconnected,
                peer_name: p.display_name,
                detail: Seq::empty(),
            },
        ),
        (Some(false), true) => Some(
            ItemModel::PeerEvent {
                time: now,
                kind: PeerEventKind::Connected,
                peer_name: p.display_name,
                detail: p.ip,
            },
        ),
        _ => None,
    }
}

pub open spec fn peer_seen(m: AppModel, p: PeerViewModel, now: u64) -> AppModel {
    let after = AppModel { peers: with_peer(m.peers, p), ..m };
    match seen_line(was_online(m.peers, p.tailscale_id), p, now) {
        Some(item) => pushed(after, item),
        None => after,
    }
}

pub open spec fn gone_offline(peers: Seq<PeerInfoModel>, id: Seq<char>) -> Seq<PeerInfoModel> {
    let i = row_of(peers, id, 0);
    if i < peers.len() {
        peers.update(i, PeerInfoModel { online: false, ..peers[i] })
    } else {
        peers
    }
}

pub open spec fn peer_line(m: AppModel, kind: PeerEventKind, id: Seq<char>, now: u64) -> ItemModel {
    ItemModel::PeerEvent {
        time: now,
        kind,
        peer_name: name_of(m.peers, id),
        detail: Seq::empty(),
    }
}

/// What news of a peer does.
pub open spec fn peer_news(m: AppModel, news: PeerNews, now: u64) -> AppModel {
    match news {
        PeerNews::Seen(p) => peer_seen(m, p@, now),
        PeerNews::Left(id) => pushed(
            AppModel { peers: gone_offline(m.peers, id@), ..m },
            peer_line(m, PeerEventKind::Left, id@, now),
        ),
        PeerNews::WsConnected(id) => pushed(
            m,
            peer_line(m, PeerEventKind::Connected, id@, now),
        ),
        PeerNews::WsDisconnected(id) => pushed(
            m,
            peer_line(m, PeerEventKind::Disconnected, id@, now),
        ),
        PeerNews::AuthRequired { .. } => m,
    }
}

fn find_row(peers: &Vec<PeerInfo>, id: &str) -> (r: usize)
    ensures
        r == row_of(info_models(peers@), id@, 0),
        r <= peers@.len(),
{
    let n: usize = peers.len();
    let mut i: usize = 0;
    let ghost all = info_models(peers@);
    while i < n
        invariant
            n == peers@.len() == all.len(),
            i <= n,
            all == info_models(peers@),
            row_of(all, id@, 0) == row_of(all, id@, i as int),
        decreases n - i,
    {
        assert(all[i as int] == peers@[i as int]@);
        if same_text(peers[i].tailscale_id.as_str(), id) {
            return i;
        }
        i += 1;
    }
    n
}

/// The name of the peer that answers to an id.
pub fn name_for(peers: &Vec<PeerInfo>, id: &str, otherwise: &str) -> (r: String)
    ensures
        r@ == name_answering(info_models(peers@), id@, otherwise@),
{
    let n: usize = peers.len();
    let mut i: usize = 0;
    let ghost all = info_models(peers@);
    while i < n
        invariant
            n == peers@.len() == all.len(),
            i <= n,
            all == info_models(peers@),
            row_answering(all, id@, 0) == row_answering(all, id@, i as int),
        decreases n - i,
    {
        assert(all[i as int] == peers@[i as int]@);
        if peers[i].matches_id(id) {
            return peers[i].device_name.clone();
        }
        i += 1;
    }
    owned(otherwise)
}

fn name_at(peers: &Vec<PeerInfo>, id: &str) -> (r: String)
    ensures
        r@ == name_of(info_models(peers@), id@),
{
    let i: usize = find_row(peers, id);
    assert(i < peers@.len() ==> info_models(peers@)[i as int] == peers@[i as int]@);
    if i < peers.len() {
        peers[i].device_name.clone()
    } else {
        owned(id)
    }
}

/// The connection of a peer, where one is told.
fn connection_told(connection_type: &String) -> (r: Option<String>)
    ensures
        opt_text(r) == told_connection(connection_type@),
{
    if connection_type.as_str().is_empty() {
        None
    } else {
        Some(connection_type.clone())
    }
}

fn renew(peers: &mut Vec<PeerInfo>, p: &Peer)
    ensures
        info_models(final(peers)@) == with_peer(info_models(old(peers)@), p@),
{
    let ghost before = peers@;
    let n: usize = peers.len();
    let i: usize = find_row(peers, p.tailscale_id.as_str());
    assert(i < n ==> info_models(before)[i as int] == before[i as int]@);
    if i < n {
        let device_id: Option<String> = if p.device_id.is_some() {
            copy_opt(&p.device_id)
        } else {
            copy_opt(&peers[i].device_id)
        };
        let told: Option<String> = connection_told(&p.connection_type);
        let connection: Option<String> = if told.is_some() {
            told
        } else {
            copy_opt(&peers[i].connection)
        };
        let row = PeerInfo {
            device_id,
            device_name: p.display_name.clone(),
            tailscale_id: peers[i].tailscale_id.clone(),
            ip: p.ip.clone(),
            online: p.online,
            connection,
        };
        peers.set(i, row);
        assert(info_models(peers@) =~= info_models(before).update(i as int, row@));
    } else {
        let row = PeerInfo {
            device_id: copy_opt(&p.device_id),
            device_name: p.display_name.clone(),
            tailscale_id: p.tailscale_id.clone(),
            ip: p.ip.clone(),
            online: p.online,
            connection: connection_told(&p.connection_type),
        };
        peers.push(row);
        assert(info_models(peers@) =~= info_models(before).push(row@));
    }
}

fn empty() -> (r: String)
    ensures
        r@ == Seq::<char>::empty(),
{
    let r: String = String::new();
    assert(r@ =~= Seq::empty());
    r
}

impl AppState {
    /// Brings the list of peers up to date, without a word in the feed.
    pub fn populate_peers(&mut self, current: &Vec<Peer>)
        ensures
            final(self)@ == (AppModel {
                peers: with_peers(old(self)@.peers, peer_views(current@)),
                ..old(self)@
            }),
    {
        let n: usize = current.len();
        let mut i: usize = 0;
        let ghost all = peer_views(current@);
        let ghost before = *self;
        assert(all.take(0) =~= Seq::empty());
        while i < n
            invariant
                n == current@.len(),
                i <= n,
                all == peer_views(current@),
                self@ == (AppModel {
                    peers: with_peers(before@.peers, all.take(i as int)),
                    ..before@
                }),
            decreases n - i,
        {
            assert(all.take(i + 1).drop_last() =~= all.take(i as int));
            assert(all.take(i + 1).last() == current@[i as int]@);
            renew(&mut self.peers, &current[i]);
            i += 1;
        }
        assert(all.take(n as int) =~= all);
    }

    fn say(&mut self, kind: PeerEventKind, id: &str, now: u64)
        ensures
            final(self)@ == pushed(old(self)@, peer_line(old(self)@, kind, id@, now)),
    {
        let name: String = name_at(&self.peers, id);
        self.push_item(
            DisplayItem::PeerEvent { time: now, kind, peer_name: name, detail: empty() },
        );
    }

    /// Handles news of a peer.
    pub fn handle_peer_event(&mut self, news: &PeerNews, now: u64)
        ensures
            final(self)@ == peer_news(old(self)@, *news, now),
    {
        match news {
            PeerNews::Seen(p) => {
                let n: usize = self.peers.len();
                let i: usize = find_row(&self.peers, p.tailscale_id.as_str());
                assert(i < n ==> info_models(self.peers@)[i as int] == self.peers@[i as int]@);
                let was: Option<bool> = if i < n {
                    Some(self.peers[i].online)
                } else {
                    None
                };
                renew(&mut self.peers, p);
                let name: String = p.display_name.clone();
                match (was, p.online) {
                    (None, true) => self.push_item(
                        DisplayItem::PeerEvent {
                            time: now,
                            kind: PeerEventKind::Joined,
                            peer_name: name,
                            detail: p.ip.clone(),
                        },
                    ),
                    (Some(true), false) => self.push_item(
                        DisplayItem::PeerEvent {
                            time: now,
                            kind: PeerEventKind::Disconnected,
                            peer_name: name,
                            detail: empty(),
                        },
                    ),
                    (Some(false), true) => self.push_item(
                        DisplayItem::PeerEvent {
                            time: now,
                            kind: PeerEventKind::Connected,
                            peer_name: name,
                            detail: p.ip.clone(),
                        },
                    ),
                    _ => {},
                }
            },
            PeerNews::Left(id) => {
                let name: String = name_at(&self.peers, id.as_str());
                let ghost before = self.peers@;
                let n: usize = self.peers.len();
                let i: usize = find_row(&self.peers, id.as_str());
                assert(i < n ==> info_models(before)[i as int] == before[i as int]@);
                if i < n {
                    let row = PeerInfo {
                        device_id: copy_opt(&self.peers[i].device_id),
                        device_name: self.peers[i].device_name.clone(),
                        tailscale_id: self.peers[i].tailscale_id.clone(),
                        ip: self.peers[i].ip.clone(),
                        online: false,
                        connection: copy_opt(&self.peers[i].connection),
                    };
                    self.peers.set(i, row);
                    assert(info_models(self.peers@) =~= info_models(before).update(
                        i as int,
                        row@,
                    ));
                }
                self.push_item(
                    DisplayItem::PeerEvent {
                        time: now,
                        kind: PeerEventKind::Left,
                        peer_name: name,
                        detail: empty(),
                    },
                );
            },
            PeerNews::WsConnected(id) => self.say(PeerEventKind::Connected, id.as_str(), now),
            PeerNews::WsDisconnected(id) => self.say(PeerEventKind::Disconnected, id.as_str(), now),
            PeerNews::AuthRequired { .. } => {},
        }
    }
}

// ---------------------------------------------------------------------------
// Laws
// ---------------------------------------------------------------------------

proof fn lemma_row_of(peers: Seq<PeerInfoModel>, id: Seq<char>, from: int)
    requires
        0 <= from <= peers.len(),
    ensures
        from <= row_of(peers, id, from) <= peers.len(),
        row_of(peers, id, from) < peers.len() ==> peers[row_of(peers, id, from)].tailscale_id == id,
        forall|i: int|
            from <= i < row_of(peers, id, from) ==> (#[trigger] peers[i]).tailscale_id != id,
    decreases peers.len() - from,
{
    if from < peers.len() && peers[from].tailscale_id != id {
        lemma_row_of(peers, id, from + 1);
    }
}

/// Each node has one row.
pub open spec fn one_row_each(peers: Seq<PeerInfoModel>) -> bool {
    forall|i: int, j: int|
        0 <= i < j < peers.len() ==> (#[trigger] peers[i]).tailscale_id != (#[trigger] peers[j]).tailscale_id
}

/// Whatever is heard of peers, each node keeps one row, and a device id that
/// was learned is not lost by a message that tells none.
pub proof fn law_one_row_for_each_node(peers: Seq<PeerInfoModel>, p: PeerViewModel, i: int)
    requires
        one_row_each(peers),
        0 <= i < peers.len(),
    ensures
        one_row_each(with_peer(peers, p)),
        one_row_each(gone_offline(peers, p.tailscale_id)),
        with_peer(peers, p)[i].tailscale_id == peers[i].tailscale_id,
        peers[i].device_id is Some ==> with_peer(peers, p)[i].device_id is Some,
{
    lemma_row_of(peers, p.tailscale_id, 0);
}

/// Saying the same of a peer twice is saying it once: the second time the feed
/// stays silent.
pub proof fn law_repetition_is_silent(m: AppModel, p: PeerViewModel, now: u64, later: u64)
    ensures
        peer_seen(peer_seen(m, p, now), p, later).items == peer_seen(m, p, now).items,
        peer_seen(peer_seen(m, p, now), p, later).peers == peer_seen(m, p, now).peers,
{
    let peers = m.peers;
    let once = with_peer(peers, p);
    let i = row_of(peers, p.tailscale_id, 0);
    lemma_row_of(peers, p.tailscale_id, 0);
    lemma_row_of(once, p.tailscale_id, 0);
    let k = row_of(once, p.tailscale_id, 0);
    assert(k == i) by {
        assert(once[i].tailscale_id == p.tailscale_id);
        if k < i {
            assert(once[k] == peers[k]);
        }
    }
    assert(once.update(i, renewed_row(once[i], p)) =~= once);
}

} // verus!
