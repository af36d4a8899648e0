//! What events do.
use vstd::prelude::*;

use crate::text::{join3, same_text};
use crate::tui::keys::{key_pressed, KeyPress, Seen};
use crate::tui::offers::{given_up, offered};
use crate::tui::peers::{name_answering, name_for, peer_news, PeerNews};
use crate::tui::state::{
    effect_models, item_models, no_effects, pushed, toast_models, AppModel, AppState, DisplayItem,
    Effect, EffectModel, ItemModel, StatusModel, TicketedOffer, Toast, ToastModel, TransferStatus,
};

verus! {

/// Something happened.
#[allow(inconsistent_fields)]
pub enum AppEvent {
    Key(KeyPress),
    /// The terminal draws itself anew.
    Resize,
    PeerEvent(PeerNews),
    IncomingMessage { from_id: String, text: String },
    TransferProgress { file_name: String, percent_bits: u64, speed_bps_bits: u64 },
    TransferComplete { file_name: String, sha256: String },
    TransferFailed { file_name: String, reason: String },
    FileOfferReceived(TicketedOffer),
    Tick,
}

/// Nanoseconds that a note stays.
pub const TOAST_NANOS: u64 = 4_000_000_000;

/// The last transfer of a file in the feed; -1 if there is none.
pub open spec fn last_transfer(items: Seq<ItemModel>, name: Seq<char>) -> int
    decreases items.len(),
{
    if items.len() == 0 {
        -1
    } else if items.last() is FileTransfer && items.last()->file_name == name {
        items.len() - 1
    } else {
        last_transfer(items.drop_last(), name)
    }
}

/// An entry with another status.
pub open spec fn with_status(item: ItemModel, status: StatusModel) -> ItemModel {
    match item {
        ItemModel::FileTransfer { time, direction, file_name, size, .. } => {
            ItemModel::FileTransfer { time, direction, file_name, size, status }
        },
        other => other,
    }
}

/// The last transfer of a file stands differently now.
pub open spec fn transfer_stands(m: AppModel, name: Seq<char>, status: StatusModel) -> AppModel {
    let i = last_transfer(m.items, name);
    if i < 0 {
        m
    } else {
        AppModel { items: m.items.update(i, with_status(m.items[i], status)), ..m }
    }
}

/// A message came. Who scrolled up is told by a note.
pub open spec fn message_came(m: AppModel, from: Seq<char>, text: Seq<char>, now: u64) -> AppModel {
    let name = name_answering(m.peers, from, from);
    let noted = if m.auto_scroll {
        m
    } else {
        AppModel {
            notifications: m.notifications.push(
                ToastModel { text: name + ": "@ + text, created_at: now },
            ),
            ..m
        }
    };
    pushed(noted, ItemModel::ChatIncoming { time: now, from: name, text })
}

/// The notes that stay: those from the first that is not too old on.
pub open spec fn still_fresh(toasts: Seq<ToastModel>, now: u64) -> Seq<ToastModel>
    decreases toasts.len(),
{
    if toasts.len() > 0 && now - toasts[0].created_at >= TOAST_NANOS {
        still_fresh(toasts.skip(1), now)
    } else {
        toasts
    }
}

/// What an event does.
pub open spec fn event_handled(m: AppModel, e: AppEvent, seen: Seen, now: u64) -> (
    AppModel,
    Seq<EffectModel>,
) {
    match e {
        AppEvent::Key(k) => key_pressed(m, k, seen, now),
        AppEvent::Resize => (m, seq![]),
        AppEvent::PeerEvent(news) => (peer_news(m, news, now), seq![]),
        AppEvent::IncomingMessage { from_id, text } => (
            message_came(m, from_id@, text@, now),
            seq![],
        ),
        AppEvent::TransferProgress { file_name, percent_bits, speed_bps_bits } => (
            transfer_stands(
                m,
                file_name@,
                StatusModel::InProgress { percent_bits, speed_bps_bits },
            ),
            seq![],
        ),
        AppEvent::TransferComplete { file_name, sha256 } => (
            transfer_stands(m, file_name@, StatusModel::Complete(sha256@)),
            seq![],
        ),
        AppEvent::TransferFailed { file_name, reason } => (
            transfer_stands(m, file_name@, StatusModel::Failed(reason@)),
            seq![],
        ),
        AppEvent::FileOfferReceived(t) => offered(m, t@, now),
        AppEvent::Tick => given_up(
            AppModel { notifications: still_fresh(m.notifications, now), ..m },
            now,
        ),
    }
}

/// The last transfer of a file in the feed.
fn find_transfer(items: &Vec<DisplayItem>, name: &str) -> (r: Option<usize>)
    ensures
        match r {
            Some(i) => i < items@.len() && last_transfer(item_models(items@), name@) == i,
            None => last_transfer(item_models(items@), name@) < 0,
        },
{
    let n: usize = items.len();
    let ghost all = item_models(items@);
    let mut k: usize = n;
    assert(all.take(n as int) =~= all);
    while k > 0
        invariant
            k <= n == items@.len() == all.len(),
            all == item_models(items@),
            last_transfer(all, name@) == last_transfer(all.take(k as int), name@),
        decreases k,
    {
        k -= 1;
        assert(all.take(k + 1).last() == items@[k as int]@);
        assert(all.take(k + 1).drop_last() =~= all.take(k as int));
        match &items[k] {
            DisplayItem::FileTransfer { file_name, .. } => {
                if same_text(file_name.as_str(), name) {
                    return Some(k);
                }
            },
            _ => {},
        }
    }
    None
}

impl AppState {
    fn set_status(&mut self, name: &str, status: TransferStatus)
        ensures
            final(self)@ == transfer_stands(old(self)@, name@, status@),
    {
        let ghost before = self.items@;
        match find_transfer(&self.items, name) {
            Some(i) => {
                proof {
                    lemma_last_transfer(item_models(before), name@);
                    assert(item_models(before)[i as int] == before[i as int]@);
                }
                let item: DisplayItem = match &self.items[i] {
                    DisplayItem::FileTransfer { time, direction, file_name, size, status: _ } => {
                        DisplayItem::FileTransfer {
                            time: *time,
                            direction: *direction,
                            file_name: file_name.clone(),
                            size: *size,
                            status,
                        }
                    },
                    _ => return,
                };
                self.items.set(i, item);
                assert(item_models(self.items@) =~= item_models(before).update(i as int, item@));
            },
            None => {},
        }
    }

    fn expire_toasts(&mut self, now: u64)
        ensures
            final(self)@ == (AppModel {
                notifications: still_fresh(old(self)@.notifications, now),
                ..old(self)@
            }),
    {
        let n: usize = self.notifications.len();
        let mut i: usize = 0;
        let ghost all = toast_models(self.notifications@);
        let ghost before = *self;
        assert(all.skip(0) =~= all);
        while i < n && self.notifications.len() > 0 && now >= self.notifications[0].created_at
            && now - self.notifications[0].created_at >= TOAST_NANOS
            invariant
                i <= n,
                n == all.len(),
                toast_models(self.notifications@) == all.skip(i as int),
                self@ == (AppModel { notifications: all.skip(i as int), ..before@ }),
                still_fresh(all, now) == still_fresh(all.skip(i as int), now),
            decreases n - i,
        {
            let ghost was = self.notifications@;
            assert(toast_models(was)[0] == was[0]@);
            assert(all.skip(i as int).skip(1) =~= all.skip(i + 1));
            self.notifications.remove(0);
            assert(toast_models(self.notifications@) =~= toast_models(was).skip(1));
            i += 1;
        }
        proof {
            let left = all.skip(i as int);
            assert(left.len() == self.notifications@.len());
            if left.len() > 0 {
                assert(left[0] == self.notifications@[0]@);
            }
        }
    }

    /// Handles an event.
    pub fn handle_event(&mut self, event: AppEvent, seen: &Seen, now: u64) -> (r: Vec<Effect>)
        requires
            old(self)@.wf(),
        ensures
            (final(self)@, effect_models(r@)) == event_handled(old(self)@, event, *seen, now),
            final(self)@.wf(),
    {
        match event {
            AppEvent::Key(k) => self.handle_key(k, seen, now),
            AppEvent::Resize => no_effects(),
            AppEvent::PeerEvent(news) => {
                self.handle_peer_event(&news, now);
                no_effects()
            },
            AppEvent::IncomingMessage { from_id, text } => {
                let name: String = name_for(&self.peers, from_id.as_str(), from_id.as_str());
                if !self.auto_scroll {
                    let ghost before = self.notifications@;
                    let toast: Toast = Toast {
                        text: join3(name.as_str(), ": ", text.as_str()),
                        created_at: now,
                    };
                    self.notifications.push(toast);
                    assert(toast_models(self.notifications@) =~= toast_models(before).push(
                        toast@,
                    ));
                }
                self.push_item(DisplayItem::ChatIncoming { time: now, from: name, text });
                no_effects()
            },
            AppEvent::TransferProgress { file_name, percent_bits, speed_bps_bits } => {
                self.set_status(
                    file_name.as_str(),
                    TransferStatus::InProgress { percent_bits, speed_bps_bits },
                );
                no_effects()
            },
            AppEvent::TransferComplete { file_name, sha256 } => {
                self.set_status(file_name.as_str(), TransferStatus::Complete { sha256 });
                no_effects()
            },
            AppEvent::TransferFailed { file_name, reason } => {
                self.set_status(file_name.as_str(), TransferStatus::Failed { reason });
                no_effects()
            },
            AppEvent::FileOfferReceived(t) => self.handle_file_offer_received(t, now),
            AppEvent::Tick => {
                self.expire_toasts(now);
                self.expire_dialog(now)
            },
        }
    }
}

/// A report about a transfer changes at most the status of one entry, and that
/// of the file it names.
pub proof fn law_progress_touches_one_entry(
    m: AppModel,
    name: Seq<char>,
    status: StatusModel,
    i: int,
)
    requires
        0 <= i < m.items.len(),
    ensures
        transfer_stands(m, name, status).items.len() == m.items.len(),
        i != last_transfer(m.items, name) ==> transfer_stands(m, name, status).items[i]
            == m.items[i],
        i == last_transfer(m.items, name) ==> m.items[i] is FileTransfer && m.items[i]->file_name
            == name,
{
    lemma_last_transfer(m.items, name);
}

proof fn lemma_last_transfer(items: Seq<ItemModel>, name: Seq<char>)
    ensures
        ({
            let i = last_transfer(items, name);
            -1 <= i < items.len() && (i >= 0 ==> items[i] is FileTransfer && items[i]->file_name
                == name)
        }),
    decreases items.len(),
{
    if items.len() > 0 {
        lemma_last_transfer(items.drop_last(), name);
    }
}

} // verus!
