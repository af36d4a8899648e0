//! Offers of files: the dialog that asks about one, and the queue behind it.
use vstd::prelude::*;

use crate::file_transfer::types::{FileOffer, OfferModel, TransferDirection};
use crate::text::{contains_text, join2, join3, join4, owned, same_text, texts};
use crate::tui::line::{
    backspaced, deleted, fresh_line, moved_left, moved_right, typed, Line, LineModel,
};
use crate::tui::peers::{name_answering, name_for};
use crate::tui::state::{
    effect_models, info_models, no_effects, one_effect, pushed, system_item, ticketed_models,
    two_effects, AppModel, AppState, DialogModel, DisplayItem, Effect, EffectModel, ItemModel,
    PeerInfoModel, StatusModel, SystemLevel, TicketedModel, TicketedOffer, TransferDialogPhase,
    TransferDialogState, TransferStatus,
};

verus! {

/// A key.
#[derive(Debug, Clone, Copy, PartialEq, Eq, Structural)]
pub enum Key {
    Char(char),
    Enter,
    Esc,
    Tab,
    Up,
    Down,
    Left,
    Right,
    Home,
    End,
    PageUp,
    PageDown,
    Backspace,
    Delete,
    /// Any other.
    Other,
}

/// Whether files of a sender are accepted unasked: its node id is on the list,
/// or the device id of the peer with that node id.
pub open spec fn accepts_unasked(
    list: Seq<Seq<char>>,
    peers: Seq<PeerInfoModel>,
    from: Seq<char>,
) -> bool {
    ||| list.contains(from)
    ||| exists|i: int|
        0 <= i < peers.len() && (#[trigger] peers[i]).tailscale_id == from
            && peers[i].device_id is Some && list.contains(peers[i].device_id->0)
}

/// Where an offered file goes unless somebody says otherwise.
pub open spec fn default_path(offer: OfferModel, download_dir: Seq<char>) -> Seq<char> {
    if offer.suggested_path.len() == 0 || offer.suggested_path == "."@ {
        download_dir + "/"@ + offer.file_name
    } else {
        offer.suggested_path
    }
}

/// The dialog about an offer is opened.
pub open spec fn shown(m: AppModel, t: TicketedModel, now: u64) -> AppModel {
    AppModel {
        dialog: Some(
            DialogModel {
                offer: t.offer,
                ticket: t.ticket,
                phase: TransferDialogPhase::Prompt,
                save_path: fresh_line(default_path(t.offer, m.download_dir)),
                created_at: now,
            },
        ),
        ..m
    }
}

/// The dialog about the next offer is opened, if there is one.
pub open spec fn next_shown(m: AppModel, now: u64) -> AppModel {
    if m.pending_offers.len() > 0 {
        shown(AppModel { pending_offers: m.pending_offers.skip(1), ..m }, m.pending_offers[0], now)
    } else {
        m
    }
}

/// The dialog is closed.
pub open spec fn closed_dialog(m: AppModel) -> AppModel {
    AppModel { dialog: None, ..m }
}

/// A transfer that begins.
pub open spec fn receiving_item(offer: OfferModel, now: u64) -> ItemModel {
    ItemModel::FileTransfer {
        time: now,
        direction: TransferDirection::Receive,
        file_name: offer.file_name,
        size: offer.size,
        status: StatusModel::InProgress { percent_bits: 0, speed_bps_bits: 0 },
    }
}

/// The offer in the dialog is accepted.
pub open spec fn accepted(m: AppModel, d: DialogModel, now: u64) -> (AppModel, Seq<EffectModel>) {
    (
        next_shown(pushed(closed_dialog(m), receiving_item(d.offer, now)), now),
        seq![EffectModel::Accept { ticket: d.ticket, path: d.save_path.text }],
    )
}

/// The offer in the dialog is refused, and the feed says so.
pub open spec fn refused(
    m: AppModel,
    d: DialogModel,
    reason: Seq<char>,
    line: Seq<char>,
    now: u64,
) -> (AppModel, Seq<EffectModel>) {
    (
        next_shown(
            pushed(closed_dialog(m), system_item(now, line, SystemLevel::Warning)),
            now,
        ),
        seq![EffectModel::Reject { ticket: d.ticket, reason }],
    )
}

/// The offer in the dialog is accepted, and all further ones of its sender.
pub open spec fn trusted(m: AppModel, d: DialogModel, now: u64) -> (AppModel, Seq<EffectModel>) {
    let accept = EffectModel::Accept { ticket: d.ticket, path: d.save_path.text };
    let known = m.auto_accept_peers.contains(d.offer.from_peer);
    let after = AppModel {
        auto_accept_peers: if known {
            m.auto_accept_peers
        } else {
            m.auto_accept_peers.push(d.offer.from_peer)
        },
        ..closed_dialog(m)
    };
    let name = name_answering(m.peers, d.offer.from_peer, d.offer.from_name);
    (
        next_shown(
            pushed(
                pushed(
                    after,
                    system_item(
                        now,
                        "  \u{2705} Accepted "@ + d.offer.file_name + " \u{2192} "@
                            + d.save_path.text,
                        SystemLevel::Success,
                    ),
                ),
                system_item(
                    now,
                    "  Future files from "@ + name + " accepted automatically"@,
                    SystemLevel::Info,
                ),
            ),
            now,
        ),
        if known {
            seq![accept]
        } else {
            seq![accept, EffectModel::SaveConfig]
        },
    )
}

/// The dialog goes on in a phase.
pub open spec fn in_phase(m: AppModel, d: DialogModel, phase: TransferDialogPhase) -> AppModel {
    AppModel { dialog: Some(DialogModel { phase, ..d }), ..m }
}

/// The path in the dialog was edited.
pub open spec fn edited(m: AppModel, d: DialogModel, line: LineModel) -> AppModel {
    AppModel { dialog: Some(DialogModel { save_path: line, ..d }), ..m }
}

/// The path is taken, unless something is there already.
pub open spec fn chosen(m: AppModel, d: DialogModel, exists: bool, now: u64) -> (
    AppModel,
    Seq<EffectModel>,
) {
    if exists {
        (in_phase(m, d, TransferDialogPhase::OverwriteConfirm), seq![])
    } else {
        accepted(m, d, now)
    }
}

/// What a key does while the dialog asks.
pub open spec fn prompt_key(m: AppModel, d: DialogModel, key: Key, exists: bool, now: u64) -> (
    AppModel,
    Seq<EffectModel>,
) {
    match key {
        Key::Char('a') | Key::Char('A') => chosen(m, d, exists, now),
        Key::Char('s') | Key::Char('S') => (
            AppModel { picker_open: true, ..in_phase(m, d, TransferDialogPhase::SaveAs) },
            seq![EffectModel::OpenPicker],
        ),
        Key::Char('r') | Key::Char('R') => refused(
            m,
            d,
            "rejected by user"@,
            "  \u{274C} Rejected "@ + d.offer.file_name + " from "@ + d.offer.from_name,
            now,
        ),
        Key::Char('d') | Key::Char('D') => trusted(m, d, now),
        Key::Esc => refused(
            m,
            d,
            "dismissed"@,
            "  \u{274C} Dismissed "@ + d.offer.file_name + " from "@ + d.offer.from_name,
            now,
        ),
        _ => (m, seq![]),
    }
}

/// What a key does while the path is edited.
pub open spec fn save_as_key(m: AppModel, d: DialogModel, key: Key, exists: bool, now: u64) -> (
    AppModel,
    Seq<EffectModel>,
) {
    let l = d.save_path;
    match key {
        Key::Enter => chosen(m, d, exists, now),
        Key::Esc => (in_phase(m, d, TransferDialogPhase::Prompt), seq![]),
        Key::Char(c) => (edited(m, d, typed(l, c)), seq![]),
        Key::Backspace => (edited(m, d, backspaced(l)), seq![]),
        Key::Delete => (edited(m, d, deleted(l)), seq![]),
        Key::Left => (edited(m, d, moved_left(l)), seq![]),
        Key::Right => (edited(m, d, moved_right(l)), seq![]),
        Key::Home => (edited(m, d, LineModel { cursor: 0, ..l }), seq![]),
        Key::End => (edited(m, d, fresh_line(l.text)), seq![]),
        Key::Tab => (AppModel { picker_open: true, ..m }, seq![EffectModel::OpenPicker]),
        _ => (m, seq![]),
    }
}

/// What a key does while the dialog asks about replacing a file.
pub open spec fn confirm_key(m: AppModel, d: DialogModel, key: Key, now: u64) -> (
    AppModel,
    Seq<EffectModel>,
) {
    match key {
        Key::Char('y') | Key::Char('Y') => accepted(m, d, now),
        Key::Char('n') | Key::Char('N') | Key::Esc => (
            in_phase(m, d, TransferDialogPhase::Prompt),
            seq![],
        ),
        _ => (m, seq![]),
    }
}

/// What a key does while a dialog is open.
pub open spec fn dialog_key(m: AppModel, key: Key, exists: bool, now: u64) -> (
    AppModel,
    Seq<EffectModel>,
) {
    match m.dialog {
        Some(d) => match d.phase {
            TransferDialogPhase::Prompt => prompt_key(m, d, key, exists, now),
            TransferDialogPhase::SaveAs => save_as_key(m, d, key, exists, now),
            TransferDialogPhase::OverwriteConfirm => confirm_key(m, d, key, now),
        },
        None => (m, seq![]),
    }
}

/// An offer came.
pub open spec fn offered(m: AppModel, t: TicketedModel, now: u64) -> (AppModel, Seq<EffectModel>) {
    if accepts_unasked(m.auto_accept_peers, m.peers, t.offer.from_peer) {
        (
            pushed(m, receiving_item(t.offer, now)),
            seq![
                EffectModel::Accept {
                    ticket: t.ticket,
                    path: default_path(t.offer, m.download_dir),
                },
            ],
        )
    } else if m.dialog is None {
        (shown(m, t, now), seq![])
    } else {
        (AppModel { pending_offers: m.pending_offers.push(t), ..m }, seq![])
    }
}

/// Nanoseconds after which a dialog is given up.
pub const DIALOG_TIMEOUT_NANOS: u64 = 60_000_000_000;

/// The dialog waited too long.
pub open spec fn given_up(m: AppModel, now: u64) -> (AppModel, Seq<EffectModel>) {
    match m.dialog {
        Some(d) => if now - d.created_at > DIALOG_TIMEOUT_NANOS {
            refused(
                m,
                d,
                "timed out (60s)"@,
                "  File offer from "@ + d.offer.from_name + " timed out ("@ + d.offer.file_name
                    + ")"@,
                now,
            )
        } else {
            (m, seq![])
        },
        None => (m, seq![]),
    }
}

fn path_for(offer: &FileOffer, download_dir: &str) -> (r: String)
    ensures
        r@ == default_path(offer@, download_dir@),
{
    if offer.suggested_path.as_str().is_empty() || same_text(offer.suggested_path.as_str(), ".") {
        join3(download_dir, "/", offer.file_name.as_str())
    } else {
        offer.suggested_path.clone()
    }
}

fn transfer_item(offer: &FileOffer, now: u64) -> (r: DisplayItem)
    ensures
        r@ == receiving_item(offer@, now),
{
    DisplayItem::FileTransfer {
        time: now,
        direction: TransferDirection::Receive,
        file_name: offer.file_name.clone(),
        size: offer.size,
        status: TransferStatus::InProgress { percent_bits: 0, speed_bps_bits: 0 },
    }
}

impl AppState {
    /// Whether files of a sender are accepted unasked.
    pub fn auto_accepts_offer(&self, from_peer: &str) -> (r: bool)
        ensures
            r == accepts_unasked(self@.auto_accept_peers, self@.peers, from_peer@),
    {
        if contains_text(&self.auto_accept_peers, from_peer) {
            return true;
        }
        let n: usize = self.peers.len();
        let mut i: usize = 0;
        let ghost all = self@.peers;
        let ghost list = self@.auto_accept_peers;
        while i < n
            invariant
                n == self.peers@.len() == all.len(),
                i <= n,
                all == info_models(self.peers@),
                list == texts(self.auto_accept_peers@),
                all == self@.peers,
                list == self@.auto_accept_peers,
                forall|j: int|
                    0 <= j < i ==> !((#[trigger] all[j]).tailscale_id == from_peer@
                        && all[j].device_id is Some && list.contains(all[j].device_id->0)),
            decreases n - i,
        {
            assert(all[i as int] == self.peers@[i as int]@);
            if same_text(self.peers[i].tailscale_id.as_str(), from_peer) {
                match &self.peers[i].device_id {
                    Some(uid) => {
                        if contains_text(&self.auto_accept_peers, uid.as_str()) {
                            return true;
                        }
                    },
                    None => {},
                }
            }
            i += 1;
        }
        false
    }

    /// Opens the dialog about an offer.
    pub fn show_offer_dialog(&mut self, t: TicketedOffer, now: u64)
        ensures
            final(self)@ == shown(old(self)@, t@, now),
            final(self)@.dialog is Some && final(self)@.dialog->0.save_path.wf(),
    {
        let path: String = path_for(&t.offer, self.download_dir.as_str());
        self.transfer_dialog = Some(
            TransferDialogState {
                offer: t.offer,
                ticket: t.ticket,
                phase: TransferDialogPhase::Prompt,
                save_path: Line::new(path.as_str()),
                created_at: now,
            },
        );
    }

    /// Opens the dialog about the next offer, if there is one.
    pub fn show_next_pending_offer(&mut self, now: u64)
        ensures
            final(self)@ == next_shown(old(self)@, now),
            old(self)@.pending_offers.len() > 0 ==> final(self)@.dialog is Some && final(self)@.dialog->0.save_path.wf(),
    {
        if self.pending_offers.len() > 0 {
            let ghost before = self.pending_offers@;
            let t: TicketedOffer = self.pending_offers.remove(0);
            assert(before[0]@ == ticketed_models(before)[0]);
            assert(ticketed_models(self.pending_offers@) =~= ticketed_models(before).skip(1));
            self.show_offer_dialog(t, now);
        } else {
            assert(self@.pending_offers.len() == 0);
        }
    }

    /// Handles an offer: it is accepted at once, asked about, or queued.
    pub fn handle_file_offer_received(&mut self, t: TicketedOffer, now: u64) -> (r: Vec<Effect>)
        requires
            old(self)@.wf(),
        ensures
            (final(self)@, effect_models(r@)) == offered(old(self)@, t@, now),
            final(self)@.wf(),
    {
        if self.auto_accepts_offer(t.offer.from_peer.as_str()) {
            let path: String = path_for(&t.offer, self.download_dir.as_str());
            self.push_item(transfer_item(&t.offer, now));
            return one_effect(Effect::Accept { ticket: t.ticket, path });
        }
        if self.transfer_dialog.is_none() {
            self.show_offer_dialog(t, now);
        } else {
            let ghost before = self.pending_offers@;
            self.pending_offers.push(t);
            assert(ticketed_models(self.pending_offers@) =~= ticketed_models(before).push(t@));
        }
        no_effects()
    }

    fn system(&mut self, text: String, level: SystemLevel, now: u64)
        ensures
            final(self)@ == pushed(old(self)@, system_item(now, text@, level)),
    {
        self.push_item(DisplayItem::System { time: now, text, level });
    }

    fn accept_dialog(&mut self, d: TransferDialogState, now: u64) -> (r: Vec<Effect>)
        requires
            old(self)@.dialog is None,
        ensures
            (final(self)@, effect_models(r@)) == accepted(old(self)@, d@, now),
            old(self)@.pending_offers.len() > 0 ==> final(self)@.dialog is Some && final(self)@.dialog->0.save_path.wf(),
    {
        let path: String = d.save_path.text();
        self.push_item(transfer_item(&d.offer, now));
        self.show_next_pending_offer(now);
        one_effect(Effect::Accept { ticket: d.ticket, path })
    }

    fn refuse_dialog(&mut self, d: TransferDialogState, reason: String, line: String, now: u64) -> (r:
        Vec<Effect>)
        requires
            old(self)@.dialog is None,
        ensures
            (final(self)@, effect_models(r@)) == refused(old(self)@, d@, reason@, line@, now),
            old(self)@.pending_offers.len() > 0 ==> final(self)@.dialog is Some && final(self)@.dialog->0.save_path.wf(),
    {
        self.system(line, SystemLevel::Warning, now);
        self.show_next_pending_offer(now);
        one_effect(Effect::Reject { ticket: d.ticket, reason })
    }

    fn trust_dialog(&mut self, d: TransferDialogState, now: u64) -> (r: Vec<Effect>)
        requires
            old(self)@.dialog is None,
        ensures
            (final(self)@, effect_models(r@)) == trusted(old(self)@, d@, now),
            old(self)@.pending_offers.len() > 0 ==> final(self)@.dialog is Some && final(self)@.dialog->0.save_path.wf(),
    {
        let path: String = d.save_path.text();
        let name: String = name_for(
            &self.peers,
            d.offer.from_peer.as_str(),
            d.offer.from_name.as_str(),
        );
        let known: bool = contains_text(&self.auto_accept_peers, d.offer.from_peer.as_str());
        if !known {
            let ghost before = self.auto_accept_peers@;
            self.auto_accept_peers.push(d.offer.from_peer.clone());
            assert(texts(self.auto_accept_peers@) =~= texts(before).push(d.offer.from_peer@));
        }
        let first: String = join4(
            "  \u{2705} Accepted ",
            d.offer.file_name.as_str(),
            " \u{2192} ",
            path.as_str(),
        );
        self.system(first, SystemLevel::Success, now);
        let second: String = join3("  Future files from ", name.as_str(), " accepted automatically");
        self.system(second, SystemLevel::Info, now);
        self.show_next_pending_offer(now);
        let accept: Effect = Effect::Accept { ticket: d.ticket, path };
        if known {
            one_effect(accept)
        } else {
            two_effects(accept, Effect::SaveConfig)
        }
    }

    /// Accepts the offer in the dialog, and shows the next.
    pub fn accept_current_offer(&mut self, now: u64) -> (r: Vec<Effect>)
        requires
            old(self)@.wf(),
        ensures
            match old(self)@.dialog {
                Some(d) => (final(self)@, effect_models(r@)) == accepted(old(self)@, d, now),
                None => final(self)@ == old(self)@ && effect_models(r@) == Seq::<EffectModel>::empty(),
            },
            final(self)@.wf(),
    {
        match self.transfer_dialog.take() {
            Some(d) => self.accept_dialog(d, now),
            None => no_effects(),
        }
    }

    /// Handles a key while the dialog is open. `exists` says whether something
    /// is at the path that the dialog shows.
    pub fn handle_transfer_dialog_key(&mut self, key: Key, exists: bool, now: u64) -> (r: Vec<
        Effect,
    >)
        requires
            old(self)@.wf(),
        ensures
            (final(self)@, effect_models(r@)) == dialog_key(old(self)@, key, exists, now),
            final(self)@.wf(),
    {
        let mut d: TransferDialogState = match self.transfer_dialog.take() {
            Some(d) => d,
            None => return no_effects(),
        };
        match d.phase {
            TransferDialogPhase::Prompt => match key {
                Key::Char('a') | Key::Char('A') => self.settle_path(d, exists, now),
                Key::Char('s') | Key::Char('S') => {
                    d.phase = TransferDialogPhase::SaveAs;
                    self.transfer_dialog = Some(d);
                    self.picker_open = true;
                    one_effect(Effect::OpenPicker)
                },
                Key::Char('r') | Key::Char('R') => {
                    let line: String = join4(
                        "  \u{274C} Rejected ",
                        d.offer.file_name.as_str(),
                        " from ",
                        d.offer.from_name.as_str(),
                    );
                    self.refuse_dialog(d, owned("rejected by user"), line, now)
                },
                Key::Char('d') | Key::Char('D') => self.trust_dialog(d, now),
                Key::Esc => {
                    let line: String = join4(
                        "  \u{274C} Dismissed ",
                        d.offer.file_name.as_str(),
                        " from ",
                        d.offer.from_name.as_str(),
                    );
                    self.refuse_dialog(d, owned("dismissed"), line, now)
                },
                _ => {
                    self.transfer_dialog = Some(d);
                    no_effects()
                },
            },
            TransferDialogPhase::SaveAs => match key {
                Key::Enter => self.settle_path(d, exists, now),
                Key::Tab => {
                    self.transfer_dialog = Some(d);
                    self.picker_open = true;
                    one_effect(Effect::OpenPicker)
                },
                _ => {
                    match key {
                        Key::Esc => d.phase = TransferDialogPhase::Prompt,
                        Key::Char(c) => d.save_path.type_char(c),
                        Key::Backspace => d.save_path.backspace(),
                        Key::Delete => d.save_path.delete(),
                        Key::Left => d.save_path.left(),
                        Key::Right => d.save_path.right(),
                        Key::Home => d.save_path.home(),
                        Key::End => d.save_path.end(),
                        _ => {},
                    }
                    self.transfer_dialog = Some(d);
                    no_effects()
                },
            },
            TransferDialogPhase::OverwriteConfirm => match key {
                Key::Char('y') | Key::Char('Y') => self.accept_dialog(d, now),
                Key::Char('n') | Key::Char('N') | Key::Esc => {
                    d.phase = TransferDialogPhase::Prompt;
                    self.transfer_dialog = Some(d);
                    no_effects()
                },
                _ => {
                    self.transfer_dialog = Some(d);
                    no_effects()
                },
            },
        }
    }

    fn settle_path(&mut self, d: TransferDialogState, exists: bool, now: u64) -> (r: Vec<Effect>)
        requires
            old(self)@.dialog is None,
            d@.save_path.wf(),
        ensures
            (final(self)@, effect_models(r@)) == chosen(old(self)@, d@, exists, now),
            old(self)@.pending_offers.len() > 0 ==> final(self)@.dialog is Some,
            final(self)@.dialog is Some ==> final(self)@.dialog->0.save_path.wf(),
    {
        if exists {
            let mut d: TransferDialogState = d;
            d.phase = TransferDialogPhase::OverwriteConfirm;
            self.transfer_dialog = Some(d);
            no_effects()
        } else {
            self.accept_dialog(d, now)
        }
    }

    /// Gives up a dialog that waited too long.
    pub fn expire_dialog(&mut self, now: u64) -> (r: Vec<Effect>)
        requires
            old(self)@.wf(),
        ensures
            (final(self)@, effect_models(r@)) == given_up(old(self)@, now),
            final(self)@.wf(),
    {
        let late: bool = match &self.transfer_dialog {
            Some(d) => now > d.created_at && now - d.created_at > DIALOG_TIMEOUT_NANOS,
            None => false,
        };
        if !late {
            return no_effects();
        }
        match self.transfer_dialog.take() {
            Some(d) => {
                let head: String = join4(
                    "  File offer from ",
                    d.offer.from_name.as_str(),
                    " timed out (",
                    d.offer.file_name.as_str(),
                );
                let line: String = join2(head.as_str(), ")");
                self.refuse_dialog(d, owned("timed out (60s)"), line, now)
            },
            None => no_effects(),
        }
    }
}

// ---------------------------------------------------------------------------
// Laws
// ---------------------------------------------------------------------------

/// The tickets of the offers that nobody answered yet: that in the dialog,
/// then those behind it.
pub open spec fn open_tickets(m: AppModel) -> Seq<u64> {
    let front: Seq<u64> = match m.dialog {
        Some(d) => seq![d.ticket],
        None => seq![],
    };
    front + m.pending_offers.map_values(|t: TicketedModel| t.ticket)
}

/// The ticket that an effect answers.
pub open spec fn answers(e: EffectModel) -> Option<u64> {
    match e {
        EffectModel::Accept { ticket, .. } => Some(ticket),
        EffectModel::Reject { ticket, .. } => Some(ticket),
        _ => None,
    }
}

/// The tickets that effects answer, in order.
pub open spec fn answered(effects: Seq<EffectModel>) -> Seq<u64>
    decreases effects.len(),
{
    if effects.len() == 0 {
        Seq::empty()
    } else {
        match answers(effects.last()) {
            Some(t) => answered(effects.drop_last()).push(t),
            None => answered(effects.drop_last()),
        }
    }
}

proof fn lemma_answered_one(e: EffectModel)
    ensures
        answered(seq![e]) == (match answers(e) {
            Some(t) => seq![t],
            None => Seq::<u64>::empty(),
        }),
        answered(seq![]) == Seq::<u64>::empty(),
{
    assert(seq![e].drop_last() =~= Seq::<EffectModel>::empty());
    reveal_with_fuel(answered, 2);
    match answers(e) {
        Some(t) => {
            assert(answered(seq![e]) =~= seq![t]);
        },
        None => {},
    }
}

proof fn lemma_answered_two(a: EffectModel, b: EffectModel)
    requires
        answers(b) is None,
    ensures
        answered(seq![a, b]) == answered(seq![a]),
{
    assert(seq![a, b].drop_last() =~= seq![a]);
}

proof fn lemma_next_shown_keeps(m: AppModel, now: u64)
    requires
        m.dialog is None,
    ensures
        open_tickets(next_shown(m, now)) == m.pending_offers.map_values(
            |t: TicketedModel| t.ticket,
        ),
{
    let n = next_shown(m, now);
    assert(open_tickets(n) =~= m.pending_offers.map_values(|t: TicketedModel| t.ticket));
}

/// A key in the dialog answers the offer in it or none; every other offer
/// waits on, in its order.
pub proof fn law_each_offer_is_answered_once(m: AppModel, key: Key, exists: bool, now: u64)
    requires
        m.wf(),
    ensures
        ({
            let (after, effects) = dialog_key(m, key, exists, now);
            answered(effects) + open_tickets(after) == open_tickets(m)
        }),
        ({
            let (after, effects) = given_up(m, now);
            answered(effects) + open_tickets(after) == open_tickets(m)
        }),
{
    let (after, effects) = dialog_key(m, key, exists, now);
    lemma_answered_one(EffectModel::OpenPicker);
    let none = Seq::<u64>::empty();
    assert(none + open_tickets(m) =~= open_tickets(m));
    match m.dialog {
        Some(d) => {
            let rest = m.pending_offers.map_values(|t: TicketedModel| t.ticket);
            assert(seq![d.ticket] + rest == open_tickets(m));
            let accept = EffectModel::Accept { ticket: d.ticket, path: d.save_path.text };
            lemma_answered_one(accept);
            lemma_answered_two(accept, EffectModel::SaveConfig);
            lemma_answered_one(EffectModel::Reject { ticket: d.ticket, reason: "dismissed"@ });
            lemma_answered_one(
                EffectModel::Reject { ticket: d.ticket, reason: "rejected by user"@ },
            );
            lemma_answered_one(
                EffectModel::Reject { ticket: d.ticket, reason: "timed out (60s)"@ },
            );
            assert forall|x: AppModel|
                #![trigger next_shown(x, now)]
                x.dialog is None && x.pending_offers == m.pending_offers implies open_tickets(
                next_shown(x, now),
            ) == rest by {
                lemma_next_shown_keeps(x, now);
            }
            if effects.len() == 0 || effects == seq![EffectModel::OpenPicker] {
                assert(open_tickets(after) =~= open_tickets(m));
                assert(effects.len() == 0 ==> effects =~= seq![]);
            }
        },
        None => {},
    }
}

/// An offer that comes is answered at once or waits behind all others.
pub proof fn law_offers_queue_in_order(m: AppModel, t: TicketedModel, now: u64)
    requires
        m.wf(),
    ensures
        ({
            let (after, effects) = offered(m, t, now);
            if accepts_unasked(m.auto_accept_peers, m.peers, t.offer.from_peer) {
                answered(effects) == seq![t.ticket] && open_tickets(after) == open_tickets(m)
            } else {
                answered(effects).len() == 0 && open_tickets(after) == open_tickets(m).push(
                    t.ticket,
                )
            }
        }),
{
    let (after, effects) = offered(m, t, now);
    lemma_answered_one(
        EffectModel::Accept { ticket: t.ticket, path: default_path(t.offer, m.download_dir) },
    );
    if !accepts_unasked(m.auto_accept_peers, m.peers, t.offer.from_peer) {
        assert(open_tickets(after) =~= open_tickets(m).push(t.ticket));
        assert(effects =~= seq![]);
    }
}

/// A sender that was once trusted is not asked about again.
pub proof fn law_trust_is_remembered(m: AppModel, d: DialogModel, now: u64, t: TicketedModel)
    requires
        t.offer.from_peer == d.offer.from_peer,
    ensures
        accepts_unasked(
            trusted(m, d, now).0.auto_accept_peers,
            trusted(m, d, now).0.peers,
            t.offer.from_peer,
        ),
{
    let list = trusted(m, d, now).0.auto_accept_peers;
    if !m.auto_accept_peers.contains(d.offer.from_peer) {
        assert(list == m.auto_accept_peers.push(d.offer.from_peer));
        assert(list[list.len() - 1] == d.offer.from_peer);
    }
}

} // verus!
