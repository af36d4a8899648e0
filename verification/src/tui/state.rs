//! What the interface shows and knows.
use vstd::prelude::*;

use crate::file_transfer::types::{FileOffer, OfferModel, TransferDirection};
use crate::text::{opt_text, same_text, texts};
use crate::tui::line::{fresh_line, Line, LineModel};

verus! {

// ---------------------------------------------------------------------------
// The feed
// ---------------------------------------------------------------------------

#[derive(Debug, Clone, Copy, PartialEq, Eq, Structural)]
pub enum PeerEventKind {
    Joined,
    Left,
    Connected,
    Disconnected,
}

#[derive(Debug, Clone, Copy, PartialEq, Eq, Structural)]
pub enum SystemLevel {
    Info,
    Success,
    Warning,
    Error,
}

/// How a shown transfer stands.
#[derive(Debug)]
pub enum TransferStatus {
    /// Per cent and bytes per second, as the bits of doubles.
    InProgress { percent_bits: u64, speed_bps_bits: u64 },
    Complete { sha256: String },
    Failed { reason: String },
}

/// The texts of a [`TransferStatus`].
pub enum StatusModel {
    InProgress { percent_bits: u64, speed_bps_bits: u64 },
    Complete(Seq<char>),
    Failed(Seq<char>),
}

impl View for TransferStatus {
    type V = StatusModel;

    open spec fn view(&self) -> StatusModel {
        match self {
            TransferStatus::InProgress { percent_bits, speed_bps_bits } => {
                StatusModel::InProgress {
                    percent_bits: *percent_bits,
                    speed_bps_bits: *speed_bps_bits,
                }
            },
            TransferStatus::Complete { sha256 } => StatusModel::Complete(sha256@),
            TransferStatus::Failed { reason } => StatusModel::Failed(reason@),
        }
    }
}

/// An entry of the feed. Times are nanoseconds since the interface started.
#[derive(Debug)]
#[allow(inconsistent_fields)]
pub enum DisplayItem {
    PeerEvent { time: u64, kind: PeerEventKind, peer_name: String, detail: String },
    ChatIncoming { time: u64, from: String, text: String },
    FileTransfer {
        time: u64,
        direction: TransferDirection,
        file_name: String,
        size: u64,
        status: TransferStatus,
    },
    System { time: u64, text: String, level: SystemLevel },
}

/// The texts of a [`DisplayItem`].
#[allow(inconsistent_fields)]
pub enum ItemModel {
    PeerEvent { time: u64, kind: PeerEventKind, peer_name: Seq<char>, detail: Seq<char> },
    ChatIncoming { time: u64, from: Seq<char>, text: Seq<char> },
    FileTransfer {
        time: u64,
        direction: TransferDirection,
        file_name: Seq<char>,
        size: u64,
        status: StatusModel,
    },
    System { time: u64, text: Seq<char>, level: SystemLevel },
}

impl View for DisplayItem {
    type V = ItemModel;

    open spec fn view(&self) -> ItemModel {
        match self {
            DisplayItem::PeerEvent { time, kind, peer_name, detail } => ItemModel::PeerEvent {
                time: *time,
                kind: *kind,
                peer_name: peer_name@,
                detail: detail@,
            },
            DisplayItem::ChatIncoming { time, from, text } => ItemModel::ChatIncoming {
                time: *time,
                from: from@,
                text: text@,
            },
            DisplayItem::FileTransfer { time, direction, file_name, size, status } => {
                ItemModel::FileTransfer {
                    time: *time,
                    direction: *direction,
                    file_name: file_name@,
                    size: *size,
                    status: status@,
                }
            },
            DisplayItem::System { time, text, level } => ItemModel::System {
                time: *time,
                text: text@,
                level: *level,
            },
        }
    }
}

pub open spec fn item_models(v: Seq<DisplayItem>) -> Seq<ItemModel> {
    v.map_values(|i: DisplayItem| i@)
}

/// A short note that goes away by itself.
#[derive(Debug)]
pub struct Toast {
    pub text: String,
    pub created_at: u64,
}

pub struct ToastModel {
    pub text: Seq<char>,
    pub created_at: u64,
}

impl View for Toast {
    type V = ToastModel;

    open spec fn view(&self) -> ToastModel {
        ToastModel { text: self.text@, created_at: self.created_at }
    }
}

pub open spec fn toast_models(v: Seq<Toast>) -> Seq<ToastModel> {
    v.map_values(|t: Toast| t@)
}

// ---------------------------------------------------------------------------
// Peers
// ---------------------------------------------------------------------------

/// A row of the list of peers.
#[derive(Debug)]
pub struct PeerInfo {
    pub device_id: Option<String>,
    pub device_name: String,
    pub tailscale_id: String,
    pub ip: String,
    pub online: bool,
    pub connection: Option<String>,
}

/// The texts of a [`PeerInfo`].
pub struct PeerInfoModel {
    pub device_id: Option<Seq<char>>,
    pub device_name: Seq<char>,
    pub tailscale_id: Seq<char>,
    pub ip: Seq<char>,
    pub online: bool,
    pub connection: Option<Seq<char>>,
}

impl PeerInfoModel {
    /// The row is that of an id: a node id, or a device id.
    pub open spec fn answers_to(self, id: Seq<char>) -> bool {
        self.tailscale_id == id || self.device_id == Some(id)
    }
}

impl View for PeerInfo {
    type V = PeerInfoModel;

    open spec fn view(&self) -> PeerInfoModel {
        PeerInfoModel {
            device_id: opt_text(self.device_id),
            device_name: self.device_name@,
            tailscale_id: self.tailscale_id@,
            ip: self.ip@,
            online: self.online,
            connection: opt_text(self.connection),
        }
    }
}

impl PeerInfo {
    /// Whether the row is that of an id.
    pub fn matches_id(&self, id: &str) -> (r: bool)
        ensures
            r == self@.answers_to(id@),
    {
        if same_text(self.tailscale_id.as_str(), id) {
            return true;
        }
        match &self.device_id {
            Some(d) => same_text(d.as_str(), id),
            None => false,
        }
    }
}

pub open spec fn info_models(v: Seq<PeerInfo>) -> Seq<PeerInfoModel> {
    v.map_values(|p: PeerInfo| p@)
}

// ---------------------------------------------------------------------------
// Offers
// ---------------------------------------------------------------------------

#[derive(Debug, Clone, Copy, PartialEq, Eq, Structural)]
pub enum TransferDialogPhase {
    Prompt,
    SaveAs,
    OverwriteConfirm,
}

/// An offer and the ticket by which it is answered.
pub struct TicketedOffer {
    pub offer: FileOffer,
    pub ticket: u64,
}

pub struct TicketedModel {
    pub offer: OfferModel,
    pub ticket: u64,
}

impl View for TicketedOffer {
    type V = TicketedModel;

    open spec fn view(&self) -> TicketedModel {
        TicketedModel { offer: self.offer@, ticket: self.ticket }
    }
}

pub open spec fn ticketed_models(v: Seq<TicketedOffer>) -> Seq<TicketedModel> {
    v.map_values(|t: TicketedOffer| t@)
}

/// The dialog that asks about an offer.
pub struct TransferDialogState {
    pub offer: FileOffer,
    pub ticket: u64,
    pub phase: TransferDialogPhase,
    /// Where the file would go.
    pub save_path: Line,
    pub created_at: u64,
}

pub struct DialogModel {
    pub offer: OfferModel,
    pub ticket: u64,
    pub phase: TransferDialogPhase,
    pub save_path: LineModel,
    pub created_at: u64,
}

impl View for TransferDialogState {
    type V = DialogModel;

    open spec fn view(&self) -> DialogModel {
        DialogModel {
            offer: self.offer@,
            ticket: self.ticket,
            phase: self.phase,
            save_path: self.save_path@,
            created_at: self.created_at,
        }
    }
}

pub open spec fn dialog_model(o: Option<TransferDialogState>) -> Option<DialogModel> {
    match o {
        Some(d) => Some(d@),
        None => None,
    }
}

// ---------------------------------------------------------------------------
// The whole
// ---------------------------------------------------------------------------

/// What the list of completions completes.
#[derive(Debug, Clone, Copy, PartialEq, Eq, Structural)]
pub enum AutocompleteKind {
    Command,
    Device,
}

/// All that the interface shows and knows.
pub struct AppModel {
    pub input: LineModel,
    pub history: Seq<Seq<char>>,
    pub history_index: Option<int>,
    pub items: Seq<ItemModel>,
    pub scroll_offset: int,
    pub auto_scroll: bool,
    pub should_quit: bool,
    pub peers: Seq<PeerInfoModel>,
    pub auto_accept_peers: Seq<Seq<char>>,
    pub notifications: Seq<ToastModel>,
    pub dialog: Option<DialogModel>,
    pub pending_offers: Seq<TicketedModel>,
    pub autocomplete: Option<AutocompleteKind>,
    pub picker_open: bool,
    pub download_dir: Seq<char>,
}

impl AppModel {
    /// Cursors are in their texts, the place in the history is one, and offers
    /// wait only behind another.
    pub open spec fn wf(self) -> bool {
        &&& self.input.wf()
        &&& self.history_index matches Some(i) ==> 0 <= i < self.history.len()
        &&& self.dialog matches Some(d) ==> d.save_path.wf()
        &&& self.pending_offers.len() > 0 ==> self.dialog is Some
        &&& 0 <= self.scroll_offset
    }
}

pub struct AppState {
    pub input: Line,
    pub history: Vec<String>,
    /// The entry of the history that is shown.
    pub history_index: Option<usize>,
    pub items: Vec<DisplayItem>,
    pub scroll_offset: usize,
    pub auto_scroll: bool,
    pub should_quit: bool,
    pub peers: Vec<PeerInfo>,
    /// Senders whose files are accepted unasked.
    pub auto_accept_peers: Vec<String>,
    pub notifications: Vec<Toast>,
    pub transfer_dialog: Option<TransferDialogState>,
    /// Offers behind the one in the dialog.
    pub pending_offers: Vec<TicketedOffer>,
    /// What is being completed, while completions are shown.
    pub autocomplete: Option<AutocompleteKind>,
    pub picker_open: bool,
    /// Where received files go.
    pub download_dir: String,
}

pub open spec fn opt_int(o: Option<usize>) -> Option<int> {
    match o {
        Some(i) => Some(i as int),
        None => None,
    }
}

impl View for AppState {
    type V = AppModel;

    open spec fn view(&self) -> AppModel {
        AppModel {
            input: self.input@,
            history: texts(self.history@),
            history_index: opt_int(self.history_index),
            items: item_models(self.items@),
            scroll_offset: self.scroll_offset as int,
            auto_scroll: self.auto_scroll,
            should_quit: self.should_quit,
            peers: info_models(self.peers@),
            auto_accept_peers: texts(self.auto_accept_peers@),
            notifications: toast_models(self.notifications@),
            dialog: dialog_model(self.transfer_dialog),
            pending_offers: ticketed_models(self.pending_offers@),
            autocomplete: self.autocomplete,
            picker_open: self.picker_open,
            download_dir: self.download_dir@,
        }
    }
}

/// What the interface asks for.
#[derive(Debug)]
#[allow(inconsistent_fields)]
pub enum Effect {
    /// Work out the completions of the input.
    UpdateAutocomplete,
    /// Take the chosen completion.
    AcceptAutocomplete,
    /// Work out the completions, and take the first choice if there is one.
    CompleteNow,
    PreviousCompletion,
    NextCompletion,
    OpenPicker,
    /// The key is one for the file picker.
    PickerKey,
    /// The sender of the offer is told that its file goes to the path.
    Accept { ticket: u64, path: String },
    /// The sender of the offer is told why not.
    Reject { ticket: u64, reason: String },
    SaveConfig,
    SaveHistory { line: String },
    /// Run a command.
    Run { line: String },
}

/// The texts of an [`Effect`].
#[allow(inconsistent_fields)]
pub enum EffectModel {
    UpdateAutocomplete,
    AcceptAutocomplete,
    CompleteNow,
    PreviousCompletion,
    NextCompletion,
    OpenPicker,
    PickerKey,
    Accept { ticket: u64, path: Seq<char> },
    Reject { ticket: u64, reason: Seq<char> },
    SaveConfig,
    SaveHistory(Seq<char>),
    Run(Seq<char>),
}

impl View for Effect {
    type V = EffectModel;

    open spec fn view(&self) -> EffectModel {
        match self {
            Effect::UpdateAutocomplete => EffectModel::UpdateAutocomplete,
            Effect::AcceptAutocomplete => EffectModel::AcceptAutocomplete,
            Effect::CompleteNow => EffectModel::CompleteNow,
            Effect::PreviousCompletion => EffectModel::PreviousCompletion,
            Effect::NextCompletion => EffectModel::NextCompletion,
            Effect::OpenPicker => EffectModel::OpenPicker,
            Effect::PickerKey => EffectModel::PickerKey,
            Effect::Accept { ticket, path } => EffectModel::Accept { ticket: *ticket, path: path@ },
            Effect::Reject { ticket, reason } => EffectModel::Reject {
                ticket: *ticket,
                reason: reason@,
            },
            Effect::SaveConfig => EffectModel::SaveConfig,
            Effect::SaveHistory { line } => EffectModel::SaveHistory(line@),
            Effect::Run { line } => EffectModel::Run(line@),
        }
    }
}

pub open spec fn effect_models(v: Seq<Effect>) -> Seq<EffectModel> {
    v.map_values(|e: Effect| e@)
}

/// No effect.
pub fn no_effects() -> (r: Vec<Effect>)
    ensures
        effect_models(r@) == Seq::<EffectModel>::empty(),
{
    let r: Vec<Effect> = Vec::new();
    assert(effect_models(r@) =~= Seq::empty());
    r
}

/// One effect.
pub fn one_effect(e: Effect) -> (r: Vec<Effect>)
    ensures
        effect_models(r@) == seq![e@],
{
    let mut r: Vec<Effect> = Vec::new();
    r.push(e);
    assert(effect_models(r@) =~= seq![e@]);
    r
}

/// Two effects.
pub fn two_effects(a: Effect, b: Effect) -> (r: Vec<Effect>)
    ensures
        effect_models(r@) == seq![a@, b@],
{
    let mut r: Vec<Effect> = Vec::new();
    r.push(a);
    r.push(b);
    assert(effect_models(r@) =~= seq![a@, b@]);
    r
}

// ---------------------------------------------------------------------------
// Small steps
// ---------------------------------------------------------------------------

/// One more entry in the feed.
pub open spec fn pushed(m: AppModel, item: ItemModel) -> AppModel {
    AppModel { items: m.items.push(item), ..m }
}

pub open spec fn at_bottom(m: AppModel) -> AppModel {
    AppModel { scroll_offset: 0, auto_scroll: true, ..m }
}

/// The state of an interface that was just started.
pub open spec fn started(
    history: Seq<Seq<char>>,
    auto_accept_peers: Seq<Seq<char>>,
    download_dir: Seq<char>,
) -> AppModel {
    AppModel {
        input: fresh_line(Seq::empty()),
        history,
        history_index: None,
        items: Seq::empty(),
        scroll_offset: 0,
        auto_scroll: true,
        should_quit: false,
        peers: Seq::empty(),
        auto_accept_peers,
        notifications: Seq::empty(),
        dialog: None,
        pending_offers: Seq::empty(),
        autocomplete: None,
        picker_open: false,
        download_dir,
    }
}

impl AppState {
    /// An interface that was just started, with the lines of earlier sessions.
    pub fn new(history: Vec<String>, auto_accept_peers: Vec<String>, download_dir: String) -> (r:
        Self)
        ensures
            r@ == started(texts(history@), texts(auto_accept_peers@), download_dir@),
            r@.wf(),
    {
        let r = AppState {
            input: Line::new(""),
            history,
            history_index: None,
            items: Vec::new(),
            scroll_offset: 0,
            auto_scroll: true,
            should_quit: false,
            peers: Vec::new(),
            auto_accept_peers,
            notifications: Vec::new(),
            transfer_dialog: None,
            pending_offers: Vec::new(),
            autocomplete: None,
            picker_open: false,
            download_dir,
        };
        proof {
            reveal_strlit("");
        }
        assert(r@.input.text =~= Seq::empty());
        assert(r@.items =~= Seq::empty());
        assert(r@.peers =~= Seq::empty());
        assert(r@.notifications =~= Seq::empty());
        assert(r@.pending_offers =~= Seq::empty());
        r
    }

    /// Adds an entry to the feed.
    pub fn push_item(&mut self, item: DisplayItem)
        ensures
            final(self)@ == pushed(old(self)@, item@),
    {
        let ghost was = self.items@;
        self.items.push(item);
        assert(item_models(self.items@) =~= item_models(was).push(item@));
    }

    pub fn scroll_to_bottom(&mut self)
        ensures
            final(self)@ == at_bottom(old(self)@),
    {
        self.scroll_offset = 0;
        self.auto_scroll = true;
    }
}

/// A line of the system in the feed.
pub open spec fn system_item(now: u64, text: Seq<char>, level: SystemLevel) -> ItemModel {
    ItemModel::System { time: now, text, level }
}

} // verus!
