//! The course of one incoming offer: from its announcement over the bytes of
//! the file to the answer. Each step says what to do next, and takes what came
//! of it.
use vstd::prelude::*;

use crate::digest::{hex, is_random_id, random_id, sha256};
use crate::file_transfer::header::{
    be_value, check_header, header_refused, lossy, read_header, HEADER_LEN,
};
use crate::file_transfer::intake::{
    answer_byte, arrived_whole, chunk_wanted, progress_due, Intake, ACK, NACK,
    PROGRESS_PAUSE_NANOS,
};
use crate::file_transfer::paths::{destination, resolve_dest_path};
use crate::file_transfer::place::{
    first_try, next_try, ActionModel, Ending, PlaceAction, PlaceEvent, Placing, StageModel,
};
use crate::file_transfer::receiver::{
    check_destination, failure_event, not_connected, occupied_reason, offer_refused,
    queue_refusal_reason, queue_refused, reject_message, take_decision, temp_path, DecisionNews,
    QueueRefusal,
};
use crate::file_transfer::types::{
    node_failure, Errand, FileOffer, FileTransferEvent, FtMessage, MessageModel, OfferDecision,
    OverwritePolicy, TransferDirection, TransferError, TransferErrorModel, TransferProgress,
};
use crate::text::{decimal, owned};

verus! {

/// What an offer promised, and what tells its transfer from others.
#[derive(Debug)]
pub struct Terms {
    pub file_name: String,
    pub size: u64,
    pub sha256: String,
    pub token: String,
    /// A text that no other transfer has.
    pub unique: String,
    /// Paths are those of Windows.
    pub windows: bool,
}

/// The texts of [`Terms`].
pub struct TermsModel {
    pub file_name: Seq<char>,
    pub size: u64,
    pub sha256: Seq<char>,
    pub token: Seq<char>,
    pub unique: Seq<char>,
    pub windows: bool,
}

impl View for Terms {
    type V = TermsModel;

    open spec fn view(&self) -> TermsModel {
        TermsModel {
            file_name: self.file_name@,
            size: self.size,
            sha256: self.sha256@,
            token: self.token@,
            unique: self.unique@,
            windows: self.windows,
        }
    }
}

/// Where the file goes, and what happens to one that is there already.
#[derive(Debug)]
pub struct Target {
    pub final_path: String,
    pub policy: OverwritePolicy,
    /// The path is one of Windows.
    pub windows: bool,
}

/// The texts of a [`Target`].
pub struct TargetModel {
    pub final_path: Seq<char>,
    pub policy: OverwritePolicy,
    pub windows: bool,
}

impl View for Target {
    type V = TargetModel;

    open spec fn view(&self) -> TargetModel {
        TargetModel { final_path: self.final_path@, policy: self.policy, windows: self.windows }
    }
}

/// What is to be done next.
pub enum ReceiveAction {
    /// Hand the offer to the application.
    Announce,
    /// Wait for the application's decision.
    AwaitDecision,
    /// Send the sender a message.
    Tell(FtMessage),
    /// Look whether the path is a directory, and what the policy is.
    ProbeDir { path: String },
    /// Look whether something has the path.
    ProbeDest { path: String },
    /// Make the directory that the path lies in.
    MakeParent { path: String },
    /// Open a port for the sender.
    Listen,
    /// Wait for the sender's connection.
    AwaitConnection,
    /// Read the head of the stream.
    ReadHeader,
    /// Create the file under its temporary name, which must be new.
    CreateTemp { path: String },
    /// Read so many bytes at most.
    ReadChunk { at_most: usize },
    /// Append the bytes to the file.
    WriteChunk { data: Vec<u8> },
    /// Bring the file to the disk.
    Flush,
    /// Send the sender one byte.
    Answer { byte: u8 },
    /// Remove the file under its temporary name.
    RemoveTemp,
    /// Bring the file to its place.
    Place(PlaceAction),
    /// Give the answer time to arrive.
    Settle,
    /// It is over: the path of the file, or why there is none.
    Done(Result<String, TransferError>),
}

/// The texts of a [`ReceiveAction`].
pub enum ReceiveActionModel {
    Announce,
    AwaitDecision,
    Tell(MessageModel),
    ProbeDir(Seq<char>),
    ProbeDest(Seq<char>),
    MakeParent(Seq<char>),
    Listen,
    AwaitConnection,
    ReadHeader,
    CreateTemp(Seq<char>),
    ReadChunk(int),
    WriteChunk(Seq<u8>),
    Flush,
    Answer(u8),
    RemoveTemp,
    Place(ActionModel),
    Settle,
    Done(Ending),
}

impl View for ReceiveAction {
    type V = ReceiveActionModel;

    open spec fn view(&self) -> ReceiveActionModel {
        match self {
            ReceiveAction::Announce => ReceiveActionModel::Announce,
            ReceiveAction::AwaitDecision => ReceiveActionModel::AwaitDecision,
            ReceiveAction::Tell(m) => ReceiveActionModel::Tell(m@),
            ReceiveAction::ProbeDir { path } => ReceiveActionModel::ProbeDir(path@),
            ReceiveAction::ProbeDest { path } => ReceiveActionModel::ProbeDest(path@),
            ReceiveAction::MakeParent { path } => ReceiveActionModel::MakeParent(path@),
            ReceiveAction::Listen => ReceiveActionModel::Listen,
            ReceiveAction::AwaitConnection => ReceiveActionModel::AwaitConnection,
            ReceiveAction::ReadHeader => ReceiveActionModel::ReadHeader,
            ReceiveAction::CreateTemp { path } => ReceiveActionModel::CreateTemp(path@),
            ReceiveAction::ReadChunk { at_most } => ReceiveActionModel::ReadChunk(
                *at_most as int,
            ),
            ReceiveAction::WriteChunk { data } => ReceiveActionModel::WriteChunk(data@),
            ReceiveAction::Flush => ReceiveActionModel::Flush,
            ReceiveAction::Answer { byte } => ReceiveActionModel::Answer(*byte),
            ReceiveAction::RemoveTemp => ReceiveActionModel::RemoveTemp,
            ReceiveAction::Place(a) => ReceiveActionModel::Place(a@),
            ReceiveAction::Settle => ReceiveActionModel::Settle,
            ReceiveAction::Done(r) => ReceiveActionModel::Done(
                crate::file_transfer::place::ending(*r),
            ),
        }
    }
}

/// What came of waiting for the sender's connection.
#[derive(Debug, Clone, Copy, PartialEq, Eq, Structural)]
pub enum ConnectionNews {
    Connected,
    TimedOut,
    /// The port was closed.
    Closed,
}

/// The head of a stream, and how large a file may be by now.
pub struct HeadRead {
    pub bytes: Vec<u8>,
    pub max_size: u64,
}

/// What came of an action.
pub enum ReceiveEvent {
    /// Of `Announce`: nothing, or why the application did not get the offer.
    Queued(Option<QueueRefusal>),
    /// Of `AwaitDecision`.
    Decision(DecisionNews),
    /// Of `Tell`: nothing, or why the message could not be sent.
    Told(Option<String>),
    /// Of `ProbeDir`.
    Directory { is_dir: bool, policy: OverwritePolicy },
    /// Of `ProbeDest`.
    Occupied(bool),
    /// Of `Listen`: the port, or why there is none.
    Listening(Result<u16, String>),
    /// Of `AwaitConnection`.
    Connection(ConnectionNews),
    /// Of `ReadHeader`.
    Header(Result<HeadRead, String>),
    /// Of `ReadChunk`: the bytes, none at the end of the stream.
    Chunk(Result<Vec<u8>, String>),
    /// Of what only works or fails: nothing, or why it failed.
    Io(Option<String>),
    /// Of `RemoveTemp`.
    Removed,
    /// Of `Place`.
    Placed(PlaceEvent),
    /// Of `Settle`.
    Settled,
}

/// How far a transfer is.
pub enum ReceiveStage {
    Announcing,
    Deciding,
    /// The sender is told of a refusal.
    Refusing(TransferError),
    /// The sender is told of the application's refusal.
    Rejecting { reason: String },
    ProbingDir { save_path: String },
    ProbingDest(Target),
    MakingParent(Target),
    Opening(Target),
    Accepting(Target),
    Connecting(Target),
    Heading(Target),
    Creating(Target),
    Reading(Target, Intake),
    Writing(Target, Intake),
    Flushing(Target, Intake),
    Nacking(TransferError),
    Removing(TransferError),
    Placing(Placing),
    Acking { path: String },
    Settling { path: String },
    Over,
}

/// The texts and bytes of a [`ReceiveStage`].
pub enum ReceiveModel {
    Announcing,
    Deciding,
    Refusing(TransferErrorModel),
    Rejecting(Seq<char>),
    ProbingDir(Seq<char>),
    ProbingDest(TargetModel),
    MakingParent(TargetModel),
    Opening(TargetModel),
    Accepting(TargetModel),
    Connecting(TargetModel),
    Heading(TargetModel),
    Creating(TargetModel),
    Reading(TargetModel, Seq<u8>),
    Writing(TargetModel, Seq<u8>),
    Flushing(TargetModel, Seq<u8>),
    Nacking(TransferErrorModel),
    Removing(TransferErrorModel),
    Placing(TargetModel, StageModel),
    Acking(Seq<char>),
    Settling(Seq<char>),
    Over,
}

impl View for ReceiveStage {
    type V = ReceiveModel;

    open spec fn view(&self) -> ReceiveModel {
        match self {
            ReceiveStage::Announcing => ReceiveModel::Announcing,
            ReceiveStage::Deciding => ReceiveModel::Deciding,
            ReceiveStage::Refusing(e) => ReceiveModel::Refusing(e@),
            ReceiveStage::Rejecting { reason } => ReceiveModel::Rejecting(reason@),
            ReceiveStage::ProbingDir { save_path } => ReceiveModel::ProbingDir(save_path@),
            ReceiveStage::ProbingDest(g) => ReceiveModel::ProbingDest(g@),
            ReceiveStage::MakingParent(g) => ReceiveModel::MakingParent(g@),
            ReceiveStage::Opening(g) => ReceiveModel::Opening(g@),
            ReceiveStage::Accepting(g) => ReceiveModel::Accepting(g@),
            ReceiveStage::Connecting(g) => ReceiveModel::Connecting(g@),
            ReceiveStage::Heading(g) => ReceiveModel::Heading(g@),
            ReceiveStage::Creating(g) => ReceiveModel::Creating(g@),
            ReceiveStage::Reading(g, i) => ReceiveModel::Reading(g@, i.data()),
            ReceiveStage::Writing(g, i) => ReceiveModel::Writing(g@, i.data()),
            ReceiveStage::Flushing(g, i) => ReceiveModel::Flushing(g@, i.data()),
            ReceiveStage::Nacking(e) => ReceiveModel::Nacking(e@),
            ReceiveStage::Removing(e) => ReceiveModel::Removing(e@),
            ReceiveStage::Placing(p) => ReceiveModel::Placing(
                TargetModel { final_path: p.final_path@, policy: p.policy, windows: p.windows },
                p.stage@,
            ),
            ReceiveStage::Acking { path } => ReceiveModel::Acking(path@),
            ReceiveStage::Settling { path } => ReceiveModel::Settling(path@),
            ReceiveStage::Over => ReceiveModel::Over,
        }
    }
}

// ---------------------------------------------------------------------------
// The steps
// ---------------------------------------------------------------------------

/// The transfer ends without a file.
pub open spec fn failed(e: TransferErrorModel) -> (ReceiveModel, ReceiveActionModel) {
    (ReceiveModel::Over, ReceiveActionModel::Done(Err(e)))
}

/// An event that answers nothing.
pub open spec fn unexpected() -> (ReceiveModel, ReceiveActionModel) {
    failed(TransferErrorModel::Protocol("unexpected event"@))
}

pub open spec fn rejection(t: TermsModel, reason: Seq<char>) -> ReceiveActionModel {
    ReceiveActionModel::Tell(MessageModel::Reject { token: t.token, reason })
}

/// Reads on, or ends the file when all its bytes are there.
pub open spec fn read_on(t: TermsModel, g: TargetModel, data: Seq<u8>) -> (
    ReceiveModel,
    ReceiveActionModel,
) {
    if data.len() < t.size {
        (
            ReceiveModel::Reading(g, data),
            ReceiveActionModel::ReadChunk(chunk_wanted(t.size, data.len())),
        )
    } else {
        (ReceiveModel::Flushing(g, data), ReceiveActionModel::Flush)
    }
}

/// A step that only works or fails: on, or the end with the failure.
pub open spec fn io_step(
    e: ReceiveEvent,
    next: (ReceiveModel, ReceiveActionModel),
) -> (ReceiveModel, ReceiveActionModel) {
    match e {
        ReceiveEvent::Io(None) => next,
        ReceiveEvent::Io(Some(why)) => failed(TransferErrorModel::Io(why@)),
        _ => unexpected(),
    }
}

pub open spec fn decided(t: TermsModel, news: DecisionNews) -> (ReceiveModel, ReceiveActionModel) {
    match news {
        DecisionNews::Decided(OfferDecision::Accept { save_path }) => (
            ReceiveModel::ProbingDir(save_path@),
            ReceiveActionModel::ProbeDir(save_path@),
        ),
        DecisionNews::Decided(OfferDecision::Reject { reason }) => (
            ReceiveModel::Rejecting(reason@),
            rejection(t, reason@),
        ),
        DecisionNews::TimedOut => failed(TransferErrorModel::Timeout),
        DecisionNews::Dropped => failed(
            TransferErrorModel::Protocol("Offer responder dropped without decision"@),
        ),
    }
}

pub open spec fn targeted(t: TermsModel, save_path: Seq<char>, is_dir: bool, policy: OverwritePolicy) -> (
    ReceiveModel,
    ReceiveActionModel,
) {
    match destination(save_path, t.file_name, is_dir) {
        Err(why) => failed(TransferErrorModel::Protocol(why)),
        Ok(final_path) => {
            let g = TargetModel { final_path, policy, windows: t.windows };
            if policy == OverwritePolicy::Reject {
                (ReceiveModel::ProbingDest(g), ReceiveActionModel::ProbeDest(final_path))
            } else {
                (ReceiveModel::MakingParent(g), ReceiveActionModel::MakeParent(final_path))
            }
        },
    }
}

pub open spec fn headed(t: TermsModel, g: TargetModel, bytes: Seq<u8>, max_size: u64) -> (
    ReceiveModel,
    ReceiveActionModel,
) {
    if bytes.len() != HEADER_LEN {
        unexpected()
    } else {
        match header_refused(
            be_value(bytes.take(8)) as u64,
            lossy(bytes.skip(8)),
            t.size,
            t.sha256,
            max_size,
        ) {
            Some(e) => failed(e),
            None => (
                ReceiveModel::Creating(g),
                ReceiveActionModel::CreateTemp(
                    g.final_path + "."@ + t.unique + ".truffle-tmp"@,
                ),
            ),
        }
    }
}

pub open spec fn chunk_came(t: TermsModel, g: TargetModel, data: Seq<u8>, chunk: Seq<u8>) -> (
    ReceiveModel,
    ReceiveActionModel,
) {
    if chunk.len() > chunk_wanted(t.size, data.len()) {
        unexpected()
    } else if chunk.len() == 0 {
        (
            ReceiveModel::Removing(
                TransferErrorModel::Io(
                    "Connection closed after "@ + decimal(data.len()) + "/"@ + decimal(
                        t.size as nat,
                    ) + " bytes"@,
                ),
            ),
            ReceiveActionModel::RemoveTemp,
        )
    } else {
        (ReceiveModel::Writing(g, data + chunk), ReceiveActionModel::WriteChunk(chunk))
    }
}

/// All bytes are on the disk: the file goes to its place if they are those
/// that were promised.
pub open spec fn judged(t: TermsModel, g: TargetModel, data: Seq<u8>) -> (
    ReceiveModel,
    ReceiveActionModel,
) {
    if arrived_whole(data, t.sha256) {
        let (stage, action) = first_try(g.policy, g.final_path);
        (ReceiveModel::Placing(g, stage), ReceiveActionModel::Place(action))
    } else {
        (
            ReceiveModel::Nacking(
                TransferErrorModel::IntegrityError {
                    expected: t.sha256,
                    actual: hex(sha256(data)),
                },
            ),
            ReceiveActionModel::Answer(NACK),
        )
    }
}

pub open spec fn placed_on(g: TargetModel, stage: StageModel, e: PlaceEvent) -> (
    ReceiveModel,
    ReceiveActionModel,
) {
    let (then, action) = next_try(g.windows, g.policy, g.final_path, stage, e);
    match action {
        ActionModel::Done(Ok(path)) => (
            ReceiveModel::Acking(path),
            ReceiveActionModel::Answer(ACK),
        ),
        ActionModel::Done(Err(why)) => failed(why),
        _ => (ReceiveModel::Placing(g, then), ReceiveActionModel::Place(action)),
    }
}

/// The first step.
pub open spec fn first_step() -> (ReceiveModel, ReceiveActionModel) {
    (ReceiveModel::Announcing, ReceiveActionModel::Announce)
}

/// What follows an event.
pub open spec fn next_step(t: TermsModel, s: ReceiveModel, e: ReceiveEvent) -> (
    ReceiveModel,
    ReceiveActionModel,
) {
    match s {
        ReceiveModel::Announcing => match e {
            ReceiveEvent::Queued(None) => (
                ReceiveModel::Deciding,
                ReceiveActionModel::AwaitDecision,
            ),
            ReceiveEvent::Queued(Some(why)) => {
                let reason = match why {
                    QueueRefusal::Full => "receiver busy: offer queue full"@,
                    QueueRefusal::Closed => "receiver has no offer channel"@,
                };
                (
                    ReceiveModel::Refusing(TransferErrorModel::Rejected(reason)),
                    rejection(t, reason),
                )
            },
            _ => unexpected(),
        },
        ReceiveModel::Deciding => match e {
            ReceiveEvent::Decision(news) => decided(t, news),
            _ => unexpected(),
        },
        ReceiveModel::Refusing(why) => match e {
            ReceiveEvent::Told(_) => failed(why),
            _ => unexpected(),
        },
        ReceiveModel::Rejecting(reason) => match e {
            ReceiveEvent::Told(None) => failed(TransferErrorModel::Rejected(reason)),
            ReceiveEvent::Told(Some(why)) => failed(
                TransferErrorModel::Node("Failed to send REJECT"@ + ": "@ + why@),
            ),
            _ => unexpected(),
        },
        ReceiveModel::ProbingDir(save_path) => match e {
            ReceiveEvent::Directory { is_dir, policy } => targeted(t, save_path, is_dir, policy),
            _ => unexpected(),
        },
        ReceiveModel::ProbingDest(g) => match e {
            ReceiveEvent::Occupied(true) => (
                ReceiveModel::Refusing(
                    TransferErrorModel::Rejected(
                        "destination already exists"@ + ": "@ + g.final_path,
                    ),
                ),
                rejection(t, "destination already exists"@),
            ),
            ReceiveEvent::Occupied(false) => (
                ReceiveModel::MakingParent(g),
                ReceiveActionModel::MakeParent(g.final_path),
            ),
            _ => unexpected(),
        },
        ReceiveModel::MakingParent(g) => io_step(
            e,
            (ReceiveModel::Opening(g), ReceiveActionModel::Listen),
        ),
        ReceiveModel::Opening(g) => match e {
            ReceiveEvent::Listening(Ok(port)) => (
                ReceiveModel::Accepting(g),
                ReceiveActionModel::Tell(
                    MessageModel::Accept { token: t.token, tcp_port: port },
                ),
            ),
            ReceiveEvent::Listening(Err(why)) => failed(
                TransferErrorModel::Node("Failed to listen TCP"@ + ": "@ + why@),
            ),
            _ => unexpected(),
        },
        ReceiveModel::Accepting(g) => match e {
            ReceiveEvent::Told(None) => (
                ReceiveModel::Connecting(g),
                ReceiveActionModel::AwaitConnection,
            ),
            ReceiveEvent::Told(Some(why)) => failed(
                TransferErrorModel::Node("Failed to send ACCEPT"@ + ": "@ + why@),
            ),
            _ => unexpected(),
        },
        ReceiveModel::Connecting(g) => match e {
            ReceiveEvent::Connection(ConnectionNews::Connected) => (
                ReceiveModel::Heading(g),
                ReceiveActionModel::ReadHeader,
            ),
            ReceiveEvent::Connection(ConnectionNews::TimedOut) => failed(
                TransferErrorModel::Timeout,
            ),
            ReceiveEvent::Connection(ConnectionNews::Closed) => failed(
                TransferErrorModel::Protocol("Listener closed before accepting"@),
            ),
            _ => unexpected(),
        },
        ReceiveModel::Heading(g) => match e {
            ReceiveEvent::Header(Ok(h)) => headed(t, g, h.bytes@, h.max_size),
            ReceiveEvent::Header(Err(why)) => failed(TransferErrorModel::Io(why@)),
            _ => unexpected(),
        },
        ReceiveModel::Creating(g) => io_step(e, read_on(t, g, Seq::empty())),
        ReceiveModel::Reading(g, data) => match e {
            ReceiveEvent::Chunk(Ok(chunk)) => chunk_came(t, g, data, chunk@),
            ReceiveEvent::Chunk(Err(why)) => failed(TransferErrorModel::Io(why@)),
            _ => unexpected(),
        },
        ReceiveModel::Writing(g, data) => io_step(e, read_on(t, g, data)),
        ReceiveModel::Flushing(g, data) => io_step(e, judged(t, g, data)),
        ReceiveModel::Nacking(why) => io_step(
            e,
            (ReceiveModel::Removing(why), ReceiveActionModel::RemoveTemp),
        ),
        ReceiveModel::Removing(why) => match e {
            ReceiveEvent::Removed => failed(why),
            _ => unexpected(),
        },
        ReceiveModel::Placing(g, stage) => match e {
            ReceiveEvent::Placed(pe) => placed_on(g, stage, pe),
            _ => unexpected(),
        },
        ReceiveModel::Acking(path) => io_step(
            e,
            (ReceiveModel::Settling(path), ReceiveActionModel::Settle),
        ),
        ReceiveModel::Settling(path) => match e {
            ReceiveEvent::Settled => (ReceiveModel::Over, ReceiveActionModel::Done(Ok(path))),
            _ => unexpected(),
        },
        ReceiveModel::Over => unexpected(),
    }
}

// ---------------------------------------------------------------------------
// The course
// ---------------------------------------------------------------------------

/// The course of one incoming offer.
pub struct Reception {
    pub terms: Terms,
    pub stage: ReceiveStage,
}

fn fail(e: TransferError) -> (r: (ReceiveStage, ReceiveAction))
    ensures
        (r.0@, r.1@) == failed(e@),
        r.0 is Over,
{
    (ReceiveStage::Over, ReceiveAction::Done(Err(e)))
}

fn surprise() -> (r: (ReceiveStage, ReceiveAction))
    ensures
        (r.0@, r.1@) == unexpected(),
        r.0 is Over,
{
    fail(TransferError::Protocol(owned("unexpected event")))
}

impl ReceiveStage {
    /// The bytes that were taken in are no more than promised, and a path is
    /// looked at only where nothing may be replaced.
    pub open spec fn wf(self, size: u64) -> bool {
        match self {
            ReceiveStage::ProbingDest(g) => g.policy == OverwritePolicy::Reject,
            ReceiveStage::Reading(_, i) => i.wf() && i.size() == size,
            ReceiveStage::Writing(_, i) => i.wf() && i.size() == size,
            ReceiveStage::Flushing(_, i) => i.wf() && i.size() == size,
            _ => true,
        }
    }
}

impl Terms {
    fn rejected(&self, reason: &str) -> (r: ReceiveAction)
        ensures
            r@ == rejection(self@, reason@),
    {
        ReceiveAction::Tell(reject_message(self.token.as_str(), reason))
    }

    fn decide(&self, news: DecisionNews) -> (r: (ReceiveStage, ReceiveAction))
        ensures
            (r.0@, r.1@) == decided(self@, news),
            r.0.wf(self.size),
    {
        match take_decision(news) {
            Ok(OfferDecision::Accept { save_path }) => {
                let path: String = save_path.clone();
                (ReceiveStage::ProbingDir { save_path }, ReceiveAction::ProbeDir { path })
            },
            Ok(OfferDecision::Reject { reason }) => {
                let told: ReceiveAction = self.rejected(reason.as_str());
                (ReceiveStage::Rejecting { reason }, told)
            },
            Err(e) => fail(e),
        }
    }

    fn target(&self, save_path: &str, is_dir: bool, policy: OverwritePolicy) -> (r: (
        ReceiveStage,
        ReceiveAction,
    ))
        ensures
            (r.0@, r.1@) == targeted(self@, save_path@, is_dir, policy),
            r.0.wf(self.size),
    {
        match resolve_dest_path(save_path, self.file_name.as_str(), is_dir) {
            Err(why) => fail(TransferError::Protocol(why)),
            Ok(final_path) => {
                let path: String = final_path.clone();
                let g = Target { final_path, policy, windows: self.windows };
                if policy == OverwritePolicy::Reject {
                    (ReceiveStage::ProbingDest(g), ReceiveAction::ProbeDest { path })
                } else {
                    (ReceiveStage::MakingParent(g), ReceiveAction::MakeParent { path })
                }
            },
        }
    }

    fn occupied(&self, g: Target, occupied: bool) -> (r: (ReceiveStage, ReceiveAction))
        requires
            g.policy == OverwritePolicy::Reject,
        ensures
            (r.0@, r.1@) == next_step(
                self@,
                ReceiveModel::ProbingDest(g@),
                ReceiveEvent::Occupied(occupied),
            ),
            r.0.wf(self.size),
    {
        match check_destination(g.policy, occupied, g.final_path.as_str()) {
            Err(e) => (ReceiveStage::Refusing(e), self.rejected(occupied_reason())),
            Ok(_) => {
                let path: String = g.final_path.clone();
                (ReceiveStage::MakingParent(g), ReceiveAction::MakeParent { path })
            },
        }
    }

    fn head(&self, g: Target, h: HeadRead) -> (r: (ReceiveStage, ReceiveAction))
        ensures
            (r.0@, r.1@) == headed(self@, g@, h.bytes@, h.max_size),
            r.0.wf(self.size),
    {
        if h.bytes.len() != HEADER_LEN {
            return surprise();
        }
        let header = read_header(h.bytes.as_slice());
        match check_header(&header, self.size, self.sha256.as_str(), h.max_size) {
            Err(e) => fail(e),
            Ok(_) => {
                let path: String = temp_path(g.final_path.as_str(), self.unique.as_str());
                (ReceiveStage::Creating(g), ReceiveAction::CreateTemp { path })
            },
        }
    }

    fn go_on(&self, g: Target, intake: Intake) -> (r: (ReceiveStage, ReceiveAction))
        requires
            intake.wf(),
            intake.size() == self.size,
        ensures
            (r.0@, r.1@) == read_on(self@, g@, intake.data()),
            r.0.wf(self.size),
    {
        let at_most: usize = intake.wanted();
        if at_most > 0 {
            (ReceiveStage::Reading(g, intake), ReceiveAction::ReadChunk { at_most })
        } else {
            (ReceiveStage::Flushing(g, intake), ReceiveAction::Flush)
        }
    }

    fn chunk(&self, g: Target, intake: Intake, chunk: Vec<u8>) -> (r: (
        ReceiveStage,
        ReceiveAction,
    ))
        requires
            intake.wf(),
            intake.size() == self.size,
        ensures
            (r.0@, r.1@) == chunk_came(self@, g@, intake.data(), chunk@),
            r.0.wf(self.size),
    {
        if chunk.len() > intake.wanted() {
            return surprise();
        }
        if chunk.len() == 0 {
            return (ReceiveStage::Removing(intake.cut_short()), ReceiveAction::RemoveTemp);
        }
        let mut intake = intake;
        intake.take(chunk.as_slice());
        (ReceiveStage::Writing(g, intake), ReceiveAction::WriteChunk { data: chunk })
    }

    fn judge(&self, g: Target, intake: Intake) -> (r: (ReceiveStage, ReceiveAction))
        ensures
            (r.0@, r.1@) == judged(self@, g@, intake.data()),
            r.0.wf(self.size),
    {
        match intake.finish(self.sha256.as_str()) {
            Ok(_) => {
                let (placing, action) = Placing::begin(g.final_path, g.policy, g.windows);
                (ReceiveStage::Placing(placing), ReceiveAction::Place(action))
            },
            Err(e) => (
                ReceiveStage::Nacking(e),
                ReceiveAction::Answer { byte: answer_byte(false) },
            ),
        }
    }
}

fn place_on(placing: Placing, e: PlaceEvent) -> (r: (ReceiveStage, ReceiveAction))
    ensures
        (r.0@, r.1@) == placed_on(
            TargetModel {
                final_path: placing.final_path@,
                policy: placing.policy,
                windows: placing.windows,
            },
            placing.stage@,
            e,
        ),
        r.0 is Placing || r.0 is Acking || r.0 is Over,
{
    let mut placing = placing;
    match placing.next(e) {
        PlaceAction::Done(Ok(path)) => (
            ReceiveStage::Acking { path },
            ReceiveAction::Answer { byte: answer_byte(true) },
        ),
        PlaceAction::Done(Err(why)) => fail(why),
        action => (ReceiveStage::Placing(placing), ReceiveAction::Place(action)),
    }
}

impl Reception {
    pub open spec fn wf(self) -> bool {
        self.stage.wf(self.terms.size)
    }

    /// Begins with the first step.
    pub fn begin(terms: Terms) -> (r: (Self, ReceiveAction))
        ensures
            r.0.wf(),
            r.0.terms == terms,
            (r.0.stage@, r.1@) == first_step(),
    {
        (Reception { terms, stage: ReceiveStage::Announcing }, ReceiveAction::Announce)
    }

    /// Begins with the first step for an offer, under a random id of its own.
    pub fn of_offer(offer: &FileOffer, windows: bool) -> (r: (Self, ReceiveAction))
        ensures
            r.0.wf(),
            r.0.terms@ == (TermsModel {
                file_name: offer.file_name@,
                size: offer.size,
                sha256: offer.sha256@,
                token: offer.token@,
                unique: r.0.terms.unique@,
                windows,
            }),
            is_random_id(r.0.terms.unique@),
            (r.0.stage@, r.1@) == first_step(),
    {
        let terms = Terms {
            file_name: offer.file_name.clone(),
            size: offer.size,
            sha256: offer.sha256.clone(),
            token: offer.token.clone(),
            unique: random_id(),
            windows,
        };
        Self::begin(terms)
    }

    /// What follows what came of the last step.
    pub fn next(&mut self, event: ReceiveEvent) -> (r: ReceiveAction)
        requires
            old(self).wf(),
        ensures
            final(self).wf(),
            final(self).terms == old(self).terms,
            (final(self).stage@, r@) == next_step(old(self).terms@, old(self).stage@, event),
    {
        let mut stage: ReceiveStage = ReceiveStage::Over;
        std::mem::swap(&mut stage, &mut self.stage);
        let (then, action) = self.step(stage, event);
        self.stage = then;
        action
    }

    fn step(&self, stage: ReceiveStage, event: ReceiveEvent) -> (r: (ReceiveStage, ReceiveAction))
        requires
            stage.wf(self.terms.size),
        ensures
            r.0.wf(self.terms.size),
            (r.0@, r.1@) == next_step(self.terms@, stage@, event),
    {
        match (stage, event) {
            (ReceiveStage::Announcing, ReceiveEvent::Queued(None)) => (
                ReceiveStage::Deciding,
                ReceiveAction::AwaitDecision,
            ),
            (ReceiveStage::Announcing, ReceiveEvent::Queued(Some(why))) => (
                ReceiveStage::Refusing(queue_refused(why)),
                self.terms.rejected(queue_refusal_reason(why)),
            ),
            (ReceiveStage::Deciding, ReceiveEvent::Decision(news)) => self.terms.decide(news),
            (ReceiveStage::Refusing(why), ReceiveEvent::Told(_)) => fail(why),
            (ReceiveStage::Rejecting { reason }, ReceiveEvent::Told(told)) => {
                let told: Result<(), String> = match told {
                    None => Ok(()),
                    Some(why) => Err(why),
                };
                fail(offer_refused(reason.as_str(), &told))
            },
            (
                ReceiveStage::ProbingDir { save_path },
                ReceiveEvent::Directory { is_dir, policy },
            ) => self.terms.target(save_path.as_str(), is_dir, policy),
            (ReceiveStage::ProbingDest(g), ReceiveEvent::Occupied(occupied)) => {
                self.terms.occupied(g, occupied)
            },
            (ReceiveStage::MakingParent(g), ReceiveEvent::Io(None)) => (
                ReceiveStage::Opening(g),
                ReceiveAction::Listen,
            ),
            (ReceiveStage::Opening(g), ReceiveEvent::Listening(Ok(port))) => (
                ReceiveStage::Accepting(g),
                ReceiveAction::Tell(
                    FtMessage::Accept { token: self.terms.token.clone(), tcp_port: port },
                ),
            ),
            (ReceiveStage::Opening(_), ReceiveEvent::Listening(Err(why))) => fail(
                node_failure(&Errand::Listen, why.as_str()),
            ),
            (ReceiveStage::Accepting(g), ReceiveEvent::Told(None)) => (
                ReceiveStage::Connecting(g),
                ReceiveAction::AwaitConnection,
            ),
            (ReceiveStage::Accepting(_), ReceiveEvent::Told(Some(why))) => fail(
                node_failure(&Errand::SendAccept, why.as_str()),
            ),
            (ReceiveStage::Connecting(g), ReceiveEvent::Connection(ConnectionNews::Connected)) => (
                ReceiveStage::Heading(g),
                ReceiveAction::ReadHeader,
            ),
            (ReceiveStage::Connecting(_), ReceiveEvent::Connection(news)) => fail(
                not_connected(news == ConnectionNews::Closed),
            ),
            (ReceiveStage::Heading(g), ReceiveEvent::Header(Ok(h))) => self.terms.head(g, h),
            (ReceiveStage::Heading(_), ReceiveEvent::Header(Err(why))) => fail(
                TransferError::Io(why),
            ),
            (ReceiveStage::Creating(g), ReceiveEvent::Io(None)) => {
                self.terms.go_on(g, Intake::begin(self.terms.size))
            },
            (ReceiveStage::Reading(g, intake), ReceiveEvent::Chunk(Ok(chunk))) => {
                self.terms.chunk(g, intake, chunk)
            },
            (ReceiveStage::Reading(_, _), ReceiveEvent::Chunk(Err(why))) => fail(
                TransferError::Io(why),
            ),
            (ReceiveStage::Writing(g, intake), ReceiveEvent::Io(None)) => {
                self.terms.go_on(g, intake)
            },
            (ReceiveStage::Flushing(g, intake), ReceiveEvent::Io(None)) => {
                self.terms.judge(g, intake)
            },
            (ReceiveStage::Nacking(why), ReceiveEvent::Io(None)) => (
                ReceiveStage::Removing(why),
                ReceiveAction::RemoveTemp,
            ),
            (ReceiveStage::Removing(why), ReceiveEvent::Removed) => fail(why),
            (ReceiveStage::Placing(placing), ReceiveEvent::Placed(e)) => place_on(placing, e),
            (ReceiveStage::Acking { path }, ReceiveEvent::Io(None)) => (
                ReceiveStage::Settling { path },
                ReceiveAction::Settle,
            ),
            (ReceiveStage::Settling { path }, ReceiveEvent::Settled) => (
                ReceiveStage::Over,
                ReceiveAction::Done(Ok(path)),
            ),
            (stage, ReceiveEvent::Io(Some(why))) => {
                if stage.awaits_io() {
                    fail(TransferError::Io(why))
                } else {
                    surprise()
                }
            },
            _ => surprise(),
        }
    }
}

impl ReceiveStage {
    /// The last action only works or fails.
    fn awaits_io(&self) -> (r: bool)
        ensures
            r == match self@ {
                ReceiveModel::MakingParent(_) => true,
                ReceiveModel::Creating(_) => true,
                ReceiveModel::Writing(_, _) => true,
                ReceiveModel::Flushing(_, _) => true,
                ReceiveModel::Nacking(_) => true,
                ReceiveModel::Acking(_) => true,
                _ => false,
            },
    {
        match self {
            ReceiveStage::MakingParent(_) => true,
            ReceiveStage::Creating(_) => true,
            ReceiveStage::Writing(_, _) => true,
            ReceiveStage::Flushing(_, _) => true,
            ReceiveStage::Nacking(_) => true,
            ReceiveStage::Acking { .. } => true,
            _ => false,
        }
    }
}

// ---------------------------------------------------------------------------
// Events
// ---------------------------------------------------------------------------

/// The bytes of a transfer that is between two chunks.
pub open spec fn bytes_so_far(s: ReceiveModel) -> Option<Seq<u8>> {
    match s {
        ReceiveModel::Reading(_, data) => Some(data),
        ReceiveModel::Flushing(_, data) => Some(data),
        _ => None,
    }
}

impl Reception {
    /// The report of progress after a chunk, if one is due: not before the
    /// first chunk, and some time after the last report.
    pub fn progress(&self, since_last_nanos: u64, speed_bps_bits: u64) -> (r: Option<
        TransferProgress,
    >)
        requires
            self.wf(),
        ensures
            match bytes_so_far(self.stage@) {
                Some(data) => if data.len() > 0 && since_last_nanos >= PROGRESS_PAUSE_NANOS {
                    r matches Some(p) && p.token@ == self.terms.token@ && p.direction
                        == TransferDirection::Receive && p.file_name@ == self.terms.file_name@
                        && p.bytes_transferred == data.len() && p.total_bytes == self.terms.size
                        && p.speed_bps_bits == speed_bps_bits
                } else {
                    r is None
                },
                None => r is None,
            },
    {
        let received: u64 = match &self.stage {
            ReceiveStage::Reading(_, intake) => intake.received(),
            ReceiveStage::Flushing(_, intake) => intake.received(),
            _ => return None,
        };
        if received == 0 || !progress_due(since_last_nanos) {
            return None;
        }
        Some(
            TransferProgress {
                token: self.terms.token.clone(),
                direction: TransferDirection::Receive,
                file_name: self.terms.file_name.clone(),
                bytes_transferred: received,
                total_bytes: self.terms.size,
                speed_bps_bits,
            },
        )
    }

    /// The event that reports how the transfer ended. `shown` is the error as
    /// it is shown to users.
    pub fn closing_event(
        &self,
        result: &Result<String, TransferError>,
        shown: &str,
        elapsed_secs_bits: u64,
    ) -> (r: FileTransferEvent)
        ensures
            match *result {
                Ok(_) => r is Completed && r->Completed_token@ == self.terms.token@
                    && r->Completed_direction == TransferDirection::Receive
                    && r->Completed_file_name@ == self.terms.file_name@ && r->bytes_transferred
                    == self.terms.size && r->sha256@ == self.terms.sha256@
                    && r->elapsed_secs_bits == elapsed_secs_bits,
                Err(TransferError::Rejected(reason)) => r is Rejected && r->Rejected_token@
                    == self.terms.token@ && r->Rejected_file_name@ == self.terms.file_name@
                    && r->Rejected_reason@ == reason@,
                Err(_) => r is Failed && r->Failed_token@ == self.terms.token@
                    && r->Failed_direction == TransferDirection::Receive && r->Failed_file_name@
                    == self.terms.file_name@ && r->Failed_reason@ == shown@,
            },
    {
        match result {
            Ok(_) => FileTransferEvent::Completed {
                token: self.terms.token.clone(),
                direction: TransferDirection::Receive,
                file_name: self.terms.file_name.clone(),
                bytes_transferred: self.terms.size,
                sha256: self.terms.sha256.clone(),
                elapsed_secs_bits,
            },
            Err(e) => failure_event(
                self.terms.token.as_str(),
                self.terms.file_name.as_str(),
                e,
                shown,
            ),
        }
    }
}

// ---------------------------------------------------------------------------
// Laws
// ---------------------------------------------------------------------------

/// Where a transfer stands after some events.
pub open spec fn after(t: TermsModel, events: Seq<ReceiveEvent>) -> (
    ReceiveModel,
    ReceiveActionModel,
)
    decreases events.len(),
{
    if events.len() == 0 {
        first_step()
    } else {
        next_step(t, after(t, events.drop_last()).0, events.last())
    }
}

/// The bytes that it was told to write until then.
pub open spec fn written(t: TermsModel, events: Seq<ReceiveEvent>) -> Seq<u8>
    decreases events.len(),
{
    if events.len() == 0 {
        Seq::empty()
    } else {
        match after(t, events).1 {
            ReceiveActionModel::WriteChunk(data) => written(t, events.drop_last()) + data,
            _ => written(t, events.drop_last()),
        }
    }
}

/// The written bytes are those that were promised.
pub open spec fn as_promised(t: TermsModel, data: Seq<u8>) -> bool {
    data.len() == t.size && arrived_whole(data, t.sha256)
}

/// What holds of the written bytes at every stage.
pub open spec fn in_keeping(t: TermsModel, s: ReceiveModel, data: Seq<u8>) -> bool {
    match s {
        ReceiveModel::Reading(_, d) => d == data && data.len() < t.size,
        ReceiveModel::Writing(_, d) => d == data && data.len() <= t.size,
        ReceiveModel::Flushing(_, d) => d == data && data.len() == t.size,
        ReceiveModel::Placing(_, _) => as_promised(t, data),
        ReceiveModel::Acking(_) => as_promised(t, data),
        ReceiveModel::Settling(_) => as_promised(t, data),
        ReceiveModel::Nacking(_) => data.len() == t.size,
        ReceiveModel::Removing(_) => data.len() <= t.size,
        ReceiveModel::Over => data.len() <= t.size,
        _ => data.len() == 0,
    }
}

pub proof fn lemma_in_keeping(t: TermsModel, events: Seq<ReceiveEvent>)
    ensures
        in_keeping(t, after(t, events).0, written(t, events)),
        after(t, events).1 matches ReceiveActionModel::Done(Ok(_)) ==> as_promised(
            t,
            written(t, events),
        ),
    decreases events.len(),
{
    if events.len() > 0 {
        let before = events.drop_last();
        lemma_in_keeping(t, before);
        let s = after(t, before).0;
        let action = next_step(t, s, events.last()).1;
        if s is Creating {
            assert(written(t, before) =~= Seq::empty());
        }
        if action is WriteChunk {
            let data = s->Reading_1;
            let chunk = action->WriteChunk_0;
            assert(written(t, events) =~= data + chunk);
        }
    }
}

/// No more is written than was promised; a file is brought to its place, and
/// the sender told so, only where all promised bytes were written and their
/// digest is the promised one.
pub proof fn law_only_whole_files_are_placed(t: TermsModel, events: Seq<ReceiveEvent>)
    ensures
        written(t, events).len() <= t.size,
        after(t, events).1 is Place ==> as_promised(t, written(t, events)),
        after(t, events).1 == ReceiveActionModel::Answer(ACK) ==> as_promised(
            t,
            written(t, events),
        ),
        after(t, events).1 matches ReceiveActionModel::Done(Ok(_)) ==> as_promised(
            t,
            written(t, events),
        ),
{
    lemma_in_keeping(t, events);
    if events.len() > 0 {
        let before = events.drop_last();
        lemma_in_keeping(t, before);
    }
}

/// Nothing is written, and no port opened, before the application accepted
/// the offer.
pub proof fn law_nothing_happens_unasked(t: TermsModel, events: Seq<ReceiveEvent>)
    requires
        forall|i: int|
            0 <= i < events.len() ==> !((#[trigger] events[i]) matches ReceiveEvent::Decision(
                DecisionNews::Decided(OfferDecision::Accept { save_path: _ }),
            )),
    ensures
        match after(t, events).1 {
            ReceiveActionModel::Announce => true,
            ReceiveActionModel::AwaitDecision => true,
            ReceiveActionModel::Tell(m) => m is Reject,
            ReceiveActionModel::Done(r) => r is Err,
            _ => false,
        },
        match after(t, events).0 {
            ReceiveModel::Announcing => true,
            ReceiveModel::Deciding => true,
            ReceiveModel::Refusing(_) => true,
            ReceiveModel::Rejecting(_) => true,
            ReceiveModel::Over => true,
            _ => false,
        },
    decreases events.len(),
{
    if events.len() > 0 {
        let before = events.drop_last();
        assert forall|i: int| 0 <= i < before.len() implies !((
        #[trigger] before[i]) matches ReceiveEvent::Decision(
            DecisionNews::Decided(OfferDecision::Accept { save_path: _ }),
        )) by {
            assert(before[i] == events[i]);
        }
        law_nothing_happens_unasked(t, before);
        assert(events[events.len() - 1] == events.last());
    }
}

} // verus!
