//! The course of one request for a file: from its authorization over the
//! offer and the bytes of the file to the requester's answer. Each step says
//! what to do next, and takes what came of it.
use vstd::prelude::*;

use crate::digest::{hex, is_random_id, random_id, sha256};
use crate::file_transfer::header::{header_bytes, write_header};
use crate::file_transfer::intake::{
    check_answer, progress_due, Digesting, ACK, PROGRESS_PAUSE_NANOS,
};
use crate::file_transfer::paths::file_name_of;
use crate::file_transfer::place::{ending, Ending};
use crate::file_transfer::receiver::{
    authorize_pull_path, is_shared, pull_denied_reason, pull_refused, reject_message, serve_offer,
    served_name, unanswered, FoundPath,
};
use crate::file_transfer::types::{
    node_failure, Errand, FileTransferEvent, FtMessage, MessageModel, TransferDirection,
    TransferError, TransferErrorModel, TransferProgress,
};
use crate::request_reply::{RequestError, RequestErrorModel};
use crate::text::{decimal, owned, texts};

verus! {

/// What is requested, and what may be served.
#[derive(Debug)]
pub struct Pull {
    /// Node id of the requester.
    pub from: String,
    /// The path as it was requested.
    pub path: String,
    /// Token of the request.
    pub token: String,
    /// Token of the offer that answers it, which no other transfer has.
    pub offer_token: String,
    /// The shared directories.
    pub roots: Vec<String>,
    pub max_size: u64,
    /// Paths are those of Windows.
    pub windows: bool,
}

/// The texts of [`Pull`].
pub struct PullModel {
    pub from: Seq<char>,
    pub path: Seq<char>,
    pub token: Seq<char>,
    pub offer_token: Seq<char>,
    pub roots: Seq<Seq<char>>,
    pub max_size: u64,
    pub windows: bool,
}

impl View for Pull {
    type V = PullModel;

    open spec fn view(&self) -> PullModel {
        PullModel {
            from: self.from@,
            path: self.path@,
            token: self.token@,
            offer_token: self.offer_token@,
            roots: texts(self.roots@),
            max_size: self.max_size,
            windows: self.windows,
        }
    }
}

/// The file that is served, and what its offer says of it.
#[derive(Debug)]
pub struct Served {
    /// The path with everything resolved.
    pub path: String,
    pub size: u64,
    pub sha256: String,
}

/// The texts of [`Served`].
pub struct ServedModel {
    pub path: Seq<char>,
    pub size: u64,
    pub sha256: Seq<char>,
}

impl View for Served {
    type V = ServedModel;

    open spec fn view(&self) -> ServedModel {
        ServedModel { path: self.path@, size: self.size, sha256: self.sha256@ }
    }
}

/// What is to be done next.
pub enum ServeAction {
    /// Resolve the path, and look what it is.
    Resolve { path: String },
    /// Send the requester a message.
    Tell(FtMessage),
    /// Look how large the file is.
    Measure { path: String },
    /// Open the file at its beginning.
    Open { path: String },
    /// Read a chunk of the file.
    ReadChunk,
    /// Send the offer, and wait for its answer.
    Request(FtMessage),
    /// Connect to the requester.
    OpenTcp { peer: String, port: u16 },
    /// Send bytes over the connection.
    Send { data: Vec<u8> },
    Flush,
    /// Read the requester's answer, one byte.
    ReadAnswer,
    /// It is over: the digest of the file, or why it was not served.
    Done(Result<String, TransferError>),
}

/// The texts and bytes of a [`ServeAction`].
pub enum ServeActionModel {
    Resolve(Seq<char>),
    Tell(MessageModel),
    Measure(Seq<char>),
    Open(Seq<char>),
    ReadChunk,
    Request(MessageModel),
    OpenTcp(Seq<char>, u16),
    Send(Seq<u8>),
    Flush,
    ReadAnswer,
    Done(Ending),
}

impl View for ServeAction {
    type V = ServeActionModel;

    open spec fn view(&self) -> ServeActionModel {
        match self {
            ServeAction::Resolve { path } => ServeActionModel::Resolve(path@),
            ServeAction::Tell(m) => ServeActionModel::Tell(m@),
            ServeAction::Measure { path } => ServeActionModel::Measure(path@),
            ServeAction::Open { path } => ServeActionModel::Open(path@),
            ServeAction::ReadChunk => ServeActionModel::ReadChunk,
            ServeAction::Request(m) => ServeActionModel::Request(m@),
            ServeAction::OpenTcp { peer, port } => ServeActionModel::OpenTcp(peer@, *port),
            ServeAction::Send { data } => ServeActionModel::Send(data@),
            ServeAction::Flush => ServeActionModel::Flush,
            ServeAction::ReadAnswer => ServeActionModel::ReadAnswer,
            ServeAction::Done(r) => ServeActionModel::Done(ending(*r)),
        }
    }
}

/// What came of an action.
pub enum ServeEvent {
    /// Of `Resolve`: what was found, if anything.
    Found(Option<FoundPath>),
    /// Of `Tell`, however it went.
    Told,
    /// Of `Measure`.
    Size(Result<u64, String>),
    /// Of what only works or fails: nothing, or why it failed.
    Io(Option<String>),
    /// Of `ReadChunk`: the bytes, none at the end of the file.
    Chunk(Result<Vec<u8>, String>),
    /// Of `Request`: the port to connect to, the requester's refusal, or why
    /// there was no answer.
    Reply(Result<Result<u16, TransferError>, RequestError>),
    /// Of `ReadAnswer`.
    Answer(Result<u8, String>),
}

/// How far the request is.
pub enum ServeStage {
    Resolving,
    /// The requester is told of the refusal.
    Denying(TransferError),
    Measuring { path: String },
    Opening { path: String, size: u64 },
    Hashing { path: String, size: u64, digesting: Digesting },
    Asking(Served),
    Connecting(Served, u16),
    Heading(Served),
    Reopening(Served),
    Reading(Served, u64),
    Sending(Served, u64),
    Flushing(Served),
    Awaiting(Served),
    Finished(Served),
    Over,
}

/// The texts and bytes of a [`ServeStage`].
pub enum ServeModel {
    Resolving,
    Denying(TransferErrorModel),
    Measuring(Seq<char>),
    Opening(Seq<char>, u64),
    /// The path, the size, and the bytes so far.
    Hashing(Seq<char>, u64, Seq<u8>),
    Asking(ServedModel),
    Connecting(ServedModel, u16),
    Heading(ServedModel),
    Reopening(ServedModel),
    /// How many bytes were sent.
    Reading(ServedModel, u64),
    Sending(ServedModel, u64),
    Flushing(ServedModel),
    Awaiting(ServedModel),
    Finished(ServedModel),
    Over,
}

impl View for ServeStage {
    type V = ServeModel;

    open spec fn view(&self) -> ServeModel {
        match self {
            ServeStage::Resolving => ServeModel::Resolving,
            ServeStage::Denying(e) => ServeModel::Denying(e@),
            ServeStage::Measuring { path } => ServeModel::Measuring(path@),
            ServeStage::Opening { path, size } => ServeModel::Opening(path@, *size),
            ServeStage::Hashing { path, size, digesting } => ServeModel::Hashing(
                path@,
                *size,
                digesting.data(),
            ),
            ServeStage::Asking(f) => ServeModel::Asking(f@),
            ServeStage::Connecting(f, port) => ServeModel::Connecting(f@, *port),
            ServeStage::Heading(f) => ServeModel::Heading(f@),
            ServeStage::Reopening(f) => ServeModel::Reopening(f@),
            ServeStage::Reading(f, sent) => ServeModel::Reading(f@, *sent),
            ServeStage::Sending(f, sent) => ServeModel::Sending(f@, *sent),
            ServeStage::Flushing(f) => ServeModel::Flushing(f@),
            ServeStage::Awaiting(f) => ServeModel::Awaiting(f@),
            ServeStage::Finished(f) => ServeModel::Finished(f@),
            ServeStage::Over => ServeModel::Over,
        }
    }
}

// ---------------------------------------------------------------------------
// The steps
// ---------------------------------------------------------------------------

/// The request ends without a file.
pub open spec fn failed(e: TransferErrorModel) -> (ServeModel, ServeActionModel) {
    (ServeModel::Over, ServeActionModel::Done(Err(e)))
}

/// An event that answers nothing.
pub open spec fn unexpected() -> (ServeModel, ServeActionModel) {
    failed(TransferErrorModel::Protocol("unexpected event"@))
}

/// A step that only works or fails: on, or the end with the failure.
pub open spec fn io_step(e: ServeEvent, next: (ServeModel, ServeActionModel)) -> (
    ServeModel,
    ServeActionModel,
) {
    match e {
        ServeEvent::Io(None) => next,
        ServeEvent::Io(Some(why)) => failed(TransferErrorModel::Io(why@)),
        _ => unexpected(),
    }
}

/// The requester is refused, and told no reason.
pub open spec fn denied(q: PullModel, why: Seq<char>) -> (ServeModel, ServeActionModel) {
    (
        ServeModel::Denying(TransferErrorModel::Rejected(why)),
        ServeActionModel::Tell(
            MessageModel::Reject { token: q.token, reason: "pull denied by peer"@ },
        ),
    )
}

/// The first step: without shared directories no path is even looked at.
pub open spec fn first_step(q: PullModel) -> (ServeModel, ServeActionModel) {
    if q.roots.len() == 0 {
        denied(q, "pull serving is not enabled on this peer"@)
    } else {
        (ServeModel::Resolving, ServeActionModel::Resolve(q.path))
    }
}

pub open spec fn looked_up(q: PullModel, found: Option<FoundPath>) -> (
    ServeModel,
    ServeActionModel,
) {
    match pull_refused(q.windows, q.roots, found, q.max_size) {
        Some(why) => denied(q, why),
        None => (
            ServeModel::Measuring(found->0.path@),
            ServeActionModel::Measure(found->0.path@),
        ),
    }
}

/// The name under which the file is offered: that of the requested path.
pub open spec fn offered_name(q: PullModel) -> Seq<char> {
    match file_name_of(q.windows, q.path) {
        Some(n) => n,
        None => "file"@,
    }
}

/// A chunk for the digest; at the end of the file the offer goes out.
pub open spec fn digested(
    q: PullModel,
    path: Seq<char>,
    size: u64,
    data: Seq<u8>,
    chunk: Seq<u8>,
) -> (ServeModel, ServeActionModel) {
    if chunk.len() == 0 {
        let digest = hex(sha256(data));
        (
            ServeModel::Asking(ServedModel { path, size, sha256: digest }),
            ServeActionModel::Request(
                MessageModel::Offer {
                    file_name: offered_name(q),
                    size,
                    sha256: digest,
                    save_path: Seq::empty(),
                    token: q.offer_token,
                    tcp_port: 0,
                },
            ),
        )
    } else if data.len() + chunk.len() > u64::MAX {
        unexpected()
    } else {
        (ServeModel::Hashing(path, size, data + chunk), ServeActionModel::ReadChunk)
    }
}

pub open spec fn replied(
    q: PullModel,
    f: ServedModel,
    reply: Result<Result<u16, TransferError>, RequestError>,
) -> (ServeModel, ServeActionModel) {
    match reply {
        Ok(Ok(port)) => (
            ServeModel::Connecting(f, port),
            ServeActionModel::OpenTcp(q.from, port),
        ),
        Ok(Err(e)) => failed(e@),
        Err(e) => failed(
            match e@ {
                RequestErrorModel::Timeout => TransferErrorModel::Timeout,
                RequestErrorModel::Send(why) => TransferErrorModel::Node(
                    "Failed to send OFFER"@ + ": "@ + why,
                ),
                RequestErrorModel::ChannelClosed => TransferErrorModel::Protocol(
                    "Channel closed"@,
                ),
            },
        ),
    }
}

/// A chunk to send; behind the last one the connection is flushed.
pub open spec fn passed_on(f: ServedModel, sent: u64, chunk: Seq<u8>) -> (
    ServeModel,
    ServeActionModel,
) {
    if chunk.len() == 0 {
        (ServeModel::Flushing(f), ServeActionModel::Flush)
    } else if sent + chunk.len() > u64::MAX {
        unexpected()
    } else {
        (
            ServeModel::Sending(f, (sent + chunk.len()) as u64),
            ServeActionModel::Send(chunk),
        )
    }
}

pub open spec fn answered(f: ServedModel, byte: u8) -> (ServeModel, ServeActionModel) {
    if byte == ACK {
        (ServeModel::Finished(f), ServeActionModel::Done(Ok(f.sha256)))
    } else {
        failed(
            TransferErrorModel::IntegrityError {
                expected: f.sha256,
                actual: "peer reported integrity failure"@,
            },
        )
    }
}

/// What follows an event.
pub open spec fn next_step(q: PullModel, s: ServeModel, e: ServeEvent) -> (
    ServeModel,
    ServeActionModel,
) {
    match s {
        ServeModel::Resolving => match e {
            ServeEvent::Found(found) => looked_up(q, found),
            _ => unexpected(),
        },
        ServeModel::Denying(why) => match e {
            ServeEvent::Told => failed(why),
            _ => unexpected(),
        },
        ServeModel::Measuring(path) => match e {
            ServeEvent::Size(Ok(size)) => (
                ServeModel::Opening(path, size),
                ServeActionModel::Open(path),
            ),
            ServeEvent::Size(Err(why)) => failed(TransferErrorModel::Io(why@)),
            _ => unexpected(),
        },
        ServeModel::Opening(path, size) => io_step(
            e,
            (ServeModel::Hashing(path, size, Seq::empty()), ServeActionModel::ReadChunk),
        ),
        ServeModel::Hashing(path, size, data) => match e {
            ServeEvent::Chunk(Ok(chunk)) => digested(q, path, size, data, chunk@),
            ServeEvent::Chunk(Err(why)) => failed(TransferErrorModel::Io(why@)),
            _ => unexpected(),
        },
        ServeModel::Asking(f) => match e {
            ServeEvent::Reply(reply) => replied(q, f, reply),
            _ => unexpected(),
        },
        ServeModel::Connecting(f, port) => match e {
            ServeEvent::Io(None) => (
                ServeModel::Heading(f),
                ServeActionModel::Send(header_bytes(f.size, f.sha256)),
            ),
            ServeEvent::Io(Some(why)) => failed(
                TransferErrorModel::Node(
                    "Failed to open TCP to "@ + q.from + ":"@ + decimal(port as nat) + ": "@
                        + why@,
                ),
            ),
            _ => unexpected(),
        },
        ServeModel::Heading(f) => io_step(
            e,
            (ServeModel::Reopening(f), ServeActionModel::Open(f.path)),
        ),
        ServeModel::Reopening(f) => io_step(
            e,
            (ServeModel::Reading(f, 0), ServeActionModel::ReadChunk),
        ),
        ServeModel::Reading(f, sent) => match e {
            ServeEvent::Chunk(Ok(chunk)) => passed_on(f, sent, chunk@),
            ServeEvent::Chunk(Err(why)) => failed(TransferErrorModel::Io(why@)),
            _ => unexpected(),
        },
        ServeModel::Sending(f, sent) => io_step(
            e,
            (ServeModel::Reading(f, sent), ServeActionModel::ReadChunk),
        ),
        ServeModel::Flushing(f) => io_step(
            e,
            (ServeModel::Awaiting(f), ServeActionModel::ReadAnswer),
        ),
        ServeModel::Awaiting(f) => match e {
            ServeEvent::Answer(Ok(byte)) => answered(f, byte),
            ServeEvent::Answer(Err(why)) => failed(TransferErrorModel::Io(why@)),
            _ => unexpected(),
        },
        ServeModel::Finished(_) => unexpected(),
        ServeModel::Over => unexpected(),
    }
}

// ---------------------------------------------------------------------------
// The course
// ---------------------------------------------------------------------------

/// The course of one request for a file.
pub struct Serving {
    pub pull: Pull,
    pub stage: ServeStage,
}

impl ServeStage {
    /// The count of the digested bytes is right.
    pub open spec fn wf(self) -> bool {
        match self {
            ServeStage::Hashing { digesting, .. } => digesting.wf(),
            _ => true,
        }
    }

    /// The last action only works or fails, and its failure says all.
    fn awaits_io(&self) -> (r: bool)
        ensures
            r == match self@ {
                ServeModel::Opening(_, _) => true,
                ServeModel::Heading(_) => true,
                ServeModel::Reopening(_) => true,
                ServeModel::Sending(_, _) => true,
                ServeModel::Flushing(_) => true,
                _ => false,
            },
    {
        match self {
            ServeStage::Opening { .. } => true,
            ServeStage::Heading(_) => true,
            ServeStage::Reopening(_) => true,
            ServeStage::Sending(_, _) => true,
            ServeStage::Flushing(_) => true,
            _ => false,
        }
    }
}

fn fail(e: TransferError) -> (r: (ServeStage, ServeAction))
    ensures
        (r.0@, r.1@) == failed(e@),
        r.0 is Over,
{
    (ServeStage::Over, ServeAction::Done(Err(e)))
}

fn surprise() -> (r: (ServeStage, ServeAction))
    ensures
        (r.0@, r.1@) == unexpected(),
        r.0 is Over,
{
    fail(TransferError::Protocol(owned("unexpected event")))
}

impl Pull {
    fn deny(&self, e: TransferError) -> (r: (ServeStage, ServeAction))
        ensures
            r.0@ == ServeModel::Denying(e@),
            r.1@ == ServeActionModel::Tell(
                MessageModel::Reject { token: self.token@, reason: "pull denied by peer"@ },
            ),
            r.0 is Denying,
    {
        (
            ServeStage::Denying(e),
            ServeAction::Tell(reject_message(self.token.as_str(), pull_denied_reason())),
        )
    }

    fn look_up(&self, found: Option<FoundPath>) -> (r: (ServeStage, ServeAction))
        ensures
            (r.0@, r.1@) == looked_up(self@, found),
            r.0.wf(),
    {
        match authorize_pull_path(&self.roots, &found, self.max_size, self.windows) {
            Err(e) => self.deny(e),
            Ok(path) => {
                let at: String = path.clone();
                (ServeStage::Measuring { path: at }, ServeAction::Measure { path })
            },
        }
    }

    fn digest(&self, path: String, size: u64, digesting: Digesting, chunk: Vec<u8>) -> (r: (
        ServeStage,
        ServeAction,
    ))
        requires
            digesting.wf(),
        ensures
            (r.0@, r.1@) == digested(self@, path@, size, digesting.data(), chunk@),
            r.0.wf(),
    {
        if chunk.len() == 0 {
            let sha256: String = digesting.finish();
            let offer: FtMessage = serve_offer(
                served_name(self.path.as_str(), self.windows),
                size,
                sha256.clone(),
                self.offer_token.clone(),
            );
            assert(offer@->save_path =~= Seq::empty());
            return (
                ServeStage::Asking(Served { path, size, sha256 }),
                ServeAction::Request(offer),
            );
        }
        let n: usize = chunk.len();
        if digesting.total() > u64::MAX - n as u64 {
            return surprise();
        }
        let mut digesting = digesting;
        digesting.add(chunk.as_slice());
        (ServeStage::Hashing { path, size, digesting }, ServeAction::ReadChunk)
    }

    fn reply(&self, f: Served, reply: Result<Result<u16, TransferError>, RequestError>) -> (r: (
        ServeStage,
        ServeAction,
    ))
        ensures
            (r.0@, r.1@) == replied(self@, f@, reply),
            r.0.wf(),
    {
        match reply {
            Ok(Ok(port)) => (
                ServeStage::Connecting(f, port),
                ServeAction::OpenTcp { peer: self.from.clone(), port },
            ),
            Ok(Err(e)) => fail(e),
            Err(e) => fail(unanswered(&e)),
        }
    }
}

fn pass_on(f: Served, sent: u64, chunk: Vec<u8>) -> (r: (ServeStage, ServeAction))
    ensures
        (r.0@, r.1@) == passed_on(f@, sent, chunk@),
        r.0.wf(),
{
    if chunk.len() == 0 {
        return (ServeStage::Flushing(f), ServeAction::Flush);
    }
    let n: usize = chunk.len();
    if sent > u64::MAX - n as u64 {
        return surprise();
    }
    (ServeStage::Sending(f, sent + n as u64), ServeAction::Send { data: chunk })
}

impl Serving {
    pub open spec fn wf(self) -> bool {
        self.stage.wf()
    }

    /// Begins with the first step.
    pub fn begin(pull: Pull) -> (r: (Self, ServeAction))
        ensures
            r.0.wf(),
            r.0.pull == pull,
            (r.0.stage@, r.1@) == first_step(pull@),
    {
        if pull.roots.len() == 0 {
            let (stage, action) = pull.deny(
                TransferError::Rejected(owned("pull serving is not enabled on this peer")),
            );
            (Serving { pull, stage }, action)
        } else {
            let path: String = pull.path.clone();
            (Serving { pull, stage: ServeStage::Resolving }, ServeAction::Resolve { path })
        }
    }

    /// Begins with the first step for a request, whose offer gets a random
    /// token.
    pub fn of_request(
        from: String,
        path: String,
        token: String,
        roots: Vec<String>,
        max_size: u64,
        windows: bool,
    ) -> (r: (Self, ServeAction))
        ensures
            r.0.wf(),
            r.0.pull@ == (PullModel {
                from: from@,
                path: path@,
                token: token@,
                offer_token: r.0.pull.offer_token@,
                roots: texts(roots@),
                max_size,
                windows,
            }),
            is_random_id(r.0.pull.offer_token@),
            (r.0.stage@, r.1@) == first_step(r.0.pull@),
    {
        let offer_token: String = random_id();
        Self::begin(Pull { from, path, token, offer_token, roots, max_size, windows })
    }

    /// What follows what came of the last step.
    pub fn next(&mut self, event: ServeEvent) -> (r: ServeAction)
        requires
            old(self).wf(),
        ensures
            final(self).wf(),
            final(self).pull == old(self).pull,
            (final(self).stage@, r@) == next_step(old(self).pull@, old(self).stage@, event),
    {
        let mut stage: ServeStage = ServeStage::Over;
        std::mem::swap(&mut stage, &mut self.stage);
        let (then, action) = self.step(stage, event);
        self.stage = then;
        action
    }

    fn step(&self, stage: ServeStage, event: ServeEvent) -> (r: (ServeStage, ServeAction))
        requires
            stage.wf(),
        ensures
            r.0.wf(),
            (r.0@, r.1@) == next_step(self.pull@, stage@, event),
    {
        match (stage, event) {
            (ServeStage::Resolving, ServeEvent::Found(found)) => self.pull.look_up(found),
            (ServeStage::Denying(why), ServeEvent::Told) => fail(why),
            (ServeStage::Measuring { path }, ServeEvent::Size(Ok(size))) => {
                let at: String = path.clone();
                (ServeStage::Opening { path: at, size }, ServeAction::Open { path })
            },
            (ServeStage::Measuring { .. }, ServeEvent::Size(Err(why))) => fail(
                TransferError::Io(why),
            ),
            (ServeStage::Opening { path, size }, ServeEvent::Io(None)) => (
                ServeStage::Hashing { path, size, digesting: Digesting::new() },
                ServeAction::ReadChunk,
            ),
            (
                ServeStage::Hashing { path, size, digesting },
                ServeEvent::Chunk(Ok(chunk)),
            ) => self.pull.digest(path, size, digesting, chunk),
            (ServeStage::Hashing { .. }, ServeEvent::Chunk(Err(why))) => fail(
                TransferError::Io(why),
            ),
            (ServeStage::Asking(f), ServeEvent::Reply(reply)) => self.pull.reply(f, reply),
            (ServeStage::Connecting(f, _), ServeEvent::Io(None)) => {
                let data: Vec<u8> = write_header(f.size, f.sha256.as_str());
                (ServeStage::Heading(f), ServeAction::Send { data })
            },
            (ServeStage::Connecting(_, port), ServeEvent::Io(Some(why))) => fail(
                node_failure(
                    &Errand::OpenTcp { peer: self.pull.from.clone(), port },
                    why.as_str(),
                ),
            ),
            (ServeStage::Heading(f), ServeEvent::Io(None)) => {
                let path: String = f.path.clone();
                (ServeStage::Reopening(f), ServeAction::Open { path })
            },
            (ServeStage::Reopening(f), ServeEvent::Io(None)) => (
                ServeStage::Reading(f, 0),
                ServeAction::ReadChunk,
            ),
            (ServeStage::Reading(f, sent), ServeEvent::Chunk(Ok(chunk))) => {
                pass_on(f, sent, chunk)
            },
            (ServeStage::Reading(_, _), ServeEvent::Chunk(Err(why))) => fail(
                TransferError::Io(why),
            ),
            (ServeStage::Sending(f, sent), ServeEvent::Io(None)) => (
                ServeStage::Reading(f, sent),
                ServeAction::ReadChunk,
            ),
            (ServeStage::Flushing(f), ServeEvent::Io(None)) => (
                ServeStage::Awaiting(f),
                ServeAction::ReadAnswer,
            ),
            (ServeStage::Awaiting(f), ServeEvent::Answer(Ok(byte))) => {
                match check_answer(byte, f.sha256.as_str()) {
                    Ok(_) => {
                        let sha256: String = f.sha256.clone();
                        (ServeStage::Finished(f), ServeAction::Done(Ok(sha256)))
                    },
                    Err(e) => fail(e),
                }
            },
            (ServeStage::Awaiting(_), ServeEvent::Answer(Err(why))) => fail(
                TransferError::Io(why),
            ),
            (stage, ServeEvent::Io(Some(why))) => {
                if stage.awaits_io() {
                    fail(TransferError::Io(why))
                } else {
                    surprise()
                }
            },
            _ => surprise(),
        }
    }
}

// ---------------------------------------------------------------------------
// Events
// ---------------------------------------------------------------------------

impl Serving {
    /// The report of progress after a chunk was sent, if one is due.
    pub fn progress(&self, since_last_nanos: u64, speed_bps_bits: u64) -> (r: Option<
        TransferProgress,
    >)
        ensures
            match self.stage@ {
                ServeModel::Reading(f, sent) => if sent > 0 && since_last_nanos
                    >= PROGRESS_PAUSE_NANOS {
                    r matches Some(p) && p.token@ == self.pull.offer_token@ && p.direction
                        == TransferDirection::Send && p.file_name@ == offered_name(self.pull@)
                        && p.bytes_transferred == sent && p.total_bytes == f.size
                        && p.speed_bps_bits == speed_bps_bits
                } else {
                    r is None
                },
                _ => r is None,
            },
    {
        match &self.stage {
            ServeStage::Reading(f, sent) => {
                if *sent == 0 || !progress_due(since_last_nanos) {
                    return None;
                }
                Some(
                    TransferProgress {
                        token: self.pull.offer_token.clone(),
                        direction: TransferDirection::Send,
                        file_name: served_name(self.pull.path.as_str(), self.pull.windows),
                        bytes_transferred: *sent,
                        total_bytes: f.size,
                        speed_bps_bits,
                    },
                )
            },
            _ => None,
        }
    }

    /// The event that reports a file that was served, if it was.
    pub fn completed_event(&self, elapsed_secs_bits: u64) -> (r: Option<FileTransferEvent>)
        ensures
            match self.stage@ {
                ServeModel::Finished(f) => r matches Some(e) && e is Completed
                    && e->Completed_token@ == self.pull.offer_token@ && e->Completed_direction
                    == TransferDirection::Send && e->Completed_file_name@ == offered_name(
                    self.pull@,
                ) && e->bytes_transferred == f.size && e->sha256@ == f.sha256
                    && e->elapsed_secs_bits == elapsed_secs_bits,
                _ => r is None,
            },
    {
        match &self.stage {
            ServeStage::Finished(f) => Some(
                FileTransferEvent::Completed {
                    token: self.pull.offer_token.clone(),
                    direction: TransferDirection::Send,
                    file_name: served_name(self.pull.path.as_str(), self.pull.windows),
                    bytes_transferred: f.size,
                    sha256: f.sha256.clone(),
                    elapsed_secs_bits,
                },
            ),
            _ => None,
        }
    }
}

// ---------------------------------------------------------------------------
// Laws
// ---------------------------------------------------------------------------

/// Where a request stands after some events.
pub open spec fn after(q: PullModel, events: Seq<ServeEvent>) -> (ServeModel, ServeActionModel)
    decreases events.len(),
{
    if events.len() == 0 {
        first_step(q)
    } else {
        next_step(q, after(q, events.drop_last()).0, events.last())
    }
}

/// The path that a stage has to do with.
pub open spec fn path_of(s: ServeModel) -> Option<Seq<char>> {
    match s {
        ServeModel::Measuring(path) => Some(path),
        ServeModel::Opening(path, _) => Some(path),
        ServeModel::Hashing(path, _, _) => Some(path),
        ServeModel::Asking(f) => Some(f.path),
        ServeModel::Connecting(f, _) => Some(f.path),
        ServeModel::Heading(f) => Some(f.path),
        ServeModel::Reopening(f) => Some(f.path),
        ServeModel::Reading(f, _) => Some(f.path),
        ServeModel::Sending(f, _) => Some(f.path),
        ServeModel::Flushing(f) => Some(f.path),
        ServeModel::Awaiting(f) => Some(f.path),
        ServeModel::Finished(f) => Some(f.path),
        _ => None,
    }
}

/// No file is opened but one in a shared directory, and every path that a
/// request has to do with is such a one.
pub proof fn law_only_shared_files_are_opened(q: PullModel, events: Seq<ServeEvent>)
    ensures
        path_of(after(q, events).0) matches Some(path) ==> is_shared(q.windows, q.roots, path),
        after(q, events).1 matches ServeActionModel::Open(path) ==> is_shared(q.windows, q.roots, path),
        after(q, events).1 matches ServeActionModel::Measure(path) ==> is_shared(q.windows, q.roots, path),
    decreases events.len(),
{
    if events.len() > 0 {
        law_only_shared_files_are_opened(q, events.drop_last());
    }
}

/// Without shared directories a request is refused, whatever happens, and
/// nothing of the disk is looked at.
pub proof fn law_nothing_is_shared_by_default(q: PullModel, events: Seq<ServeEvent>)
    requires
        q.roots.len() == 0,
    ensures
        after(q, events).0 is Denying || after(q, events).0 is Over,
        match after(q, events).1 {
            ServeActionModel::Tell(m) => m is Reject,
            ServeActionModel::Done(r) => r is Err,
            _ => false,
        },
    decreases events.len(),
{
    if events.len() > 0 {
        law_nothing_is_shared_by_default(q, events.drop_last());
    }
}

/// A request ends well only with the receiver's acknowledgement.
pub proof fn law_success_is_acknowledged(q: PullModel, events: Seq<ServeEvent>)
    requires
        after(q, events).1 matches ServeActionModel::Done(Ok(_)),
    ensures
        events.len() > 0,
        events.last() == ServeEvent::Answer(Ok(ACK)),
{
}

} // verus!
