//! The receiving and serving side: what is taken on, what is refused, and what
//! is answered.
use vstd::prelude::*;

use crate::file_transfer::paths::{
    base_name, destination, file_name, file_name_of, inside, is_inside, resolve_dest_path,
    safe_base_name,
};
use crate::file_transfer::types::{
    node_failure, Errand, FileOffer, FileTransferEvent, FtMessage, OfferDecision, OfferModel,
    OverwritePolicy, TransferDirection, TransferError, TransferErrorModel,
};
use crate::request_reply::{RequestError, RequestErrorModel};
use crate::text::{
    decimal, decimal_text, join2, join3, join4, owned, same_text, texts,
};
use crate::text_map::TextMap;

verus! {

// ---------------------------------------------------------------------------
// Limits
// ---------------------------------------------------------------------------

/// How many offers of a peer wait for a decision.
pub open spec fn held(m: Map<Seq<char>, usize>, peer: Seq<char>) -> nat {
    if m.dom().contains(peer) {
        m[peer] as nat
    } else {
        0
    }
}

/// One more offer of a peer waits.
pub open spec fn one_more(m: Map<Seq<char>, usize>, peer: Seq<char>) -> Map<Seq<char>, usize> {
    m.insert(peer, (held(m, peer) + 1) as usize)
}

/// One offer of a peer waits no more. A peer without any is forgotten.
pub open spec fn one_less(m: Map<Seq<char>, usize>, peer: Seq<char>) -> Map<Seq<char>, usize> {
    if held(m, peer) <= 1 {
        m.remove(peer)
    } else {
        m.insert(peer, (held(m, peer) - 1) as usize)
    }
}

/// The offers of each peer that wait for a decision.
pub struct PendingOffers {
    counts: TextMap<usize>,
}

impl View for PendingOffers {
    type V = Map<Seq<char>, usize>;

    closed spec fn view(&self) -> Map<Seq<char>, usize> {
        self.counts@
    }
}

impl PendingOffers {
    pub fn new() -> (r: Self)
        ensures
            r@ == Map::<Seq<char>, usize>::empty(),
    {
        PendingOffers { counts: TextMap::new() }
    }

    /// Counts one more offer of a peer, unless it has as many as it may.
    pub fn try_acquire(&mut self, peer: &str, max: usize) -> (r: bool)
        ensures
            r == (held(old(self)@, peer@) < max),
            final(self)@ == (if r {
                one_more(old(self)@, peer@)
            } else {
                old(self)@
            }),
    {
        let count: usize = match self.counts.get(peer) {
            Some(c) => *c,
            None => 0,
        };
        if count >= max {
            return false;
        }
        self.counts.insert(owned(peer), count + 1);
        true
    }

    /// Counts one offer of a peer less.
    pub fn release(&mut self, peer: &str)
        ensures
            final(self)@ == one_less(old(self)@, peer@),
    {
        let count: usize = match self.counts.get(peer) {
            Some(c) => *c,
            None => 0,
        };
        if count <= 1 {
            self.counts.remove(peer);
        } else {
            self.counts.insert(owned(peer), count - 1);
        }
    }
}

/// Nobody is remembered without an offer.
pub open spec fn only_the_pending(m: Map<Seq<char>, usize>) -> bool {
    forall|p: Seq<char>| #[trigger] m.dom().contains(p) ==> m[p] > 0
}

/// A slot that is taken and given back leaves everything as it was, and
/// neither touches another peer.
pub proof fn law_slots_come_back(m: Map<Seq<char>, usize>, peer: Seq<char>, other: Seq<char>)
    requires
        only_the_pending(m),
        held(m, peer) < usize::MAX,
    ensures
        one_less(one_more(m, peer), peer) == m,
        other != peer ==> held(one_more(m, peer), other) == held(m, other),
        other != peer ==> held(one_less(m, peer), other) == held(m, other),
        only_the_pending(one_more(m, peer)),
        only_the_pending(one_less(m, peer)),
{
    assert(one_less(one_more(m, peer), peer) =~= m);
}

// ---------------------------------------------------------------------------
// Dispatch
// ---------------------------------------------------------------------------

/// What a receiver has under way.
pub struct LoadModel {
    /// Operations that may run at once.
    pub capacity: usize,
    /// Offers of one peer that may wait at once.
    pub max_pending: usize,
    pub busy: usize,
    pub pending: Map<Seq<char>, usize>,
}

/// What is done with a message.
pub enum Dispatch {
    /// The offer is handled; it counts until it is over.
    TakeOffer,
    /// The file is served; it counts until it is over.
    ServePull,
    /// The sender is told so.
    Refuse { token: String, reason: &'static str },
    /// An answer to somebody else's request.
    Ignore,
}

pub open spec fn dispatched(m: LoadModel, from: Seq<char>, msg: FtMessage) -> LoadModel {
    match msg {
        FtMessage::Offer { .. } => if m.busy < m.capacity && held(m.pending, from)
            < m.max_pending {
            LoadModel {
                busy: (m.busy + 1) as usize,
                pending: one_more(m.pending, from),
                ..m
            }
        } else {
            m
        },
        FtMessage::PullRequest { .. } => if m.busy < m.capacity {
            LoadModel { busy: (m.busy + 1) as usize, ..m }
        } else {
            m
        },
        _ => m,
    }
}

/// The answer that belongs to it.
pub open spec fn dispatch_is(m: LoadModel, from: Seq<char>, msg: FtMessage, d: Dispatch) -> bool {
    match msg {
        FtMessage::Offer { token, .. } => if m.busy < m.capacity && held(m.pending, from)
            < m.max_pending {
            d is TakeOffer
        } else {
            d is Refuse && d->token@ == token@ && d->reason@ == "receiver busy"@
        },
        FtMessage::PullRequest { token, .. } => if m.busy < m.capacity {
            d is ServePull
        } else {
            d is Refuse && d->token@ == token@ && d->reason@ == "receiver busy"@
        },
        _ => d is Ignore,
    }
}

/// What a receiver has under way.
pub struct ReceiveLoad {
    capacity: usize,
    max_pending: usize,
    busy: usize,
    pending: PendingOffers,
}

impl View for ReceiveLoad {
    type V = LoadModel;

    closed spec fn view(&self) -> LoadModel {
        LoadModel {
            capacity: self.capacity,
            max_pending: self.max_pending,
            busy: self.busy,
            pending: self.pending@,
        }
    }
}

impl ReceiveLoad {
    pub fn new(capacity: usize, max_pending: usize) -> (r: Self)
        ensures
            r@ == (LoadModel {
                capacity,
                max_pending,
                busy: 0,
                pending: Map::<Seq<char>, usize>::empty(),
            }),
    {
        ReceiveLoad { capacity, max_pending, busy: 0, pending: PendingOffers::new() }
    }

    /// What is done with a message of a peer. New work above the limits is
    /// refused, not queued.
    pub fn dispatch(&mut self, from: &str, msg: &FtMessage) -> (r: Dispatch)
        ensures
            final(self)@ == dispatched(old(self)@, from@, *msg),
            dispatch_is(old(self)@, from@, *msg, r),
    {
        match msg {
            FtMessage::Offer { token, .. } => {
                if self.busy >= self.capacity {
                    return Dispatch::Refuse { token: token.clone(), reason: "receiver busy" };
                }
                if !self.pending.try_acquire(from, self.max_pending) {
                    return Dispatch::Refuse { token: token.clone(), reason: "receiver busy" };
                }
                self.busy = self.busy + 1;
                Dispatch::TakeOffer
            },
            FtMessage::PullRequest { token, .. } => {
                if self.busy >= self.capacity {
                    return Dispatch::Refuse { token: token.clone(), reason: "receiver busy" };
                }
                self.busy = self.busy + 1;
                Dispatch::ServePull
            },
            _ => Dispatch::Ignore,
        }
    }

    /// An offer of a peer is over, however it ended.
    pub fn offer_over(&mut self, from: &str)
        ensures
            final(self)@ == offer_ended(old(self)@, from@),
    {
        self.pending.release(from);
        if self.busy > 0 {
            self.busy = self.busy - 1;
        }
    }

    /// A served file is over, however it ended.
    pub fn pull_over(&mut self)
        ensures
            final(self)@ == pull_ended(old(self)@),
    {
        if self.busy > 0 {
            self.busy = self.busy - 1;
        }
    }
}

pub open spec fn pull_ended(m: LoadModel) -> LoadModel {
    LoadModel {
        busy: if m.busy > 0 {
            (m.busy - 1) as usize
        } else {
            0
        },
        ..m
    }
}

pub open spec fn offer_ended(m: LoadModel, from: Seq<char>) -> LoadModel {
    LoadModel { pending: one_less(m.pending, from), ..pull_ended(m) }
}

/// The limits are kept.
pub open spec fn within_limits(m: LoadModel) -> bool {
    &&& m.busy <= m.capacity
    &&& only_the_pending(m.pending)
    &&& forall|p: Seq<char>| #[trigger] held(m.pending, p) <= m.max_pending
}

/// No message takes a receiver above its limits, and what is over gives its
/// place back.
pub proof fn law_limits_are_kept(m: LoadModel, from: Seq<char>, msg: FtMessage)
    requires
        within_limits(m),
    ensures
        within_limits(dispatched(m, from, msg)),
        within_limits(offer_ended(m, from)),
        within_limits(pull_ended(m)),
        msg is Offer && dispatched(m, from, msg) != m ==> offer_ended(
            dispatched(m, from, msg),
            from,
        ) == m,
        msg is PullRequest && dispatched(m, from, msg) != m ==> pull_ended(
            dispatched(m, from, msg),
        ) == m,
{
    let d = dispatched(m, from, msg);
    let over = offer_ended(m, from);
    assert forall|p: Seq<char>| #[trigger] held(d.pending, p) <= m.max_pending by {
        assert(held(m.pending, p) <= m.max_pending);
    }
    assert forall|p: Seq<char>| #[trigger] held(over.pending, p) <= m.max_pending by {
        assert(held(m.pending, p) <= m.max_pending);
    }
    if msg is Offer && d != m {
        law_slots_come_back(m.pending, from, from);
    }
}

// ---------------------------------------------------------------------------
// Offers
// ---------------------------------------------------------------------------

/// An offer as the application sees it, or why it is none.
pub open spec fn offer_seen(
    from: Seq<char>,
    name: Seq<char>,
    size: u64,
    digest: Seq<char>,
    save_path: Seq<char>,
    token: Seq<char>,
    max_size: u64,
) -> Result<OfferModel, TransferErrorModel> {
    if size > max_size {
        Err(
            TransferErrorModel::Protocol(
                "Offered file size "@ + decimal(size as nat) + " exceeds max transfer size "@
                    + decimal(max_size as nat),
            ),
        )
    } else {
        Ok(
            OfferModel {
                from_peer: from,
                from_name: from,
                file_name: name,
                size,
                sha256: digest,
                suggested_path: match base_name(save_path) {
                    Some(s) => s,
                    None => Seq::empty(),
                },
                token,
            },
        )
    }
}

/// Makes an offer of what a peer announced. Files above the limit are refused
/// before any work is done, and of the suggested path only a base name is
/// shown.
pub fn receive_offer(
    from: &str,
    name: &str,
    size: u64,
    digest: &str,
    save_path: &str,
    token: &str,
    max_size: u64,
) -> (r: Result<FileOffer, TransferError>)
    ensures
        match r {
            Ok(o) => offer_seen(from@, name@, size, digest@, save_path@, token@, max_size) == Ok::<
                OfferModel,
                TransferErrorModel,
            >(o@),
            Err(e) => offer_seen(from@, name@, size, digest@, save_path@, token@, max_size)
                == Err::<OfferModel, TransferErrorModel>(e@),
        },
{
    if size > max_size {
        let a: String = decimal_text(size);
        let b: String = decimal_text(max_size);
        return Err(
            TransferError::Protocol(
                join4("Offered file size ", a.as_str(), " exceeds max transfer size ", b.as_str()),
            ),
        );
    }
    let suggested_path: String = match safe_base_name(save_path) {
        Some(s) => s,
        None => String::new(),
    };
    assert(suggested_path@ =~= match base_name(save_path@) {
        Some(s) => s,
        None => Seq::empty(),
    });
    Ok(
        FileOffer {
            from_peer: owned(from),
            from_name: owned(from),
            file_name: owned(name),
            size,
            sha256: owned(digest),
            suggested_path,
            token: owned(token),
        },
    )
}

/// Why the application did not get an offer.
#[derive(Debug, Clone, Copy, PartialEq, Eq, Structural)]
pub enum QueueRefusal {
    Full,
    Closed,
}

/// What the sender of an offer that the application did not get is told.
pub fn queue_refusal_reason(why: QueueRefusal) -> (r: &'static str)
    ensures
        r@ == match why {
            QueueRefusal::Full => "receiver busy: offer queue full"@,
            QueueRefusal::Closed => "receiver has no offer channel"@,
        },
{
    match why {
        QueueRefusal::Full => "receiver busy: offer queue full",
        QueueRefusal::Closed => "receiver has no offer channel",
    }
}

/// The error of an offer that the application did not get.
pub fn queue_refused(why: QueueRefusal) -> (r: TransferError)
    ensures
        r@ == TransferErrorModel::Rejected(
            match why {
                QueueRefusal::Full => "receiver busy: offer queue full"@,
                QueueRefusal::Closed => "receiver has no offer channel"@,
            },
        ),
{
    TransferError::Rejected(owned(queue_refusal_reason(why)))
}

/// Seconds that a decision is waited for.
pub const DECISION_TIMEOUT_SECS: u64 = 60;

/// What came of waiting for the application's decision.
pub enum DecisionNews {
    Decided(OfferDecision),
    TimedOut,
    /// The application dropped the offer.
    Dropped,
}

/// The decision, or the error of its absence.
pub fn take_decision(news: DecisionNews) -> (r: Result<OfferDecision, TransferError>)
    ensures
        match news {
            DecisionNews::Decided(d) => r == Ok::<OfferDecision, TransferError>(d),
            DecisionNews::TimedOut => r is Err && r->Err_0@ == TransferErrorModel::Timeout,
            DecisionNews::Dropped => r is Err && r->Err_0@ == TransferErrorModel::Protocol(
                "Offer responder dropped without decision"@,
            ),
        },
{
    match news {
        DecisionNews::Decided(d) => Ok(d),
        DecisionNews::TimedOut => Err(TransferError::Timeout),
        DecisionNews::Dropped => Err(
            TransferError::Protocol(owned("Offer responder dropped without decision")),
        ),
    }
}

/// The message that refuses an offer or a request.
pub fn reject_message(token: &str, reason: &str) -> (r: FtMessage)
    ensures
        r is Reject,
        r->Reject_token@ == token@,
        r->Reject_reason@ == reason@,
{
    FtMessage::Reject { token: owned(token), reason: owned(reason) }
}

/// The error of an offer that the application refused, once its sender was
/// told, or could not be.
pub fn offer_refused(reason: &str, told: &Result<(), String>) -> (r: TransferError)
    ensures
        r@ == match *told {
            Ok(_) => TransferErrorModel::Rejected(reason@),
            Err(why) => TransferErrorModel::Node("Failed to send REJECT"@ + ": "@ + why@),
        },
{
    match told {
        Ok(_) => TransferError::Rejected(owned(reason)),
        Err(why) => node_failure(&Errand::SendReject, why.as_str()),
    }
}

/// The event that reports how an offer failed. `shown` is the error as it is
/// shown to users. A refusal is no failure.
pub fn failure_event(token: &str, name: &str, error: &TransferError, shown: &str) -> (r:
    FileTransferEvent)
    ensures
        match *error {
            TransferError::Rejected(reason) => r is Rejected && r->Rejected_token@ == token@
                && r->Rejected_file_name@ == name@ && r->Rejected_reason@ == reason@,
            _ => r is Failed && r->Failed_token@ == token@ && r->Failed_direction
                == TransferDirection::Receive && r->Failed_file_name@ == name@ && r->Failed_reason@
                == shown@,
        },
{
    match error {
        TransferError::Rejected(reason) => FileTransferEvent::Rejected {
            token: owned(token),
            file_name: owned(name),
            reason: reason.clone(),
        },
        _ => FileTransferEvent::Failed {
            token: owned(token),
            direction: TransferDirection::Receive,
            file_name: owned(name),
            reason: owned(shown),
        },
    }
}

// ---------------------------------------------------------------------------
// Receiving
// ---------------------------------------------------------------------------

/// Where a file that the application accepted goes.
pub fn accepted_destination(save_path: &str, name: &str, is_dir: bool) -> (r: Result<
    String,
    TransferError,
>)
    ensures
        match r {
            Ok(p) => destination(save_path@, name@, is_dir) == Ok::<Seq<char>, Seq<char>>(p@),
            Err(e) => destination(save_path@, name@, is_dir) is Err && e@
                == TransferErrorModel::Protocol(destination(save_path@, name@, is_dir)->Err_0),
        },
{
    match resolve_dest_path(save_path, name, is_dir) {
        Ok(p) => Ok(p),
        Err(why) => Err(TransferError::Protocol(why)),
    }
}

/// What a sender is told whose file would replace another.
pub fn occupied_reason() -> (r: &'static str)
    ensures
        r@ == "destination already exists"@,
{
    "destination already exists"
}

/// Refuses a file before any byte of it came, where something is in its place
/// and may not be replaced.
pub fn check_destination(policy: OverwritePolicy, exists: bool, final_path: &str) -> (r: Result<
    (),
    TransferError,
>)
    ensures
        match r {
            Ok(_) => !(policy == OverwritePolicy::Reject && exists),
            Err(e) => policy == OverwritePolicy::Reject && exists && e@
                == TransferErrorModel::Rejected("destination already exists"@ + ": "@ + final_path@),
        },
{
    if policy == OverwritePolicy::Reject && exists {
        Err(TransferError::Rejected(join3(occupied_reason(), ": ", final_path)))
    } else {
        Ok(())
    }
}

/// The name under which a file is received. `unique` is a text that no other
/// transfer has.
pub fn temp_path(final_path: &str, unique: &str) -> (r: String)
    ensures
        r@ == final_path@ + "."@ + unique@ + ".truffle-tmp"@,
{
    join4(final_path, ".", unique, ".truffle-tmp")
}

/// Seconds that the sender's connection is waited for.
pub const CONNECT_TIMEOUT_SECS: u64 = 30;

/// The error of a sender that did not connect; `closed` tells that the
/// listener was closed, and not the time up.
pub fn not_connected(closed: bool) -> (r: TransferError)
    ensures
        r@ == (if closed {
            TransferErrorModel::Protocol("Listener closed before accepting"@)
        } else {
            TransferErrorModel::Timeout
        }),
{
    if closed {
        TransferError::Protocol(owned("Listener closed before accepting"))
    } else {
        TransferError::Timeout
    }
}

// ---------------------------------------------------------------------------
// Serving
// ---------------------------------------------------------------------------

/// What is known of a file that exists.
#[derive(Debug, Clone, Copy)]
pub struct FileFacts {
    pub is_file: bool,
    pub len: u64,
}

/// A path with all links and dots resolved, and what is known of it.
pub struct FoundPath {
    pub path: String,
    pub facts: Option<FileFacts>,
}

/// The path lies in a shared directory.
pub open spec fn is_shared(windows: bool, roots: Seq<Seq<char>>, path: Seq<char>) -> bool {
    exists|i: int| 0 <= i < roots.len() && is_inside(windows, #[trigger] roots[i], path)
}

/// Whether a request may be served; `Err` gives the reason. Nothing tells a
/// stranger whether a file that is not shared exists.
pub open spec fn pull_refused(
    windows: bool,
    roots: Seq<Seq<char>>,
    found: Option<FoundPath>,
    max_size: u64,
) -> Option<Seq<char>> {
    if roots.len() == 0 {
        Some("pull serving is not enabled on this peer"@)
    } else {
        match found {
            Some(f) => if is_shared(windows, roots, f.path@) && f.facts is Some && f.facts->0.is_file {
                if f.facts->0.len > max_size {
                    Some(
                        "file size "@ + decimal(f.facts->0.len as nat)
                            + " exceeds max transfer size "@ + decimal(max_size as nat),
                    )
                } else {
                    None
                }
            } else {
                Some("requested path is not shared"@)
            },
            None => Some("requested path is not shared"@),
        }
    }
}

fn shared(roots: &Vec<String>, path: &str, windows: bool) -> (r: bool)
    ensures
        r == is_shared(windows, texts(roots@), path@),
{
    let n: usize = roots.len();
    let mut i: usize = 0;
    while i < n
        invariant
            n == roots@.len(),
            i <= n,
            forall|j: int| 0 <= j < i ==> !is_inside(windows, #[trigger] texts(roots@)[j], path@),
        decreases n - i,
    {
        assert(texts(roots@)[i as int] == roots@[i as int]@);
        if inside(roots[i].as_str(), path, windows) {
            return true;
        }
        i += 1;
    }
    false
}

/// Decides whether a requested file may be served: it must be a file, lie in a
/// shared directory, and be no larger than the limit. Without shared
/// directories nothing is served. `found` is the path with everything
/// resolved, or `None` where that failed.
pub fn authorize_pull_path(
    roots: &Vec<String>,
    found: &Option<FoundPath>,
    max_size: u64,
    windows: bool,
) -> (r: Result<String, TransferError>)
    ensures
        match r {
            Ok(p) => pull_refused(windows, texts(roots@), *found, max_size) is None && p@
                == (*found)->0.path@,
            Err(e) => pull_refused(windows, texts(roots@), *found, max_size) is Some && e@
                == TransferErrorModel::Rejected(
                pull_refused(windows, texts(roots@), *found, max_size)->0,
            ),
        },
{
    if roots.len() == 0 {
        return Err(
            TransferError::Rejected(owned("pull serving is not enabled on this peer")),
        );
    }
    match found {
        Some(f) => {
            if shared(roots, f.path.as_str(), windows) {
                match f.facts {
                    Some(facts) => {
                        if facts.is_file {
                            if facts.len > max_size {
                                let a: String = decimal_text(facts.len);
                                let b: String = decimal_text(max_size);
                                return Err(
                                    TransferError::Rejected(
                                        join4(
                                            "file size ",
                                            a.as_str(),
                                            " exceeds max transfer size ",
                                            b.as_str(),
                                        ),
                                    ),
                                );
                            }
                            return Ok(f.path.clone());
                        }
                    },
                    None => {},
                }
            }
            Err(TransferError::Rejected(owned("requested path is not shared")))
        },
        None => Err(TransferError::Rejected(owned("requested path is not shared"))),
    }
}

/// Only a file of no more than the limit that lies in a shared directory is
/// served, and without shared directories none.
pub proof fn law_only_shared_files_are_served(
    windows: bool,
    roots: Seq<Seq<char>>,
    found: Option<FoundPath>,
    max_size: u64,
)
    requires
        pull_refused(windows, roots, found, max_size) is None,
    ensures
        roots.len() > 0,
        found is Some,
        is_shared(windows, roots, found->0.path@),
        found->0.facts is Some,
        found->0.facts->0.is_file,
        found->0.facts->0.len <= max_size,
{
}

/// The refusal of what is not shared is the same whether it exists or not.
pub proof fn law_refusal_tells_nothing(
    windows: bool,
    roots: Seq<Seq<char>>,
    a: Option<FoundPath>,
    b: Option<FoundPath>,
    max_size: u64,
)
    requires
        a is Some ==> !is_shared(windows, roots, a->0.path@),
        b is Some ==> !is_shared(windows, roots, b->0.path@),
    ensures
        pull_refused(windows, roots, a, max_size) == pull_refused(windows, roots, b, max_size),
        pull_refused(windows, roots, a, max_size) is Some,
{
}

/// What a peer whose request is refused is told.
pub fn pull_denied_reason() -> (r: &'static str)
    ensures
        r@ == "pull denied by peer"@,
{
    "pull denied by peer"
}

/// The name that a served file is offered under.
pub fn served_name(path: &str, windows: bool) -> (r: String)
    ensures
        r@ == match file_name_of(windows, path@) {
            Some(n) => n,
            None => "file"@,
        },
{
    match file_name(path, windows) {
        Some(n) => n,
        None => owned("file"),
    }
}

/// The offer of a served file.
pub fn serve_offer(name: String, size: u64, digest: String, token: String) -> (r: FtMessage)
    ensures
        r is Offer,
        r->file_name == name,
        r->size == size,
        r->sha256 == digest,
        r->save_path@.len() == 0,
        r->Offer_token == token,
        r->Offer_tcp_port == 0,
{
    FtMessage::Offer {
        file_name: name,
        size,
        sha256: digest,
        save_path: String::new(),
        token,
        tcp_port: 0,
    }
}

/// Reads the answer to the offer of a served file: the port to connect to, or
/// a refusal. Messages of others, and about other offers, are `None`.
pub fn serve_reply(from: &str, sender: &str, msg: &FtMessage, offer_token: &str) -> (r: Option<
    Result<u16, TransferError>,
>)
    ensures
        match *msg {
            FtMessage::Accept { token, tcp_port } if sender@ == from@ && token@ == offer_token@ => {
                r == Some(Ok::<u16, TransferError>(tcp_port))
            },
            FtMessage::Reject { token, reason } if sender@ == from@ && token@ == offer_token@ => {
                r is Some && r->0 is Err && r->0->Err_0@ == TransferErrorModel::Rejected(
                    "Peer rejected: "@ + reason@,
                )
            },
            _ => r is None,
        },
{
    if !same_text(sender, from) {
        return None;
    }
    match msg {
        FtMessage::Accept { token, tcp_port } => {
            if same_text(token.as_str(), offer_token) {
                Some(Ok(*tcp_port))
            } else {
                None
            }
        },
        FtMessage::Reject { token, reason } => {
            if same_text(token.as_str(), offer_token) {
                Some(Err(TransferError::Rejected(join2("Peer rejected: ", reason.as_str()))))
            } else {
                None
            }
        },
        _ => None,
    }
}

/// The error of an offer that was not answered.
pub fn unanswered(e: &RequestError) -> (r: TransferError)
    ensures
        r@ == match e@ {
            RequestErrorModel::Timeout => TransferErrorModel::Timeout,
            RequestErrorModel::Send(why) => TransferErrorModel::Node(
                "Failed to send OFFER"@ + ": "@ + why,
            ),
            RequestErrorModel::ChannelClosed => TransferErrorModel::Protocol("Channel closed"@),
        },
{
    match e {
        RequestError::Timeout => TransferError::Timeout,
        RequestError::Send(why) => node_failure(&Errand::SendOffer, why.as_str()),
        RequestError::ChannelClosed => TransferError::Protocol(owned("Channel closed")),
    }
}

} // verus!
