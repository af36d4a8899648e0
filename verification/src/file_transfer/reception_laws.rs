//! What becomes of an offered file, over the whole course of its transfer.
//!
//! All of it is said over what the course is told, and what it asks for in
//! return.
use vstd::prelude::*;

use crate::digest::{hex, sha256};
use crate::file_transfer::header::{be_value, lossy};
use crate::file_transfer::paths::{destination, numbered};
use crate::file_transfer::place::{ActionModel, PlaceEvent, StageModel};
use crate::file_transfer::receiver::{DecisionNews, QueueRefusal};
use crate::file_transfer::reception::{
    after, lemma_in_keeping, written, ConnectionNews, HeadRead, ReceiveActionModel, ReceiveEvent,
    ReceiveModel, TargetModel, TermsModel,
};
use crate::file_transfer::types::{
    MessageModel, OfferDecision, OverwritePolicy, TransferErrorModel,
};
use crate::text::decimal;

verus! {

/// What was asked for last.
pub open spec fn asked(t: TermsModel, events: Seq<ReceiveEvent>) -> ReceiveActionModel {
    after(t, events).1
}

/// The path that the application chose, and what was reported of it: whether
/// it is a directory, and what happens to a file that is there already.
pub open spec fn reported(t: TermsModel, events: Seq<ReceiveEvent>) -> Option<
    (Seq<char>, bool, OverwritePolicy),
>
    decreases events.len(),
{
    if events.len() == 0 {
        None
    } else {
        let before = events.drop_last();
        match (asked(t, before), events.last()) {
            (
                ReceiveActionModel::ProbeDir(path),
                ReceiveEvent::Directory { is_dir, policy },
            ) => Some((path, is_dir, policy)),
            _ => reported(t, before),
        }
    }
}

/// The policy that was reported.
pub open spec fn policy_of(t: TermsModel, events: Seq<ReceiveEvent>) -> OverwritePolicy {
    (reported(t, events)->0).2
}

/// Where the file is to go.
pub open spec fn goal(t: TermsModel, events: Seq<ReceiveEvent>) -> Seq<char> {
    let (path, is_dir, _) = reported(t, events)->0;
    destination(path, t.file_name, is_dir)->Ok_0
}

/// How many names turned out to be taken.
pub open spec fn taken_names(t: TermsModel, events: Seq<ReceiveEvent>) -> nat
    decreases events.len(),
{
    if events.len() == 0 {
        0
    } else {
        let before = events.drop_last();
        match (asked(t, before), events.last()) {
            (
                ReceiveActionModel::Place(ActionModel::Link(_)),
                ReceiveEvent::Placed(PlaceEvent::Exists(_)),
            ) => taken_names(t, before) + 1,
            (
                ReceiveActionModel::Place(ActionModel::Look(_)),
                ReceiveEvent::Placed(PlaceEvent::Exists(_)),
            ) => taken_names(t, before) + 1,
            _ => taken_names(t, before),
        }
    }
}

/// The path under which the file was put, once that worked.
pub open spec fn put_at(t: TermsModel, events: Seq<ReceiveEvent>) -> Option<Seq<char>>
    decreases events.len(),
{
    if events.len() == 0 {
        None
    } else {
        let before = events.drop_last();
        match (asked(t, before), events.last()) {
            (
                ReceiveActionModel::Place(ActionModel::Link(path)),
                ReceiveEvent::Placed(PlaceEvent::Worked),
            ) => Some(path),
            (
                ReceiveActionModel::Place(ActionModel::Rename(path)),
                ReceiveEvent::Placed(PlaceEvent::Worked),
            ) => Some(path),
            (
                ReceiveActionModel::Place(ActionModel::Copy(path)),
                ReceiveEvent::Placed(PlaceEvent::Worked),
            ) => Some(path),
            _ => put_at(t, before),
        }
    }
}

/// The name that is tried after so many were taken.
pub open spec fn name_tried(t: TermsModel, events: Seq<ReceiveEvent>, n: nat) -> Seq<char> {
    if n == 0 {
        goal(t, events)
    } else {
        numbered(t.windows, goal(t, events), n as u32)
    }
}

/// The target is what was chosen and reported.
spec fn is_goal(t: TermsModel, events: Seq<ReceiveEvent>, g: TargetModel) -> bool {
    &&& reported(t, events) is Some
    &&& g.policy == policy_of(t, events)
    &&& g.windows == t.windows
    &&& destination((reported(t, events)->0).0, t.file_name, (reported(t, events)->0).1) == Ok::<
        Seq<char>,
        Seq<char>,
    >(g.final_path)
}

spec fn places(t: TermsModel, events: Seq<ReceiveEvent>, s: StageModel) -> bool {
    let p = policy_of(t, events);
    let k = taken_names(t, events);
    let name = name_tried(t, events, k);
    match asked(t, events) {
        ReceiveActionModel::Place(a) => match s {
            StageModel::Renaming => p == OverwritePolicy::Replace && a == ActionModel::Rename(
                goal(t, events),
            ),
            StageModel::Copying => p == OverwritePolicy::Replace && a == ActionModel::Copy(
                goal(t, events),
            ),
            StageModel::Linking(n) => p != OverwritePolicy::Replace && n == k && a
                == ActionModel::Link(name) && k <= 999 && (p == OverwritePolicy::Reject ==> k == 0),
            StageModel::Looking(n) => p != OverwritePolicy::Replace && n == k && a
                == ActionModel::Look(name) && k <= 999 && (p == OverwritePolicy::Reject ==> k == 0),
            StageModel::Moving(n) => p != OverwritePolicy::Replace && n == k && a
                == ActionModel::Rename(name) && k <= 999 && (p == OverwritePolicy::Reject ==> k
                == 0),
            StageModel::Cleaning(r) => a is Remove && (r matches Ok(path) ==> put_at(t, events)
                == Some(path)),
            StageModel::Over => false,
        },
        _ => false,
    }
}

/// What a stage stands for.
spec fn stands_for(t: TermsModel, events: Seq<ReceiveEvent>) -> bool {
    let a = asked(t, events);
    &&& match after(t, events).0 {
        ReceiveModel::Placing(_, _) => true,
        ReceiveModel::Acking(_) => true,
        ReceiveModel::Settling(_) => true,
        ReceiveModel::Over => true,
        _ => taken_names(t, events) == 0 && put_at(t, events) is None,
    }
    &&& match after(t, events).0 {
        ReceiveModel::Announcing => events.len() == 0 && a is Announce,
        ReceiveModel::Deciding => a is AwaitDecision,
        ReceiveModel::Refusing(why) => a matches ReceiveActionModel::Tell(
            MessageModel::Reject { token, reason: _ },
        ) && token == t.token && why is Rejected,
        ReceiveModel::Rejecting(reason) => a == ReceiveActionModel::Tell(
            MessageModel::Reject { token: t.token, reason },
        ),
        ReceiveModel::ProbingDir(path) => a == ReceiveActionModel::ProbeDir(path),
        ReceiveModel::ProbingDest(g) => a == ReceiveActionModel::ProbeDest(g.final_path) && is_goal(
            t,
            events,
            g,
        ),
        ReceiveModel::MakingParent(g) => a == ReceiveActionModel::MakeParent(g.final_path)
            && is_goal(t, events, g),
        ReceiveModel::Opening(g) => a is Listen && is_goal(t, events, g),
        ReceiveModel::Accepting(g) => a matches ReceiveActionModel::Tell(
            MessageModel::Accept { token: _, tcp_port: _ },
        ) && is_goal(t, events, g),
        ReceiveModel::Connecting(g) => a is AwaitConnection && is_goal(t, events, g),
        ReceiveModel::Heading(g) => a is ReadHeader && is_goal(t, events, g),
        ReceiveModel::Creating(g) => a is CreateTemp && is_goal(t, events, g),
        ReceiveModel::Reading(g, data) => a matches ReceiveActionModel::ReadChunk(n) && n == (
        if t.size - data.len() < 65536 {
            t.size - data.len()
        } else {
            65536
        }) && is_goal(t, events, g),
        ReceiveModel::Writing(g, _) => a is WriteChunk && is_goal(t, events, g),
        ReceiveModel::Flushing(g, _) => a is Flush && is_goal(t, events, g),
        ReceiveModel::Nacking(_) => a == ReceiveActionModel::Answer(0),
        ReceiveModel::Removing(_) => a is RemoveTemp,
        ReceiveModel::Placing(g, s) => is_goal(t, events, g) && places(t, events, s),
        ReceiveModel::Acking(path) => a == ReceiveActionModel::Answer(1) && put_at(t, events)
            == Some(path),
        ReceiveModel::Settling(path) => a is Settle && put_at(t, events) == Some(path),
        ReceiveModel::Over => match a {
            ReceiveActionModel::Done(Ok(path)) => put_at(t, events) == Some(path),
            ReceiveActionModel::Done(Err(_)) => true,
            _ => false,
        },
    }
}

#[verifier::spinoff_prover]
#[verifier::rlimit(40)]
proof fn lemma_step_front(t: TermsModel, events: Seq<ReceiveEvent>)
    requires
        events.len() > 0,
        stands_for(t, events.drop_last()),
        after(t, events.drop_last()).0 is Announcing || after(t, events.drop_last()).0 is Deciding || after(t, events.drop_last()).0 is Refusing || after(t, events.drop_last()).0 is Rejecting || after(t, events.drop_last()).0 is ProbingDir || after(t, events.drop_last()).0 is ProbingDest || after(t, events.drop_last()).0 is MakingParent,
    ensures
        stands_for(t, events),
{
}

#[verifier::spinoff_prover]
#[verifier::rlimit(40)]
proof fn lemma_step_middle(t: TermsModel, events: Seq<ReceiveEvent>)
    requires
        events.len() > 0,
        stands_for(t, events.drop_last()),
        after(t, events.drop_last()).0 is Opening || after(t, events.drop_last()).0 is Accepting || after(t, events.drop_last()).0 is Connecting || after(t, events.drop_last()).0 is Heading || after(t, events.drop_last()).0 is Creating,
    ensures
        stands_for(t, events),
{
}

#[verifier::spinoff_prover]
#[verifier::rlimit(40)]
proof fn lemma_step_bytes(t: TermsModel, events: Seq<ReceiveEvent>)
    requires
        events.len() > 0,
        stands_for(t, events.drop_last()),
        after(t, events.drop_last()).0 is Reading || after(t, events.drop_last()).0 is Writing || after(t, events.drop_last()).0 is Flushing,
    ensures
        stands_for(t, events),
{
}

#[verifier::spinoff_prover]
#[verifier::rlimit(40)]
proof fn lemma_step_place(t: TermsModel, events: Seq<ReceiveEvent>)
    requires
        events.len() > 0,
        stands_for(t, events.drop_last()),
        after(t, events.drop_last()).0 is Placing,
    ensures
        stands_for(t, events),
{
}

#[verifier::spinoff_prover]
#[verifier::rlimit(40)]
proof fn lemma_step_end(t: TermsModel, events: Seq<ReceiveEvent>)
    requires
        events.len() > 0,
        stands_for(t, events.drop_last()),
        after(t, events.drop_last()).0 is Nacking || after(t, events.drop_last()).0 is Removing || after(t, events.drop_last()).0 is Acking || after(t, events.drop_last()).0 is Settling || after(t, events.drop_last()).0 is Over,
    ensures
        stands_for(t, events),
{
}

proof fn lemma_stands_for(t: TermsModel, events: Seq<ReceiveEvent>)
    ensures
        stands_for(t, events),
    decreases events.len(),
{
    if events.len() > 0 {
        let before = events.drop_last();
        lemma_stands_for(t, before);
        match after(t, before).0 {
            ReceiveModel::Announcing => lemma_step_front(t, events),
            ReceiveModel::Deciding => lemma_step_front(t, events),
            ReceiveModel::Refusing(_) => lemma_step_front(t, events),
            ReceiveModel::Rejecting(_) => lemma_step_front(t, events),
            ReceiveModel::ProbingDir(_) => lemma_step_front(t, events),
            ReceiveModel::ProbingDest(_) => lemma_step_front(t, events),
            ReceiveModel::MakingParent(_) => lemma_step_front(t, events),
            ReceiveModel::Opening(_) => lemma_step_middle(t, events),
            ReceiveModel::Accepting(_) => lemma_step_middle(t, events),
            ReceiveModel::Connecting(_) => lemma_step_middle(t, events),
            ReceiveModel::Heading(_) => lemma_step_middle(t, events),
            ReceiveModel::Creating(_) => lemma_step_middle(t, events),
            ReceiveModel::Reading(_, _) => lemma_step_bytes(t, events),
            ReceiveModel::Writing(_, _) => lemma_step_bytes(t, events),
            ReceiveModel::Flushing(_, _) => lemma_step_bytes(t, events),
            ReceiveModel::Placing(_, _) => lemma_step_place(t, events),
            ReceiveModel::Nacking(_) => lemma_step_end(t, events),
            ReceiveModel::Removing(_) => lemma_step_end(t, events),
            ReceiveModel::Acking(_) => lemma_step_end(t, events),
            ReceiveModel::Settling(_) => lemma_step_end(t, events),
            ReceiveModel::Over => lemma_step_end(t, events),
        }
    }
}

/// The target of a stage.
pub open spec fn target_of(s: ReceiveModel) -> Option<TargetModel> {
    match s {
        ReceiveModel::ProbingDest(g) => Some(g),
        ReceiveModel::MakingParent(g) => Some(g),
        ReceiveModel::Opening(g) => Some(g),
        ReceiveModel::Accepting(g) => Some(g),
        ReceiveModel::Connecting(g) => Some(g),
        ReceiveModel::Heading(g) => Some(g),
        ReceiveModel::Creating(g) => Some(g),
        ReceiveModel::Reading(g, _) => Some(g),
        ReceiveModel::Writing(g, _) => Some(g),
        ReceiveModel::Flushing(g, _) => Some(g),
        ReceiveModel::Placing(g, _) => Some(g),
        _ => None,
    }
}

/// A transfer keeps to what was reported: its file goes to the chosen path,
/// under the policy that was reported for it, through the whole course.
pub proof fn law_target_is_as_reported(t: TermsModel, events: Seq<ReceiveEvent>)
    ensures
        target_of(after(t, events).0) matches Some(g) ==> reported(t, events) is Some && g.policy
            == policy_of(t, events) && g.windows == t.windows && destination(
            (reported(t, events)->0).0,
            t.file_name,
            (reported(t, events)->0).1,
        ) == Ok::<Seq<char>, Seq<char>>(g.final_path),
{
    lemma_stands_for(t, events);
}

/// The policy decides how a complete file gets to its place. Only where files
/// may be replaced is it renamed or copied over what is there. Otherwise it is
/// linked, which fails where something is, or renamed to a name at which a
/// look found nothing.
pub proof fn law_policy_decides(t: TermsModel, events: Seq<ReceiveEvent>)
    requires
        asked(t, events) is Place,
    ensures
        reported(t, events) is Some,
        asked(t, events.drop_last()) is Flush ==> asked(t, events) == ReceiveActionModel::Place(
            if policy_of(t, events) == OverwritePolicy::Replace {
                ActionModel::Rename(goal(t, events))
            } else {
                ActionModel::Link(goal(t, events))
            },
        ),
        policy_of(t, events) != OverwritePolicy::Replace ==> match asked(t, events) {
            ReceiveActionModel::Place(ActionModel::Copy(_)) => false,
            ReceiveActionModel::Place(ActionModel::Rename(to)) => asked(t, events.drop_last())
                == ReceiveActionModel::Place(ActionModel::Look(to)) && (
            events.last() matches ReceiveEvent::Placed(e) && !(e is Exists)),
            _ => true,
        },
        policy_of(t, events) == OverwritePolicy::Replace ==> match asked(t, events) {
            ReceiveActionModel::Place(ActionModel::Rename(to)) => to == goal(t, events),
            ReceiveActionModel::Place(ActionModel::Copy(to)) => to == goal(t, events) && asked(
                t,
                events.drop_last(),
            ) == ReceiveActionModel::Place(ActionModel::Rename(to)),
            ReceiveActionModel::Place(ActionModel::Remove) => true,
            _ => false,
        },
{
    lemma_stands_for(t, events);
    if events.len() > 0 {
        lemma_stands_for(t, events.drop_last());
    }
}

/// Under the policy to rename, the destination is tried first, and then its
/// numbered siblings in turn, each once. Under the policy to reject only the
/// destination is tried.
pub proof fn law_names_are_tried_in_turn(t: TermsModel, events: Seq<ReceiveEvent>, why: String)
    requires
        asked(t, events) matches ReceiveActionModel::Place(a) && (a is Link || a is Look),
    ensures
        ({
            let k = taken_names(t, events);
            let name = name_tried(t, events, k);
            let then = events.push(ReceiveEvent::Placed(PlaceEvent::Exists(why)));
            &&& asked(t, events) == ReceiveActionModel::Place(ActionModel::Link(name)) || asked(
                t,
                events,
            ) == ReceiveActionModel::Place(ActionModel::Look(name))
            &&& policy_of(t, events) == OverwritePolicy::Rename && k < 999 ==> asked(t, then)
                == ReceiveActionModel::Place(
                ActionModel::Link(numbered(t.windows, goal(t, events), (k + 1) as u32)),
            )
            &&& policy_of(t, events) == OverwritePolicy::Rename && k >= 999 ==> asked(t, then)
                == ReceiveActionModel::Place(ActionModel::Remove)
            &&& policy_of(t, events) == OverwritePolicy::Reject ==> k == 0 && asked(t, then)
                == ReceiveActionModel::Place(ActionModel::Remove)
        }),
{
    lemma_stands_for(t, events);
    let then = events.push(ReceiveEvent::Placed(PlaceEvent::Exists(why)));
    assert(then.drop_last() =~= events);
    lemma_stands_for(t, then);
}

/// What follows where a link or a rename works or fails.
pub proof fn law_placing_goes_on(t: TermsModel, events: Seq<ReceiveEvent>, why: String)
    requires
        asked(t, events) is Place,
    ensures
        ({
            let a = asked(t, events)->Place_0;
            let worked = asked(t, events.push(ReceiveEvent::Placed(PlaceEvent::Worked)));
            let failed = asked(t, events.push(ReceiveEvent::Placed(PlaceEvent::Failed(why))));
            let replace = policy_of(t, events) == OverwritePolicy::Replace;
            match a {
                ActionModel::Link(to) => worked == ReceiveActionModel::Place(ActionModel::Remove)
                    && failed == ReceiveActionModel::Place(ActionModel::Look(to)),
                ActionModel::Look(to) => worked == ReceiveActionModel::Place(
                    ActionModel::Rename(to),
                ) && failed == ReceiveActionModel::Place(ActionModel::Rename(to)),
                ActionModel::Rename(to) => worked == ReceiveActionModel::Answer(1) && failed == (
                if replace {
                    ReceiveActionModel::Place(ActionModel::Copy(to))
                } else {
                    ReceiveActionModel::Place(ActionModel::Remove)
                }),
                ActionModel::Copy(_) => worked == ReceiveActionModel::Place(ActionModel::Remove)
                    && failed == ReceiveActionModel::Place(ActionModel::Remove),
                ActionModel::Remove => worked == failed && (worked == ReceiveActionModel::Answer(1)
                    || worked matches ReceiveActionModel::Done(Err(_))),
                ActionModel::Done(_) => false,
            }
        }),
{
    lemma_stands_for(t, events);
    assert(events.push(ReceiveEvent::Placed(PlaceEvent::Worked)).drop_last() =~= events);
    assert(events.push(ReceiveEvent::Placed(PlaceEvent::Failed(why))).drop_last() =~= events);
}

/// How a placing that had to remove the temporary file ends: well where the
/// file had been put in its place before, and else with the reason.
pub proof fn law_removal_ends_the_placing(
    t: TermsModel,
    events: Seq<ReceiveEvent>,
    e: PlaceEvent,
    then: PlaceEvent,
)
    requires
        asked(t, events) matches ReceiveActionModel::Place(a) && !(a is Remove),
        asked(t, events.push(ReceiveEvent::Placed(e))) == ReceiveActionModel::Place(
            ActionModel::Remove,
        ),
    ensures
        ({
            let end = asked(
                t,
                events.push(ReceiveEvent::Placed(e)).push(ReceiveEvent::Placed(then)),
            );
            match e {
                PlaceEvent::Worked => end == ReceiveActionModel::Answer(1),
                PlaceEvent::Failed(why) => end == ReceiveActionModel::Done(
                    Err(TransferErrorModel::Io(why@)),
                ),
                PlaceEvent::Exists(why) => end == ReceiveActionModel::Done(
                    Err(
                        if asked(t, events)->Place_0 is Link || asked(t, events)->Place_0 is Look {
                            TransferErrorModel::Protocol(
                                if policy_of(t, events) == OverwritePolicy::Rename {
                                    "no free deduplicated name found for "@ + goal(t, events)
                                } else {
                                    "destination already exists: "@ + goal(t, events)
                                        + " (OverwritePolicy::Reject)"@
                                },
                            )
                        } else {
                            TransferErrorModel::Io(why@)
                        },
                    ),
                ),
            }
        }),
{
    lemma_stands_for(t, events);
    let once = events.push(ReceiveEvent::Placed(e));
    assert(once.drop_last() =~= events);
    assert(once.push(ReceiveEvent::Placed(then)).drop_last() =~= once);
    lemma_stands_for(t, once);
}

/// A transfer ends well only with the path under which the file was put, and
/// after the sender was told so.
pub proof fn law_success_names_the_place(t: TermsModel, events: Seq<ReceiveEvent>)
    ensures
        asked(t, events) matches ReceiveActionModel::Done(Ok(path)) ==> put_at(t, events) == Some(
            path,
        ),
        asked(t, events) == ReceiveActionModel::Answer(1) ==> put_at(t, events) is Some,
        asked(t, events) == ReceiveActionModel::Answer(1) ==> asked(
            t,
            events.push(ReceiveEvent::Io(None)),
        ) is Settle,
        asked(t, events) is Settle ==> put_at(t, events) is Some && asked(
            t,
            events.push(ReceiveEvent::Settled),
        ) == ReceiveActionModel::Done(Ok(put_at(t, events)->0)),
{
    lemma_stands_for(t, events);
    lemma_in_keeping(t, events);
    assert(events.push(ReceiveEvent::Io(None)).drop_last() =~= events);
    assert(events.push(ReceiveEvent::Settled).drop_last() =~= events);
    if events.len() > 0 {
        lemma_stands_for(t, events.drop_last());
    }
}

/// The application decides about an offer: the path that it accepts with is
/// looked at, and the reason that it refuses with is told the sender.
pub proof fn law_decision_is_followed(
    t: TermsModel,
    events: Seq<ReceiveEvent>,
    path: String,
    reason: String,
    why: QueueRefusal,
)
    ensures
        asked(t, seq![]) is Announce,
        asked(t, events) is Announce ==> asked(t, events.push(ReceiveEvent::Queued(None)))
            is AwaitDecision,
        asked(t, events) is Announce ==> asked(t, events.push(ReceiveEvent::Queued(Some(why))))
            == ReceiveActionModel::Tell(
            MessageModel::Reject {
                token: t.token,
                reason: if why == QueueRefusal::Full {
                    "receiver busy: offer queue full"@
                } else {
                    "receiver has no offer channel"@
                },
            },
        ),
        asked(t, events) is AwaitDecision ==> asked(
            t,
            events.push(
                ReceiveEvent::Decision(
                    DecisionNews::Decided(OfferDecision::Accept { save_path: path }),
                ),
            ),
        ) == ReceiveActionModel::ProbeDir(path@),
        asked(t, events) is AwaitDecision ==> asked(
            t,
            events.push(
                ReceiveEvent::Decision(DecisionNews::Decided(OfferDecision::Reject { reason })),
            ),
        ) == ReceiveActionModel::Tell(MessageModel::Reject { token: t.token, reason: reason@ }),
        asked(t, events) is AwaitDecision ==> asked(
            t,
            events.push(ReceiveEvent::Decision(DecisionNews::TimedOut)),
        ) == ReceiveActionModel::Done(Err(TransferErrorModel::Timeout)),
        asked(t, events) is AwaitDecision ==> asked(
            t,
            events.push(ReceiveEvent::Decision(DecisionNews::Dropped)),
        ) == ReceiveActionModel::Done(
            Err(TransferErrorModel::Protocol("Offer responder dropped without decision"@)),
        ),
{
    lemma_stands_for(t, events);
    assert(events.push(ReceiveEvent::Queued(None)).drop_last() =~= events);
    assert(events.push(ReceiveEvent::Queued(Some(why))).drop_last() =~= events);
    let yes = ReceiveEvent::Decision(
        DecisionNews::Decided(OfferDecision::Accept { save_path: path }),
    );
    assert(events.push(yes).drop_last() =~= events);
    let no = ReceiveEvent::Decision(DecisionNews::Decided(OfferDecision::Reject { reason }));
    assert(events.push(no).drop_last() =~= events);
    let late = ReceiveEvent::Decision(DecisionNews::TimedOut);
    assert(events.push(late).drop_last() =~= events);
    let dropped = ReceiveEvent::Decision(DecisionNews::Dropped);
    assert(events.push(dropped).drop_last() =~= events);
}

/// Before any byte comes the destination is settled: an unsafe name ends the
/// transfer, and where nothing may be replaced, so does a file that is there.
pub proof fn law_destination_is_settled(
    t: TermsModel,
    events: Seq<ReceiveEvent>,
    is_dir: bool,
    policy: OverwritePolicy,
)
    ensures
        asked(t, events) matches ReceiveActionModel::ProbeDir(path) ==> asked(
            t,
            events.push(ReceiveEvent::Directory { is_dir, policy }),
        ) == match destination(path, t.file_name, is_dir) {
            Err(why) => ReceiveActionModel::Done(Err(TransferErrorModel::Protocol(why))),
            Ok(at) => if policy == OverwritePolicy::Reject {
                ReceiveActionModel::ProbeDest(at)
            } else {
                ReceiveActionModel::MakeParent(at)
            },
        },
        asked(t, events) matches ReceiveActionModel::ProbeDest(path) ==> asked(
            t,
            events.push(ReceiveEvent::Occupied(false)),
        ) == ReceiveActionModel::MakeParent(path),
        asked(t, events) matches ReceiveActionModel::ProbeDest(_) ==> asked(
            t,
            events.push(ReceiveEvent::Occupied(true)),
        ) == ReceiveActionModel::Tell(
            MessageModel::Reject { token: t.token, reason: "destination already exists"@ },
        ),
{
    lemma_stands_for(t, events);
    assert(events.push(ReceiveEvent::Directory { is_dir, policy }).drop_last() =~= events);
    assert(events.push(ReceiveEvent::Occupied(false)).drop_last() =~= events);
    assert(events.push(ReceiveEvent::Occupied(true)).drop_last() =~= events);
}

/// A refusal ends the transfer once the sender was told: with the reason that
/// was given, or that the queue or the destination gave. Only where the
/// application refused is it said that the sender could not be told.
pub proof fn law_refusals_are_final(
    t: TermsModel,
    events: Seq<ReceiveEvent>,
    reason: String,
    why: QueueRefusal,
    trouble: Option<String>,
)
    ensures
        ({
            let no = ReceiveEvent::Decision(DecisionNews::Decided(OfferDecision::Reject { reason }));
            asked(t, events) is AwaitDecision ==> asked(
                t,
                events.push(no).push(ReceiveEvent::Told(trouble)),
            ) == ReceiveActionModel::Done(
                Err(
                    match trouble {
                        None => TransferErrorModel::Rejected(reason@),
                        Some(w) => TransferErrorModel::Node("Failed to send REJECT"@ + ": "@ + w@),
                    },
                ),
            )
        }),
        asked(t, events) is Announce ==> asked(
            t,
            events.push(ReceiveEvent::Queued(Some(why))).push(ReceiveEvent::Told(trouble)),
        ) == ReceiveActionModel::Done(
            Err(
                TransferErrorModel::Rejected(
                    if why == QueueRefusal::Full {
                        "receiver busy: offer queue full"@
                    } else {
                        "receiver has no offer channel"@
                    },
                ),
            ),
        ),
        asked(t, events) matches ReceiveActionModel::ProbeDest(path) ==> asked(
            t,
            events.push(ReceiveEvent::Occupied(true)).push(ReceiveEvent::Told(trouble)),
        ) == ReceiveActionModel::Done(
            Err(TransferErrorModel::Rejected("destination already exists"@ + ": "@ + path)),
        ),
{
    reveal_with_fuel(after, 3);
    lemma_stands_for(t, events);
    let told = ReceiveEvent::Told(trouble);
    let no = ReceiveEvent::Decision(DecisionNews::Decided(OfferDecision::Reject { reason }));
    assert(events.push(no).drop_last() =~= events);
    assert(events.push(no).push(told).drop_last() =~= events.push(no));
    let full = ReceiveEvent::Queued(Some(why));
    assert(events.push(full).drop_last() =~= events);
    assert(events.push(full).push(told).drop_last() =~= events.push(full));
    let there = ReceiveEvent::Occupied(true);
    assert(events.push(there).drop_last() =~= events);
    assert(events.push(there).push(told).drop_last() =~= events.push(there));
}

/// Then the sender is told the port that was opened for it, and once it
/// connected the head of its stream is read.
pub proof fn law_sender_is_let_in(t: TermsModel, events: Seq<ReceiveEvent>, port: u16)
    ensures
        asked(t, events) is MakeParent ==> asked(t, events.push(ReceiveEvent::Io(None))) is Listen,
        asked(t, events) is Listen ==> asked(t, events.push(ReceiveEvent::Listening(Ok(port))))
            == ReceiveActionModel::Tell(MessageModel::Accept { token: t.token, tcp_port: port }),
        asked(t, events) matches ReceiveActionModel::Tell(m) ==> (m is Accept ==> asked(
            t,
            events.push(ReceiveEvent::Told(None)),
        ) is AwaitConnection),
        asked(t, events) is AwaitConnection ==> asked(
            t,
            events.push(ReceiveEvent::Connection(ConnectionNews::Connected)),
        ) is ReadHeader,
{
    lemma_stands_for(t, events);
    assert(events.push(ReceiveEvent::Io(None)).drop_last() =~= events);
    assert(events.push(ReceiveEvent::Listening(Ok(port))).drop_last() =~= events);
    assert(events.push(ReceiveEvent::Told(None)).drop_last() =~= events);
    let in_ = ReceiveEvent::Connection(ConnectionNews::Connected);
    assert(events.push(in_).drop_last() =~= events);
}

/// The head of the stream has to repeat the offer, and the file to be within
/// the limit. The bytes then go to a file of their own beside the destination.
pub proof fn law_head_must_fit(t: TermsModel, events: Seq<ReceiveEvent>, h: HeadRead)
    requires
        asked(t, events) is ReadHeader,
        h.bytes@.len() == 72,
    ensures
        ({
            let then = asked(t, events.push(ReceiveEvent::Header(Ok(h))));
            if lossy(h.bytes@.skip(8)) == t.sha256 && be_value(h.bytes@.take(8)) as u64 == t.size
                && t.size <= h.max_size {
                then == ReceiveActionModel::CreateTemp(
                    goal(t, events) + "."@ + t.unique + ".truffle-tmp"@,
                )
            } else if lossy(h.bytes@.skip(8)) != t.sha256 {
                then == ReceiveActionModel::Done(
                    Err(
                        TransferErrorModel::IntegrityError {
                            expected: t.sha256,
                            actual: lossy(h.bytes@.skip(8)),
                        },
                    ),
                )
            } else if be_value(h.bytes@.take(8)) as u64 != t.size {
                then == ReceiveActionModel::Done(
                    Err(
                        TransferErrorModel::Protocol(
                            "Size mismatch: offer said "@ + decimal(t.size as nat)
                                + ", stream header says "@ + decimal(
                                be_value(h.bytes@.take(8)) as u64 as nat,
                            ),
                        ),
                    ),
                )
            } else {
                then == ReceiveActionModel::Done(
                    Err(
                        TransferErrorModel::Protocol(
                            "File size "@ + decimal(t.size as nat) + " exceeds max transfer size "@
                                + decimal(h.max_size as nat),
                        ),
                    ),
                )
            }
        }),
{
    lemma_stands_for(t, events);
    assert(events.push(ReceiveEvent::Header(Ok(h))).drop_last() =~= events);
}

/// So much is read as is missing, but no more than a chunk; when nothing is
/// missing the file is brought to the disk.
pub open spec fn reads_on(t: TermsModel, got: nat) -> ReceiveActionModel {
    if got >= t.size {
        ReceiveActionModel::Flush
    } else if t.size - got < 65536 {
        ReceiveActionModel::ReadChunk(t.size - got)
    } else {
        ReceiveActionModel::ReadChunk(65536)
    }
}

/// Every chunk that comes is written as it came, until all promised bytes are
/// there. A stream that ends before is no file.
pub proof fn law_every_chunk_is_written(t: TermsModel, events: Seq<ReceiveEvent>, chunk: Vec<u8>)
    ensures
        asked(t, events) is CreateTemp ==> asked(t, events.push(ReceiveEvent::Io(None)))
            == reads_on(t, 0),
        asked(t, events) matches ReceiveActionModel::ReadChunk(n) ==> (0 < chunk@.len() <= n
            ==> asked(t, events.push(ReceiveEvent::Chunk(Ok(chunk))))
            == ReceiveActionModel::WriteChunk(chunk@)),
        asked(t, events) is ReadChunk && chunk@.len() == 0 ==> asked(
            t,
            events.push(ReceiveEvent::Chunk(Ok(chunk))),
        ) is RemoveTemp,
        asked(t, events) is WriteChunk ==> asked(t, events.push(ReceiveEvent::Io(None)))
            == reads_on(t, written(t, events).len()),
{
    lemma_stands_for(t, events);
    lemma_in_keeping(t, events);
    assert(events.push(ReceiveEvent::Io(None)).drop_last() =~= events);
    assert(events.push(ReceiveEvent::Chunk(Ok(chunk))).drop_last() =~= events);
}

/// The written bytes are those that came, in order.
pub open spec fn arrived(t: TermsModel, events: Seq<ReceiveEvent>) -> Seq<u8>
    decreases events.len(),
{
    if events.len() == 0 {
        Seq::empty()
    } else {
        let before = events.drop_last();
        match (asked(t, before), events.last()) {
            (ReceiveActionModel::ReadChunk(n), ReceiveEvent::Chunk(Ok(chunk))) => if chunk@.len()
                <= n {
                arrived(t, before) + chunk@
            } else {
                arrived(t, before)
            },
            _ => arrived(t, before),
        }
    }
}

/// What is written is what came.
pub proof fn law_written_is_what_came(t: TermsModel, events: Seq<ReceiveEvent>)
    ensures
        written(t, events) == arrived(t, events),
    decreases events.len(),
{
    if events.len() > 0 {
        let before = events.drop_last();
        law_written_is_what_came(t, before);
        lemma_stands_for(t, before);
        lemma_stands_for(t, events);
        lemma_in_keeping(t, before);
        if let ReceiveEvent::Chunk(Ok(chunk)) = events.last() {
            if chunk@.len() == 0 {
                assert(arrived(t, before) + chunk@ =~= arrived(t, before));
            }
        }
    }
}

/// A complete file goes to its place if its digest is the promised one; else
/// the sender is told, and the file removed.
pub proof fn law_digest_decides(t: TermsModel, events: Seq<ReceiveEvent>)
    ensures
        asked(t, events) is Flush ==> if hex(sha256(written(t, events))) == t.sha256 {
            asked(t, events.push(ReceiveEvent::Io(None))) is Place
        } else {
            asked(t, events.push(ReceiveEvent::Io(None))) == ReceiveActionModel::Answer(0)
        },
        asked(t, events) == ReceiveActionModel::Answer(0) ==> asked(
            t,
            events.push(ReceiveEvent::Io(None)),
        ) is RemoveTemp,
        asked(t, events) is RemoveTemp ==> asked(
            t,
            events.push(ReceiveEvent::Removed),
        ) matches ReceiveActionModel::Done(Err(_)),
{
    lemma_stands_for(t, events);
    lemma_in_keeping(t, events);
    assert(events.push(ReceiveEvent::Io(None)).drop_last() =~= events);
    assert(events.push(ReceiveEvent::Removed).drop_last() =~= events);
}

/// A wrong digest is reported with both digests, and a stream that ended early
/// with how much of it came.
pub proof fn law_bad_files_are_told(t: TermsModel, events: Seq<ReceiveEvent>, none: Vec<u8>)
    requires
        none@.len() == 0,
    ensures
        asked(t, events) is Flush && hex(sha256(written(t, events))) != t.sha256 ==> asked(
            t,
            events.push(ReceiveEvent::Io(None)).push(ReceiveEvent::Io(None)).push(
                ReceiveEvent::Removed,
            ),
        ) == ReceiveActionModel::Done(
            Err(
                TransferErrorModel::IntegrityError {
                    expected: t.sha256,
                    actual: hex(sha256(written(t, events))),
                },
            ),
        ),
        asked(t, events) is ReadChunk ==> asked(
            t,
            events.push(ReceiveEvent::Chunk(Ok(none))).push(ReceiveEvent::Removed),
        ) == ReceiveActionModel::Done(
            Err(
                TransferErrorModel::Io(
                    "Connection closed after "@ + decimal(written(t, events).len()) + "/"@
                        + decimal(t.size as nat) + " bytes"@,
                ),
            ),
        ),
{
    lemma_stands_for(t, events);
    lemma_in_keeping(t, events);
    let a = events.push(ReceiveEvent::Io(None));
    let b = a.push(ReceiveEvent::Io(None));
    assert(a.drop_last() =~= events);
    assert(b.drop_last() =~= a);
    assert(b.push(ReceiveEvent::Removed).drop_last() =~= b);
    if asked(t, events) is Flush && hex(sha256(written(t, events))) != t.sha256 {
        assert(after(t, a).0 is Nacking);
        assert(after(t, b).0 is Removing);
    }
    let c = events.push(ReceiveEvent::Chunk(Ok(none)));
    assert(c.drop_last() =~= events);
    assert(c.push(ReceiveEvent::Removed).drop_last() =~= c);
    if asked(t, events) is ReadChunk {
        assert(after(t, c).0 is Removing);
    }
}

/// What fails ends the transfer, with the words of the failure.
pub proof fn law_failures_are_told(t: TermsModel, events: Seq<ReceiveEvent>, why: String)
    ensures
        match asked(t, events) {
            ReceiveActionModel::MakeParent(_) => true,
            ReceiveActionModel::CreateTemp(_) => true,
            ReceiveActionModel::WriteChunk(_) => true,
            ReceiveActionModel::Flush => true,
            ReceiveActionModel::Answer(_) => true,
            _ => false,
        } ==> asked(t, events.push(ReceiveEvent::Io(Some(why)))) == ReceiveActionModel::Done(
            Err(TransferErrorModel::Io(why@)),
        ),
        asked(t, events) is ReadHeader ==> asked(t, events.push(ReceiveEvent::Header(Err(why))))
            == ReceiveActionModel::Done(Err(TransferErrorModel::Io(why@))),
        asked(t, events) is ReadChunk ==> asked(t, events.push(ReceiveEvent::Chunk(Err(why))))
            == ReceiveActionModel::Done(Err(TransferErrorModel::Io(why@))),
        asked(t, events) is Listen ==> asked(t, events.push(ReceiveEvent::Listening(Err(why))))
            == ReceiveActionModel::Done(
            Err(TransferErrorModel::Node("Failed to listen TCP"@ + ": "@ + why@)),
        ),
        asked(t, events) matches ReceiveActionModel::Tell(m) ==> (m is Accept ==> asked(
            t,
            events.push(ReceiveEvent::Told(Some(why))),
        ) == ReceiveActionModel::Done(
            Err(TransferErrorModel::Node("Failed to send ACCEPT"@ + ": "@ + why@)),
        )),
        asked(t, events) is AwaitConnection ==> asked(
            t,
            events.push(ReceiveEvent::Connection(ConnectionNews::TimedOut)),
        ) == ReceiveActionModel::Done(Err(TransferErrorModel::Timeout)),
        asked(t, events) is AwaitConnection ==> asked(
            t,
            events.push(ReceiveEvent::Connection(ConnectionNews::Closed)),
        ) == ReceiveActionModel::Done(
            Err(TransferErrorModel::Protocol("Listener closed before accepting"@)),
        ),
        asked(t, events) matches ReceiveActionModel::Tell(m) ==> (m is Reject ==> asked(
            t,
            events.push(ReceiveEvent::Told(None)),
        ) matches ReceiveActionModel::Done(Err(TransferErrorModel::Rejected(_)))),
{
    lemma_stands_for(t, events);
    assert(events.push(ReceiveEvent::Io(Some(why))).drop_last() =~= events);
    assert(events.push(ReceiveEvent::Header(Err(why))).drop_last() =~= events);
    assert(events.push(ReceiveEvent::Chunk(Err(why))).drop_last() =~= events);
    assert(events.push(ReceiveEvent::Listening(Err(why))).drop_last() =~= events);
    assert(events.push(ReceiveEvent::Told(Some(why))).drop_last() =~= events);
    assert(events.push(ReceiveEvent::Told(None)).drop_last() =~= events);
    let late = ReceiveEvent::Connection(ConnectionNews::TimedOut);
    assert(events.push(late).drop_last() =~= events);
    let closed = ReceiveEvent::Connection(ConnectionNews::Closed);
    assert(events.push(closed).drop_last() =~= events);
}

} // verus!
