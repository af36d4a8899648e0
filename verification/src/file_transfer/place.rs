//! How a received file gets to its place.
//!
//! The file lies complete under a temporary name beside its destination. What
//! is tried next, and how it ends, depends on the policy and on what came of
//! the last try.
use vstd::prelude::*;

use crate::file_transfer::paths::{dedup_candidate, numbered};
use crate::file_transfer::types::{OverwritePolicy, TransferError, TransferErrorModel};
use crate::text::{join2, join3, owned};

verus! {

/// How many numbered names are tried.
pub const MAX_NUMBER: u32 = 999;

/// What is to be done with the temporary file.
pub enum PlaceAction {
    /// Rename it, whatever is there.
    Rename { to: String },
    /// Copy it, whatever is there.
    Copy { to: String },
    /// Link it, unless something is there.
    Link { to: String },
    /// Look whether something is there.
    Look { at: String },
    /// Remove it; whether that works does not matter.
    Remove,
    /// All is done; the path is the one used.
    Done(Result<String, TransferError>),
}

/// What came of an action.
pub enum PlaceEvent {
    /// It worked; for a look: nothing is there.
    Worked,
    /// Something is there.
    Exists(String),
    Failed(String),
}

/// How far the placing is. The number is that of the name being tried; zero is
/// the destination itself.
pub enum Stage {
    Renaming,
    Copying,
    Linking(u32),
    Looking(u32),
    Moving(u32),
    Cleaning(Result<String, TransferError>),
    Over,
}

pub type Ending = Result<Seq<char>, TransferErrorModel>;

/// The texts of a [`Stage`].
pub enum StageModel {
    Renaming,
    Copying,
    Linking(u32),
    Looking(u32),
    Moving(u32),
    Cleaning(Ending),
    Over,
}

/// The texts of a [`PlaceAction`].
pub enum ActionModel {
    Rename(Seq<char>),
    Copy(Seq<char>),
    Link(Seq<char>),
    Look(Seq<char>),
    Remove,
    Done(Ending),
}

pub open spec fn ending(r: Result<String, TransferError>) -> Ending {
    match r {
        Ok(p) => Ok(p@),
        Err(e) => Err(e@),
    }
}

impl View for Stage {
    type V = StageModel;

    open spec fn view(&self) -> StageModel {
        match self {
            Stage::Renaming => StageModel::Renaming,
            Stage::Copying => StageModel::Copying,
            Stage::Linking(n) => StageModel::Linking(*n),
            Stage::Looking(n) => StageModel::Looking(*n),
            Stage::Moving(n) => StageModel::Moving(*n),
            Stage::Cleaning(r) => StageModel::Cleaning(ending(*r)),
            Stage::Over => StageModel::Over,
        }
    }
}

impl View for PlaceAction {
    type V = ActionModel;

    open spec fn view(&self) -> ActionModel {
        match self {
            PlaceAction::Rename { to } => ActionModel::Rename(to@),
            PlaceAction::Copy { to } => ActionModel::Copy(to@),
            PlaceAction::Link { to } => ActionModel::Link(to@),
            PlaceAction::Look { at } => ActionModel::Look(at@),
            PlaceAction::Remove => ActionModel::Remove,
            PlaceAction::Done(r) => ActionModel::Done(ending(*r)),
        }
    }
}

/// The name that is tried under a number.
pub open spec fn candidate(windows: bool, final_path: Seq<char>, n: u32) -> Seq<char> {
    if n == 0 {
        final_path
    } else {
        numbered(windows, final_path, n)
    }
}

pub open spec fn io_error(e: PlaceEvent) -> TransferErrorModel {
    match e {
        PlaceEvent::Failed(why) => TransferErrorModel::Io(why@),
        PlaceEvent::Exists(why) => TransferErrorModel::Io(why@),
        PlaceEvent::Worked => TransferErrorModel::Io(Seq::empty()),
    }
}

/// The first try.
pub open spec fn first_try(policy: OverwritePolicy, final_path: Seq<char>) -> (
    StageModel,
    ActionModel,
) {
    match policy {
        OverwritePolicy::Replace => (StageModel::Renaming, ActionModel::Rename(final_path)),
        _ => (StageModel::Linking(0), ActionModel::Link(final_path)),
    }
}

/// Something has the name that was tried.
pub open spec fn taken(windows: bool, policy: OverwritePolicy, final_path: Seq<char>, n: u32) -> (
    StageModel,
    ActionModel,
) {
    if policy == OverwritePolicy::Rename && n < MAX_NUMBER {
        (
            StageModel::Linking((n + 1) as u32),
            ActionModel::Link(candidate(windows, final_path, (n + 1) as u32)),
        )
    } else if policy == OverwritePolicy::Rename {
        (
            StageModel::Cleaning(
                Err(
                    TransferErrorModel::Protocol(
                        "no free deduplicated name found for "@ + final_path,
                    ),
                ),
            ),
            ActionModel::Remove,
        )
    } else {
        (
            StageModel::Cleaning(
                Err(
                    TransferErrorModel::Protocol(
                        "destination already exists: "@ + final_path
                            + " (OverwritePolicy::Reject)"@,
                    ),
                ),
            ),
            ActionModel::Remove,
        )
    }
}

/// The next try.
pub open spec fn next_try(
    windows: bool,
    policy: OverwritePolicy,
    final_path: Seq<char>,
    stage: StageModel,
    e: PlaceEvent,
) -> (StageModel, ActionModel) {
    match stage {
        StageModel::Renaming => if e is Worked {
            (StageModel::Over, ActionModel::Done(Ok(final_path)))
        } else {
            (StageModel::Copying, ActionModel::Copy(final_path))
        },
        StageModel::Copying => if e is Worked {
            (StageModel::Cleaning(Ok(final_path)), ActionModel::Remove)
        } else {
            (StageModel::Cleaning(Err(io_error(e))), ActionModel::Remove)
        },
        StageModel::Linking(n) => match e {
            PlaceEvent::Worked => (
                StageModel::Cleaning(Ok(candidate(windows, final_path, n))),
                ActionModel::Remove,
            ),
            PlaceEvent::Exists(_) => taken(windows, policy, final_path, n),
            PlaceEvent::Failed(_) => (
                StageModel::Looking(n),
                ActionModel::Look(candidate(windows, final_path, n)),
            ),
        },
        StageModel::Looking(n) => if e is Exists {
            taken(windows, policy, final_path, n)
        } else {
            (StageModel::Moving(n), ActionModel::Rename(candidate(windows, final_path, n)))
        },
        StageModel::Moving(n) => if e is Worked {
            (StageModel::Over, ActionModel::Done(Ok(candidate(windows, final_path, n))))
        } else {
            (StageModel::Cleaning(Err(io_error(e))), ActionModel::Remove)
        },
        StageModel::Cleaning(r) => (StageModel::Over, ActionModel::Done(r)),
        StageModel::Over => (StageModel::Over, ActionModel::Remove),
    }
}

/// The placing of one received file.
pub struct Placing {
    pub final_path: String,
    pub policy: OverwritePolicy,
    /// Paths are those of Windows.
    pub windows: bool,
    pub stage: Stage,
}

impl Placing {
    /// Begins with the first try.
    pub fn begin(final_path: String, policy: OverwritePolicy, windows: bool) -> (r: (
        Self,
        PlaceAction,
    ))
        ensures
            r.0.final_path == final_path,
            r.0.policy == policy,
            r.0.windows == windows,
            (r.0.stage@, r.1@) == first_try(policy, final_path@),
    {
        match policy {
            OverwritePolicy::Replace => {
                let to: String = final_path.clone();
                (
                    Placing { final_path, policy, windows, stage: Stage::Renaming },
                    PlaceAction::Rename { to },
                )
            },
            _ => {
                let to: String = final_path.clone();
                (
                    Placing { final_path, policy, windows, stage: Stage::Linking(0) },
                    PlaceAction::Link { to },
                )
            },
        }
    }

    fn name(&self, n: u32) -> (r: String)
        ensures
            r@ == candidate(self.windows, self.final_path@, n),
    {
        if n == 0 {
            self.final_path.clone()
        } else {
            dedup_candidate(self.final_path.as_str(), n, self.windows)
        }
    }

    fn occupied(&self, n: u32) -> (r: (Stage, PlaceAction))
        ensures
            (r.0@, r.1@) == taken(self.windows, self.policy, self.final_path@, n),
    {
        match self.policy {
            OverwritePolicy::Rename => {
                if n < MAX_NUMBER {
                    (Stage::Linking(n + 1), PlaceAction::Link { to: self.name(n + 1) })
                } else {
                    let text: String = join2(
                        "no free deduplicated name found for ",
                        self.final_path.as_str(),
                    );
                    (Stage::Cleaning(Err(TransferError::Protocol(text))), PlaceAction::Remove)
                }
            },
            _ => {
                let text: String = join3(
                    "destination already exists: ",
                    self.final_path.as_str(),
                    " (OverwritePolicy::Reject)",
                );
                (Stage::Cleaning(Err(TransferError::Protocol(text))), PlaceAction::Remove)
            },
        }
    }

    /// What to do after what came of the last action.
    pub fn next(&mut self, event: PlaceEvent) -> (r: PlaceAction)
        ensures
            final(self).final_path == old(self).final_path,
            final(self).policy == old(self).policy,
            final(self).windows == old(self).windows,
            (final(self).stage@, r@) == next_try(
                old(self).windows,
                old(self).policy,
                old(self).final_path@,
                old(self).stage@,
                event,
            ),
    {
        let worked: bool = match &event {
            PlaceEvent::Worked => true,
            _ => false,
        };
        let exists: bool = match &event {
            PlaceEvent::Exists(_) => true,
            _ => false,
        };
        let ghost e = event;
        let why: String = match event {
            PlaceEvent::Failed(why) => why,
            PlaceEvent::Exists(why) => why,
            PlaceEvent::Worked => owned(""),
        };
        let mut stage: Stage = Stage::Over;
        std::mem::swap(&mut stage, &mut self.stage);
        let (then, action) = match stage {
            Stage::Renaming => if worked {
                (Stage::Over, PlaceAction::Done(Ok(self.final_path.clone())))
            } else {
                (Stage::Copying, PlaceAction::Copy { to: self.final_path.clone() })
            },
            Stage::Copying => if worked {
                (Stage::Cleaning(Ok(self.final_path.clone())), PlaceAction::Remove)
            } else {
                (Stage::Cleaning(Err(TransferError::Io(why))), PlaceAction::Remove)
            },
            Stage::Linking(n) => if worked {
                (Stage::Cleaning(Ok(self.name(n))), PlaceAction::Remove)
            } else if exists {
                self.occupied(n)
            } else {
                (Stage::Looking(n), PlaceAction::Look { at: self.name(n) })
            },
            Stage::Looking(n) => if exists {
                self.occupied(n)
            } else {
                (Stage::Moving(n), PlaceAction::Rename { to: self.name(n) })
            },
            Stage::Moving(n) => if worked {
                (Stage::Over, PlaceAction::Done(Ok(self.name(n))))
            } else {
                (Stage::Cleaning(Err(TransferError::Io(why))), PlaceAction::Remove)
            },
            Stage::Cleaning(r) => (Stage::Over, PlaceAction::Done(r)),
            Stage::Over => (Stage::Over, PlaceAction::Remove),
        };
        self.stage = then;
        action
    }
}

// ---------------------------------------------------------------------------
// Laws
// ---------------------------------------------------------------------------

/// Unless the policy is to replace, nothing that exists is replaced: a file is
/// only linked, which fails where something is, or renamed to where a look
/// found nothing.
pub proof fn law_no_clobber(
    windows: bool,
    policy: OverwritePolicy,
    final_path: Seq<char>,
    stage: StageModel,
    e: PlaceEvent,
)
    requires
        policy != OverwritePolicy::Replace,
        !(stage is Renaming),
        !(stage is Copying),
    ensures
        ({
            let (then, action) = next_try(windows, policy, final_path, stage, e);
            &&& !(then is Renaming) && !(then is Copying)
            &&& !(action is Copy)
            &&& action matches ActionModel::Rename(to) ==> (stage matches StageModel::Looking(n)
                && !(e is Exists) && to == candidate(windows, final_path, n))
        }),
        !(first_try(policy, final_path).0 is Renaming),
        !(first_try(policy, final_path).0 is Copying),
        !(first_try(policy, final_path).1 is Rename),
{
}

/// The temporary file is gone in the end: renamed, or removed.
pub proof fn law_temporary_is_consumed(
    windows: bool,
    policy: OverwritePolicy,
    final_path: Seq<char>,
    stage: StageModel,
    e: PlaceEvent,
)
    requires
        next_try(windows, policy, final_path, stage, e).1 is Done,
    ensures
        stage is Cleaning || ((stage is Renaming || stage is Moving) && e is Worked),
{
}

/// A stage is entered for cleaning only with the order to remove the file.
pub proof fn law_cleaning_removes(
    windows: bool,
    policy: OverwritePolicy,
    final_path: Seq<char>,
    stage: StageModel,
    e: PlaceEvent,
)
    requires
        next_try(windows, policy, final_path, stage, e).0 is Cleaning,
    ensures
        next_try(windows, policy, final_path, stage, e).1 is Remove,
{
}

/// How many steps are left at most.
pub open spec fn steps_left(stage: StageModel) -> int {
    match stage {
        StageModel::Renaming => 4,
        StageModel::Copying => 3,
        StageModel::Linking(n) => 3 * (MAX_NUMBER - n) + 6,
        StageModel::Looking(n) => 3 * (MAX_NUMBER - n) + 5,
        StageModel::Moving(n) => 3 * (MAX_NUMBER - n) + 4,
        StageModel::Cleaning(_) => 1,
        StageModel::Over => 0,
    }
}

/// No number above the last is tried.
pub open spec fn in_range(stage: StageModel) -> bool {
    match stage {
        StageModel::Linking(n) => n <= MAX_NUMBER,
        StageModel::Looking(n) => n <= MAX_NUMBER,
        StageModel::Moving(n) => n <= MAX_NUMBER,
        _ => true,
    }
}

/// The placing comes to an end, whatever comes of the actions.
pub proof fn law_placing_ends(
    windows: bool,
    policy: OverwritePolicy,
    final_path: Seq<char>,
    stage: StageModel,
    e: PlaceEvent,
)
    requires
        in_range(stage),
        !(stage is Over),
    ensures
        in_range(next_try(windows, policy, final_path, stage, e).0),
        0 <= steps_left(next_try(windows, policy, final_path, stage, e).0) < steps_left(stage),
        in_range(first_try(policy, final_path).0),
        next_try(windows, policy, final_path, stage, e).0 is Over <==> next_try(
            windows,
            policy,
            final_path,
            stage,
            e,
        ).1 is Done,
{
}

/// A stage that ends well ends at the destination or a numbered sibling.
pub open spec fn ends_in_place(
    windows: bool,
    policy: OverwritePolicy,
    final_path: Seq<char>,
    r: Ending,
) -> bool {
    r matches Ok(p) ==> (p == final_path || (policy == OverwritePolicy::Rename && exists|n: u32|
        1 <= n <= MAX_NUMBER && p == #[trigger] numbered(windows, final_path, n)))
}

pub open spec fn is_sound(
    windows: bool,
    policy: OverwritePolicy,
    final_path: Seq<char>,
    stage: StageModel,
) -> bool {
    &&& in_range(stage)
    &&& policy != OverwritePolicy::Rename ==> (match stage {
        StageModel::Linking(n) => n == 0,
        StageModel::Looking(n) => n == 0,
        StageModel::Moving(n) => n == 0,
        _ => true,
    })
    &&& stage matches StageModel::Cleaning(r) ==> ends_in_place(windows, policy, final_path, r)
}

/// A file ends up at its destination, or, where the policy is to rename, at a
/// numbered sibling of it.
pub proof fn law_file_ends_in_place(
    windows: bool,
    policy: OverwritePolicy,
    final_path: Seq<char>,
    stage: StageModel,
    e: PlaceEvent,
)
    requires
        is_sound(windows, policy, final_path, stage),
    ensures
        is_sound(windows, policy, final_path, next_try(windows, policy, final_path, stage, e).0),
        is_sound(windows, policy, final_path, first_try(policy, final_path).0),
        next_try(windows, policy, final_path, stage, e).1 matches ActionModel::Done(r) ==> ends_in_place(
            windows,
            policy,
            final_path,
            r,
        ),
{
}

} // verus!
