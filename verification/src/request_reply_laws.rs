//! What waiting for a reply promises.
use vstd::prelude::*;

use crate::request_reply::{ends_wait, outcome, Heard, RequestErrorModel};

verus! {

/// Something that leaves the wait as it is: a message that the filter passes
/// over, or a gap.
pub open spec fn is_passed_over<R>(h: Heard<R>) -> bool {
    h is Lagged || (h matches Heard::Message(v) && v is None)
}

/// The first message that the filter takes is the reply; a channel that closes
/// or a time that runs out before it is the error of the wait. What comes after
/// makes no difference.
pub proof fn law_first_reply_counts<R>(heard: Seq<Heard<R>>, i: int)
    requires
        0 <= i < heard.len(),
        forall|j: int| 0 <= j < i ==> is_passed_over(#[trigger] heard[j]),
        !is_passed_over(heard[i]),
    ensures
        heard[i] matches Heard::Message(v) ==> v is Some && outcome(heard) == Some(
            Ok::<R, RequestErrorModel>(v->0),
        ),
        heard[i] is Closed ==> outcome(heard) == Some(
            Err::<R, _>(RequestErrorModel::ChannelClosed),
        ),
        heard[i] is TimedOut ==> outcome(heard) == Some(Err::<R, _>(RequestErrorModel::Timeout)),
    decreases i,
{
    if i > 0 {
        assert(is_passed_over(heard[0]));
        let rest = heard.skip(1);
        assert forall|j: int| 0 <= j < i - 1 implies is_passed_over(#[trigger] rest[j]) by {
            assert(rest[j] == heard[j + 1]);
        }
        assert(rest[i - 1] == heard[i]);
        law_first_reply_counts(rest, i - 1);
    }
}

/// Nothing but a reply, a closed channel or the end of the time ends a wait.
pub proof fn law_wait_goes_on<R>(h: Heard<R>)
    ensures
        ends_wait(h) is None <==> is_passed_over(h),
{
}

/// Why no reply came is said in words.
pub proof fn law_missing_replies_are_explained(e: Seq<char>)
    ensures
        RequestErrorModel::Send(e).text() == "send failed: "@ + e,
        RequestErrorModel::Timeout.text() == "timed out waiting for reply"@,
        RequestErrorModel::ChannelClosed.text() == "subscription channel closed"@,
{
}

} // verus!
