//! Asking a peer something and waiting for the reply.
use vstd::prelude::*;

use crate::text::{join2, owned};

verus! {

/// Why no reply came.
#[derive(Debug)]
pub enum RequestError {
    /// The request could not be sent; the text says why.
    Send(String),
    Timeout,
    ChannelClosed,
}

/// The texts of a [`RequestError`].
pub enum RequestErrorModel {
    Send(Seq<char>),
    Timeout,
    ChannelClosed,
}

impl View for RequestError {
    type V = RequestErrorModel;

    open spec fn view(&self) -> RequestErrorModel {
        match self {
            RequestError::Send(e) => RequestErrorModel::Send(e@),
            RequestError::Timeout => RequestErrorModel::Timeout,
            RequestError::ChannelClosed => RequestErrorModel::ChannelClosed,
        }
    }
}

impl RequestErrorModel {
    /// The message shown to a user.
    pub open spec fn text(self) -> Seq<char> {
        match self {
            RequestErrorModel::Send(e) => "send failed: "@ + e,
            RequestErrorModel::Timeout => "timed out waiting for reply"@,
            RequestErrorModel::ChannelClosed => "subscription channel closed"@,
        }
    }
}

impl RequestError {
    /// The message shown to a user.
    pub fn message(&self) -> (r: String)
        ensures
            r@ == self@.text(),
    {
        match self {
            RequestError::Send(e) => join2("send failed: ", e.as_str()),
            RequestError::Timeout => owned("timed out waiting for reply"),
            RequestError::ChannelClosed => owned("subscription channel closed"),
        }
    }
}

/// What came of waiting for a message.
pub enum Heard<R> {
    /// A message, and what the filter made of it.
    Message(Option<R>),
    /// Messages were missed.
    Lagged,
    Closed,
    TimedOut,
}

/// A request that was sent.
pub struct PendingRequest {
    /// When the wait ends, in nanoseconds.
    pub deadline: u64,
}

/// What became of a wait.
pub enum WaitStep<R> {
    /// Wait for the next message.
    Again,
    Over(Result<R, RequestError>),
}

/// What ends a wait, and how.
pub open spec fn ends_wait<R>(heard: Heard<R>) -> Option<Result<R, RequestErrorModel>> {
    match heard {
        Heard::Message(Some(v)) => Some(Ok(v)),
        Heard::Message(None) => None,
        Heard::Lagged => None,
        Heard::Closed => Some(Err(RequestErrorModel::ChannelClosed)),
        Heard::TimedOut => Some(Err(RequestErrorModel::Timeout)),
    }
}

pub open spec fn wait_model<R>(r: Result<R, RequestError>) -> Result<R, RequestErrorModel> {
    match r {
        Ok(v) => Ok(v),
        Err(e) => Err(e@),
    }
}

impl PendingRequest {
    /// The request was sent, or could not be.
    pub fn sent(result: Result<(), String>, now: u64, timeout: u64) -> (r: Result<
        Self,
        RequestError,
    >)
        requires
            now + timeout <= u64::MAX,
        ensures
            match (result, r) {
                (Ok(_), Ok(p)) => p.deadline == now + timeout,
                (Err(why), Err(e)) => e@ == RequestErrorModel::Send(why@),
                _ => false,
            },
    {
        match result {
            Ok(_) => Ok(PendingRequest { deadline: now + timeout }),
            Err(why) => Err(RequestError::Send(why)),
        }
    }

    /// How long the next message may be waited for.
    pub fn patience(&self, now: u64) -> (r: Result<u64, RequestError>)
        ensures
            match r {
                Ok(left) => now < self.deadline && left == self.deadline - now,
                Err(e) => now >= self.deadline && e@ == RequestErrorModel::Timeout,
            },
    {
        if now >= self.deadline {
            Err(RequestError::Timeout)
        } else {
            Ok(self.deadline - now)
        }
    }

    /// Takes what was heard. Messages that the filter passed over, and missed
    /// ones, do not end the wait.
    pub fn hear<R>(&self, heard: Heard<R>) -> (r: WaitStep<R>)
        ensures
            match r {
                WaitStep::Again => ends_wait(heard) is None,
                WaitStep::Over(o) => ends_wait(heard) == Some(wait_model(o)),
            },
    {
        match heard {
            Heard::Message(Some(v)) => WaitStep::Over(Ok(v)),
            Heard::Message(None) => WaitStep::Again,
            Heard::Lagged => WaitStep::Again,
            Heard::Closed => WaitStep::Over(Err(RequestError::ChannelClosed)),
            Heard::TimedOut => WaitStep::Over(Err(RequestError::Timeout)),
        }
    }
}

/// How a wait ends that hears all this in order: as the first that ends it
/// says.
pub open spec fn outcome<R>(heard: Seq<Heard<R>>) -> Option<Result<R, RequestErrorModel>>
    decreases heard.len(),
{
    if heard.len() == 0 {
        None
    } else if ends_wait(heard[0]) is Some {
        ends_wait(heard[0])
    } else {
        outcome(heard.skip(1))
    }
}

/// Messages that the filter passes over, and missed ones, never change the
/// outcome.
pub proof fn law_strangers_do_not_answer<R>(before: Seq<Heard<R>>, rest: Seq<Heard<R>>)
    requires
        forall|i: int|
            0 <= i < before.len() ==> ((#[trigger] before[i]) is Lagged || before[i] == Heard::<
                R,
            >::Message(None)),
    ensures
        outcome(before + rest) == outcome(rest),
    decreases before.len(),
{
    if before.len() == 0 {
        assert(before + rest =~= rest);
    } else {
        let tail = before.skip(1);
        assert((before + rest)[0] == before[0]);
        assert((before + rest).skip(1) =~= tail + rest);
        assert forall|i: int| 0 <= i < tail.len() implies ((#[trigger] tail[i]) is Lagged
            || tail[i] == Heard::<R>::Message(None)) by {
            assert(tail[i] == before[i + 1]);
        }
        law_strangers_do_not_answer(tail, rest);
    }
}

} // verus!
