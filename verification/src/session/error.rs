//! Why a session operation was refused.
use vstd::prelude::*;

use crate::text::join2;

verus! {

/// What `Debug` of a `Duration` of so many nanoseconds prints.
pub uninterp spec fn duration_debug(nanos: u64) -> Seq<char>;

/// `format!("{:?}", Duration::from_nanos(nanos))`, a function of the number
/// of nanoseconds alone.
#[verifier::external_body]
pub(crate) fn duration_text(nanos: u64) -> (r: String)
    ensures
        r@ == duration_debug(nanos),
{
    format!("{:?}", std::time::Duration::from_nanos(nanos))
}

/// Errors of session operations.
#[derive(Debug)]
pub enum SessionError {
    /// The registry does not know the peer.
    UnknownPeer(String),
    /// The handle names a stay of the peer that is over.
    PeerGone(String),
    PeerOffline(String),
    ConnectFailed(String),
    SendFailed(String),
    /// The last dials failed; how long to wait before the next, in nanoseconds.
    ReconnectBackoff { retry_after_nanos: u64 },
    /// This node admits listed logins only, and the network cannot state the
    /// peer's.
    LoginUnknown(String),
    Transport(String),
}

/// The texts of a [`SessionError`].
pub enum ErrorModel {
    UnknownPeer(Seq<char>),
    PeerGone(Seq<char>),
    PeerOffline(Seq<char>),
    ConnectFailed(Seq<char>),
    SendFailed(Seq<char>),
    ReconnectBackoff(u64),
    LoginUnknown(Seq<char>),
    Transport(Seq<char>),
}

impl View for SessionError {
    type V = ErrorModel;

    open spec fn view(&self) -> ErrorModel {
        match self {
            SessionError::UnknownPeer(s) => ErrorModel::UnknownPeer(s@),
            SessionError::PeerGone(s) => ErrorModel::PeerGone(s@),
            SessionError::PeerOffline(s) => ErrorModel::PeerOffline(s@),
            SessionError::ConnectFailed(s) => ErrorModel::ConnectFailed(s@),
            SessionError::SendFailed(s) => ErrorModel::SendFailed(s@),
            SessionError::ReconnectBackoff { retry_after_nanos } => ErrorModel::ReconnectBackoff(
                *retry_after_nanos,
            ),
            SessionError::LoginUnknown(s) => ErrorModel::LoginUnknown(s@),
            SessionError::Transport(s) => ErrorModel::Transport(s@),
        }
    }
}

impl ErrorModel {
    /// The message shown to a user.
    pub open spec fn text(self) -> Seq<char> {
        match self {
            ErrorModel::UnknownPeer(s) => "unknown peer: "@ + s,
            ErrorModel::PeerGone(s) => "peer gone: "@ + s,
            ErrorModel::PeerOffline(s) => "peer offline: "@ + s,
            ErrorModel::ConnectFailed(s) => "connect failed: "@ + s,
            ErrorModel::SendFailed(s) => "send failed: "@ + s,
            ErrorModel::ReconnectBackoff(n) => "reconnect backoff: retry after "@ + duration_debug(
                n,
            ),
            ErrorModel::LoginUnknown(s) => "login unknown for peer: "@ + s,
            ErrorModel::Transport(s) => "transport error: "@ + s,
        }
    }
}

impl SessionError {
    /// The message shown to a user.
    pub fn message(&self) -> (r: String)
        ensures
            r@ == self@.text(),
    {
        match self {
            SessionError::UnknownPeer(s) => join2("unknown peer: ", s.as_str()),
            SessionError::PeerGone(s) => join2("peer gone: ", s.as_str()),
            SessionError::PeerOffline(s) => join2("peer offline: ", s.as_str()),
            SessionError::ConnectFailed(s) => join2("connect failed: ", s.as_str()),
            SessionError::SendFailed(s) => join2("send failed: ", s.as_str()),
            SessionError::ReconnectBackoff { retry_after_nanos } => {
                let d: String = duration_text(*retry_after_nanos);
                join2("reconnect backoff: retry after ", d.as_str())
            },
            SessionError::LoginUnknown(s) => join2("login unknown for peer: ", s.as_str()),
            SessionError::Transport(s) => join2("transport error: ", s.as_str()),
        }
    }
}

} // verus!
