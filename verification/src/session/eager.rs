//! Asking peers for their identity before there is traffic for them.
use std::hash::BuildHasher;

use vstd::prelude::*;

use crate::session::error::{ErrorModel, SessionError};
use crate::session::registry::result_model;

verus! {

/// How long an identity is waited for before the next try, at least and by
/// default, in nanoseconds.
pub const EAGER_MIN_WAIT_NANOS: u64 = 25_000_000;

pub const EAGER_DEFAULT_WAIT_NANOS: u64 = 100_000_000;

/// What follows a try to learn an identity.
#[derive(Debug, Clone, Copy, PartialEq, Eq, Structural)]
pub enum EagerStep {
    Stop,
    /// Try again after so many nanoseconds.
    RetryAfter(u64),
}

/// What follows a try that ended in `result`, when the node's dials are to
/// pause for `retry_after_nanos`.
pub open spec fn eager_step(
    result: Result<(), ErrorModel>,
    retry_after_nanos: Option<u64>,
) -> EagerStep {
    match result {
        Ok(_) => EagerStep::Stop,
        Err(ErrorModel::UnknownPeer(_)) => EagerStep::Stop,
        Err(ErrorModel::PeerOffline(_)) => EagerStep::Stop,
        Err(_) => {
            let wait = match retry_after_nanos {
                Some(n) => n,
                None => EAGER_DEFAULT_WAIT_NANOS,
            };
            EagerStep::RetryAfter(
                if wait < EAGER_MIN_WAIT_NANOS {
                    EAGER_MIN_WAIT_NANOS
                } else {
                    wait
                },
            )
        },
    }
}

/// What follows a try to learn an identity: the search ends when it is known,
/// or when the peer is gone or offline; otherwise it goes on after a pause.
pub fn next_eager_step(result: &Result<(), SessionError>, retry_after_nanos: Option<u64>) -> (r:
    EagerStep)
    ensures
        r == eager_step(result_model(*result), retry_after_nanos),
{
    match result {
        Ok(_) => EagerStep::Stop,
        Err(SessionError::UnknownPeer(_)) => EagerStep::Stop,
        Err(SessionError::PeerOffline(_)) => EagerStep::Stop,
        Err(_) => {
            let wait: u64 = match retry_after_nanos {
                Some(n) => n,
                None => EAGER_DEFAULT_WAIT_NANOS,
            };
            EagerStep::RetryAfter(
                if wait < EAGER_MIN_WAIT_NANOS {
                    EAGER_MIN_WAIT_NANOS
                } else {
                    wait
                },
            )
        },
    }
}

/// The hash that the hashers of `DefaultHasher::default` give a text.
pub uninterp spec fn default_hash(s: Seq<char>) -> u64;

/// `BuildHasher::hash_one` with a `DefaultHasher` made by `default`: all such
/// hashers give equal texts equal hashes.
#[verifier::external_body]
fn hash_of(s: &str) -> (r: u64)
    ensures
        r == default_hash(s@),
{
    std::hash::BuildHasherDefault::<std::collections::hash_map::DefaultHasher>::default().hash_one(s)
}

/// Where `hash` falls in a window of `window_ms` milliseconds.
pub open spec fn folded(hash: u64, window_ms: u64) -> u64 {
    if window_ms == 0 {
        0
    } else {
        hash % window_ms
    }
}

/// Folds a hash into a window; a window of zero has no delay.
pub fn fold_into_window(hash: u64, window_ms: u64) -> (r: u64)
    ensures
        r == folded(hash, window_ms),
        window_ms == 0 ==> r == 0,
        window_ms > 0 ==> r < window_ms,
{
    if window_ms == 0 {
        0
    } else {
        hash % window_ms
    }
}

/// How long to wait before asking `peer_id` for its identity, in milliseconds:
/// the same for one peer every time, less than the window, and spread over it.
pub fn eager_jitter_delay(peer_id: &str, window_ms: u64) -> (r: u64)
    ensures
        r == folded(default_hash(peer_id@), window_ms),
        window_ms == 0 ==> r == 0,
        window_ms > 0 ==> r < window_ms,
{
    if window_ms == 0 {
        return 0;
    }
    fold_into_window(hash_of(peer_id), window_ms)
}

} // verus!
