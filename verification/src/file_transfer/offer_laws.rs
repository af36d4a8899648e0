//! What is taken on of what peers ask for, and what the application sees of it.
use vstd::prelude::*;

use crate::file_transfer::paths::base_name;
use crate::file_transfer::receiver::{
    dispatch_is, dispatched, held, is_shared, offer_ended, offer_seen, one_less, one_more,
    pull_ended, pull_refused, Dispatch, FoundPath, LoadModel,
};
use crate::file_transfer::types::{
    errand_text, Errand, FtMessage, OfferModel, TransferErrorModel,
};
use crate::text::decimal;

verus! {

/// An offer within the limit is shown as it was made, by the peer that made
/// it; of the path that the peer suggests only the last name is shown. A
/// larger one is refused with both sizes.
pub proof fn law_offer_is_shown_as_made(
    from: Seq<char>,
    name: Seq<char>,
    size: u64,
    digest: Seq<char>,
    path: Seq<char>,
    token: Seq<char>,
    max: u64,
)
    ensures
        size > max ==> offer_seen(from, name, size, digest, path, token, max) == Err::<
            OfferModel,
            TransferErrorModel,
        >(
            TransferErrorModel::Protocol(
                "Offered file size "@ + decimal(size as nat) + " exceeds max transfer size "@
                    + decimal(max as nat),
            ),
        ),
        size <= max ==> (offer_seen(from, name, size, digest, path, token, max) matches Ok(o)
            && o.from_peer == from && o.from_name == from && o.file_name == name && o.size == size
            && o.sha256 == digest && o.token == token && (base_name(path) matches Some(last)
            ==> o.suggested_path == last) && (base_name(path) is None ==> o.suggested_path.len()
            == 0)),
{
}

/// An offer is taken on where an operation is free and its peer has not too
/// many offers waiting, and a request for a file where an operation is free;
/// what is not taken on is refused under its own token, and counts nowhere.
/// Answers are left to whoever waits for them.
pub proof fn law_work_is_taken_on_within_limits(
    m: LoadModel,
    from: Seq<char>,
    msg: FtMessage,
    d: Dispatch,
    other: Seq<char>,
)
    requires
        dispatch_is(m, from, msg, d),
    ensures
        ({
            let after = dispatched(m, from, msg);
            let free = m.busy < m.capacity;
            let waiting = if m.pending.dom().contains(from) {
                m.pending[from] as nat
            } else {
                0
            };
            match msg {
                FtMessage::Offer { file_name: _, size: _, sha256: _, save_path: _, token, tcp_port: _ } => if free
                    && waiting < m.max_pending {
                    &&& d is TakeOffer
                    &&& after.busy == m.busy + 1
                    &&& after.pending.dom().contains(from)
                    &&& after.pending[from] == waiting + 1
                    &&& other != from ==> after.pending.dom().contains(other)
                        == m.pending.dom().contains(other) && after.pending[other]
                        == m.pending[other]
                } else {
                    &&& d matches Dispatch::Refuse { token: t, reason } && t@ == token@ && reason@
                        == "receiver busy"@
                    &&& after == m
                },
                FtMessage::PullRequest { path: _, requester_id: _, token } => if free {
                    &&& d is ServePull
                    &&& after.busy == m.busy + 1
                    &&& after.pending == m.pending
                } else {
                    &&& d matches Dispatch::Refuse { token: t, reason } && t@ == token@ && reason@
                        == "receiver busy"@
                    &&& after == m
                },
                _ => d is Ignore && after == m,
            }
        }),
        dispatched(m, from, msg).capacity == m.capacity,
        dispatched(m, from, msg).max_pending == m.max_pending,
{
}

/// What is over gives its operation back, and an offer the place of its peer
/// too.
pub proof fn law_work_gives_its_place_back(m: LoadModel, from: Seq<char>)
    requires
        m.busy > 0,
    ensures
        pull_ended(m).busy == m.busy - 1,
        pull_ended(m).pending == m.pending,
        offer_ended(m, from).busy == m.busy - 1,
        m.pending.dom().contains(from) && m.pending[from] > 1 ==> offer_ended(
            m,
            from,
        ).pending.dom().contains(from) && offer_ended(m, from).pending[from] == m.pending[from] - 1,
        m.pending.dom().contains(from) && m.pending[from] <= 1 ==> !offer_ended(
            m,
            from,
        ).pending.dom().contains(from),
{
}

/// Work that ends touches no limit, and of the offers that wait only those of
/// its peer; where nothing is under way nothing is counted.
pub proof fn law_work_gives_back_only_its_own(m: LoadModel, from: Seq<char>, other: Seq<char>)
    requires
        other != from,
    ensures
        m.busy == 0 ==> pull_ended(m).busy == 0 && offer_ended(m, from).busy == 0,
        pull_ended(m).capacity == m.capacity && pull_ended(m).max_pending == m.max_pending,
        offer_ended(m, from).capacity == m.capacity && offer_ended(m, from).max_pending
            == m.max_pending,
        held(offer_ended(m, from).pending, other) == held(m.pending, other),
{
}

/// A place that is taken is one more, and one that is given back one less.
pub proof fn law_places_are_counted(m: Map<Seq<char>, usize>, peer: Seq<char>)
    requires
        held(m, peer) < usize::MAX,
    ensures
        held(one_more(m, peer), peer) == held(m, peer) + 1,
        held(m, peer) > 0 ==> held(one_less(m, peer), peer) == held(m, peer) - 1,
        held(m, peer) == 0 ==> held(one_less(m, peer), peer) == 0,
{
}

/// A request is refused for the first of these reasons that holds: nothing is
/// shared, the path is no shared file, the file is too large. Else it is
/// served.
pub proof fn law_pull_is_refused_for_a_reason(
    windows: bool,
    roots: Seq<Seq<char>>,
    found: Option<FoundPath>,
    max: u64,
)
    ensures
        ({
            let r = pull_refused(windows, roots, found, max);
            let file = found is Some && is_shared(windows, roots, found->0.path@)
                && found->0.facts is Some && found->0.facts->0.is_file;
            let len = found->0.facts->0.len;
            &&& roots.len() == 0 ==> r == Some("pull serving is not enabled on this peer"@)
            &&& roots.len() > 0 && !file ==> r == Some("requested path is not shared"@)
            &&& roots.len() > 0 && file && len > max ==> r == Some(
                "file size "@ + decimal(len as nat) + " exceeds max transfer size "@ + decimal(
                    max as nat,
                ),
            )
            &&& roots.len() > 0 && file && len <= max ==> r is None
        }),
{
}

/// What the node could not do is named by the errand; a connection that could
/// not be opened, by the peer and the port.
pub proof fn law_failed_errands_are_named(errand: Errand)
    ensures
        errand is Listen ==> errand_text(errand) == "Failed to listen TCP"@,
        errand is SendAccept ==> errand_text(errand) == "Failed to send ACCEPT"@,
        errand is SendReject ==> errand_text(errand) == "Failed to send REJECT"@,
        errand is SendOffer ==> errand_text(errand) == "Failed to send OFFER"@,
        errand matches Errand::OpenTcp { peer, port } ==> errand_text(errand)
            == "Failed to open TCP to "@ + peer@ + ":"@ + decimal(port as nat),
{
}

} // verus!
