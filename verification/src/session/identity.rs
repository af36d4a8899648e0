//! Which peer publishes which device id.
//!
//! At most one live peer publishes a device id. The first to claim it keeps
//! it while it is online; a later claimant keeps its identity unpublished. An
//! offline holder is retired in favour of a new claimant, and a peer whose
//! device id changes gives up the old one.
use vstd::prelude::*;

use crate::session::hello::{IdentityModel, PeerIdentity};
use crate::session::peer::{event_models, EventModel, PeerEvent, PeerModel, PeerState};
use crate::text::{owned, same_text};
use crate::text_map::TextMap;

verus! {

/// What applying an identity brings about.
#[derive(Debug)]
pub enum IdentityOutcome {
    /// The entry publishes a device id that it did not publish before.
    Identity(PeerState),
    /// An offline holder of the device id was retired; its final state.
    GhostLeft(PeerState),
    /// Name or system changed under the same device id.
    Updated(PeerState),
}

impl View for IdentityOutcome {
    type V = EventModel;

    /// The event that reports the outcome.
    open spec fn view(&self) -> EventModel {
        match self {
            IdentityOutcome::Identity(s) => EventModel::Identity(s@),
            IdentityOutcome::GhostLeft(s) => EventModel::Left(s@),
            IdentityOutcome::Updated(s) => EventModel::Updated(s@),
        }
    }
}

/// The events that report a list of outcomes.
pub open spec fn outcome_models(v: Seq<IdentityOutcome>) -> Seq<EventModel> {
    Seq::new(v.len(), |i: int| v[i]@)
}

/// The peers, the owners of device ids, and what is to be reported.
pub struct Claims {
    pub peers: Map<Seq<char>, PeerModel>,
    pub by_device: Map<Seq<char>, Seq<char>>,
    pub events: Seq<EventModel>,
}

/// The entry with `identity`, published or not.
pub open spec fn with_identity(p: PeerModel, identity: IdentityModel, suppressed: bool) -> PeerModel {
    PeerModel { identity: Some(identity), identity_suppressed: suppressed, ..p }
}

/// The final state of an entry that is gone.
pub open spec fn departed(p: PeerModel) -> PeerModel {
    PeerModel { online: false, ws_connected: false, ..p }
}

/// `id` claims a device id that it does not publish.
pub open spec fn claimed(
    peers: Map<Seq<char>, PeerModel>,
    by_device: Map<Seq<char>, Seq<char>>,
    id: Seq<char>,
    identity: IdentityModel,
) -> Claims {
    let device = identity.device_id;
    let published = with_identity(peers[id], identity, false);
    if !by_device.dom().contains(device) {
        Claims {
            peers: peers.insert(id, published),
            by_device: by_device.insert(device, id),
            events: seq![EventModel::Identity(published)],
        }
    } else {
        let holder = by_device[device];
        if holder == id {
            Claims {
                peers: peers.insert(id, published),
                by_device,
                events: seq![EventModel::Identity(published)],
            }
        } else if peers.dom().contains(holder) && peers[holder].online {
            Claims {
                peers: peers.insert(id, with_identity(peers[id], identity, true)),
                by_device,
                events: seq![],
            }
        } else {
            Claims {
                peers: peers.remove(holder).insert(id, published),
                by_device: by_device.insert(device, id),
                events: if peers.dom().contains(holder) {
                    seq![EventModel::Left(departed(peers[holder])), EventModel::Identity(published)]
                } else {
                    seq![EventModel::Identity(published)]
                },
            }
        }
    }
}

/// The peer `id` says `identity` of itself.
pub open spec fn identity_applied(
    peers: Map<Seq<char>, PeerModel>,
    by_device: Map<Seq<char>, Seq<char>>,
    id: Seq<char>,
    identity: IdentityModel,
) -> Claims {
    if !peers.dom().contains(id) {
        Claims { peers, by_device, events: seq![] }
    } else {
        match peers[id].published() {
            Some(device) => if device == identity.device_id {
                let refreshed = with_identity(peers[id], identity, false);
                Claims {
                    peers: peers.insert(id, refreshed),
                    by_device,
                    events: if peers[id].identity == Some(identity) {
                        seq![]
                    } else {
                        seq![EventModel::Updated(refreshed)]
                    },
                }
            } else {
                claimed(peers, by_device.remove(device), id, identity)
            },
            None => claimed(peers, by_device, id, identity),
        }
    }
}

fn publish(
    peers: &mut TextMap<PeerState>,
    id: &str,
    identity: PeerIdentity,
    suppressed: bool,
) -> (r: PeerState)
    requires
        old(peers)@.dom().contains(id@),
    ensures
        r@ == with_identity(old(peers)@[id@], identity@, suppressed),
        final(peers)@ == old(peers)@.insert(id@, r@),
{
    let mut s: PeerState = peers.get(id).unwrap().clone();
    s.identity = Some(identity);
    s.identity_suppressed = suppressed;
    let copy: PeerState = s.clone();
    peers.insert(owned(id), s);
    copy
}

fn claim(
    peers: &mut TextMap<PeerState>,
    by_device: &mut TextMap<String>,
    ts_id: &str,
    identity: PeerIdentity,
) -> (outcomes: Vec<IdentityOutcome>)
    requires
        old(peers)@.dom().contains(ts_id@),
    ensures
        ({
            let c = claimed(old(peers)@, old(by_device)@, ts_id@, identity@);
            &&& final(peers)@ == c.peers
            &&& final(by_device)@ == c.by_device
            &&& outcome_models(outcomes@) == c.events
        }),
{
    let uid: String = identity.device_id.clone();
    let mut outcomes: Vec<IdentityOutcome> = Vec::new();
    let holder: Option<String> = match by_device.get(uid.as_str()) {
        Some(h) => Some(h.clone()),
        None => None,
    };
    match holder {
        None => {
            by_device.insert(uid, owned(ts_id));
            let s: PeerState = publish(peers, ts_id, identity, false);
            outcomes.push(IdentityOutcome::Identity(s));
        },
        Some(holder) => {
            if same_text(holder.as_str(), ts_id) {
                let s: PeerState = publish(peers, ts_id, identity, false);
                outcomes.push(IdentityOutcome::Identity(s));
            } else {
                let holder_online: bool = match peers.get(holder.as_str()) {
                    Some(p) => p.online,
                    None => false,
                };
                if holder_online {
                    let _s: PeerState = publish(peers, ts_id, identity, true);
                } else {
                    match peers.remove(holder.as_str()) {
                        Some(p) => {
                            let mut ghost_entry: PeerState = p;
                            ghost_entry.online = false;
                            ghost_entry.ws_connected = false;
                            outcomes.push(IdentityOutcome::GhostLeft(ghost_entry));
                        },
                        None => {},
                    }
                    by_device.insert(uid, owned(ts_id));
                    let s: PeerState = publish(peers, ts_id, identity, false);
                    outcomes.push(IdentityOutcome::Identity(s));
                }
            }
        },
    }
    outcomes
}

/// Records what the peer `ts_id` says of itself.
pub fn apply_identity(
    peers: &mut TextMap<PeerState>,
    by_device: &mut TextMap<String>,
    ts_id: &str,
    identity: PeerIdentity,
) -> (outcomes: Vec<IdentityOutcome>)
    ensures
        ({
            let c = identity_applied(old(peers)@, old(by_device)@, ts_id@, identity@);
            &&& final(peers)@ == c.peers
            &&& final(by_device)@ == c.by_device
            &&& outcome_models(outcomes@) == c.events
        }),
{
    let mut outcomes: Vec<IdentityOutcome> = Vec::new();
    let state: PeerState = match peers.get(ts_id) {
        Some(s) => s.clone(),
        None => {
            return outcomes;
        },
    };
    match state.published_device_id() {
        Some(prev) => {
            if same_text(prev, identity.device_id.as_str()) {
                let changed: bool = match &state.identity {
                    Some(i) => !i.same(&identity),
                    None => true,
                };
                let s: PeerState = publish(peers, ts_id, identity, false);
                if changed {
                    outcomes.push(IdentityOutcome::Updated(s));
                }
                return outcomes;
            }
            let _gone: Option<String> = by_device.remove(prev);
        },
        None => {},
    }
    claim(peers, by_device, ts_id, identity)
}

/// The events that report the outcomes, in order.
pub fn emit_identity_outcomes(outcomes: Vec<IdentityOutcome>) -> (events: Vec<PeerEvent>)
    ensures
        event_models(events@) == outcome_models(outcomes@),
{
    let mut events: Vec<PeerEvent> = Vec::new();
    for o in it: outcomes
        invariant
            events@.len() == it.index(),
            it.seq() == outcomes@,
            forall|i: int| 0 <= i < it.index() ==> events@[i]@ == outcomes@[i]@,
    {
        match o {
            IdentityOutcome::GhostLeft(state) => {
                events.push(PeerEvent::Left(state));
            },
            IdentityOutcome::Identity(state) => {
                events.push(PeerEvent::Identity(state));
            },
            IdentityOutcome::Updated(state) => {
                events.push(PeerEvent::Updated(state));
            },
        }
    }
    events
}

} // verus!
