//! The peer registry: a state machine over peers, device ids and connections.
//!
//! Every operation changes the registry and says what its caller is to do:
//! which events to report, which connections to close, which node to dial.
use vstd::prelude::*;
use vstd::string::*;

use crate::network::types::{NetworkPeer, NetworkPeerEvent, PeerAddr};
use crate::session::error::{ErrorModel, SessionError};
use crate::session::hello::PeerIdentity;
use crate::session::identity::{apply_identity, emit_identity_outcomes, identity_applied};
use crate::session::model::{
    accepted, addr_of, all_unflagged, answers_to, attached, dial_noted, dialed, disconnected, freed,
    handles, installs, is_live_ref, is_name, is_some_ref, joined, joined_entry, leaves, left,
    looked_again, lost, may_inherit, no_effects, preferred_direction, refusal, replaces, routes,
    shut_down, speaks_for, unflagged, updated, updated_entry, waits_for, wants_connection,
    wants_identity, Connection, ConnectionDirection, DialModel, DialedModel, EffectsModel,
    RegistryModel, DIAL_POLLS,
};
use crate::session::peer::{
    event_models, is_peer_ref, law_peer_ref_is_unambiguous, network_peer_to_state, opt_identity,
    parse_peer_ref, EventModel, PeerEvent, PeerModel, PeerState,
};
use crate::text::{is_before, join4, owned, same_text};
use crate::text_map::{lists_keys, TextMap};

verus! {

// ---------------------------------------------------------------------------
// Values
// ---------------------------------------------------------------------------

/// How a registry behaves.
#[derive(Debug, Clone, Copy)]
pub struct PeerRegistryOptions {
    /// Ask for a peer's identity as soon as it is online.
    pub eager_identity: bool,
    /// How many identities may be asked for at once.
    pub eager_identity_concurrency: usize,
    /// Window of the delay before an identity is asked for, in milliseconds.
    pub eager_identity_jitter_ms: u64,
    /// Open no connection to a peer whose login is unknown.
    pub login_gated: bool,
}

/// The options of a registry that nothing else is said of.
pub open spec fn default_options() -> PeerRegistryOptions {
    PeerRegistryOptions {
        eager_identity: true,
        eager_identity_concurrency: 4,
        eager_identity_jitter_ms: 250,
        login_gated: false,
    }
}

impl Default for PeerRegistryOptions {
    fn default() -> (r: Self)
        ensures
            r == default_options(),
    {
        PeerRegistryOptions {
            eager_identity: true,
            eager_identity_concurrency: 4,
            eager_identity_jitter_ms: 250,
            login_gated: false,
        }
    }
}

/// What the caller of an operation is to do.
#[derive(Debug)]
pub struct Effects {
    /// Events to report, in order.
    pub events: Vec<PeerEvent>,
    /// Connections to close.
    pub close: Vec<u64>,
    /// The peer's identity is to be asked for.
    pub schedule: bool,
}

impl View for Effects {
    type V = EffectsModel;

    open spec fn view(&self) -> EffectsModel {
        EffectsModel {
            events: event_models(self.events@),
            close: self.close@,
            schedule: self.schedule,
        }
    }
}

/// What to do about a connection that is wanted.
#[derive(Debug)]
pub enum DialAction {
    /// There is one.
    Done,
    Fail(SessionError),
    /// Another dial is under way: look again in a moment.
    Wait(PeerAddr),
    /// Dial, then report with `dial_succeeded` or `dial_failed`.
    Dial(PeerAddr),
}

impl View for DialAction {
    type V = DialModel;

    open spec fn view(&self) -> DialModel {
        match self {
            DialAction::Done => DialModel::Done,
            DialAction::Fail(e) => DialModel::Fail(e@),
            DialAction::Wait(a) => DialModel::Wait(a@),
            DialAction::Dial(a) => DialModel::Dial(a@),
        }
    }
}

/// The model of a result.
pub open spec fn result_model(r: Result<(), SessionError>) -> Result<(), ErrorModel> {
    match r {
        Ok(_) => Ok(()),
        Err(e) => Err(e@),
    }
}

/// What a finished dial comes to.
#[derive(Debug)]
pub struct Dialed {
    pub result: Result<(), SessionError>,
    pub effects: Effects,
}

impl View for Dialed {
    type V = DialedModel;

    open spec fn view(&self) -> DialedModel {
        DialedModel { result: result_model(self.result), effects: self.effects@ }
    }
}

/// How a broadcast went.
#[derive(Debug)]
pub struct BroadcastReport {
    /// Peers with a connection.
    pub attempted: usize,
    /// Messages handed to a connection.
    pub queued: usize,
    /// Node ids of peers whose connection was closed already.
    pub failed: Vec<String>,
}

/// A message that a peer sent.
#[derive(Debug)]
pub struct IncomingMessage {
    /// Node id of the sender's connection.
    pub from: String,
    pub data: Vec<u8>,
    /// When it arrived, in milliseconds of the process clock.
    pub received_at_ms: u64,
}

/// The message that came over the connection of `peer_id`. Its sender is the
/// node id that the connection is authenticated for, whatever the hello said.
pub fn attribute(peer_id: &str, data: Vec<u8>, received_at_ms: u64) -> (r: IncomingMessage)
    ensures
        r.from@ == peer_id@,
        r.data == data,
        r.received_at_ms == received_at_ms,
{
    IncomingMessage { from: owned(peer_id), data, received_at_ms }
}

// ---------------------------------------------------------------------------
// Directions
// ---------------------------------------------------------------------------

/// The direction that both ends prefer when they dial each other at once.
pub fn preferred_connection_direction(local_tailscale_id: &str, peer_id: &str) -> (r: Option<
    ConnectionDirection,
>)
    ensures
        r == preferred_direction(local_tailscale_id@, peer_id@),
{
    if local_tailscale_id.is_empty() || same_text(local_tailscale_id, peer_id) {
        None
    } else if is_before(local_tailscale_id, peer_id) {
        Some(ConnectionDirection::Outbound)
    } else {
        Some(ConnectionDirection::Inbound)
    }
}

/// Whether a candidate takes the place of an existing connection.
pub fn should_replace_connection(
    existing: ConnectionDirection,
    candidate: ConnectionDirection,
    preferred: Option<ConnectionDirection>,
) -> (r: bool)
    ensures
        r == replaces(existing, candidate, preferred),
{
    match preferred {
        Some(p) => p == candidate && p != existing,
        None => false,
    }
}

// ---------------------------------------------------------------------------
// The registry
// ---------------------------------------------------------------------------

/// All that a node knows of its peers and their connections.
pub struct PeerRegistry {
    local_id: String,
    login_gated: bool,
    eager_identity: bool,
    eager_identity_concurrency: usize,
    eager_identity_jitter_ms: u64,
    peers: TextMap<PeerState>,
    by_device: TextMap<String>,
    generations: TextMap<u64>,
    connections: TextMap<Connection>,
    pending: TextMap<PeerIdentity>,
    connecting: TextMap<()>,
    inflight: TextMap<()>,
}

impl View for PeerRegistry {
    type V = RegistryModel;

    closed spec fn view(&self) -> RegistryModel {
        RegistryModel {
            local_id: self.local_id@,
            login_gated: self.login_gated,
            eager_identity: self.eager_identity,
            concurrency: self.eager_identity_concurrency,
            jitter_ms: self.eager_identity_jitter_ms,
            peers: self.peers@,
            by_device: self.by_device@,
            generations: self.generations@,
            connections: self.connections@,
            pending: self.pending@,
            connecting: self.connecting@.dom(),
            inflight: self.inflight@.dom(),
        }
    }
}

/// The state of a registry that has seen nothing.
pub open spec fn fresh(local_id: Seq<char>, options: PeerRegistryOptions) -> RegistryModel {
    RegistryModel {
        local_id,
        login_gated: options.login_gated,
        eager_identity: options.eager_identity,
        concurrency: if options.eager_identity_concurrency == 0 {
            1
        } else {
            options.eager_identity_concurrency
        },
        jitter_ms: options.eager_identity_jitter_ms,
        peers: Map::empty(),
        by_device: Map::empty(),
        generations: Map::empty(),
        connections: Map::empty(),
        pending: Map::empty(),
        connecting: Set::empty(),
        inflight: Set::empty(),
    }
}

fn one_event(e: PeerEvent) -> (r: Vec<PeerEvent>)
    ensures
        event_models(r@) == seq![e@],
{
    let mut v: Vec<PeerEvent> = Vec::new();
    v.push(e);
    assert(event_models(v@) =~= seq![e@]);
    v
}

fn push_event(v: &mut Vec<PeerEvent>, e: PeerEvent)
    ensures
        event_models(final(v)@) == event_models(old(v)@) + seq![e@],
{
    v.push(e);
    assert(event_models(v@) =~= event_models(old(v)@) + seq![e@]);
}

fn append_events(v: &mut Vec<PeerEvent>, more: Vec<PeerEvent>)
    ensures
        event_models(final(v)@) == event_models(old(v)@) + event_models(more@),
{
    let mut more = more;
    let ghost tail = more@;
    v.append(&mut more);
    assert(event_models(v@) =~= event_models(old(v)@) + event_models(tail));
}

fn nothing() -> (r: Effects)
    ensures
        r@ == no_effects(),
{
    let r = Effects { events: Vec::new(), close: Vec::new(), schedule: false };
    assert(r@.events =~= seq![]);
    assert(r@.close =~= seq![]);
    r
}

fn only_close(conn: u64) -> (r: Effects)
    ensures
        r@ == (EffectsModel { close: seq![conn], ..no_effects() }),
{
    let mut r: Effects = nothing();
    r.close.push(conn);
    assert(r@.close =~= seq![conn]);
    assert(r@.events =~= seq![]);
    r
}

impl PeerRegistry {
    /// An empty registry of the node `local_id`, with the default options.
    pub fn new(local_id: &str) -> (r: Self)
        ensures
            r@ == fresh(local_id@, default_options()),
    {
        Self::with_options(local_id, PeerRegistryOptions::default())
    }

    /// An empty registry of the node `local_id`.
    pub fn with_options(local_id: &str, options: PeerRegistryOptions) -> (r: Self)
        ensures
            r@ == fresh(local_id@, options),
    {
        let r = PeerRegistry {
            local_id: owned(local_id),
            login_gated: options.login_gated,
            eager_identity: options.eager_identity,
            eager_identity_concurrency: if options.eager_identity_concurrency == 0 {
                1
            } else {
                options.eager_identity_concurrency
            },
            eager_identity_jitter_ms: options.eager_identity_jitter_ms,
            peers: TextMap::new(),
            by_device: TextMap::new(),
            generations: TextMap::new(),
            connections: TextMap::new(),
            pending: TextMap::new(),
            connecting: TextMap::new(),
            inflight: TextMap::new(),
        };
        assert(r.connecting@.dom() =~= Set::empty());
        r
    }

    /// This node learned its own node id.
    pub fn set_local_id(&mut self, local_id: &str)
        ensures
            final(self)@ == (RegistryModel { local_id: local_id@, ..old(self)@ }),
    {
        self.local_id = owned(local_id);
    }

    /// How many identities may be asked for at once.
    pub fn eager_concurrency(&self) -> (r: usize)
        ensures
            r == self@.concurrency,
    {
        self.eager_identity_concurrency
    }

    /// Window of the delay before an identity is asked for, in milliseconds.
    pub fn eager_jitter_window(&self) -> (r: u64)
        ensures
            r == self@.jitter_ms,
    {
        self.eager_identity_jitter_ms
    }

    /// How often `id` has joined so far.
    pub fn stays(&self, id: &str) -> (r: u64)
        ensures
            r == self@.stays(id@),
    {
        match self.generations.get(id) {
            Some(g) => *g,
            None => 0,
        }
    }

    /// Puts `entry` in place and applies the identity that waited for it. Says
    /// which events that brings, and whether an identity waited.
    fn enter(&mut self, entry: PeerState) -> (r: (Vec<PeerEvent>, bool))
        ensures
            ({
                let id = entry@.id;
                let c = old(self)@.entered(id, entry@);
                &&& final(self)@ == (RegistryModel {
                    peers: c.peers,
                    by_device: c.by_device,
                    pending: old(self)@.pending.remove(id),
                    ..old(self)@
                })
                &&& event_models(r.0@) == c.events
                &&& r.1 == old(self)@.pending.dom().contains(id)
                &&& c.peers.dom().contains(id)
            }),
    {
        let id: String = entry.id.clone();
        let waiting: Option<PeerIdentity> = self.pending.remove(id.as_str());
        let key: String = id.clone();
        self.peers.insert(key, entry);
        match waiting {
            Some(identity) => {
                let outcomes = apply_identity(
                    &mut self.peers,
                    &mut self.by_device,
                    id.as_str(),
                    identity,
                );
                (emit_identity_outcomes(outcomes), true)
            },
            None => {
                let none: Vec<PeerEvent> = Vec::new();
                assert(event_models(none@) =~= seq![]);
                (none, false)
            },
        }
    }

    /// A peer joined the network.
    pub fn peer_joined(&mut self, peer: &NetworkPeer) -> (r: Effects)
        requires
            old(self)@.stays(peer@.id) < u64::MAX,
        ensures
            (final(self)@, r@) == joined(old(self)@, peer@),
    {
        let ghost m = self@;
        let g: u64 = self.stays(peer.id.as_str()) + 1;
        let key: String = peer.id.clone();
        self.generations.insert(key, g);
        let mut state: PeerState = network_peer_to_state(peer, g);
        state.ws_connected = self.connections.contains(peer.id.as_str());
        assert(state@ == joined_entry(m, peer@));
        let mut events: Vec<PeerEvent> = one_event(PeerEvent::Joined(state.clone()));
        let (more, _waited) = self.enter(state);
        append_events(&mut events, more);
        let needs: bool = match self.peers.get(peer.id.as_str()) {
            Some(s) => s.lacks_identity(),
            None => false,
        };
        let r = Effects { events, close: Vec::new(), schedule: self.eager_identity && needs };
        assert(r@.close =~= seq![]);
        r
    }

    /// A peer's network data changed.
    pub fn peer_updated(&mut self, peer: &NetworkPeer) -> (r: Effects)
        requires
            old(self)@.peers.dom().contains(peer@.id) || old(self)@.stays(peer@.id) < u64::MAX,
        ensures
            (final(self)@, r@) == updated(old(self)@, peer@),
    {
        let ghost m = self@;
        let mut state: PeerState = network_peer_to_state(peer, 0);
        state.ws_connected = self.connections.contains(peer.id.as_str());
        let fresh_online: bool;
        match self.peers.get(peer.id.as_str()) {
            Some(existing) => {
                state.generation = existing.generation;
                state.identity = match &existing.identity {
                    Some(i) => Some(i.clone()),
                    None => None,
                };
                state.identity_suppressed = existing.identity_suppressed;
                fresh_online = !existing.online;
            },
            None => {
                let g: u64 = self.stays(peer.id.as_str()) + 1;
                state.generation = g;
                fresh_online = true;
                let key: String = peer.id.clone();
                self.generations.insert(key, g);
            },
        }
        assert(state@ == updated_entry(m, peer@));
        let lacks: bool = state.lacks_identity();
        let (mut events, waited) = self.enter(state);
        let now: PeerState = self.peers.get(peer.id.as_str()).unwrap().clone();
        let needs: bool = if waited {
            now.lacks_identity()
        } else {
            fresh_online && lacks
        };
        push_event(&mut events, PeerEvent::Updated(now));
        let r = Effects { events, close: Vec::new(), schedule: self.eager_identity && needs };
        assert(r@.close =~= seq![]);
        r
    }

    /// A peer that waits for `device`, other than `gone`.
    fn find_heir(&self, device: &str, gone: &str) -> (r: Option<String>)
        requires
            !self@.peers.dom().contains(gone@),
        ensures
            match r {
                Some(k) => self@.peers.dom().contains(k@) && waits_for(self@.peers[k@], device@),
                None => forall|k: Seq<char>| #[trigger]
                    self@.peers.dom().contains(k) ==> !waits_for(self@.peers[k], device@),
            },
    {
        let n: usize = self.peers.len();
        let mut i: usize = 0;
        while i < n
            invariant
                n == self.peers.count(),
                i <= n,
                forall|j: int|
                    0 <= j < i ==> !waits_for(self.peers@[#[trigger] self.peers.key(j)], device@),
            decreases n - i,
        {
            let (key, p) = self.peers.entry(i);
            if p.online && p.identity_suppressed {
                match &p.identity {
                    Some(ident) => {
                        if same_text(ident.device_id.as_str(), device) {
                            return Some(key.clone());
                        }
                    },
                    None => {},
                }
            }
            i += 1;
        }
        proof {
            assert forall|k: Seq<char>| #[trigger] self@.peers.dom().contains(k) implies !waits_for(
                self@.peers[k],
                device@,
            ) by {
                self.peers.lemma_keys(k);
            }
        }
        None
    }

    /// A peer left the network.
    pub fn peer_left(&mut self, peer_id: &str) -> (r: Effects)
        ensures
            leaves(old(self)@, peer_id@, final(self)@, r@),
    {
        let ghost m = self@;
        let mut events: Vec<PeerEvent> = Vec::new();
        let mut close: Vec<u64> = Vec::new();
        assert(event_models(events@) =~= seq![]);
        let _waiting: Option<PeerIdentity> = self.pending.remove(peer_id);
        match self.connections.remove(peer_id) {
            Some(c) => {
                close.push(c.id);
                push_event(&mut events, PeerEvent::WsDisconnected(owned(peer_id)));
                assert(close@ =~= seq![m.connections[peer_id@].id]);
                assert(event_models(events@) =~= seq![EventModel::WsDisconnected(peer_id@)]);
            },
            None => {
                assert(close@ =~= seq![]);
            },
        }
        let ghost quiet = event_models(events@);
        let mut heir: Option<String> = None;
        match self.peers.remove(peer_id) {
            None => {},
            Some(entry) => {
                let mut removed: PeerState = entry;
                let mut free: Option<String> = None;
                match removed.published_device_id() {
                    Some(uid) => {
                        let owns: bool = match self.by_device.get(uid) {
                            Some(holder) => same_text(holder.as_str(), peer_id),
                            None => false,
                        };
                        if owns {
                            let _holder: Option<String> = self.by_device.remove(uid);
                            free = Some(owned(uid));
                        }
                    },
                    None => {},
                }
                assert(crate::text::opt_text(free) == freed(m, peer_id@));
                match free {
                    Some(uid) => {
                        heir = self.find_heir(uid.as_str(), peer_id);
                        proof {
                            assert forall|k: Seq<char>|
                                k != peer_id@ && #[trigger] m.peers.dom().contains(
                                    k,
                                ) implies self@.peers.dom().contains(k) && self@.peers[k]
                                == m.peers[k] by {}
                        }
                        match &heir {
                            Some(k) => {
                                let mut promoted: PeerState = self.peers.get(
                                    k.as_str(),
                                ).unwrap().clone();
                                promoted.identity_suppressed = false;
                                let snapshot: PeerState = promoted.clone();
                                self.peers.insert(k.clone(), promoted);
                                self.by_device.insert(uid, k.clone());
                                push_event(&mut events, PeerEvent::Identity(snapshot));
                            },
                            None => {},
                        }
                    },
                    None => {},
                }
                removed.online = false;
                removed.ws_connected = false;
                push_event(&mut events, PeerEvent::Left(removed));
            },
        }
        let r = Effects { events, close, schedule: false };
        proof {
            let h = crate::text::opt_text(heir);
            let want = left(m, peer_id@, h);
            assert(may_inherit(m, peer_id@, h));
            assert(r@.events =~= want.1.events);
            assert(self@.by_device =~= want.0.by_device);
            assert(self@.peers =~= want.0.peers);
            assert((self@, r@) == left(m, peer_id@, h));
        }
        r
    }

    /// Handles one event of the network.
    pub fn handle_network_event(&mut self, event: NetworkPeerEvent) -> (r: Effects)
        requires
            match event {
                NetworkPeerEvent::Joined(p) => old(self)@.stays(p@.id) < u64::MAX,
                NetworkPeerEvent::Updated(p) => old(self)@.peers.dom().contains(p@.id) || old(
                    self,
                )@.stays(p@.id) < u64::MAX,
                _ => true,
            },
        ensures
            handles(old(self)@, event@, final(self)@, r@),
    {
        match event {
            NetworkPeerEvent::Joined(p) => self.peer_joined(&p),
            NetworkPeerEvent::Left(id) => self.peer_left(id.as_str()),
            NetworkPeerEvent::Updated(p) => self.peer_updated(&p),
            NetworkPeerEvent::AuthRequired { url } => {
                let mut r: Effects = nothing();
                r.events = one_event(PeerEvent::AuthRequired { url });
                r
            },
        }
    }

    // -----------------------------------------------------------------------
    // Connections
    // -----------------------------------------------------------------------

    /// Keeps a new connection to `peer_id`, or not. Gives the connection that
    /// is to be closed, if there is one.
    pub fn install_connection(&mut self, peer_id: &str, conn: Connection) -> (r: (
        bool,
        Option<u64>,
    ))
        ensures
            r.0 == installs(old(self)@, peer_id@, conn.direction),
            r.1 == if !r.0 {
                Some(conn.id)
            } else if old(self)@.connected(peer_id@) {
                Some(old(self)@.connections[peer_id@].id)
            } else {
                None
            },
            final(self)@ == (if r.0 {
                RegistryModel {
                    connections: old(self)@.connections.insert(peer_id@, conn),
                    ..old(self)@
                }
            } else {
                old(self)@
            }),
    {
        let preferred = preferred_connection_direction(self.local_id.as_str(), peer_id);
        let mut old_conn: Option<u64> = None;
        let replace: bool = match self.connections.get(peer_id) {
            None => true,
            Some(existing) => {
                old_conn = Some(existing.id);
                should_replace_connection(existing.direction, conn.direction, preferred)
            },
        };
        if replace {
            self.connections.insert(owned(peer_id), conn);
            (true, old_conn)
        } else {
            (false, Some(conn.id))
        }
    }

    /// Notes a connection that was kept, and what its hello said.
    fn attach(
        &mut self,
        peer_id: &str,
        conn: Connection,
        identity: Option<PeerIdentity>,
        replaced: Option<u64>,
    ) -> (r: Effects)
        requires
            old(self)@.connections.dom().contains(peer_id@),
            old(self)@.connections[peer_id@] == conn,
        ensures
            forall|m: RegistryModel|
                #![trigger attached(m, peer_id@, conn, opt_identity(identity))]
                (RegistryModel { connections: m.connections.insert(peer_id@, conn), ..m })
                    == old(self)@ && (replaced == if m.connected(peer_id@) {
                    Some(m.connections[peer_id@].id)
                } else {
                    None::<u64>
                }) ==> (final(self)@, r@) == attached(m, peer_id@, conn, opt_identity(identity)),
    {
        let ghost start = self@;
        let mut known: Option<PeerState> = match self.peers.get(peer_id) {
            Some(s) => Some(s.clone()),
            None => None,
        };
        match known {
            Some(s) => {
                let mut s = s;
                s.ws_connected = true;
                self.peers.insert(owned(peer_id), s);
            },
            None => {},
        }
        let mut events: Vec<PeerEvent> = match identity {
            Some(i) => {
                let outcomes = apply_identity(&mut self.peers, &mut self.by_device, peer_id, i);
                emit_identity_outcomes(outcomes)
            },
            None => {
                let none: Vec<PeerEvent> = Vec::new();
                assert(event_models(none@) =~= seq![]);
                none
            },
        };
        push_event(&mut events, PeerEvent::WsConnected(owned(peer_id)));
        let mut close: Vec<u64> = Vec::new();
        match replaced {
            Some(c) => {
                close.push(c);
            },
            None => {},
        }
        let r = Effects { events, close, schedule: false };
        proof {
            assert forall|m: RegistryModel|
                #![trigger attached(m, peer_id@, conn, opt_identity(identity))]
                (RegistryModel { connections: m.connections.insert(peer_id@, conn), ..m }) == start
                    && (replaced == if m.connected(peer_id@) {
                    Some(m.connections[peer_id@].id)
                } else {
                    None::<u64>
                }) implies (self@, r@) == attached(m, peer_id@, conn, opt_identity(identity)) by {
                let want = attached(m, peer_id@, conn, opt_identity(identity));
                assert(r@.close =~= want.1.close);
                assert(r@.events =~= want.1.events);
                assert(self@.connections =~= want.0.connections);
            }
        }
        r
    }

    /// A peer connected to us; its hello said `identity`. Says whether the
    /// connection is kept.
    pub fn connection_accepted(
        &mut self,
        peer_id: &str,
        conn: u64,
        identity: Option<PeerIdentity>,
    ) -> (r: (bool, Effects))
        ensures
            r.0 == installs(old(self)@, peer_id@, ConnectionDirection::Inbound),
            (final(self)@, r.1@) == accepted(
                old(self)@,
                peer_id@,
                conn,
                opt_identity(identity),
            ),
    {
        let ghost m = self@;
        let c = Connection { id: conn, direction: ConnectionDirection::Inbound };
        let (installed, other) = self.install_connection(peer_id, c);
        if !installed {
            return (false, only_close(conn));
        }
        let known: bool = self.peers.contains(peer_id);
        let kept: Option<PeerIdentity> = match &identity {
            Some(i) => if known {
                None
            } else {
                Some(i.clone())
            },
            None => None,
        };
        let ghost said = opt_identity(identity);
        let effects: Effects = self.attach(peer_id, c, identity, other);
        assert((self@, effects@) == attached(m, peer_id@, c, said));
        match kept {
            Some(i) => {
                self.pending.insert(owned(peer_id), i);
            },
            None => {},
        }
        (true, effects)
    }

    /// Sets the connection flag of `id` off.
    fn unflag(&mut self, id: &str)
        ensures
            final(self)@ == (RegistryModel { peers: unflagged(old(self)@.peers, id@), ..old(self)@
            }),
    {
        let known: Option<PeerState> = match self.peers.get(id) {
            Some(s) => Some(s.clone()),
            None => None,
        };
        match known {
            Some(s) => {
                let mut s = s;
                s.ws_connected = false;
                self.peers.insert(owned(id), s);
            },
            None => {},
        }
    }

    /// Gives up the connection of a peer. The peer stays.
    pub fn disconnect(&mut self, peer_id: &str) -> (r: Effects)
        ensures
            (final(self)@, r@) == disconnected(old(self)@, peer_id@),
    {
        let mut close: Vec<u64> = Vec::new();
        match self.connections.remove(peer_id) {
            Some(c) => {
                close.push(c.id);
            },
            None => {},
        }
        self.unflag(peer_id);
        let events = one_event(PeerEvent::WsDisconnected(owned(peer_id)));
        let r = Effects { events, close, schedule: false };
        assert(r@.close =~= disconnected(old(self)@, peer_id@).1.close);
        r
    }

    /// The connection `conn` of a peer broke.
    pub fn connection_lost(&mut self, peer_id: &str, conn: u64) -> (r: Effects)
        ensures
            (final(self)@, r@) == lost(old(self)@, peer_id@, conn),
    {
        let owns: bool = match self.connections.get(peer_id) {
            Some(c) => c.id == conn,
            None => false,
        };
        let mut r: Effects = nothing();
        if owns {
            let _c: Option<Connection> = self.connections.remove(peer_id);
            self.unflag(peer_id);
            r.events = one_event(PeerEvent::WsDisconnected(owned(peer_id)));
        }
        r
    }

    /// Gives up every connection.
    pub fn shutdown(&mut self) -> (r: Effects)
        ensures
            exists|order: Seq<Seq<char>>|
                lists_keys(order, old(self)@.connections) && (final(self)@, r@)
                    == #[trigger] shut_down(old(self)@, order),
    {
        let ghost m = self@;
        let n: usize = self.connections.len();
        let mut events: Vec<PeerEvent> = Vec::new();
        let mut close: Vec<u64> = Vec::new();
        let ghost order: Seq<Seq<char>> = self.connections.order();
        let mut i: usize = 0;
        while i < n
            invariant
                n == self.connections.count(),
                n == order.len(),
                i <= n,
                self@ == m,
                forall|j: int| 0 <= j < n ==> order[j] == self.connections.key(j),
                events@.len() == i,
                close@.len() == i,
                forall|j: int|
                    0 <= j < i ==> (#[trigger] events@[j])@ == EventModel::WsDisconnected(order[j]),
                forall|j: int| 0 <= j < i ==> #[trigger] close@[j] == m.connections[order[j]].id,
            decreases n - i,
        {
            let (key, c) = self.connections.entry(i);
            close.push(c.id);
            events.push(PeerEvent::WsDisconnected(key.clone()));
            i += 1;
        }
        self.connections = TextMap::new();
        let np: usize = self.peers.len();
        let mut flat: TextMap<PeerState> = TextMap::new();
        let mut p: usize = 0;
        while p < np
            invariant
                np == self.peers.count(),
                p <= np,
                self@.peers == m.peers,
                forall|k: Seq<char>| #[trigger]
                    flat@.dom().contains(k) ==> m.peers.dom().contains(k) && flat@[k]
                        == (PeerModel { ws_connected: false, ..m.peers[k] }),
                forall|j: int| 0 <= j < p ==> flat@.dom().contains(#[trigger] self.peers.key(j)),
            decreases np - p,
        {
            let (key, s) = self.peers.entry(p);
            let mut s: PeerState = s.clone();
            s.ws_connected = false;
            flat.insert(key.clone(), s);
            p += 1;
        }
        proof {
            assert forall|k: Seq<char>| #[trigger] m.peers.dom().contains(k) implies flat@.dom().contains(k) by {
                self.peers.lemma_keys(k);
            }
            assert(flat@ =~= all_unflagged(m.peers));
        }
        self.peers = flat;
        let r = Effects { events, close, schedule: false };
        proof {
            let want = shut_down(m, order);
            assert(r@.events =~= want.1.events);
            assert(r@.close =~= want.1.close);
            assert((self@, r@) == shut_down(m, order));
        }
        r
    }
}

impl PeerRegistry {
    // -----------------------------------------------------------------------
    // Dialing
    // -----------------------------------------------------------------------

    /// Why `peer_id` may not be dialed now, or its address.
    fn dial_target(&self, peer_id: &str, backoff: Option<u64>) -> (r: Result<
        PeerAddr,
        SessionError,
    >)
        ensures
            match r {
                Ok(a) => refusal(self@, peer_id@, backoff) is None && self@.peers.dom().contains(
                    peer_id@,
                ) && a@ == addr_of(self@.peers[peer_id@]),
                Err(e) => refusal(self@, peer_id@, backoff) == Some(e@),
            },
    {
        match self.peers.get(peer_id) {
            None => Err(SessionError::UnknownPeer(owned(peer_id))),
            Some(state) => {
                if !state.online {
                    return Err(SessionError::PeerOffline(owned(peer_id)));
                }
                if self.login_gated && state.login_name.is_none() {
                    return Err(SessionError::LoginUnknown(owned(peer_id)));
                }
                match backoff {
                    Some(retry_after_nanos) => Err(
                        SessionError::ReconnectBackoff { retry_after_nanos },
                    ),
                    None => Ok(
                        PeerAddr {
                            ip: Some(state.ip.clone()),
                            hostname: state.name.clone(),
                            dns_name: None,
                        },
                    ),
                }
            },
        }
    }

    fn note_dial(&mut self, peer_id: &str)
        ensures
            final(self)@ == (RegistryModel {
                connecting: old(self)@.connecting.insert(peer_id@),
                ..old(self)@
            }),
    {
        self.connecting.insert(owned(peer_id), ());
        assert(self@.connecting =~= old(self)@.connecting.insert(peer_id@));
    }

    /// A connection to `peer_id` is wanted. `backoff` is how long its dials
    /// are to pause, in nanoseconds, if they are.
    pub fn ensure_ws_connected(&mut self, peer_id: &str, backoff: Option<u64>) -> (r: DialAction)
        ensures
            r@ == wants_connection(old(self)@, peer_id@, backoff),
            final(self)@ == dial_noted(old(self)@, peer_id@, r@),
    {
        if self.connections.contains(peer_id) {
            return DialAction::Done;
        }
        match self.dial_target(peer_id, backoff) {
            Err(e) => DialAction::Fail(e),
            Ok(addr) => {
                if self.connecting.contains(peer_id) {
                    DialAction::Wait(addr)
                } else {
                    self.note_dial(peer_id);
                    DialAction::Dial(addr)
                }
            },
        }
    }

    /// The caller waited for another dial, and looks for the `polls`-th time.
    pub fn dial_waited(&mut self, peer_id: &str, addr: PeerAddr, polls: u32) -> (r: DialAction)
        ensures
            r@ == looked_again(old(self)@, peer_id@, addr@, polls),
            final(self)@ == dial_noted(old(self)@, peer_id@, r@),
    {
        if self.connections.contains(peer_id) {
            return DialAction::Done;
        }
        if !self.connecting.contains(peer_id) {
            self.note_dial(peer_id);
            return DialAction::Dial(addr);
        }
        if polls < DIAL_POLLS {
            DialAction::Wait(addr)
        } else {
            DialAction::Fail(SessionError::ConnectFailed(owned("connection already in progress")))
        }
    }

    /// The identity of `peer_id` is wanted, without traffic to send.
    pub fn eager_connect_ws(&mut self, peer_id: &str, backoff: Option<u64>) -> (r: DialAction)
        ensures
            r@ == wants_identity(old(self)@, peer_id@, backoff),
            final(self)@ == dial_noted(old(self)@, peer_id@, r@),
    {
        if self.connections.contains(peer_id) {
            return DialAction::Done;
        }
        match self.peers.get(peer_id) {
            Some(state) => {
                if state.online && state.published_device_id().is_some() {
                    return DialAction::Done;
                }
            },
            None => {},
        }
        match self.dial_target(peer_id, backoff) {
            Err(e) => DialAction::Fail(e),
            Ok(addr) => {
                if self.connecting.contains(peer_id) {
                    DialAction::Fail(
                        SessionError::ConnectFailed(owned("connection already in progress")),
                    )
                } else {
                    self.note_dial(peer_id);
                    DialAction::Dial(addr)
                }
            },
        }
    }

    /// The identity of `peer_id` is wanted by the application: nothing is to
    /// be done when it is published already; an offline peer is refused.
    pub fn ensure_identity(&mut self, peer_id: &str, backoff: Option<u64>) -> (r: DialAction)
        ensures
            ({
                let m = old(self)@;
                let known = m.peers.dom().contains(peer_id@);
                &&& known && m.peers[peer_id@].published() is Some ==> r@ == DialModel::Done
                    && final(self)@ == m
                &&& known && m.peers[peer_id@].published() is None && !m.peers[peer_id@].online
                    ==> r@ == DialModel::Fail(ErrorModel::PeerOffline(peer_id@)) && final(self)@
                    == m
                &&& !known ==> r@ == DialModel::Fail(ErrorModel::UnknownPeer(peer_id@))
                    && final(self)@ == m
                &&& known && m.peers[peer_id@].lacks_identity() ==> r@ == wants_connection(
                    m,
                    peer_id@,
                    backoff,
                ) && final(self)@ == dial_noted(m, peer_id@, r@)
            }),
    {
        match self.peers.get(peer_id) {
            None => {
                return DialAction::Fail(SessionError::UnknownPeer(owned(peer_id)));
            },
            Some(s) => {
                if s.published_device_id().is_some() {
                    return DialAction::Done;
                }
                if !s.online {
                    return DialAction::Fail(SessionError::PeerOffline(owned(peer_id)));
                }
            },
        }
        self.ensure_ws_connected(peer_id, backoff)
    }

    fn dial_ended(&mut self, peer_id: &str)
        ensures
            final(self)@ == (RegistryModel {
                connecting: old(self)@.connecting.remove(peer_id@),
                ..old(self)@
            }),
    {
        let _noted: Option<()> = self.connecting.remove(peer_id);
        assert(self@.connecting =~= old(self)@.connecting.remove(peer_id@));
    }

    /// The dial of `peer_id` failed; the transport said `reason`.
    pub fn dial_failed(&mut self, peer_id: &str, reason: String) -> (r: SessionError)
        ensures
            r@ == ErrorModel::ConnectFailed(reason@),
            final(self)@ == (RegistryModel {
                connecting: old(self)@.connecting.remove(peer_id@),
                ..old(self)@
            }),
    {
        self.dial_ended(peer_id);
        SessionError::ConnectFailed(reason)
    }

    /// The dial of `peer_id` brought the connection `conn`, whose hello said
    /// `identity`. A node that says it is another is turned away.
    pub fn dial_succeeded(
        &mut self,
        peer_id: &str,
        conn: u64,
        identity: Option<PeerIdentity>,
    ) -> (r: Dialed)
        ensures
            (final(self)@, r@) == dialed(old(self)@, peer_id@, conn, opt_identity(identity)),
    {
        self.dial_ended(peer_id);
        let ghost idle = self@;
        match &identity {
            Some(claimed) => {
                if !same_text(claimed.tailscale_id.as_str(), peer_id) {
                    let text = join4(
                        "hello identity mismatch: dialed ",
                        peer_id,
                        ", answerer claims ",
                        claimed.tailscale_id.as_str(),
                    );
                    return Dialed {
                        result: Err(SessionError::ConnectFailed(text)),
                        effects: only_close(conn),
                    };
                }
            },
            None => {},
        }
        let c = Connection { id: conn, direction: ConnectionDirection::Outbound };
        let (installed, other) = self.install_connection(peer_id, c);
        if !installed {
            return Dialed { result: Ok(()), effects: only_close(conn) };
        }
        let ghost said = opt_identity(identity);
        let effects: Effects = self.attach(peer_id, c, identity, other);
        assert((self@, effects@) == attached(idle, peer_id@, c, said));
        Dialed { result: Ok(()), effects }
    }

    // -----------------------------------------------------------------------
    // Asking for identities
    // -----------------------------------------------------------------------

    /// Whether a search for the identity of `peer_id` is to start. At most one
    /// runs for a peer.
    pub fn eager_begin(&mut self, peer_id: &str) -> (r: bool)
        ensures
            r == (old(self)@.eager_identity && !old(self)@.inflight.contains(peer_id@)),
            final(self)@ == (if r {
                RegistryModel { inflight: old(self)@.inflight.insert(peer_id@), ..old(self)@ }
            } else {
                old(self)@
            }),
    {
        if !self.eager_identity || self.inflight.contains(peer_id) {
            return false;
        }
        self.inflight.insert(owned(peer_id), ());
        assert(self@.inflight =~= old(self)@.inflight.insert(peer_id@));
        true
    }

    /// Whether the search is to go on: the peer is online and its identity is
    /// not known.
    pub fn eager_needed(&self, peer_id: &str) -> (r: bool)
        ensures
            r == (self@.peers.dom().contains(peer_id@)
                && self@.peers[peer_id@].lacks_identity()),
    {
        match self.peers.get(peer_id) {
            Some(s) => s.lacks_identity(),
            None => false,
        }
    }

    /// The search for the identity of `peer_id` is over.
    pub fn eager_end(&mut self, peer_id: &str)
        ensures
            final(self)@ == (RegistryModel {
                inflight: old(self)@.inflight.remove(peer_id@),
                ..old(self)@
            }),
    {
        let _noted: Option<()> = self.inflight.remove(peer_id);
        assert(self@.inflight =~= old(self)@.inflight.remove(peer_id@));
    }

    // -----------------------------------------------------------------------
    // Queries
    // -----------------------------------------------------------------------

    /// All peers, each once.
    pub fn peers(&self) -> (r: Vec<PeerState>)
        ensures
            exists|order: Seq<Seq<char>>| #[trigger]
                lists_keys(order, self@.peers) && order.len() == r@.len() && forall|i: int|
                    0 <= i < r@.len() ==> (#[trigger] r@[i])@ == self@.peers[order[i]],
    {
        let n: usize = self.peers.len();
        let ghost order: Seq<Seq<char>> = self.peers.order();
        let mut out: Vec<PeerState> = Vec::new();
        let mut i: usize = 0;
        while i < n
            invariant
                n == self.peers.count(),
                order == self.peers.order(),
                i <= n,
                out@.len() == i,
                forall|j: int| 0 <= j < i ==> (#[trigger] out@[j])@ == self.peers@[order[j]],
            decreases n - i,
        {
            let (_key, p) = self.peers.entry(i);
            out.push(p.clone());
            i += 1;
        }
        assert(lists_keys(order, self@.peers));
        out
    }

    /// The node that publishes a device id.
    pub fn test_by_device(&self, device_id: &str) -> (r: Option<String>)
        ensures
            match r {
                Some(id) => self@.by_device.dom().contains(device_id@)
                    && self@.by_device[device_id@] == id@,
                None => !self@.by_device.dom().contains(device_id@),
            },
    {
        match self.by_device.get(device_id) {
            Some(id) => Some(id.clone()),
            None => None,
        }
    }

    /// The device id that traffic of `tailscale_id` may speak for.
    pub fn published_device_id(&self, tailscale_id: &str) -> (r: Option<String>)
        ensures
            crate::text::opt_text(r) == speaks_for(self@, tailscale_id@),
    {
        match self.peers.get(tailscale_id) {
            Some(state) => match state.published_device_id() {
                Some(d) => Some(owned(d)),
                None => None,
            },
            None => {
                if !self.connections.contains(tailscale_id) {
                    return None;
                }
                match self.pending.get(tailscale_id) {
                    Some(identity) => if self.by_device.contains(identity.device_id.as_str()) {
                        None
                    } else {
                        Some(identity.device_id.clone())
                    },
                    None => None,
                }
            },
        }
    }

    /// Records what a peer said of itself outside a connection of ours. Says
    /// whether the registry knows the peer.
    pub fn test_stamp_identity(&mut self, peer_id: &str, identity: PeerIdentity) -> (r: (
        bool,
        Vec<PeerEvent>,
    ))
        ensures
            r.0 == old(self)@.peers.dom().contains(peer_id@),
            ({
                let c = identity_applied(
                    old(self)@.peers,
                    old(self)@.by_device,
                    peer_id@,
                    identity@,
                );
                &&& final(self)@ == (RegistryModel {
                    peers: c.peers,
                    by_device: c.by_device,
                    ..old(self)@
                })
                &&& event_models(r.1@) == c.events
            }),
    {
        let known: bool = self.peers.contains(peer_id);
        let outcomes = apply_identity(&mut self.peers, &mut self.by_device, peer_id, identity);
        (known, emit_identity_outcomes(outcomes))
    }

    /// A peer that answers to `name`.
    fn find_named(&self, name: &str) -> (r: Option<String>)
        ensures
            match r {
                Some(k) => self@.peers.dom().contains(k@) && answers_to(self@.peers[k@], name@),
                None => !is_name(self@, name@),
            },
    {
        let n: usize = self.peers.len();
        let mut i: usize = 0;
        while i < n
            invariant
                n == self.peers.count(),
                i <= n,
                forall|j: int|
                    0 <= j < i ==> !answers_to(self.peers@[#[trigger] self.peers.key(j)], name@),
            decreases n - i,
        {
            let (key, p) = self.peers.entry(i);
            if same_text(p.name.as_str(), name) {
                return Some(key.clone());
            }
            if !p.identity_suppressed {
                match &p.identity {
                    Some(ident) => {
                        if same_text(ident.device_name.as_str(), name) {
                            return Some(key.clone());
                        }
                    },
                    None => {},
                }
            }
            i += 1;
        }
        proof {
            assert forall|k: Seq<char>| #[trigger] self@.peers.dom().contains(k) implies !answers_to(
                self@.peers[k],
                name@,
            ) by {
                self.peers.lemma_keys(k);
            }
        }
        None
    }

    /// The node that a target means: a node id, a published device id, a name,
    /// or the handle of a stay that is not over.
    pub fn resolve_routing_key(&self, target: &str) -> (r: Result<String, SessionError>)
        ensures
            routes(
                self@,
                target@,
                match r {
                    Ok(id) => Ok(id@),
                    Err(e) => Err(e@),
                },
            ),
    {
        if self.peers.contains(target) {
            return Ok(owned(target));
        }
        match self.by_device.get(target) {
            Some(id) => {
                return Ok(id.clone());
            },
            None => {},
        }
        match self.find_named(target) {
            Some(id) => {
                return Ok(id);
            },
            None => {},
        }
        match parse_peer_ref(target) {
            Some((id, generation)) => {
                assert(is_some_ref(target@));
                let live: bool = match self.peers.get(id) {
                    Some(p) => p.generation == generation,
                    None => false,
                };
                proof {
                    assert forall|other: Seq<char>| #[trigger]
                        is_live_ref(self@, target@, other) implies live && other == id@ by {
                        let g = choose|g: nat| #[trigger]
                            is_peer_ref(target@, other, g) && self@.peers.dom().contains(other)
                                && self@.peers[other].generation == g;
                        law_peer_ref_is_unambiguous(
                            target@,
                            id@,
                            generation as nat,
                            other,
                            g,
                        );
                    }
                }
                if live {
                    assert(is_live_ref(self@, target@, id@));
                    Ok(owned(id))
                } else {
                    Err(SessionError::PeerGone(owned(target)))
                }
            },
            None => {
                assert(!is_some_ref(target@));
                Err(SessionError::UnknownPeer(owned(target)))
            },
        }
    }

    /// A message is to go to `target`: the node that it means, and what to do
    /// about its connection.
    pub fn send(&mut self, target: &str, backoff: Option<u64>) -> (r: Result<
        (String, DialAction),
        SessionError,
    >)
        ensures
            match r {
                Ok((id, action)) => routes(old(self)@, target@, Ok(id@)) && action@
                    == wants_connection(old(self)@, id@, backoff) && final(self)@ == dial_noted(
                    old(self)@,
                    id@,
                    action@,
                ),
                Err(e) => routes(old(self)@, target@, Err(e@)) && final(self)@ == old(self)@,
            },
    {
        match self.resolve_routing_key(target) {
            Ok(id) => {
                let action = self.ensure_ws_connected(id.as_str(), backoff);
                Ok((id, action))
            },
            Err(e) => Err(e),
        }
    }

    /// The connection that a message to `peer_id` goes over.
    pub fn send_target(&self, peer_id: &str) -> (r: Result<u64, SessionError>)
        ensures
            match r {
                Ok(c) => self@.connected(peer_id@) && c == self@.connections[peer_id@].id,
                Err(e) => !self@.connected(peer_id@) && e@ == ErrorModel::SendFailed(
                    "connection missing after connect"@,
                ),
            },
    {
        match self.connections.get(peer_id) {
            Some(c) => Ok(c.id),
            None => Err(SessionError::SendFailed(owned("connection missing after connect"))),
        }
    }

    /// The node ids and connections that a broadcast goes to.
    pub fn broadcast_targets(&self) -> (r: Vec<(String, u64)>)
        ensures
            exists|order: Seq<Seq<char>>| #[trigger]
                lists_keys(order, self@.connections) && order.len() == r@.len() && forall|i: int|
                    0 <= i < r@.len() ==> (#[trigger] r@[i]).0@ == order[i] && r@[i].1
                        == self@.connections[order[i]].id,
    {
        let n: usize = self.connections.len();
        let ghost order: Seq<Seq<char>> = self.connections.order();
        let mut out: Vec<(String, u64)> = Vec::new();
        let mut i: usize = 0;
        while i < n
            invariant
                n == self.connections.count(),
                order == self.connections.order(),
                i <= n,
                out@.len() == i,
                forall|j: int|
                    0 <= j < i ==> (#[trigger] out@[j]).0@ == order[j] && out@[j].1
                        == self.connections@[order[j]].id,
            decreases n - i,
        {
            let (key, c) = self.connections.entry(i);
            out.push((key.clone(), c.id));
            i += 1;
        }
        assert(lists_keys(order, self@.connections));
        out
    }
}

/// The node ids whose message was not taken, in order.
pub open spec fn not_taken(targets: Seq<(String, u64)>, taken: Seq<bool>) -> Seq<Seq<char>>
    decreases targets.len(),
{
    if targets.len() == 0 {
        seq![]
    } else {
        let rest = not_taken(targets.drop_last(), taken);
        if taken[targets.len() - 1] {
            rest
        } else {
            rest.push(targets.last().0@)
        }
    }
}

impl PeerRegistry {
    /// The report of a broadcast to `targets`, of which the `i`-th took its
    /// message when `taken[i]`.
    pub fn broadcast(targets: &Vec<(String, u64)>, taken: &Vec<bool>) -> (r: BroadcastReport)
        requires
            targets@.len() == taken@.len(),
        ensures
            r.attempted == targets@.len(),
            crate::text::texts(r.failed@) == not_taken(targets@, taken@),
            r.queued + r.failed@.len() == r.attempted,
    {
        let mut failed: Vec<String> = Vec::new();
        let mut queued: usize = 0;
        let mut i: usize = 0;
        assert(crate::text::texts(failed@) =~= not_taken(targets@.take(0), taken@));
        while i < targets.len()
            invariant
                targets@.len() == taken@.len(),
                i <= targets@.len(),
                queued + failed@.len() == i,
                crate::text::texts(failed@) == not_taken(targets@.take(i as int), taken@),
            decreases targets@.len() - i,
        {
            proof {
                assert(targets@.take(i + 1).drop_last() =~= targets@.take(i as int));
            }
            let ghost before = failed@;
            if taken[i] {
                queued += 1;
            } else {
                failed.push(targets[i].0.clone());
                proof {
                    assert(crate::text::texts(failed@) =~= crate::text::texts(before).push(
                        targets@[i as int].0@,
                    ));
                }
            }
            i += 1;
        }
        assert(targets@.take(targets@.len() as int) =~= targets@);
        BroadcastReport { attempted: targets.len(), queued, failed }
    }
}

} // verus!
