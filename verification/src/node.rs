//! Peers as applications see them.
use vstd::prelude::*;

use crate::session::hello::{IdentityModel, PeerIdentity};
use crate::session::peer::{PeerModel, PeerState};
use crate::text::{copy_opt, opt_text};

verus! {

/// A peer as applications see it.
#[derive(Debug)]
pub struct Peer {
    /// Durable id; `None` until the peer said who it is.
    pub device_id: Option<String>,
    pub device_name: Option<String>,
    /// A name that is always there.
    pub display_name: String,
    pub hostname: String,
    /// Stable node id, the routing key.
    pub tailscale_id: String,
    pub peer_ref: String,
    pub generation: u64,
    /// Address in its canonical text form.
    pub ip: String,
    pub online: bool,
    pub ws_connected: bool,
    pub connection_type: String,
    pub os: Option<String>,
    pub last_seen: Option<String>,
    pub login_name: Option<String>,
}

/// The texts of a [`Peer`].
pub struct PeerViewModel {
    pub device_id: Option<Seq<char>>,
    pub device_name: Option<Seq<char>>,
    pub display_name: Seq<char>,
    pub hostname: Seq<char>,
    pub tailscale_id: Seq<char>,
    pub peer_ref: Seq<char>,
    pub generation: u64,
    pub ip: Seq<char>,
    pub online: bool,
    pub ws_connected: bool,
    pub connection_type: Seq<char>,
    pub os: Option<Seq<char>>,
    pub last_seen: Option<Seq<char>>,
    pub login_name: Option<Seq<char>>,
}

impl View for Peer {
    type V = PeerViewModel;

    open spec fn view(&self) -> PeerViewModel {
        PeerViewModel {
            device_id: opt_text(self.device_id),
            device_name: opt_text(self.device_name),
            display_name: self.display_name@,
            hostname: self.hostname@,
            tailscale_id: self.tailscale_id@,
            peer_ref: self.peer_ref@,
            generation: self.generation,
            ip: self.ip@,
            online: self.online,
            ws_connected: self.ws_connected,
            connection_type: self.connection_type@,
            os: opt_text(self.os),
            last_seen: opt_text(self.last_seen),
            login_name: opt_text(self.login_name),
        }
    }
}

pub open spec fn peer_views(v: Seq<Peer>) -> Seq<PeerViewModel> {
    v.map_values(|p: Peer| p@)
}

/// The registry's entry that a peer looks like. Of its identity only what a
/// view shows is known.
pub open spec fn state_of(p: PeerViewModel) -> PeerModel {
    PeerModel {
        id: p.tailscale_id,
        generation: p.generation,
        name: p.hostname,
        ip: p.ip,
        online: p.online,
        ws_connected: p.ws_connected,
        connection_type: p.connection_type,
        os: p.os,
        last_seen: p.last_seen,
        identity: match p.device_id {
            Some(id) => Some(
                IdentityModel {
                    app_id: Seq::empty(),
                    device_id: id,
                    device_name: match p.device_name {
                        Some(n) => n,
                        None => p.display_name,
                    },
                    os: match p.os {
                        Some(o) => o,
                        None => Seq::empty(),
                    },
                    tailscale_id: p.tailscale_id,
                },
            ),
            None => None,
        },
        identity_suppressed: false,
        login_name: p.login_name,
    }
}

impl Peer {
    /// The registry's entry that this peer looks like.
    pub fn to_state(&self) -> (r: PeerState)
        ensures
            r@ == state_of(self@),
    {
        let identity: Option<PeerIdentity> = match &self.device_id {
            Some(id) => {
                let device_name: String = match &self.device_name {
                    Some(n) => n.clone(),
                    None => self.display_name.clone(),
                };
                let os: String = match &self.os {
                    Some(o) => o.clone(),
                    None => String::new(),
                };
                assert(self.os is None ==> os@ =~= Seq::empty());
                let app_id: String = String::new();
                assert(app_id@ =~= Seq::empty());
                Some(
                    PeerIdentity {
                        app_id,
                        device_id: id.clone(),
                        device_name,
                        os,
                        tailscale_id: self.tailscale_id.clone(),
                    },
                )
            },
            None => None,
        };
        PeerState {
            id: self.tailscale_id.clone(),
            generation: self.generation,
            name: self.hostname.clone(),
            ip: self.ip.clone(),
            online: self.online,
            ws_connected: self.ws_connected,
            connection_type: self.connection_type.clone(),
            os: copy_opt(&self.os),
            last_seen: copy_opt(&self.last_seen),
            identity,
            identity_suppressed: false,
            login_name: copy_opt(&self.login_name),
        }
    }
}

/// The entries of the peers that are online, in order.
pub open spec fn states_online(peers: Seq<PeerViewModel>) -> Seq<PeerModel>
    decreases peers.len(),
{
    if peers.len() == 0 {
        Seq::empty()
    } else if peers.last().online {
        states_online(peers.drop_last()).push(state_of(peers.last()))
    } else {
        states_online(peers.drop_last())
    }
}

pub open spec fn state_models(v: Seq<PeerState>) -> Seq<PeerModel> {
    v.map_values(|s: PeerState| s@)
}

/// The entries of the peers that are online: what a fresh look at the network
/// reports again, so that nothing is missed that happened before anybody
/// listened.
pub fn polled_states(peers: &Vec<Peer>) -> (r: Vec<PeerState>)
    ensures
        state_models(r@) == states_online(peer_views(peers@)),
{
    let n: usize = peers.len();
    let mut out: Vec<PeerState> = Vec::new();
    let mut i: usize = 0;
    let ghost all = peer_views(peers@);
    assert(state_models(out@) =~= states_online(all.take(0)));
    while i < n
        invariant
            n == peers@.len(),
            i <= n,
            all == peer_views(peers@),
            state_models(out@) == states_online(all.take(i as int)),
        decreases n - i,
    {
        let ghost was = out@;
        assert(all.take(i + 1).drop_last() =~= all.take(i as int));
        assert(all.take(i + 1).last() == peers@[i as int]@);
        if peers[i].online {
            out.push(peers[i].to_state());
            assert(state_models(out@) =~= state_models(was).push(out@.last()@));
        }
        i += 1;
    }
    assert(all.take(n as int) =~= all);
    out
}

} // verus!
