//! Names of nodes, as users write them.
//!
//! A name is looked up among the aliases, then among the peers' names, their
//! ids and their addresses. Where nothing is found, something near is
//! suggested.
use vstd::prelude::*;
use vstd::string::*;
use vstd::utf8::encode_utf8;

use crate::node::{peer_views, Peer, PeerViewModel};
use crate::text::{
    chars_of, contains_part, eq_ignore_ascii_case, has_part, join2, join3, lowercase, opt_text,
    owned, same_ignoring_ascii_case, same_text, texts, to_lower,
};
use crate::text_map::{lists_keys, TextMap};

verus! {

// ---------------------------------------------------------------------------
// Results
// ---------------------------------------------------------------------------

/// How a name was found.
#[derive(Debug, Clone, Copy, PartialEq, Eq, Structural)]
pub enum ResolvedVia {
    Alias,
    PeerName,
    PeerId,
    IpAddress,
}

/// What a name means.
#[derive(Debug)]
pub struct ResolvedTarget {
    /// The routing key.
    pub peer_id: String,
    /// The name to show.
    pub display_name: String,
    pub ip: String,
    pub resolved_via: ResolvedVia,
}

/// Why a name means nothing.
#[derive(Debug)]
pub enum ResolveError {
    NotFound { input: String, suggestion: Option<String> },
}

/// The texts of a [`ResolvedTarget`].
pub struct TargetModel {
    pub peer_id: Seq<char>,
    pub display_name: Seq<char>,
    pub ip: Seq<char>,
    pub via: ResolvedVia,
}

/// The texts of a [`ResolveError`].
pub struct NotFoundModel {
    pub input: Seq<char>,
    pub suggestion: Option<Seq<char>>,
}

impl View for ResolvedTarget {
    type V = TargetModel;

    open spec fn view(&self) -> TargetModel {
        TargetModel {
            peer_id: self.peer_id@,
            display_name: self.display_name@,
            ip: self.ip@,
            via: self.resolved_via,
        }
    }
}

impl View for ResolveError {
    type V = NotFoundModel;

    open spec fn view(&self) -> NotFoundModel {
        match self {
            ResolveError::NotFound { input, suggestion } => NotFoundModel {
                input: input@,
                suggestion: opt_text(*suggestion),
            },
        }
    }
}

pub open spec fn resolved_model(r: Result<ResolvedTarget, ResolveError>) -> Result<
    TargetModel,
    NotFoundModel,
> {
    match r {
        Ok(t) => Ok(t@),
        Err(e) => Err(e@),
    }
}

impl NotFoundModel {
    /// The message shown to a user.
    pub open spec fn text(self) -> Seq<char> {
        let head = "Can't find a node named \""@ + self.input + "\"."@;
        match self.suggestion {
            Some(s) => head + (" Did you mean \""@ + s + "\"?"@),
            None => head,
        }
    }
}

impl ResolveError {
    /// The message shown to a user.
    pub fn message(&self) -> (r: String)
        ensures
            r@ == self@.text(),
    {
        match self {
            ResolveError::NotFound { input, suggestion } => {
                let head: String = join3("Can't find a node named \"", input.as_str(), "\".");
                match suggestion {
                    Some(s) => {
                        let tail: String = join3(" Did you mean \"", s.as_str(), "\"?");
                        join2(head.as_str(), tail.as_str())
                    },
                    None => head,
                }
            },
        }
    }
}

// ---------------------------------------------------------------------------
// Distance
// ---------------------------------------------------------------------------

pub open spec fn least(a: nat, b: nat) -> nat {
    if a <= b {
        a
    } else {
        b
    }
}

/// How many characters must be put in, taken out or replaced to make one text
/// of the other.
pub open spec fn edits(a: Seq<char>, b: Seq<char>) -> nat
    decreases a.len() + b.len(),
{
    if a.len() == 0 {
        b.len()
    } else if b.len() == 0 {
        a.len()
    } else {
        let cost: nat = if a.last() == b.last() {
            0
        } else {
            1
        };
        least(
            least(edits(a.drop_last(), b) + 1, edits(a, b.drop_last()) + 1),
            edits(a.drop_last(), b.drop_last()) + cost,
        )
    }
}

proof fn lemma_edits_bound(a: Seq<char>, b: Seq<char>)
    ensures
        edits(a, b) <= a.len() || edits(a, b) <= b.len(),
    decreases a.len() + b.len(),
{
    if a.len() > 0 && b.len() > 0 {
        lemma_edits_bound(a.drop_last(), b.drop_last());
    }
}

/// The distance between two texts.
pub fn edit_distance(a: &str, b: &str) -> (r: usize)
    ensures
        r == edits(a@, b@),
{
    let x: Vec<char> = chars_of(a);
    let y: Vec<char> = chars_of(b);
    let n: usize = x.len();
    let m: usize = y.len();
    if n == 0 {
        return m;
    }
    if m == 0 {
        return n;
    }
    let mut prev: Vec<usize> = Vec::new();
    let mut k: usize = 0;
    assert(x@.take(0).len() == 0);
    while k < m
        invariant
            k <= m == y@.len(),
            prev@.len() == k,
            forall|j: int| 0 <= j < k ==> #[trigger] prev@[j] == j,
        decreases m - k,
    {
        prev.push(k);
        k += 1;
    }
    prev.push(m);
    let width: usize = prev.len();
    assert(width == m + 1);
    let mut i: usize = 0;
    while i < n
        invariant
            i <= n == x@.len(),
            m == y@.len(),
            m > 0,
            width == m + 1,
            prev@.len() == width,
            forall|j: int|
                0 <= j <= m ==> #[trigger] prev@[j] == edits(x@.take(i as int), y@.take(j)),
        decreases n - i,
    {
        let mut curr: Vec<usize> = Vec::new();
        assert(y@.take(0).len() == 0);
        curr.push(i + 1);
        assert(curr@[0] == edits(x@.take(i + 1), y@.take(0)));
        let mut j: usize = 0;
        while j < m
            invariant
                i < n == x@.len(),
                j <= m == y@.len(),
                width == m + 1,
                prev@.len() == width,
                curr@.len() == j + 1,
                forall|l: int|
                    0 <= l <= m ==> #[trigger] prev@[l] == edits(x@.take(i as int), y@.take(l)),
                forall|l: int|
                    0 <= l <= j ==> #[trigger] curr@[l] == edits(x@.take(i + 1), y@.take(l)),
            decreases m - j,
        {
            proof {
                let p = x@.take(i + 1);
                let q = y@.take(j + 1);
                assert(p.drop_last() =~= x@.take(i as int));
                assert(q.drop_last() =~= y@.take(j as int));
                assert(p.last() == x@[i as int]);
                assert(q.last() == y@[j as int]);
                lemma_edits_bound(x@.take(i as int), y@.take(j + 1));
                lemma_edits_bound(x@.take(i + 1), y@.take(j as int));
                lemma_edits_bound(x@.take(i as int), y@.take(j as int));
            }
            let up: usize = prev[j + 1];
            let left: usize = curr[j];
            let corner: usize = prev[j];
            let mut best: usize = corner;
            if x[i] != y[j] {
                best = corner + 1;
            }
            if up < best {
                best = up + 1;
            }
            if left < best {
                best = left + 1;
            }
            curr.push(best);
            assert(curr@[j + 1] == edits(x@.take(i + 1), y@.take(j + 1)));
            j += 1;
        }
        prev = curr;
        i += 1;
    }
    assert(x@.take(n as int) =~= x@);
    assert(y@.take(m as int) =~= y@);
    prev[m]
}

/// A text is nothing away from itself, and as far from another as that is from
/// it.
pub proof fn law_distance_is_symmetric(a: Seq<char>, b: Seq<char>)
    ensures
        edits(a, a) == 0,
        edits(a, b) == edits(b, a),
    decreases a.len() + b.len(),
{
    lemma_edits_self(a);
    if a.len() > 0 && b.len() > 0 {
        law_distance_is_symmetric(a.drop_last(), b);
        law_distance_is_symmetric(a, b.drop_last());
        law_distance_is_symmetric(a.drop_last(), b.drop_last());
    }
}

proof fn lemma_edits_self(a: Seq<char>)
    ensures
        edits(a, a) == 0,
    decreases a.len(),
{
    if a.len() > 0 {
        lemma_edits_self(a.drop_last());
    }
}

// ---------------------------------------------------------------------------
// Suggestions
// ---------------------------------------------------------------------------

/// How far a suggestion may be away, by the bytes of the name.
pub open spec fn reach(name_len: nat) -> nat {
    if name_len / 3 > 2 {
        name_len / 3
    } else {
        2
    }
}

/// The nearest candidate within reach, the first of those equally near: its
/// number and its distance.
pub open spec fn nearest(name: Seq<char>, lowered: Seq<Seq<char>>, within: nat) -> Option<(int, nat)>
    decreases lowered.len(),
{
    if lowered.len() == 0 {
        None
    } else {
        let d = edits(name, lowered.last());
        match nearest(name, lowered.drop_last(), within) {
            Some((i, best)) => if d <= within && d < best {
                Some((lowered.len() - 1, d))
            } else {
                Some((i, best))
            },
            None => if d <= within {
                Some((lowered.len() - 1, d))
            } else {
                None
            },
        }
    }
}

/// One text is part of the other.
pub open spec fn overlaps(a: Seq<char>, b: Seq<char>) -> bool {
    has_part(a, b) || has_part(b, a)
}

/// The first candidate that overlaps, from `from` on.
pub open spec fn first_overlap(name: Seq<char>, lowered: Seq<Seq<char>>, from: int) -> int
    decreases lowered.len() - from,
{
    if from >= lowered.len() {
        lowered.len() as int
    } else if overlaps(lowered[from], name) {
        from
    } else {
        first_overlap(name, lowered, from + 1)
    }
}

/// The candidate that is suggested: the nearest within reach, else the first
/// that overlaps. Names are compared in lower case.
pub open spec fn suggested(
    name: Seq<char>,
    candidates: Seq<Seq<char>>,
    lowered: Seq<Seq<char>>,
    within: nat,
) -> Option<Seq<char>> {
    match nearest(name, lowered, within) {
        Some((i, _)) => Some(candidates[i]),
        None => {
            let i = first_overlap(name, lowered, 0);
            if i < lowered.len() {
                Some(candidates[i])
            } else {
                None
            }
        },
    }
}

pub proof fn lemma_nearest_in_range(name: Seq<char>, lowered: Seq<Seq<char>>, within: nat)
    ensures
        nearest(name, lowered, within) matches Some((i, d)) ==> 0 <= i < lowered.len() && d
            <= within && d == edits(name, lowered[i]),
    decreases lowered.len(),
{
    if lowered.len() > 0 {
        lemma_nearest_in_range(name, lowered.drop_last(), within);
    }
}

/// What is suggested by its distance is a candidate within reach, and none is
/// nearer.
pub proof fn law_suggestion_is_nearest(
    name: Seq<char>,
    lowered: Seq<Seq<char>>,
    within: nat,
    k: int,
)
    requires
        0 <= k < lowered.len(),
    ensures
        match nearest(name, lowered, within) {
            Some((i, d)) => 0 <= i < lowered.len() && d == edits(name, lowered[i]) && d <= within
                && d <= edits(name, lowered[k]) && (edits(name, lowered[k]) == d ==> i <= k),
            None => edits(name, lowered[k]) > within,
        },
    decreases lowered.len(),
{
    lemma_nearest_in_range(name, lowered, within);
    lemma_nearest_in_range(name, lowered.drop_last(), within);
    if k < lowered.len() - 1 {
        law_suggestion_is_nearest(name, lowered.drop_last(), within, k);
    } else if lowered.len() > 1 {
        law_suggestion_is_nearest(name, lowered.drop_last(), within, 0);
    }
}

/// Picks the candidate to suggest. `lowered` are the candidates in lower case,
/// `name` the name in lower case.
pub fn suggest_among(
    name: &str,
    candidates: &Vec<String>,
    lowered: &Vec<String>,
    within: usize,
) -> (r: Option<String>)
    requires
        candidates@.len() == lowered@.len(),
    ensures
        opt_text(r) == suggested(name@, texts(candidates@), texts(lowered@), within as nat),
{
    let n: usize = lowered.len();
    let ghost all = texts(lowered@);
    let mut best: Option<(usize, usize)> = None;
    let mut i: usize = 0;
    while i < n
        invariant
            n == lowered@.len() == candidates@.len() == all.len(),
            i <= n,
            all == texts(lowered@),
            match best {
                Some((k, d)) => k < i && nearest(name@, all.take(i as int), within as nat) == Some(
                    (k as int, d as nat),
                ),
                None => nearest(name@, all.take(i as int), within as nat) is None,
            },
        decreases n - i,
    {
        assert(all.take(i + 1).drop_last() =~= all.take(i as int));
        assert(all.take(i + 1).last() == lowered@[i as int]@);
        let d: usize = edit_distance(name, lowered[i].as_str());
        if d <= within {
            match best {
                Some((_, b)) => {
                    if d < b {
                        best = Some((i, d));
                    }
                },
                None => best = Some((i, d)),
            }
        }
        i += 1;
    }
    assert(all.take(n as int) =~= all);
    match best {
        Some((k, _)) => return Some(candidates[k].clone()),
        None => {},
    }
    let mut j: usize = 0;
    while j < n
        invariant
            n == lowered@.len() == candidates@.len() == all.len(),
            j <= n,
            all == texts(lowered@),
            first_overlap(name@, all, 0) == first_overlap(name@, all, j as int),
            nearest(name@, all, within as nat) is None,
        decreases n - j,
    {
        assert(all[j as int] == lowered@[j as int]@);
        if contains_part(lowered[j].as_str(), name) || contains_part(name, lowered[j].as_str()) {
            return Some(candidates[j].clone());
        }
        j += 1;
    }
    None
}

// ---------------------------------------------------------------------------
// Names
// ---------------------------------------------------------------------------

/// The name that a peer goes by.
pub open spec fn label(p: PeerViewModel) -> Seq<char> {
    match p.device_name {
        Some(n) => if n.len() > 0 {
            n
        } else {
            p.display_name
        },
        None => p.display_name,
    }
}

pub open spec fn labels(peers: Seq<PeerViewModel>) -> Seq<Seq<char>> {
    peers.map_values(|p: PeerViewModel| label(p))
}

/// The peer goes by a name: it is its device name, or the one that it goes by,
/// whatever the case of either. `low_label` and `low` are that one and the
/// name in lower case.
pub open spec fn goes_by(
    p: PeerViewModel,
    low_label: Seq<char>,
    name: Seq<char>,
    low: Seq<char>,
) -> bool {
    low_label == low || p.device_name == Some(name)
}

/// The first peer that goes by a name, from `from` on; their number if none.
/// `low_labels` are the names that the peers go by, in lower case.
pub open spec fn first_named(
    peers: Seq<PeerViewModel>,
    low_labels: Seq<Seq<char>>,
    name: Seq<char>,
    low: Seq<char>,
    from: int,
) -> int
    decreases peers.len() - from,
{
    if from >= peers.len() {
        peers.len() as int
    } else if goes_by(peers[from], low_labels[from], name, low) {
        from
    } else {
        first_named(peers, low_labels, name, low, from + 1)
    }
}

/// The peer has an id: a device id, or a node id.
pub open spec fn has_id(p: PeerViewModel, id: Seq<char>) -> bool {
    p.device_id == Some(id) || p.tailscale_id == id
}

/// The first peer that a test takes, from `from` on; their number if none.
pub open spec fn first_peer(
    peers: Seq<PeerViewModel>,
    test: spec_fn(PeerViewModel) -> bool,
    from: int,
) -> int
    decreases peers.len() - from,
{
    if from >= peers.len() {
        peers.len() as int
    } else if test(peers[from]) {
        from
    } else {
        first_peer(peers, test, from + 1)
    }
}

pub open spec fn target(p: PeerViewModel, via: ResolvedVia) -> TargetModel {
    TargetModel { peer_id: p.tailscale_id, display_name: label(p), ip: p.ip, via }
}

/// What a name means. `lower` is the name in lower case, `low_labels` the names
/// that the peers go by in lower case, `addr` the address that the name is, and
/// `suggestion` what is suggested where it means nothing.
pub open spec fn resolved(
    aliases: Map<Seq<char>, Seq<char>>,
    peers: Seq<PeerViewModel>,
    name: Seq<char>,
    lower: Seq<char>,
    low_labels: Seq<Seq<char>>,
    addr: Option<Seq<char>>,
    suggestion: Option<Seq<char>>,
) -> Result<TargetModel, NotFoundModel> {
    let n = peers.len() as int;
    let by_alias = first_peer(
        peers,
        |p: PeerViewModel| same_ignoring_ascii_case(label(p), aliases[name]),
        0,
    );
    let by_name = first_named(peers, low_labels, name, lower, 0);
    let by_id = first_peer(peers, |p: PeerViewModel| has_id(p, name), 0);
    let by_ip = match addr {
        Some(a) => first_peer(peers, |p: PeerViewModel| p.ip == a, 0),
        None => n,
    };
    if aliases.dom().contains(name) {
        if by_alias < n {
            Ok(target(peers[by_alias], ResolvedVia::Alias))
        } else {
            Err(NotFoundModel { input: name, suggestion: None })
        }
    } else if by_name < n {
        Ok(target(peers[by_name], ResolvedVia::PeerName))
    } else if by_id < n {
        Ok(target(peers[by_id], ResolvedVia::PeerId))
    } else if by_ip < n {
        Ok(target(peers[by_ip], ResolvedVia::IpAddress))
    } else {
        Err(NotFoundModel { input: name, suggestion })
    }
}

fn peer_label(p: &Peer) -> (r: String)
    ensures
        r@ == label(p@),
{
    match &p.device_name {
        Some(n) => if n.as_str().is_empty() {
            p.display_name.clone()
        } else {
            n.clone()
        },
        None => p.display_name.clone(),
    }
}

fn resolve_to(p: &Peer, via: ResolvedVia) -> (r: ResolvedTarget)
    ensures
        r@ == target(p@, via),
{
    ResolvedTarget {
        peer_id: p.tailscale_id.clone(),
        display_name: peer_label(p),
        ip: p.ip.clone(),
        resolved_via: via,
    }
}

/// Looks names up.
pub struct NameResolver {
    aliases: TextMap<String>,
    peers: Vec<Peer>,
}

impl NameResolver {
    pub closed spec fn alias_map(self) -> Map<Seq<char>, Seq<char>> {
        self.aliases@
    }

    pub closed spec fn peer_list(self) -> Seq<PeerViewModel> {
        peer_views(self.peers@)
    }

    /// A resolver over aliases and peers.
    pub fn new(aliases: TextMap<String>, peers: Vec<Peer>) -> (r: Self)
        ensures
            r.alias_map() == aliases@,
            r.peer_list() == peer_views(peers@),
    {
        NameResolver { aliases, peers }
    }

    fn find_label(&self, name: &str) -> (r: usize)
        ensures
            r == first_peer(
                self.peer_list(),
                |p: PeerViewModel| same_ignoring_ascii_case(label(p), name@),
                0,
            ),
            r <= self.peers@.len(),
    {
        let n: usize = self.peers.len();
        let ghost all = self.peer_list();
        let ghost test = |p: PeerViewModel| same_ignoring_ascii_case(label(p), name@);
        let mut i: usize = 0;
        while i < n
            invariant
                n == self.peers@.len() == all.len(),
                i <= n,
                all == peer_views(self.peers@),
                test == (|p: PeerViewModel| same_ignoring_ascii_case(label(p), name@)),
                first_peer(all, test, 0) == first_peer(all, test, i as int),
            decreases n - i,
        {
            assert(all[i as int] == self.peers@[i as int]@);
            let l: String = peer_label(&self.peers[i]);
            if eq_ignore_ascii_case(l.as_str(), name) {
                return i;
            }
            i += 1;
        }
        n
    }

    fn find_name(&self, name: &str, lower: &str, low_labels: &Vec<String>) -> (r: usize)
        requires
            low_labels@.len() == self.peers@.len(),
        ensures
            r == first_named(self.peer_list(), texts(low_labels@), name@, lower@, 0),
            r <= self.peers@.len(),
    {
        let n: usize = self.peers.len();
        let ghost all = self.peer_list();
        let ghost lows = texts(low_labels@);
        let mut i: usize = 0;
        while i < n
            invariant
                n == self.peers@.len() == all.len() == low_labels@.len(),
                i <= n,
                all == peer_views(self.peers@),
                lows == texts(low_labels@),
                first_named(all, lows, name@, lower@, 0) == first_named(
                    all,
                    lows,
                    name@,
                    lower@,
                    i as int,
                ),
            decreases n - i,
        {
            assert(all[i as int] == self.peers@[i as int]@);
            assert(lows[i as int] == low_labels@[i as int]@);
            if same_text(low_labels[i].as_str(), lower) {
                return i;
            }
            match &self.peers[i].device_name {
                Some(d) => {
                    if same_text(d.as_str(), name) {
                        return i;
                    }
                },
                None => {},
            }
            i += 1;
        }
        n
    }

    /// The names that the peers go by, in lower case.
    fn lower_labels(&self) -> (r: Vec<String>)
        ensures
            texts(r@) == lowercased(labels(self.peer_list())),
    {
        let n: usize = self.peers.len();
        let ghost all = lowercased(labels(self.peer_list()));
        let mut out: Vec<String> = Vec::new();
        let mut i: usize = 0;
        while i < n
            invariant
                n == self.peers@.len() == all.len(),
                i <= n,
                all == lowercased(labels(peer_views(self.peers@))),
                texts(out@) == all.take(i as int),
            decreases n - i,
        {
            let ghost was = out@;
            let l: String = peer_label(&self.peers[i]);
            let low: String = to_lower(l.as_str());
            out.push(low);
            assert(all[i as int] == low@);
            assert(texts(out@) =~= texts(was).push(low@));
            assert(all.take(i + 1) =~= all.take(i as int).push(low@));
            i += 1;
        }
        assert(all.take(n as int) =~= all);
        out
    }

    fn find_id(&self, id: &str) -> (r: usize)
        ensures
            r == first_peer(self.peer_list(), |p: PeerViewModel| has_id(p, id@), 0),
            r <= self.peers@.len(),
    {
        let n: usize = self.peers.len();
        let ghost all = self.peer_list();
        let ghost test = |p: PeerViewModel| has_id(p, id@);
        let mut i: usize = 0;
        while i < n
            invariant
                n == self.peers@.len() == all.len(),
                i <= n,
                all == peer_views(self.peers@),
                test == (|p: PeerViewModel| has_id(p, id@)),
                first_peer(all, test, 0) == first_peer(all, test, i as int),
            decreases n - i,
        {
            assert(all[i as int] == self.peers@[i as int]@);
            if same_text(self.peers[i].tailscale_id.as_str(), id) {
                return i;
            }
            match &self.peers[i].device_id {
                Some(d) => {
                    if same_text(d.as_str(), id) {
                        return i;
                    }
                },
                None => {},
            }
            i += 1;
        }
        n
    }

    fn find_ip(&self, ip: &str) -> (r: usize)
        ensures
            r == first_peer(self.peer_list(), |p: PeerViewModel| p.ip == ip@, 0),
            r <= self.peers@.len(),
    {
        let n: usize = self.peers.len();
        let ghost all = self.peer_list();
        let ghost test = |p: PeerViewModel| p.ip == ip@;
        let mut i: usize = 0;
        while i < n
            invariant
                n == self.peers@.len() == all.len(),
                i <= n,
                all == peer_views(self.peers@),
                test == (|p: PeerViewModel| p.ip == ip@),
                first_peer(all, test, 0) == first_peer(all, test, i as int),
            decreases n - i,
        {
            assert(all[i as int] == self.peers@[i as int]@);
            if same_text(self.peers[i].ip.as_str(), ip) {
                return i;
            }
            i += 1;
        }
        n
    }

    /// All that a suggestion can be: the aliases, then the peers' names.
    fn candidates(&self) -> (r: Vec<String>)
        ensures
            exists|order: Seq<Seq<char>>| #[trigger]
                lists_keys(order, self.alias_map()) && texts(r@) == order + labels(
                    self.peer_list(),
                ),
    {
        let mut out: Vec<String> = Vec::new();
        let k: usize = self.aliases.len();
        let ghost order = self.aliases.order();
        let mut i: usize = 0;
        assert(texts(out@) =~= order.take(0));
        while i < k
            invariant
                k == self.aliases.count() == order.len(),
                i <= k,
                order == self.aliases.order(),
                texts(out@) == order.take(i as int),
            decreases k - i,
        {
            let (key, _target) = self.aliases.entry(i);
            let ghost was = out@;
            out.push(key.clone());
            assert(order[i as int] == key@);
            assert(texts(out@) =~= texts(was).push(key@));
            assert(order.take(i + 1) =~= order.take(i as int).push(key@));
            i += 1;
        }
        assert(order.take(k as int) =~= order);
        let n: usize = self.peers.len();
        let ghost names = labels(self.peer_list());
        let mut j: usize = 0;
        assert(order + names.take(0) =~= order);
        while j < n
            invariant
                n == self.peers@.len() == names.len(),
                j <= n,
                names == labels(peer_views(self.peers@)),
                texts(out@) == order + names.take(j as int),
            decreases n - j,
        {
            let l: String = peer_label(&self.peers[j]);
            let ghost was = out@;
            out.push(l);
            assert(names[j as int] == l@);
            assert(texts(out@) =~= texts(was).push(l@));
            assert(order + names.take(j + 1) =~= (order + names.take(j as int)).push(l@));
            j += 1;
        }
        assert(names.take(n as int) =~= names);
        assert(lists_keys(order, self.alias_map()));
        out
    }

    /// Suggests something near a name.
    pub fn suggest(&self, name: &str) -> (r: Option<String>)
        ensures
            suggests(self.alias_map(), self.peer_list(), name@, opt_text(r)),
    {
        let all: Vec<String> = self.candidates();
        let n: usize = all.len();
        let mut lowered: Vec<String> = Vec::new();
        let mut i: usize = 0;
        while i < n
            invariant
                n == all@.len(),
                i <= n,
                lowered@.len() == i,
                forall|j: int| 0 <= j < i ==> (#[trigger] lowered@[j])@ == lowercase(all@[j]@),
            decreases n - i,
        {
            lowered.push(to_lower(all[i].as_str()));
            i += 1;
        }
        let lower: String = to_lower(name);
        let bytes: &[u8] = name.as_bytes();
        let third: usize = bytes.len() / 3;
        let within: usize = if third > 2 {
            third
        } else {
            2
        };
        let ghost order = choose|order: Seq<Seq<char>>| #[trigger]
            lists_keys(order, self.alias_map()) && texts(all@) == order + labels(self.peer_list());
        assert(texts(lowered@) =~= lowercased(texts(all@)));
        let r: Option<String> = suggest_among(lower.as_str(), &all, &lowered, within);
        assert(suggestion_from(order, self.peer_list(), name@, opt_text(r)));
        r
    }

    /// What a name means, with what the outside knows of it: `lower` is the
    /// name in lower case, `low_labels` are the names that the peers go by in
    /// lower case, `addr` is the address that the name is, in its canonical
    /// form, and `suggestion` what is suggested where it means nothing.
    pub fn resolve_lowered(
        &self,
        name: &str,
        lower: &str,
        low_labels: &Vec<String>,
        addr: Option<&str>,
        suggestion: Option<String>,
    ) -> (r: Result<ResolvedTarget, ResolveError>)
        requires
            low_labels@.len() == self.peer_list().len(),
        ensures
            resolved_model(r) == resolved(
                self.alias_map(),
                self.peer_list(),
                name@,
                lower@,
                texts(low_labels@),
                match addr {
                    Some(a) => Some(a@),
                    None => None,
                },
                opt_text(suggestion),
            ),
    {
        let n: usize = self.peers.len();
        let ghost all = self.peer_list();
        assert(forall|k: int| 0 <= k < n ==> #[trigger] all[k] == self.peers@[k]@);
        match self.aliases.get(name) {
            Some(t) => {
                let i: usize = self.find_label(t.as_str());
                if i < n {
                    return Ok(resolve_to(&self.peers[i], ResolvedVia::Alias));
                }
                return Err(ResolveError::NotFound { input: owned(name), suggestion: None });
            },
            None => {},
        }
        let i: usize = self.find_name(name, lower, low_labels);
        if i < n {
            return Ok(resolve_to(&self.peers[i], ResolvedVia::PeerName));
        }
        let i: usize = self.find_id(name);
        if i < n {
            return Ok(resolve_to(&self.peers[i], ResolvedVia::PeerId));
        }
        match addr {
            Some(a) => {
                let i: usize = self.find_ip(a);
                if i < n {
                    return Ok(resolve_to(&self.peers[i], ResolvedVia::IpAddress));
                }
            },
            None => {},
        }
        Err(ResolveError::NotFound { input: owned(name), suggestion })
    }

    /// What a name means. `addr` is the address that it is, in its canonical
    /// form, if it is one.
    pub fn resolve(&self, name: &str, addr: Option<&str>) -> (r: Result<
        ResolvedTarget,
        ResolveError,
    >)
        ensures
            resolves(
                self.alias_map(),
                self.peer_list(),
                name@,
                match addr {
                    Some(a) => Some(a@),
                    None => None,
                },
                resolved_model(r),
            ),
    {
        let lower: String = to_lower(name);
        let suggestion: Option<String> = self.suggest(name);
        let ghost s = opt_text(suggestion);
        let low_labels: Vec<String> = self.lower_labels();
        assert(low_labels@.len() == texts(low_labels@).len());
        let r = self.resolve_lowered(name, lower.as_str(), &low_labels, addr, suggestion);
        assert(suggests(self.alias_map(), self.peer_list(), name@, s));
        r
    }
}

pub open spec fn lowercased(v: Seq<Seq<char>>) -> Seq<Seq<char>> {
    v.map_values(|s: Seq<char>| lowercase(s))
}

/// What is suggested when the aliases are walked in an order.
pub open spec fn suggestion_from(
    order: Seq<Seq<char>>,
    peers: Seq<PeerViewModel>,
    name: Seq<char>,
    s: Option<Seq<char>>,
) -> bool {
    let all = order + labels(peers);
    s == suggested(lowercase(name), all, lowercased(all), reach(encode_utf8(name).len()))
}

/// What is suggested, whatever order the aliases are walked in.
pub open spec fn suggests(
    aliases: Map<Seq<char>, Seq<char>>,
    peers: Seq<PeerViewModel>,
    name: Seq<char>,
    s: Option<Seq<char>>,
) -> bool {
    exists|order: Seq<Seq<char>>| #[trigger]
        lists_keys(order, aliases) && suggestion_from(order, peers, name, s)
}

/// What a name means, with whatever is suggested where it means nothing.
pub open spec fn resolves(
    aliases: Map<Seq<char>, Seq<char>>,
    peers: Seq<PeerViewModel>,
    name: Seq<char>,
    addr: Option<Seq<char>>,
    r: Result<TargetModel, NotFoundModel>,
) -> bool {
    exists|s: Option<Seq<char>>| #[trigger]
        suggests(aliases, peers, name, s) && r == resolved(
            aliases,
            peers,
            name,
            lowercase(name),
            lowercased(labels(peers)),
            addr,
            s,
        )
}

// ---------------------------------------------------------------------------
// Laws
// ---------------------------------------------------------------------------

pub proof fn lemma_first_peer(
    peers: Seq<PeerViewModel>,
    test: spec_fn(PeerViewModel) -> bool,
    from: int,
)
    requires
        0 <= from <= peers.len(),
    ensures
        from <= first_peer(peers, test, from) <= peers.len(),
        first_peer(peers, test, from) < peers.len() ==> test(peers[first_peer(peers, test, from)]),
        forall|i: int| from <= i < first_peer(peers, test, from) ==> !test(#[trigger] peers[i]),
    decreases peers.len() - from,
{
    if from < peers.len() && !test(peers[from]) {
        lemma_first_peer(peers, test, from + 1);
    }
}

pub proof fn lemma_first_named(
    peers: Seq<PeerViewModel>,
    low_labels: Seq<Seq<char>>,
    name: Seq<char>,
    low: Seq<char>,
    from: int,
)
    requires
        0 <= from <= peers.len(),
    ensures
        ({
            let i = first_named(peers, low_labels, name, low, from);
            &&& from <= i <= peers.len()
            &&& i < peers.len() ==> goes_by(peers[i], low_labels[i], name, low)
            &&& forall|j: int|
                from <= j < i ==> !goes_by(#[trigger] peers[j], low_labels[j], name, low)
        }),
    decreases peers.len() - from,
{
    if from < peers.len() && !goes_by(peers[from], low_labels[from], name, low) {
        lemma_first_named(peers, low_labels, name, low, from + 1);
    }
}

/// A device id finds its peer, unless an alias or a peer's name is written
/// alike: that is how peers of one name are told apart.
pub proof fn law_device_id_finds_its_peer(
    aliases: Map<Seq<char>, Seq<char>>,
    peers: Seq<PeerViewModel>,
    name: Seq<char>,
    lower: Seq<char>,
    low_labels: Seq<Seq<char>>,
    addr: Option<Seq<char>>,
    suggestion: Option<Seq<char>>,
    k: int,
)
    requires
        !aliases.dom().contains(name),
        forall|i: int|
            0 <= i < peers.len() ==> !goes_by(#[trigger] peers[i], low_labels[i], name, lower),
        0 <= k < peers.len(),
        has_id(peers[k], name),
        forall|i: int| 0 <= i < k ==> !has_id(#[trigger] peers[i], name),
    ensures
        resolved(aliases, peers, name, lower, low_labels, addr, suggestion) == Ok::<
            TargetModel,
            NotFoundModel,
        >(target(peers[k], ResolvedVia::PeerId)),
{
    lemma_first_named(peers, low_labels, name, lower, 0);
    lemma_first_peer(peers, |p: PeerViewModel| has_id(p, name), 0);
}

/// An alias comes before everything else: a name that is one never means a
/// peer by its own name, id or address.
pub proof fn law_alias_comes_first(
    aliases: Map<Seq<char>, Seq<char>>,
    peers: Seq<PeerViewModel>,
    name: Seq<char>,
    lower: Seq<char>,
    low_labels: Seq<Seq<char>>,
    addr: Option<Seq<char>>,
    suggestion: Option<Seq<char>>,
)
    requires
        aliases.dom().contains(name),
    ensures
        match resolved(aliases, peers, name, lower, low_labels, addr, suggestion) {
            Ok(t) => t.via == ResolvedVia::Alias && same_ignoring_ascii_case(
                t.display_name,
                aliases[name],
            ),
            Err(e) => e.suggestion is None,
        },
{
    lemma_first_peer(
        peers,
        |p: PeerViewModel| same_ignoring_ascii_case(label(p), aliases[name]),
        0,
    );
}

/// Where peers share a name, the first of them is meant.
pub proof fn law_first_of_a_name_is_meant(
    aliases: Map<Seq<char>, Seq<char>>,
    peers: Seq<PeerViewModel>,
    name: Seq<char>,
    lower: Seq<char>,
    low_labels: Seq<Seq<char>>,
    addr: Option<Seq<char>>,
    suggestion: Option<Seq<char>>,
    k: int,
)
    requires
        !aliases.dom().contains(name),
        0 <= k < peers.len(),
        goes_by(peers[k], low_labels[k], name, lower),
        forall|i: int| 0 <= i < k ==> !goes_by(#[trigger] peers[i], low_labels[i], name, lower),
    ensures
        resolved(aliases, peers, name, lower, low_labels, addr, suggestion) == Ok::<
            TargetModel,
            NotFoundModel,
        >(target(peers[k], ResolvedVia::PeerName)),
{
    lemma_first_named(peers, low_labels, name, lower, 0);
}

/// A peer is found by the very name that it goes by, and by that name in any
/// case, unless an alias is written alike: the first peer of such a name is
/// meant.
pub proof fn law_own_name_is_found(
    aliases: Map<Seq<char>, Seq<char>>,
    peers: Seq<PeerViewModel>,
    name: Seq<char>,
    addr: Option<Seq<char>>,
    r: Result<TargetModel, NotFoundModel>,
    k: int,
)
    requires
        !aliases.dom().contains(name),
        0 <= k < peers.len(),
        lowercase(label(peers[k])) == lowercase(name),
        resolves(aliases, peers, name, addr, r),
    ensures
        exists|i: int|
            0 <= i <= k && goes_by(
                #[trigger] peers[i],
                lowercase(label(peers[i])),
                name,
                lowercase(name),
            ) && r == Ok::<TargetModel, NotFoundModel>(target(peers[i], ResolvedVia::PeerName)),
{
    let lows = lowercased(labels(peers));
    assert(lows[k] == lowercase(label(peers[k])));
    lemma_first_named(peers, lows, name, lowercase(name), 0);
    let i = first_named(peers, lows, name, lowercase(name), 0);
    assert(i <= k) by {
        if k < i {
            assert(!goes_by(peers[k], lows[k], name, lowercase(name)));
        }
    }
    assert(lows[i] == lowercase(label(peers[i])));
}

} // verus!
