//! Whom a name means, by what is known of the peers.
use vstd::prelude::*;
use vstd::utf8::encode_utf8;

use crate::node::PeerViewModel;
use crate::resolve::{
    edits, first_named, first_overlap, first_peer, has_id, label, labels, lemma_first_named,
    lemma_first_peer, lowercased, nearest, reach, resolves, suggested, suggestion_from, suggests,
    NotFoundModel, ResolvedVia, TargetModel,
};
use crate::text::{has_part, lowercase, same_ignoring_ascii_case};
use crate::text_map::lists_keys;

verus! {

// ---------------------------------------------------------------------------
// Resolving
// ---------------------------------------------------------------------------

/// The name that a peer goes by: the one its device gave itself, and where
/// that is missing or empty, the one that is always there.
pub open spec fn own_name(p: PeerViewModel) -> Seq<char> {
    if p.device_name is Some && p.device_name->0.len() > 0 {
        p.device_name->0
    } else {
        p.display_name
    }
}

/// The target is the peer: its node id, its name and its address.
pub open spec fn is_that_peer(t: TargetModel, p: PeerViewModel, via: ResolvedVia) -> bool {
    &&& t.peer_id == p.tailscale_id
    &&& t.display_name == own_name(p)
    &&& t.ip == p.ip
    &&& t.via == via
}

/// The peer goes by the name, in any case, or has exactly it for a device
/// name.
pub open spec fn is_named(p: PeerViewModel, name: Seq<char>) -> bool {
    lowercase(own_name(p)) == lowercase(name) || p.device_name == Some(name)
}

/// The peer has the text for its device id or its node id.
pub open spec fn has_that_id(p: PeerViewModel, id: Seq<char>) -> bool {
    p.device_id == Some(id) || p.tailscale_id == id
}

/// An alias means the first peer that goes by the name it stands for, whatever
/// the case of its ASCII letters; where there is none it means nothing, and
/// nothing is suggested.
pub proof fn law_alias_means_its_peer(
    aliases: Map<Seq<char>, Seq<char>>,
    peers: Seq<PeerViewModel>,
    name: Seq<char>,
    addr: Option<Seq<char>>,
    r: Result<TargetModel, NotFoundModel>,
    k: int,
)
    requires
        resolves(aliases, peers, name, addr, r),
        aliases.dom().contains(name),
        0 <= k <= peers.len(),
        k < peers.len() ==> same_ignoring_ascii_case(own_name(peers[k]), aliases[name]),
        forall|i: int|
            0 <= i < k ==> !same_ignoring_ascii_case(own_name(#[trigger] peers[i]), aliases[name]),
    ensures
        k < peers.len() ==> (r matches Ok(t) && is_that_peer(t, peers[k], ResolvedVia::Alias)),
        k == peers.len() ==> (r matches Err(e) && e.input == name && e.suggestion is None),
{
    let test = |p: PeerViewModel| same_ignoring_ascii_case(label(p), aliases[name]);
    lemma_first_peer(peers, test, 0);
    let i = first_peer(peers, test, 0);
    if i < k {
        assert(test(peers[i]));
    }
    if k < i {
        assert(!test(peers[k]));
    }
}

/// A name that is no alias means the first peer of that name.
pub proof fn law_name_means_its_peer(
    aliases: Map<Seq<char>, Seq<char>>,
    peers: Seq<PeerViewModel>,
    name: Seq<char>,
    addr: Option<Seq<char>>,
    r: Result<TargetModel, NotFoundModel>,
    k: int,
)
    requires
        resolves(aliases, peers, name, addr, r),
        !aliases.dom().contains(name),
        0 <= k < peers.len(),
        is_named(peers[k], name),
        forall|i: int| 0 <= i < k ==> !is_named(#[trigger] peers[i], name),
    ensures
        r matches Ok(t) && is_that_peer(t, peers[k], ResolvedVia::PeerName),
{
    let lows = lowercased(labels(peers));
    lemma_first_named(peers, lows, name, lowercase(name), 0);
    let i = first_named(peers, lows, name, lowercase(name), 0);
    assert(lows[k] == lowercase(label(peers[k])));
    if i < k {
        assert(lows[i] == lowercase(label(peers[i])));
        assert(is_named(peers[i], name));
    }
}

proof fn lemma_nobody_named(peers: Seq<PeerViewModel>, name: Seq<char>)
    requires
        forall|i: int| 0 <= i < peers.len() ==> !is_named(#[trigger] peers[i], name),
    ensures
        first_named(peers, lowercased(labels(peers)), name, lowercase(name), 0) == peers.len(),
{
    let lows = lowercased(labels(peers));
    lemma_first_named(peers, lows, name, lowercase(name), 0);
    let i = first_named(peers, lows, name, lowercase(name), 0);
    if i < peers.len() {
        assert(lows[i] == lowercase(label(peers[i])));
        assert(is_named(peers[i], name));
    }
}

/// Where nobody is named so, an id means the first peer that has it.
pub proof fn law_id_means_its_peer(
    aliases: Map<Seq<char>, Seq<char>>,
    peers: Seq<PeerViewModel>,
    id: Seq<char>,
    addr: Option<Seq<char>>,
    r: Result<TargetModel, NotFoundModel>,
    k: int,
)
    requires
        resolves(aliases, peers, id, addr, r),
        !aliases.dom().contains(id),
        forall|i: int| 0 <= i < peers.len() ==> !is_named(#[trigger] peers[i], id),
        0 <= k < peers.len(),
        has_that_id(peers[k], id),
        forall|i: int| 0 <= i < k ==> !has_that_id(#[trigger] peers[i], id),
    ensures
        r matches Ok(t) && is_that_peer(t, peers[k], ResolvedVia::PeerId),
{
    lemma_nobody_named(peers, id);
    let test = |p: PeerViewModel| has_id(p, id);
    lemma_first_peer(peers, test, 0);
    let i = first_peer(peers, test, 0);
    if i < k {
        assert(test(peers[i]));
    }
    if k < i {
        assert(!test(peers[k]));
    }
}

/// Where nobody is named so or has it for an id, an address means the first
/// peer that has it. What is none of these means nothing.
pub proof fn law_address_means_its_peer(
    aliases: Map<Seq<char>, Seq<char>>,
    peers: Seq<PeerViewModel>,
    name: Seq<char>,
    addr: Option<Seq<char>>,
    r: Result<TargetModel, NotFoundModel>,
    k: int,
)
    requires
        resolves(aliases, peers, name, addr, r),
        !aliases.dom().contains(name),
        forall|i: int| 0 <= i < peers.len() ==> !is_named(#[trigger] peers[i], name),
        forall|i: int| 0 <= i < peers.len() ==> !has_that_id(#[trigger] peers[i], name),
        0 <= k <= peers.len(),
        k < peers.len() ==> addr == Some(peers[k].ip),
        forall|i: int| 0 <= i < k ==> addr != Some((#[trigger] peers[i]).ip),
    ensures
        k < peers.len() ==> (r matches Ok(t) && is_that_peer(t, peers[k], ResolvedVia::IpAddress)),
        k == peers.len() ==> (r matches Err(e) && e.input == name && suggests(
            aliases,
            peers,
            name,
            e.suggestion,
        )),
{
    lemma_nobody_named(peers, name);
    let by_id = |p: PeerViewModel| has_id(p, name);
    lemma_first_peer(peers, by_id, 0);
    let j = first_peer(peers, by_id, 0);
    if j < peers.len() {
        assert(by_id(peers[j]));
        assert(has_that_id(peers[j], name));
    }
    match addr {
        Some(a) => {
            let test = |p: PeerViewModel| p.ip == a;
            lemma_first_peer(peers, test, 0);
            let i = first_peer(peers, test, 0);
            if i < k {
                assert(test(peers[i]));
            }
            if k < i {
                assert(!test(peers[k]));
            }
        },
        None => {},
    }
}

/// The case of ASCII letters makes no difference, and everything else does.
pub proof fn law_ascii_case_is_ignored(front: Seq<char>, small: char, other: char, back: Seq<char>)
    requires
        'a' <= small && small <= 'z',
        other != small,
        other != (small as u8 - 32) as char,
    ensures
        same_ignoring_ascii_case(
            front + seq![small] + back,
            front + seq![(small as u8 - 32) as char] + back,
        ),
        !same_ignoring_ascii_case(front + seq![small] + back, front + seq![other] + back),
        !same_ignoring_ascii_case(front + seq![small] + back, front + back),
{
    let a = front + seq![small] + back;
    let b = front + seq![(small as u8 - 32) as char] + back;
    let c = front + seq![other] + back;
    let n = front.len() as int;
    assert(a[n] == small && b[n] == (small as u8 - 32) as char && c[n] == other);
    assert forall|i: int| 0 <= i < a.len() && i != n implies a[i] == b[i] by {}
}

// ---------------------------------------------------------------------------
// Suggestions
// ---------------------------------------------------------------------------

proof fn lemma_edits_of_equal(a: Seq<char>)
    ensures
        edits(a, a) == 0,
    decreases a.len(),
{
    if a.len() > 0 {
        lemma_edits_of_equal(a.drop_last());
    }
}

/// Two texts are as far apart as it takes single changes to make one of the
/// other: only equal ones are not apart, a character more or another character
/// makes a difference of one at most, and no fewer changes do than the texts
/// differ in length.
pub proof fn law_distance_counts_changes(a: Seq<char>, b: Seq<char>, c: char, d: char)
    ensures
        edits(a, b) == 0 <==> a == b,
        edits(a.push(c), b) <= edits(a, b) + 1,
        edits(a, b.push(d)) <= edits(a, b) + 1,
        edits(a.push(c), b.push(d)) <= edits(a, b) + 1,
        edits(a.push(c), b.push(c)) <= edits(a, b),
        edits(a, b) >= a.len() - b.len(),
        edits(a, b) >= b.len() - a.len(),
    decreases a.len() + b.len(),
{
    if a == b {
        lemma_edits_of_equal(a);
    }
    assert(a.push(c).drop_last() =~= a);
    assert(b.push(d).drop_last() =~= b);
    assert(b.push(c).drop_last() =~= b);
    if a.len() > 0 && b.len() > 0 {
        law_distance_counts_changes(a.drop_last(), b, c, d);
        law_distance_counts_changes(a, b.drop_last(), c, d);
        law_distance_counts_changes(a.drop_last(), b.drop_last(), c, d);
        if edits(a, b) == 0 {
            assert(a.drop_last() == b.drop_last());
            assert(a.drop_last().push(a.last()) =~= a);
            assert(b.drop_last().push(b.last()) =~= b);
        }
    } else if edits(a, b) == 0 {
        assert(a =~= b);
    }
}

/// A third of a name may be wrong, and two characters always.
pub proof fn law_reach_is_a_third(n: nat)
    ensures
        reach(n) >= 2,
        3 * reach(n) <= n || reach(n) == 2,
        3 * (reach(n) + 1) > n,
{
}

/// A candidate that is near is suggested before one that only overlaps, as it
/// was written; of those that overlap, the first.
pub proof fn law_near_before_overlapping(
    name: Seq<char>,
    candidates: Seq<Seq<char>>,
    low: Seq<Seq<char>>,
    within: nat,
    k: int,
)
    requires
        candidates.len() == low.len(),
        0 <= k <= low.len(),
        k < low.len() ==> has_part(low[k], name) || has_part(name, low[k]),
        forall|i: int|
            0 <= i < k ==> !has_part(#[trigger] low[i], name) && !has_part(name, low[i]),
    ensures
        nearest(name, low, within) matches Some((i, _)) ==> suggested(name, candidates, low, within)
            == Some(candidates[i]),
        nearest(name, low, within) is None && k < low.len() ==> suggested(
            name,
            candidates,
            low,
            within,
        ) == Some(candidates[k]),
        nearest(name, low, within) is None && k == low.len() ==> suggested(
            name,
            candidates,
            low,
            within,
        ) is None,
{
    lemma_overlap(name, low, 0, k);
}

proof fn lemma_overlap(name: Seq<char>, low: Seq<Seq<char>>, from: int, k: int)
    requires
        0 <= from <= k <= low.len(),
        k < low.len() ==> has_part(low[k], name) || has_part(name, low[k]),
        forall|i: int|
            from <= i < k ==> !has_part(#[trigger] low[i], name) && !has_part(name, low[i]),
    ensures
        first_overlap(name, low, from) == k,
    decreases k - from,
{
    if from < k {
        assert(!has_part(low[from], name));
        lemma_overlap(name, low, from + 1, k);
    }
}

/// What is suggested is an alias, or a name that a peer goes by.
pub proof fn law_suggestion_is_known(
    aliases: Map<Seq<char>, Seq<char>>,
    peers: Seq<PeerViewModel>,
    name: Seq<char>,
    s: Seq<char>,
)
    requires
        suggests(aliases, peers, name, Some(s)),
    ensures
        aliases.dom().contains(s) || exists|i: int|
            0 <= i < peers.len() && own_name(#[trigger] peers[i]) == s,
{
    let order = choose|order: Seq<Seq<char>>| #[trigger]
        lists_keys(order, aliases) && suggestion_from(order, peers, name, Some(s));
    let all = order + labels(peers);
    let low = lowercased(all);
    let within = reach(encode_utf8(name).len());
    crate::resolve::lemma_nearest_in_range(lowercase(name), low, within);
    lemma_overlap_in_range(lowercase(name), low, 0);
    let i = match nearest(lowercase(name), low, within) {
        Some((i, _)) => i,
        None => first_overlap(lowercase(name), low, 0),
    };
    assert(0 <= i < all.len());
    assert(s == all[i]);
    if i < order.len() {
        assert(order.contains(order[i]));
    } else {
        assert(own_name(peers[i - order.len()]) == s);
    }
}

proof fn lemma_overlap_in_range(name: Seq<char>, low: Seq<Seq<char>>, from: int)
    requires
        0 <= from <= low.len(),
    ensures
        from <= first_overlap(name, low, from) <= low.len(),
    decreases low.len() - from,
{
    if from < low.len() {
        lemma_overlap_in_range(name, low, from + 1);
    }
}

/// Who asks for an unknown name is told the name, and what was perhaps meant.
pub proof fn law_unknown_name_is_told(e: NotFoundModel)
    ensures
        e.suggestion is None ==> e.text() == "Can't find a node named \""@ + e.input + "\"."@,
        e.suggestion matches Some(s) ==> e.text() == "Can't find a node named \""@ + e.input
            + "\"."@ + (" Did you mean \""@ + s + "\"?"@),
{
}

} // verus!
