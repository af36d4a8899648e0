//! What separates the components of a path, and the drive or share that a
//! Windows path begins with.
use vstd::prelude::*;

use crate::text::begins_with;

verus! {

/// What separates the components of a path.
#[derive(Debug, Clone, Copy, PartialEq, Eq, Structural)]
pub enum Breaks {
    /// `/`, as on Unix.
    Slash,
    /// `\`, as in verbatim Windows paths.
    Backslash,
    /// `/` and `\`, as in all other Windows paths.
    Either,
}

pub open spec fn breaks(k: Breaks, c: char) -> bool {
    match k {
        Breaks::Slash => c == '/',
        Breaks::Backslash => c == '\\',
        Breaks::Either => c == '/' || c == '\\',
    }
}

pub fn is_break(k: Breaks, c: char) -> (r: bool)
    ensures
        r == breaks(k, c),
{
    match k {
        Breaks::Slash => c == '/',
        Breaks::Backslash => c == '\\',
        Breaks::Either => c == '/' || c == '\\',
    }
}

/// Where the next separator is from `from` on; the end if there is none.
pub open spec fn next_break(k: Breaks, s: Seq<char>, from: int) -> int
    decreases s.len() - from,
{
    if from >= s.len() {
        s.len() as int
    } else if breaks(k, s[from]) {
        from
    } else {
        next_break(k, s, from + 1)
    }
}

pub open spec fn is_letter(c: char) -> bool {
    ('a' <= c && c <= 'z') || ('A' <= c && c <= 'Z')
}

/// The letter of a drive, which has no case.
pub open spec fn drive_letter(c: char) -> char {
    if 'a' <= c && c <= 'z' {
        (c as u8 - 32) as char
    } else {
        c
    }
}

/// A drive begins at `at`.
pub open spec fn is_drive_at(s: Seq<char>, at: int) -> bool {
    at + 1 < s.len() && is_letter(s[at]) && s[at + 1] == ':'
}

/// The path is to be taken as it is written: it begins with `\\?\`.
pub open spec fn is_verbatim(s: Seq<char>) -> bool {
    begins_with(s, seq!['\\', '\\', '?', '\\'])
}

/// Where the second of two names ends, of which the first ends at `first`.
pub open spec fn second_end(k: Breaks, s: Seq<char>, first: int) -> int {
    if first < s.len() {
        next_break(k, s, first + 1)
    } else {
        first
    }
}

/// The prefix of a verbatim path, and where it ends: a share, a drive, or
/// another name.
pub open spec fn verbatim_prefix(s: Seq<char>) -> (Seq<char>, int) {
    if begins_with(s.skip(4), seq!['U', 'N', 'C', '\\']) {
        let server = next_break(Breaks::Backslash, s, 8);
        let share = second_end(Breaks::Backslash, s, server);
        let end = if share > server + 1 {
            share
        } else {
            server
        };
        (s.take(end), end)
    } else if is_drive_at(s, 4) && (s.len() == 6 || breaks(Breaks::Either, s[6])) {
        (seq!['\\', '\\', '?', '\\', drive_letter(s[4]), ':'], 6)
    } else {
        let end = next_break(Breaks::Backslash, s, 4);
        (s.take(end), end)
    }
}

/// The prefix of a path that begins with two separators: a device, or a server
/// and its share.
pub open spec fn network_prefix(s: Seq<char>) -> Option<(Seq<char>, int)> {
    if s.len() > 3 && s[2] == '.' && breaks(Breaks::Either, s[3]) {
        let end = next_break(Breaks::Either, s, 4);
        Some((seq!['/', '/', '.', '/'] + s.subrange(4, end), end))
    } else {
        let server = next_break(Breaks::Either, s, 2);
        let share = second_end(Breaks::Either, s, server);
        if server > 2 && share > server + 1 {
            Some(
                (
                    seq!['/', '/'] + s.subrange(2, server) + seq!['/'] + s.subrange(
                        server + 1,
                        share,
                    ),
                    share,
                ),
            )
        } else {
            None
        }
    }
}

pub open spec fn has_two_breaks(s: Seq<char>) -> bool {
    s.len() > 1 && breaks(Breaks::Either, s[0]) && breaks(Breaks::Either, s[1])
}

/// What a Windows path begins with, in a form that is the same however it is
/// written, and where it ends. `None` if the path names no drive and no share.
pub open spec fn prefix_of(s: Seq<char>) -> Option<(Seq<char>, int)> {
    if is_verbatim(s) {
        Some(verbatim_prefix(s))
    } else if has_two_breaks(s) {
        network_prefix(s)
    } else if is_drive_at(s, 0) {
        Some((seq![drive_letter(s[0]), ':'], 2))
    } else {
        None
    }
}

pub proof fn lemma_next_break(k: Breaks, s: Seq<char>, from: int)
    requires
        0 <= from <= s.len(),
    ensures
        from <= next_break(k, s, from) <= s.len(),
        next_break(k, s, from) < s.len() ==> breaks(k, s[next_break(k, s, from)]),
        forall|i: int| from <= i < next_break(k, s, from) ==> !breaks(k, #[trigger] s[i]),
    decreases s.len() - from,
{
    if from < s.len() && !breaks(k, s[from]) {
        lemma_next_break(k, s, from + 1);
    }
}

/// A prefix ends within its path, and is not empty.
pub proof fn lemma_prefix_end(s: Seq<char>)
    ensures
        prefix_of(s) matches Some((_, end)) ==> 2 <= end <= s.len(),
{
    if is_verbatim(s) {
        if begins_with(s.skip(4), seq!['U', 'N', 'C', '\\']) {
            lemma_next_break(Breaks::Backslash, s, 8);
            let server = next_break(Breaks::Backslash, s, 8);
            if server < s.len() {
                lemma_next_break(Breaks::Backslash, s, server + 1);
            }
        }
        lemma_next_break(Breaks::Backslash, s, 4);
    } else if has_two_breaks(s) {
        lemma_next_break(Breaks::Either, s, 2);
        if s.len() > 3 {
            lemma_next_break(Breaks::Either, s, 4);
        }
        let server = next_break(Breaks::Either, s, 2);
        if server < s.len() {
            lemma_next_break(Breaks::Either, s, server + 1);
        }
    }
}

/// What a prefix looks like tells whether its path is verbatim.
pub proof fn lemma_prefix_tells_verbatim(s: Seq<char>)
    ensures
        is_verbatim(s) ==> prefix_of(s) is Some,
        prefix_of(s) matches Some((piece, _)) ==> piece.len() > 1 && is_verbatim(s) == (piece[0]
            == '\\'),
{
    let mark = seq!['\\', '\\', '?', '\\'];
    lemma_prefix_end(s);
    if is_verbatim(s) {
        assert(mark.len() == 4 && mark[0] == '\\');
        assert(s.take(4)[0] == s[0]);
    }
}

proof fn lemma_next_break_kept(k: Breaks, s: Seq<char>, extra: Seq<char>, from: int)
    requires
        0 <= from <= s.len(),
        forall|i: int| 0 <= i < extra.len() ==> !breaks(k, #[trigger] extra[i]),
    ensures
        next_break(k, s + extra, from) == (if next_break(k, s, from) < s.len() {
            next_break(k, s, from)
        } else {
            (s.len() + extra.len()) as int
        }),
{
    let t = s + extra;
    lemma_next_break(k, s, from);
    lemma_next_break(k, t, from);
    let a = next_break(k, s, from);
    let b = next_break(k, t, from);
    if a < s.len() {
        assert(t[a] == s[a]);
        if b < a {
            assert(t[b] == s[b]);
        }
    } else if b < t.len() {
        if b < s.len() {
            assert(t[b] == s[b]);
        } else {
            assert(t[b] == extra[b - s.len()]);
        }
    }
}

/// A longer last name changes nothing about the drive or the share of a path
/// with a root.
pub proof fn lemma_prefix_kept(s: Seq<char>, extra: Seq<char>)
    requires
        s.len() > 0,
        prefix_of(s) matches Some((_, end)) ==> end < s.len(),
        prefix_of(s) is None ==> breaks(Breaks::Either, s[0]),
        !breaks(
            if is_verbatim(s) {
                Breaks::Backslash
            } else {
                Breaks::Either
            },
            s.last(),
        ),
        forall|i: int|
            0 <= i < extra.len() ==> !breaks(
                if is_verbatim(s) {
                    Breaks::Backslash
                } else {
                    Breaks::Either
                },
                #[trigger] extra[i],
            ),
    ensures
        prefix_of(s + extra) == prefix_of(s),
{
    let t = s + extra;
    let n = s.len() as int;
    let mark = seq!['\\', '\\', '?', '\\'];
    let unc = seq!['U', 'N', 'C', '\\'];
    assert(mark.len() == 4 && mark[0] == '\\' && mark[1] == '\\' && mark[2] == '?' && mark[3]
        == '\\');
    assert(unc.len() == 4 && unc[0] == 'U' && unc[1] == 'N' && unc[2] == 'C' && unc[3] == '\\');
    lemma_prefix_end(s);
    if is_verbatim(s) {
        let k = Breaks::Backslash;
        assert(t.take(4) =~= s.take(4));
        lemma_next_break(k, s, 4);
        lemma_next_break_kept(k, s, extra, 4);
        assert(begins_with(t.skip(4), unc) == begins_with(s.skip(4), unc)) by {
            if n >= 8 {
                assert(t.skip(4).take(4) =~= s.skip(4).take(4));
            } else if begins_with(t.skip(4), unc) {
                assert(t.skip(4).take(4)[3] == t[7]);
                assert(t[7] == extra[7 - n]);
            }
        }
        if begins_with(s.skip(4), unc) {
            lemma_next_break(k, s, 8);
            lemma_next_break_kept(k, s, extra, 8);
            let server = next_break(k, s, 8);
            if server < n {
                lemma_next_break(k, s, server + 1);
                lemma_next_break_kept(k, s, extra, server + 1);
            }
            let end = verbatim_prefix(s).1;
            assert(t.take(end) =~= s.take(end));
        } else {
            let end = next_break(k, s, 4);
            if is_drive_at(s, 4) && (n == 6 || breaks(Breaks::Either, s[6])) {
            } else {
                assert(t.take(end) =~= s.take(end));
                assert(forall|i: int| 4 <= i <= end ==> t[i] == s[i]);
            }
        }
    } else {
        let k = Breaks::Either;
        assert(!is_verbatim(t)) by {
            if is_verbatim(t) {
                assert(t.take(4)[0] == t[0] && t.take(4)[1] == t[1] && t.take(4)[2] == t[2]
                    && t.take(4)[3] == t[3]);
                if n >= 4 {
                    assert(s.take(4) =~= t.take(4));
                } else {
                    assert(t[3] == extra[3 - n]);
                }
            }
        }
        if n > 1 {
            assert(t[1] == s[1]);
        }
        assert(t[0] == s[0]);
        assert(n == 1 ==> s.last() == s[0]);
        if has_two_breaks(s) {
            lemma_next_break(k, s, 2);
            lemma_next_break_kept(k, s, extra, 2);
            if n > 3 {
                lemma_next_break(k, s, 4);
                lemma_next_break_kept(k, s, extra, 4);
            } else if t.len() > 3 {
                assert(t[3] == extra[3 - n]);
            }
            let server = next_break(k, s, 2);
            if server < n {
                lemma_next_break(k, s, server + 1);
                lemma_next_break_kept(k, s, extra, server + 1);
                let share = next_break(k, s, server + 1);
                assert(t.subrange(2, server) =~= s.subrange(2, server));
                if share < n {
                    assert(t.subrange(server + 1, share) =~= s.subrange(server + 1, share));
                }
            }
            let device = next_break(k, s, 4);
            if n > 3 && device < n {
                assert(t.subrange(4, device) =~= s.subrange(4, device));
            }
        }
    }
}

/// A drive stays the drive of whatever path goes on from it.
pub proof fn law_drive_is_kept(s: Seq<char>, rest: Seq<char>)
    requires
        (is_drive_at(s, 0) && !is_verbatim(s)) || (is_verbatim(s) && is_drive_at(s, 4) && s.len()
            > 6 && breaks(Breaks::Either, s[6])),
    ensures
        prefix_of(s + rest) == prefix_of(s),
        prefix_of(s) is Some,
{
    let t = s + rest;
    let mark = seq!['\\', '\\', '?', '\\'];
    assert(mark.len() == 4 && mark[0] == '\\');
    assert(t[0] == s[0] && t[1] == s[1]);
    if is_verbatim(s) {
        assert(t.take(4) =~= s.take(4));
        let unc = seq!['U', 'N', 'C', '\\'];
        assert(unc.len() == 4 && unc[1] == 'N');
        if s.len() >= 8 {
            assert(s.skip(4).take(4)[1] == s[5]);
        }
        if t.len() >= 8 {
            assert(t.skip(4).take(4)[1] == t[5]);
        }
    } else if is_verbatim(t) {
        assert(t.take(4)[0] == t[0]);
    }
}

/// Whether a path begins with a drive.
pub fn is_drive(cs: &Vec<char>) -> (r: bool)
    ensures
        r == is_drive_at(cs@, 0),
{
    cs.len() > 1 && letter(cs[0]) && cs[1] == ':'
}

/// Finds the next separator from `from` on.
fn find_break(k: Breaks, cs: &Vec<char>, from: usize) -> (r: usize)
    requires
        from <= cs@.len(),
    ensures
        r == next_break(k, cs@, from as int),
        from <= r <= cs@.len(),
{
    let n: usize = cs.len();
    let mut i: usize = from;
    while i < n
        invariant
            n == cs@.len(),
            from <= i <= n,
            next_break(k, cs@, from as int) == next_break(k, cs@, i as int),
        decreases n - i,
    {
        if is_break(k, cs[i]) {
            return i;
        }
        i += 1;
    }
    n
}

fn find_second_end(k: Breaks, cs: &Vec<char>, first: usize) -> (r: usize)
    requires
        first <= cs@.len(),
    ensures
        r == second_end(k, cs@, first as int),
        first <= r <= cs@.len(),
{
    if first < cs.len() {
        find_break(k, cs, first + 1)
    } else {
        first
    }
}

fn letter(c: char) -> (r: bool)
    ensures
        r == is_letter(c),
{
    ('a' <= c && c <= 'z') || ('A' <= c && c <= 'Z')
}

fn upper(c: char) -> (r: char)
    requires
        is_letter(c),
    ensures
        r == drive_letter(c),
{
    if 'a' <= c && c <= 'z' {
        (c as u8 - 32) as char
    } else {
        c
    }
}

/// Appends the characters `from..to`.
fn push_chars(out: &mut Vec<char>, cs: &Vec<char>, from: usize, to: usize)
    requires
        from <= to <= cs@.len(),
    ensures
        final(out)@ == old(out)@ + cs@.subrange(from as int, to as int),
{
    let ghost was = out@;
    let mut i: usize = from;
    assert(was + cs@.subrange(from as int, from as int) =~= was);
    while i < to
        invariant
            from <= i <= to <= cs@.len(),
            out@ == was + cs@.subrange(from as int, i as int),
        decreases to - i,
    {
        out.push(cs[i]);
        i += 1;
        assert(out@ =~= was + cs@.subrange(from as int, i as int));
    }
}

/// Whether a path is to be taken as it is written.
pub fn verbatim(cs: &Vec<char>) -> (r: bool)
    ensures
        r == is_verbatim(cs@),
{
    let ghost mark = seq!['\\', '\\', '?', '\\'];
    assert(mark.len() == 4 && mark[0] == '\\' && mark[1] == '\\' && mark[2] == '?' && mark[3]
        == '\\');
    if cs.len() < 4 {
        return false;
    }
    let r: bool = cs[0] == '\\' && cs[1] == '\\' && cs[2] == '?' && cs[3] == '\\';
    proof {
        let front = cs@.take(4);
        assert(front[0] == cs@[0] && front[1] == cs@[1] && front[2] == cs@[2] && front[3]
            == cs@[3]);
        if r {
            assert(front =~= mark);
        }
    }
    r
}

fn read_verbatim(cs: &Vec<char>) -> (r: (Vec<char>, usize))
    requires
        is_verbatim(cs@),
    ensures
        (r.0@, r.1 as int) == verbatim_prefix(cs@),
        2 <= r.1 <= cs@.len(),
{
    let n: usize = cs.len();
    let ghost unc = seq!['U', 'N', 'C', '\\'];
    assert(unc.len() == 4 && unc[0] == 'U' && unc[1] == 'N' && unc[2] == 'C' && unc[3] == '\\');
    let share_follows: bool = n >= 8 && cs[4] == 'U' && cs[5] == 'N' && cs[6] == 'C' && cs[7]
        == '\\';
    proof {
        let rest = cs@.skip(4);
        if n >= 8 {
            let front = rest.take(4);
            assert(front[0] == cs@[4] && front[1] == cs@[5] && front[2] == cs@[6] && front[3]
                == cs@[7]);
            if share_follows {
                assert(front =~= unc);
            }
        }
        assert(share_follows == begins_with(rest, unc));
    }
    let mut piece: Vec<char> = Vec::new();
    if share_follows {
        let server: usize = find_break(Breaks::Backslash, cs, 8);
        let share: usize = find_second_end(Breaks::Backslash, cs, server);
        let end: usize = if share > server && share - server > 1 {
            share
        } else {
            server
        };
        push_chars(&mut piece, cs, 0, end);
        assert(piece@ =~= cs@.take(end as int));
        (piece, end)
    } else if n > 5 && letter(cs[4]) && cs[5] == ':' && (n == 6 || is_break(Breaks::Either, cs[6])) {
        push_chars(&mut piece, cs, 0, 4);
        piece.push(upper(cs[4]));
        piece.push(':');
        assert(piece@ =~= seq!['\\', '\\', '?', '\\', drive_letter(cs@[4]), ':']) by {
            let mark = seq!['\\', '\\', '?', '\\'];
            assert(cs@.take(4) == mark);
            assert(cs@.take(4)[0] == cs@[0] && cs@.take(4)[1] == cs@[1] && cs@.take(4)[2]
                == cs@[2] && cs@.take(4)[3] == cs@[3]);
        }
        (piece, 6)
    } else {
        let end: usize = find_break(Breaks::Backslash, cs, 4);
        push_chars(&mut piece, cs, 0, end);
        assert(piece@ =~= cs@.take(end as int));
        (piece, end)
    }
}

fn read_network(cs: &Vec<char>) -> (r: Option<(Vec<char>, usize)>)
    requires
        has_two_breaks(cs@),
    ensures
        match r {
            Some((piece, end)) => network_prefix(cs@) == Some((piece@, end as int)) && 2 <= end
                <= cs@.len(),
            None => network_prefix(cs@) is None,
        },
{
    let n: usize = cs.len();
    let mut piece: Vec<char> = Vec::new();
    piece.push('/');
    piece.push('/');
    assert(piece@ =~= seq!['/', '/']);
    if n > 3 && cs[2] == '.' && is_break(Breaks::Either, cs[3]) {
        let end: usize = find_break(Breaks::Either, cs, 4);
        piece.push('.');
        piece.push('/');
        assert(piece@ =~= seq!['/', '/', '.', '/']);
        push_chars(&mut piece, cs, 4, end);
        return Some((piece, end));
    }
    let server: usize = find_break(Breaks::Either, cs, 2);
    let share: usize = find_second_end(Breaks::Either, cs, server);
    if server > 2 && share > server && share - server > 1 {
        push_chars(&mut piece, cs, 2, server);
        piece.push('/');
        push_chars(&mut piece, cs, server + 1, share);
        assert(piece@ =~= seq!['/', '/'] + cs@.subrange(2, server as int) + seq!['/']
            + cs@.subrange(server + 1, share as int));
        Some((piece, share))
    } else {
        None
    }
}

/// Reads what a Windows path begins with, and where that ends.
pub fn read_prefix(cs: &Vec<char>) -> (r: Option<(Vec<char>, usize)>)
    ensures
        match r {
            Some((piece, end)) => prefix_of(cs@) == Some((piece@, end as int)) && 2 <= end
                <= cs@.len(),
            None => prefix_of(cs@) is None,
        },
{
    let n: usize = cs.len();
    if verbatim(cs) {
        return Some(read_verbatim(cs));
    }
    if n > 1 && is_break(Breaks::Either, cs[0]) && is_break(Breaks::Either, cs[1]) {
        return read_network(cs);
    }
    if n > 1 && letter(cs[0]) && cs[1] == ':' {
        let mut piece: Vec<char> = Vec::new();
        piece.push(upper(cs[0]));
        piece.push(':');
        assert(piece@ =~= seq![drive_letter(cs@[0]), ':']);
        return Some((piece, 2));
    }
    None
}

} // verus!
