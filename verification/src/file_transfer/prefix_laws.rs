//! What Windows paths begin with.
use vstd::prelude::*;

use crate::file_transfer::prefix::{
    breaks, drive_letter, lemma_next_break, next_break, prefix_of, Breaks,
};
use crate::text::begins_with;

verus! {

/// A name without separators, of either kind.
pub open spec fn is_unbroken(s: Seq<char>) -> bool {
    forall|i: int| 0 <= i < s.len() ==> #[trigger] s[i] != '/' && s[i] != '\\'
}

/// A separator, of either kind.
pub open spec fn separates(c: char) -> bool {
    c == '/' || c == '\\'
}

/// Nothing more, or a separator and more.
pub open spec fn is_rest(s: Seq<char>) -> bool {
    s.len() == 0 || separates(s[0])
}

proof fn lemma_break_at(k: Breaks, s: Seq<char>, from: int, at: int)
    requires
        0 <= from <= at <= s.len(),
        forall|i: int| from <= i < at ==> !breaks(k, #[trigger] s[i]),
        at < s.len() ==> breaks(k, s[at]),
    ensures
        next_break(k, s, from) == at,
{
    lemma_next_break(k, s, from);
    let n = next_break(k, s, from);
    if n < at {
        assert(breaks(k, s[n]));
    }
}

/// A path to a share begins with its server and its share, however its
/// separators are written.
pub proof fn law_share_is_the_prefix(
    a: char,
    b: char,
    server: Seq<char>,
    c: char,
    share: Seq<char>,
    rest: Seq<char>,
)
    requires
        separates(a) && separates(b) && separates(c),
        is_unbroken(server) && is_unbroken(share) && is_rest(rest),
        server.len() > 0 && share.len() > 0,
        server != seq!['.'] && server != seq!['?'],
    ensures
        prefix_of(seq![a, b] + server + seq![c] + share + rest) == Some(
            (
                seq!['/', '/'] + server + seq!['/'] + share,
                3 + server.len() + share.len() as int,
            ),
        ),
{
    let s = seq![a, b] + server + seq![c] + share + rest;
    let n = 2 + server.len() as int;
    let e = n + 1 + share.len();
    assert forall|i: int| 2 <= i < n implies !breaks(Breaks::Either, #[trigger] s[i]) by {
        assert(s[i] == server[i - 2]);
    }
    assert(s[n] == c);
    lemma_break_at(Breaks::Either, s, 2, n);
    assert forall|i: int| n + 1 <= i < e implies !breaks(Breaks::Either, #[trigger] s[i]) by {
        assert(s[i] == share[i - n - 1]);
    }
    if rest.len() > 0 {
        assert(s[e] == rest[0]);
    }
    lemma_break_at(Breaks::Either, s, n + 1, e);
    assert(s[0] == a && s[1] == b && s[2] == server[0]);
    assert(s[3] == if server.len() > 1 {
        server[1]
    } else {
        c
    });
    if server.len() == 1 {
        assert(server[0] != '.') by {
            if server[0] == '.' {
                assert(server =~= seq!['.']);
            }
        }
        assert(server[0] != '?') by {
            if server[0] == '?' {
                assert(server =~= seq!['?']);
            }
        }
    }
    let mark = seq!['\\', '\\', '?', '\\'];
    if begins_with(s, mark) {
        assert(s.take(4)[2] == mark[2]);
        assert(s.take(4)[3] == mark[3]);
        assert(server.len() > 1 ==> server[1] != '\\');
    }
    assert(s.subrange(2, n) =~= server);
    assert(s.subrange(n + 1, e) =~= share);
}

/// A path to a device begins with the name of the device.
pub proof fn law_device_is_the_prefix(
    a: char,
    b: char,
    c: char,
    name: Seq<char>,
    rest: Seq<char>,
)
    requires
        separates(a) && separates(b) && separates(c),
        is_unbroken(name) && is_rest(rest),
    ensures
        prefix_of(seq![a, b, '.', c] + name + rest) == Some(
            (seq!['/', '/', '.', '/'] + name, 4 + name.len() as int),
        ),
{
    let s = seq![a, b, '.', c] + name + rest;
    let e = 4 + name.len() as int;
    assert(s[0] == a && s[1] == b && s[2] == '.' && s[3] == c);
    assert forall|i: int| 4 <= i < e implies !breaks(Breaks::Either, #[trigger] s[i]) by {
        assert(s[i] == name[i - 4]);
    }
    if rest.len() > 0 {
        assert(s[e] == rest[0]);
    }
    lemma_break_at(Breaks::Either, s, 4, e);
    let mark = seq!['\\', '\\', '?', '\\'];
    if begins_with(s, mark) {
        assert(s.take(4)[2] == mark[2]);
    }
    assert(s.subrange(4, e) =~= name);
}

/// A path with a drive begins with the drive, whose letter has no case.
pub proof fn law_drive_is_the_prefix(c: char, rest: Seq<char>)
    requires
        ('a' <= c && c <= 'z') || ('A' <= c && c <= 'Z'),
    ensures
        prefix_of(seq![c, ':'] + rest) == Some((seq![drive_letter(c), ':'], 2int)),
        'A' <= c && c <= 'Z' ==> drive_letter(c) == c,
        'a' <= c && c <= 'z' ==> drive_letter(c) as int == c as int - 32,
{
    let s = seq![c, ':'] + rest;
    assert(s[0] == c && s[1] == ':');
    let mark = seq!['\\', '\\', '?', '\\'];
    if begins_with(s, mark) {
        assert(s.take(4)[0] == mark[0]);
    }
}

/// A verbatim path begins with its share, its drive or its first name; only
/// backslashes end a name in it.
pub proof fn law_verbatim_prefix(server: Seq<char>, share: Seq<char>, rest: Seq<char>, c: char)
    requires
        !server.contains('\\') && !share.contains('\\'),
        share.len() > 0,
        rest.len() == 0 || rest[0] == '\\',
        ('a' <= c && c <= 'z') || ('A' <= c && c <= 'Z'),
    ensures
        ({
            let head = seq!['\\', '\\', '?', '\\', 'U', 'N', 'C', '\\'] + server + seq!['\\']
                + share;
            prefix_of(head + rest) == Some((head, head.len() as int))
        }),
        prefix_of(seq!['\\', '\\', '?', '\\', c, ':'] + rest) == Some(
            (seq!['\\', '\\', '?', '\\', drive_letter(c), ':'], 6int),
        ),
{
    let mark = seq!['\\', '\\', '?', '\\'];
    let unc = seq!['U', 'N', 'C', '\\'];
    let front = seq!['\\', '\\', '?', '\\', 'U', 'N', 'C', '\\'];
    let head = front + server + seq!['\\'] + share;
    let s = head + rest;
    let n = 8 + server.len() as int;
    let e = n + 1 + share.len();
    assert(s.take(4) =~= mark);
    assert(s.skip(4).take(4) =~= unc);
    assert forall|i: int| 8 <= i < n implies !breaks(Breaks::Backslash, #[trigger] s[i]) by {
        assert(s[i] == server[i - 8]);
        assert(server.contains(server[i - 8]));
    }
    assert(s[n] == '\\');
    lemma_break_at(Breaks::Backslash, s, 8, n);
    assert forall|i: int| n + 1 <= i < e implies !breaks(Breaks::Backslash, #[trigger] s[i]) by {
        assert(s[i] == share[i - n - 1]);
        assert(share.contains(share[i - n - 1]));
    }
    if rest.len() > 0 {
        assert(s[e] == rest[0]);
    }
    lemma_break_at(Breaks::Backslash, s, n + 1, e);
    assert(s.take(e) =~= head);
    let d = seq!['\\', '\\', '?', '\\', c, ':'] + rest;
    assert(d.take(4) =~= mark);
    assert(d[4] == c && d[5] == ':');
    if rest.len() > 0 {
        assert(d[6] == rest[0]);
    }
    if begins_with(d.skip(4), unc) {
        assert(d.skip(4).take(4)[1] == unc[1]);
        assert(d.skip(4)[1] == ':');
    }
}

/// A path that begins with neither a drive nor two separators names no drive
/// and no share.
pub proof fn law_plain_paths_have_no_prefix(s: Seq<char>)
    requires
        s.len() >= 2 ==> !(separates(s[0]) && separates(s[1])),
        s.len() >= 2 && s[1] == ':' ==> !(('a' <= s[0] && s[0] <= 'z') || ('A' <= s[0] && s[0]
            <= 'Z')),
    ensures
        prefix_of(s) is None,
{
    let mark = seq!['\\', '\\', '?', '\\'];
    if begins_with(s, mark) {
        assert(s.take(4)[0] == mark[0]);
        assert(s.take(4)[1] == mark[1]);
    }
}

} // verus!
