//! What becomes of names and paths, letter by letter.
use vstd::prelude::*;

use crate::digest::hex;
use crate::file_transfer::header::{be_bytes, header_bytes};
use crate::file_transfer::paths::{
    after_last_separator, base_name, body_start, components, components_in, destination,
    directory_of, end_before, file_name_of, front_of, is_inside, is_void, joined, last_component,
    last_dot, lemma_after_last_separator, lemma_components_local, lemma_components_over_break,
    lemma_piece_start, numbered, piece_start, splitting, stem_of, suffix_of,
};
use crate::file_transfer::prefix::{breaks, prefix_of, Breaks};
use crate::network::tailscale::debug_text::quoted;
use crate::text::{decimal, is_white, trimmed, without_white_start};

verus! {

// ---------------------------------------------------------------------------
// Names
// ---------------------------------------------------------------------------

/// A text that can name a file as it stands: without separators, white space
/// at its ends and null characters, and neither empty nor a dot name.
pub open spec fn is_plain_name(name: Seq<char>) -> bool {
    &&& name.len() > 0
    &&& !name.contains('/')
    &&& !name.contains('\\')
    &&& !name.contains('\0')
    &&& !is_white(name[0])
    &&& !is_white(name.last())
    &&& name != seq!['.']
    &&& name != seq!['.', '.']
}

/// White space is what separates words.
pub proof fn law_blanks_are_white()
    ensures
        is_white(' '),
        is_white('\t'),
        is_white('\n'),
        is_white('\r'),
        !is_white('a'),
        !is_white('.'),
        !is_white('0'),
        !is_white('_'),
        !is_white('-'),
{
}

proof fn lemma_after_separators(s: Seq<char>, name: Seq<char>, k: int)
    requires
        0 <= k <= s.len(),
        k == 0 || s[k - 1] == '/' || s[k - 1] == '\\',
        name == s.skip(k),
        !name.contains('/'),
        !name.contains('\\'),
    ensures
        after_last_separator(s) == name,
{
    let n = s.len() as int;
    assert forall|i: int| k <= i < n implies s[i] != '/' && s[i] != '\\' by {
        assert(name[i - k] == s[i]);
    }
    lemma_after_last_separator(s, k, n);
    assert(s.take(n) =~= s);
    assert(s.subrange(k, n) =~= name);
}

/// Of the name that a peer sends, what stands behind the last separator of any
/// platform is kept, without the white space around it.
pub proof fn law_base_name_is_the_last_part(
    front: Seq<char>,
    c: char,
    name: Seq<char>,
    blank: char,
)
    requires
        is_plain_name(name),
        c == '/' || c == '\\',
        is_white(blank),
        blank != '/',
        blank != '\\',
    ensures
        base_name(name) == Some(name),
        base_name(front + seq![c] + name) == Some(name),
        base_name(front + seq![c] + (seq![blank] + name + seq![blank])) == Some(name),
        base_name(front + seq![c]) is None,
{
    let n = name.len() as int;
    assert(name.skip(0) =~= name);
    lemma_after_separators(name, name, 0);
    let s = front + seq![c] + name;
    let k: int = front.len() + 1int;
    assert(s.skip(k) =~= name);
    lemma_after_separators(s, name, k);
    assert(trimmed(name) == name);
    let wide = seq![blank] + name + seq![blank];
    let t = front + seq![c] + wide;
    assert(t.skip(k) =~= wide);
    assert(!wide.contains('/') && !wide.contains('\\')) by {
        assert forall|i: int| 0 <= i < wide.len() implies wide[i] != '/' && wide[i] != '\\' by {
            if 1 <= i <= n {
                assert(wide[i] == name[i - 1]);
            }
        }
    }
    lemma_after_separators(t, wide, k);
    let rest = name + seq![blank];
    assert(wide.skip(1) =~= rest);
    assert(rest[0] == name[0]);
    assert(without_white_start(wide) == rest) by {
        assert(without_white_start(rest) == rest);
    }
    assert(rest.drop_last() =~= name);
    assert(rest.last() == blank);
    let u = front + seq![c];
    assert(u.skip(k) =~= Seq::empty());
    lemma_after_separators(u, Seq::empty(), k);
}

/// Names that can name no file are refused: dots, and whatever holds a null
/// character behind its last separator.
pub proof fn law_bad_names_are_refused(front: Seq<char>, c: char, name: Seq<char>)
    requires
        c == '/' || c == '\\',
        name == seq!['.'] || name == seq!['.', '.'] || name == seq!['\0'],
    ensures
        base_name(name) is None,
        base_name(front + seq![c] + name) is None,
{
    assert(name.skip(0) =~= name);
    lemma_after_separators(name, name, 0);
    let s = front + seq![c] + name;
    let k: int = front.len() + 1int;
    assert(s.skip(k) =~= name);
    lemma_after_separators(s, name, k);
    assert(name[0] == '.' || name[0] == '\0');
    assert(name.last() == '.' || name.last() == '\0');
    if name == seq!['\0'] {
        assert(name.contains('\0')) by {
            assert(name[0] == '\0');
        }
    }
}

/// A received file goes where the application says: a path that is no
/// directory is taken as it stands; in a directory the file keeps the last part
/// of its name.
pub proof fn law_destination_is_as_said(
    dir: Seq<char>,
    c: char,
    front: Seq<char>,
    name: Seq<char>,
    bad: Seq<char>,
)
    requires
        dir.len() > 0,
        dir.last() != '/',
        dir.last() != '\\',
        c == '/' || c == '\\',
        is_plain_name(name),
        bad == seq!['.', '.'],
    ensures
        destination(dir, front + seq![c] + name, false) == Ok::<Seq<char>, Seq<char>>(dir),
        destination(dir, front + seq![c] + name, true) == Ok::<Seq<char>, Seq<char>>(
            dir + "/"@ + name,
        ),
        destination(dir + seq![c], front + seq![c] + name, false) == Ok::<Seq<char>, Seq<char>>(
            dir + "/"@ + name,
        ),
        destination(dir, bad, true) == Err::<Seq<char>, Seq<char>>(
            "Rejected unsafe file name from peer: "@ + quoted(bad),
        ),
{
    law_blanks_are_white();
    law_base_name_is_the_last_part(front, c, name, ' ');
    law_bad_names_are_refused(front, c, bad);
    let with = dir + seq![c];
    assert(with.last() == c);
    assert(with.drop_last() =~= dir);
}

// ---------------------------------------------------------------------------
// Components
// ---------------------------------------------------------------------------

/// A component that counts: not empty, no dots.
pub open spec fn is_part(part: Seq<char>) -> bool {
    part.len() > 0 && part != seq!['.'] && part != seq!['.', '.']
}

proof fn lemma_last_part(k: Breaks, s: Seq<char>, start: int, at: int)
    requires
        0 <= start <= at < s.len(),
        at == start || breaks(k, s[at - 1]),
        forall|i: int| at <= i < s.len() ==> !breaks(k, #[trigger] s[i]),
    ensures
        piece_start(k, s, start, s.len() as int) == at,
{
    lemma_piece_start(k, s, start, s.len() as int);
    let p = piece_start(k, s, start, s.len() as int);
    if p < at {
        assert(!breaks(k, s[at - 1]));
    }
    if p > at {
        assert(breaks(k, s[p - 1]));
    }
}

/// On Unix the file of a path is what follows its last slash, also behind a
/// slash at its end.
pub proof fn law_unix_file_name(dir: Seq<char>, name: Seq<char>)
    requires
        is_part(name),
        !name.contains('/'),
    ensures
        file_name_of(false, name) == Some(name),
        file_name_of(false, dir + seq!['/'] + name) == Some(name),
        file_name_of(false, dir + seq!['/'] + name + seq!['/']) == Some(name),
{
    let k = Breaks::Slash;
    assert forall|i: int| 0 <= i < name.len() implies name[i] != '/' by {
        assert(name.contains(name[i]));
    }
    // The name alone.
    assert(body_start(false, name) == 0) by {
        if name.len() > 1 {
            assert(name[1] != '/');
        } else {
            assert(name[0] == '.' ==> name =~= seq!['.']);
        }
    }
    lemma_last_part(k, name, 0, 0);
    assert(name.subrange(0, name.len() as int) =~= name);
    // Behind a directory.
    let s = dir + seq!['/'] + name;
    let at: int = dir.len() + 1int;
    let start = body_start(false, s);
    assert(s[dir.len() as int] == '/');
    assert(start <= at);
    assert forall|i: int| at <= i < s.len() implies !breaks(k, #[trigger] s[i]) by {
        assert(s[i] == name[i - at]);
    }
    lemma_last_part(k, s, start, at);
    assert(s.subrange(at, s.len() as int) =~= name);
    // With a slash at the end.
    let t = s + seq!['/'];
    let m = s.len() as int;
    assert(t[m] == '/');
    assert(t.drop_last() =~= s);
    assert(body_start(false, t) == start) by {
        assert(t[0] == s[0]);
        assert(t[1] == s[1]);
    }
    assert(piece_start(k, t, start, m + 1) == m + 1);
    assert(t.subrange(m + 1, m + 1).len() == 0);
    lemma_piece_start(k, t, start, m);
    let p = piece_start(k, t, start, m);
    if p < at {
        assert(!breaks(k, t[dir.len() as int]));
    }
    if p > at {
        assert(breaks(k, t[p - 1]));
        assert(t[p - 1] == name[p - 1 - at]);
    }
    assert(t.subrange(at, m) =~= name);
    assert(last_component(k, t, start, m) == Some((at, m)));
    assert(last_component(k, t, start, m + 1) == Some((at, m)));
}

/// On Windows the file of a path on a drive is what follows its last
/// separator, of either kind.
pub proof fn law_windows_file_name(letter: char, dir: Seq<char>, c: char, name: Seq<char>)
    requires
        ('a' <= letter && letter <= 'z') || ('A' <= letter && letter <= 'Z'),
        c == '/' || c == '\\',
        is_part(name),
        !name.contains('/'),
        !name.contains('\\'),
    ensures
        file_name_of(true, seq![letter, ':'] + dir + seq![c] + name) == Some(name),
{
    let s = seq![letter, ':'] + dir + seq![c] + name;
    let k = Breaks::Either;
    lemma_on_drive(letter, s);
    let at: int = dir.len() + 3int;
    let start = body_start(true, s);
    assert(s[at - 1] == c);
    assert(start <= at) by {
        if dir.len() == 0 {
            assert(s[2] == c);
        }
    }
    assert forall|i: int| at <= i < s.len() implies !breaks(k, #[trigger] s[i]) by {
        assert(s[i] == name[i - at]);
        assert(name.contains(name[i - at]));
    }
    lemma_last_part(k, s, start, at);
    assert(s.subrange(at, s.len() as int) =~= name);
}

proof fn lemma_on_drive(letter: char, s: Seq<char>)
    requires
        ('a' <= letter && letter <= 'z') || ('A' <= letter && letter <= 'Z'),
        s.len() > 2,
        s[0] == letter,
        s[1] == ':',
    ensures
        splitting(true, s) == Breaks::Either,
        prefix_of(s) is Some,
        (prefix_of(s)->0).1 == 2,
        (prefix_of(s)->0).0.len() == 2,
        (prefix_of(s)->0).0[1] == ':',
        ('A' <= letter && letter <= 'Z') ==> (prefix_of(s)->0).0[0] == letter,
        ('a' <= letter && letter <= 'z') ==> (prefix_of(s)->0).0[0] == (letter as u8 - 32) as char,
{
    let mark = seq!['\\', '\\', '?', '\\'];
    assert(mark.len() == 4 && mark[0] == '\\');
    if s.len() >= 4 {
        assert(s.take(4)[0] == s[0]);
    }
}

/// On Unix a path lies in its own directory and in whatever leads to it.
pub proof fn law_unix_below_is_inside(root: Seq<char>, rest: Seq<char>)
    requires
        root.len() > 0,
    ensures
        is_inside(false, root, root),
        is_inside(false, root, root + seq!['/'] + rest),
{
    let a = components(false, root);
    assert(a.take(a.len() as int) =~= a);
    crate::file_transfer::paths::law_below_is_inside(false, root, '/', rest);
}

/// The components of a path that goes on from `common` with a part of its own.
proof fn lemma_component_behind(common: Seq<char>, part: Seq<char>, rest: Seq<char>)
    requires
        is_part(part),
        !part.contains('/'),
    ensures
        ({
            let s = common + seq!['/'] + part + seq!['/'] + rest;
            let n = components(false, common + seq!['/']).len();
            let c = components(false, s);
            &&& c.len() > n
            &&& c[n as int] == part
        }),
{
    let k = Breaks::Slash;
    let head = common + seq!['/'];
    let s = head + part + seq!['/'] + rest;
    let p = head.len() as int;
    let q: int = p + part.len();
    assert(s =~= common + seq!['/'] + part + seq!['/'] + rest);
    assert(s[common.len() as int] == '/');
    assert(head[common.len() as int] == '/');
    assert(s[0] == head[0]);
    if p > 1 {
        assert(s[1] == head[1]);
    }
    let start = body_start(false, head);
    assert(body_start(false, s) == start) by {
        if p == 1 {
            assert(s[0] == '/');
        }
    }
    assert(front_of(false, s) == front_of(false, head)) by {
        if p == 1 {
            assert(s[0] == '/');
        }
    }
    assert(start <= p);
    // The head ends with a slash: what it holds is what stands before it.
    assert forall|i: int| p <= i < q implies s[i] != '/' by {
        assert(s[i] == part[i - p]);
        assert(part.contains(part[i - p]));
    }
    lemma_piece_start(k, s, start, q);
    let at = piece_start(k, s, start, q);
    if at < p {
        assert(!breaks(k, s[p - 1]));
    }
    if at > p {
        assert(breaks(k, s[at - 1]));
    }
    assert(s.subrange(p, q) =~= part);
    let before = end_before(start, p);
    assert(components_in(k, s, start, q) == components_in(k, s, start, before).push(part));
    assert(components_in(k, head, start, p) == components_in(k, head, start, before)) by {
        if start < p {
            assert(breaks(k, head[p - 1]));
            assert(piece_start(k, head, start, p) == p);
            assert(head.subrange(p, p).len() == 0);
        }
    }
    lemma_components_local(k, head, s, start, before);
    assert(s[q] == '/');
    lemma_components_over_break(k, s, start, q, s.len() as int);
    let whole = components_in(k, s, start, s.len() as int);
    let upto = components_in(k, s, start, q);
    let n = components(false, head).len();
    let f = front_of(false, s).len();
    assert(n == f + upto.len() - 1);
    assert(whole.take(upto.len() as int)[upto.len() - 1] == part);
    assert(components(false, s)[n as int] == whole[upto.len() - 1]);
}

/// On Unix a path that leaves a directory's path at any component does not lie
/// in the directory.
pub proof fn law_unix_elsewhere_is_not_inside(
    common: Seq<char>,
    part: Seq<char>,
    rest: Seq<char>,
    other: Seq<char>,
    tail: Seq<char>,
)
    requires
        is_part(part),
        is_part(other),
        !part.contains('/'),
        !other.contains('/'),
        part != other,
    ensures
        !is_inside(
            false,
            common + seq!['/'] + part + seq!['/'] + rest,
            common + seq!['/'] + other + seq!['/'] + tail,
        ),
{
    lemma_component_behind(common, part, rest);
    lemma_component_behind(common, other, tail);
    let n = components(false, common + seq!['/']).len() as int;
    let a = components(false, common + seq!['/'] + part + seq!['/'] + rest);
    let b = components(false, common + seq!['/'] + other + seq!['/'] + tail);
    if a.len() <= b.len() {
        assert(b.take(a.len() as int)[n] == other);
    }
}

/// What lies in a directory lies in every directory that this one lies in.
pub proof fn law_inside_is_transitive(windows: bool, a: Seq<char>, b: Seq<char>, c: Seq<char>)
    requires
        is_inside(windows, a, b),
        is_inside(windows, b, c),
    ensures
        is_inside(windows, a, c),
{
    let x = components(windows, a);
    let y = components(windows, b);
    let z = components(windows, c);
    assert(z.take(x.len() as int) =~= y.take(x.len() as int)) by {
        assert forall|i: int| 0 <= i < x.len() implies z[i] == y[i] by {
            assert(z.take(y.len() as int)[i] == y[i]);
        }
    }
}

/// Two texts that differ in the kind of their separators at most.
pub open spec fn same_but_for_separators(x: Seq<char>, y: Seq<char>) -> bool {
    &&& x.len() == y.len()
    &&& forall|i: int|
        0 <= i < x.len() ==> (#[trigger] x[i] == y[i] || ((x[i] == '/' || x[i] == '\\') && (y[i]
            == '/' || y[i] == '\\')))
}

proof fn lemma_same_pieces(s: Seq<char>, t: Seq<char>, start: int, end: int)
    requires
        same_but_for_separators(s, t),
        0 <= start <= end <= s.len(),
    ensures
        piece_start(Breaks::Either, s, start, end) == piece_start(Breaks::Either, t, start, end),
    decreases end - start,
{
    if start < end {
        assert(s[end - 1] == t[end - 1] || breaks(Breaks::Either, s[end - 1]));
        if !breaks(Breaks::Either, s[end - 1]) {
            lemma_same_pieces(s, t, start, end - 1);
        }
    }
}

proof fn lemma_same_components(s: Seq<char>, t: Seq<char>, start: int, end: int)
    requires
        same_but_for_separators(s, t),
        0 <= start <= end <= s.len(),
    ensures
        components_in(Breaks::Either, s, start, end) == components_in(
            Breaks::Either,
            t,
            start,
            end,
        ),
    decreases end - start,
{
    if start < end {
        let k = Breaks::Either;
        lemma_same_pieces(s, t, start, end);
        lemma_piece_start(k, s, start, end);
        let at = piece_start(k, s, start, end);
        assert(s.subrange(at, end) =~= t.subrange(at, end)) by {
            assert forall|i: int| at <= i < end implies s[i] == t[i] by {
                assert(!breaks(k, s[i]));
            }
        }
        lemma_same_components(s, t, start, end_before(start, at));
    }
}

/// On Windows neither the case of a drive's letter nor the kind of the
/// separators tells two paths apart.
pub proof fn law_windows_spellings_agree(
    small: char,
    capital: char,
    x: Seq<char>,
    y: Seq<char>,
    other: Seq<char>,
)
    requires
        'a' <= small && small <= 'z',
        capital == (small as u8 - 32) as char,
        x.len() > 0,
        same_but_for_separators(x, y),
    ensures
        components(true, seq![small, ':'] + x) == components(true, seq![capital, ':'] + y),
        is_inside(true, seq![small, ':'] + x, other) == is_inside(
            true,
            seq![capital, ':'] + y,
            other,
        ),
        is_inside(true, other, seq![small, ':'] + x) == is_inside(
            true,
            other,
            seq![capital, ':'] + y,
        ),
{
    let s = seq![small, ':'] + x;
    let t = seq![capital, ':'] + y;
    let u = seq![small, ':'] + y;
    let k = Breaks::Either;
    lemma_on_drive(small, s);
    lemma_on_drive(capital, t);
    assert(capital as u8 == small as u8 - 32);
    assert('A' <= capital && capital <= 'Z');
    assert((prefix_of(s)->0).0 =~= (prefix_of(t)->0).0);
    assert(s[2] == x[0] && t[2] == y[0]);
    assert(x[0] == y[0] || breaks(k, x[0]));
    if x.len() > 1 {
        assert(s[3] == x[1] && t[3] == y[1]);
        assert(x[1] == y[1] || breaks(k, x[1]));
    }
    let start = body_start(true, s);
    assert(body_start(true, t) == start);
    assert(same_but_for_separators(s, u)) by {
        assert forall|i: int| 0 <= i < s.len() implies (#[trigger] s[i] == u[i] || ((s[i] == '/'
            || s[i] == '\\') && (u[i] == '/' || u[i] == '\\'))) by {
            if i >= 2 {
                assert(s[i] == x[i - 2] && u[i] == y[i - 2]);
            }
        }
    }
    let n = s.len() as int;
    lemma_same_components(s, u, start, n);
    lemma_components_local(k, u, t, start, n);
    assert(front_of(true, s) =~= front_of(true, t));
}

// ---------------------------------------------------------------------------
// Joining and numbering
// ---------------------------------------------------------------------------

/// A name behind a directory, with a separator between them unless there is
/// one already.
pub proof fn law_join_puts_one_separator(dir: Seq<char>, name: Seq<char>)
    ensures
        dir.len() == 0 ==> joined(false, dir, name) == name,
        dir.len() > 0 && dir.last() == '/' ==> joined(false, dir, name) == dir + name,
        dir.len() > 0 && dir.last() != '/' ==> joined(false, dir, name) == dir + "/"@ + name,
        name.len() > 0 && (name.len() < 2 || name[1] != ':') ==> {
            &&& dir.len() == 0 ==> joined(true, dir, name) == name
            &&& dir.len() > 0 && (dir.last() == '/' || dir.last() == '\\') ==> joined(
                true,
                dir,
                name,
            ) == dir + name
            &&& dir.len() > 2 && dir.last() != '/' && dir.last() != '\\' ==> joined(
                true,
                dir,
                name,
            ) == dir + "\\"@ + name
        },
{
    let none = Seq::<char>::empty();
    assert(dir + none =~= dir);
    if dir.len() == 0 {
        assert(dir + none + name =~= name);
    }
}

proof fn lemma_dot(name: Seq<char>, at: int)
    requires
        0 <= at < name.len(),
        name[at] == '.',
        forall|i: int| at < i < name.len() ==> name[i] != '.',
    ensures
        last_dot(name) == at,
    decreases name.len(),
{
    if at < name.len() - 1 {
        let front = name.drop_last();
        assert(name.last() == name[name.len() - 1]);
        lemma_dot(front, at);
    }
}

proof fn lemma_no_dot(name: Seq<char>)
    requires
        !name.contains('.'),
    ensures
        last_dot(name) < 0,
    decreases name.len(),
{
    if name.len() > 0 {
        let front = name.drop_last();
        assert(name.contains(name.last())) by {
            assert(name[name.len() - 1] == name.last());
        }
        assert(!front.contains('.')) by {
            if front.contains('.') {
                let i = choose|i: int| 0 <= i < front.len() && front[i] == '.';
                assert(name[i] == '.');
            }
        }
        lemma_no_dot(front);
    }
}

/// The extension of a name is its last dot and what follows. A name without a
/// dot, or with one in front only, has none.
pub proof fn law_extension_follows_the_last_dot(stem: Seq<char>, ext: Seq<char>)
    requires
        !ext.contains('.'),
    ensures
        stem.len() > 0 ==> stem_of(stem + seq!['.'] + ext) == stem,
        stem.len() > 0 ==> suffix_of(stem + seq!['.'] + ext) == seq!['.'] + ext,
        stem_of(ext) == ext,
        suffix_of(ext).len() == 0,
        stem_of(seq!['.'] + ext) == seq!['.'] + ext,
        suffix_of(seq!['.'] + ext).len() == 0,
{
    let name = stem + seq!['.'] + ext;
    let at = stem.len() as int;
    assert forall|i: int| at < i < name.len() implies name[i] != '.' by {
        assert(name[i] == ext[i - at - 1]);
        assert(ext.contains(ext[i - at - 1]));
    }
    lemma_dot(name, at);
    assert(name.take(at) =~= stem);
    assert(name.skip(at) =~= seq!['.'] + ext);
    lemma_no_dot(ext);
    let hidden = seq!['.'] + ext;
    assert forall|i: int| 0 < i < hidden.len() implies hidden[i] != '.' by {
        assert(hidden[i] == ext[i - 1]);
        assert(ext.contains(ext[i - 1]));
    }
    lemma_dot(hidden, 0);
}

/// The directory of a path ends before the separator of its last name.
proof fn lemma_directory(dir: Seq<char>, name: Seq<char>)
    requires
        dir.len() > 0,
        dir.last() != '/',
        dir.last() != '.',
        is_part(name),
        !name.contains('/'),
    ensures
        directory_of(false, dir + seq!['/'] + name) == dir,
{
    let k = Breaks::Slash;
    let s = dir + seq!['/'] + name;
    let d = dir.len() as int;
    let at = d + 1;
    let start = body_start(false, s);
    assert(s[0] == dir[0]);
    assert(s[d - 1] == dir.last());
    assert(s[d] == '/');
    assert(start <= d) by {
        if d == 1 {
            assert(dir[0] == dir.last());
        }
    }
    assert forall|i: int| at <= i < s.len() implies !breaks(k, #[trigger] s[i]) by {
        assert(s[i] == name[i - at]);
        assert(name.contains(name[i - at]));
    }
    lemma_last_part(k, s, start, at);
    assert(s.subrange(at, s.len() as int) =~= name);
    assert(start < d) by {
        if d == 1 {
            assert(start == 0);
        }
    }
    lemma_piece_start(k, s, start, d);
    let p = piece_start(k, s, start, d);
    assert(p < d) by {
        if p == d {
            assert(breaks(k, s[d - 1]));
        }
    }
    let piece = s.subrange(p, d);
    assert(!is_void(k, piece)) by {
        assert(piece[piece.len() - 1] == s[d - 1]);
        if piece == seq!['.'] {
            assert(piece[0] == '.');
        }
    }
    assert(s.take(d) =~= dir);
}

/// A file that gets a number gets it in front of its extension, and stays in
/// its directory.
pub proof fn law_number_goes_before_the_extension(
    dir: Seq<char>,
    stem: Seq<char>,
    ext: Seq<char>,
    n: u32,
)
    requires
        dir.len() > 0,
        dir.last() != '/',
        dir.last() != '.',
        stem.len() > 0,
        !stem.contains('/'),
        !stem.contains('.'),
        ext.len() > 0,
        !ext.contains('/'),
        !ext.contains('.'),
    ensures
        numbered(false, dir + seq!['/'] + (stem + seq!['.'] + ext), n) == dir + "/"@ + (stem
            + " ("@ + decimal(n as nat) + ")"@ + (seq!['.'] + ext)),
        numbered(false, dir + seq!['/'] + stem, n) == dir + "/"@ + (stem + " ("@ + decimal(
            n as nat,
        ) + ")"@),
        numbered(false, stem, n) == stem + " ("@ + decimal(n as nat) + ")"@,
{
    let name = stem + seq!['.'] + ext;
    assert(name[0] == stem[0]);
    assert(stem[0] != '.') by {
        assert(stem.contains(stem[0]));
    }
    assert(is_part(name)) by {
        assert(name != seq!['.']) by {
            assert(seq!['.'].len() == 1);
        }
        assert(name != seq!['.', '.']) by {
            assert(seq!['.', '.'][0] == '.');
        }
    }
    assert(is_part(stem)) by {
        assert(seq!['.'][0] == '.' && seq!['.', '.'][0] == '.');
    }
    assert(!name.contains('/')) by {
        assert forall|i: int| 0 <= i < name.len() implies name[i] != '/' by {
            if i < stem.len() {
                assert(name[i] == stem[i]);
                assert(stem.contains(stem[i]));
            } else if i > stem.len() {
                assert(name[i] == ext[i - stem.len() - 1]);
                assert(ext.contains(ext[i - stem.len() - 1]));
            }
        }
    }
    law_unix_file_name(dir, name);
    law_unix_file_name(dir, stem);
    lemma_directory(dir, name);
    lemma_directory(dir, stem);
    law_extension_follows_the_last_dot(stem, ext);
    law_extension_follows_the_last_dot(stem, stem);
    let bare = stem + " ("@ + decimal(n as nat) + ")"@;
    assert(bare + suffix_of(stem) =~= bare);
    // Without a directory.
    let start = body_start(false, stem);
    assert(start == 0) by {
        assert(!(stem[0] == '/')) by {
            assert(stem.contains(stem[0]));
        }
    }
    assert forall|i: int| 0 <= i < stem.len() implies !breaks(Breaks::Slash, #[trigger] stem[i]) by {
        assert(stem.contains(stem[i]));
    }
    lemma_last_part(Breaks::Slash, stem, 0, 0);
    assert(stem.subrange(0, stem.len() as int) =~= stem);
    assert(directory_of(false, stem) =~= Seq::empty());
    assert(Seq::<char>::empty() + Seq::<char>::empty() + bare =~= bare);
}

// ---------------------------------------------------------------------------
// Bytes
// ---------------------------------------------------------------------------

/// The head of a stream begins with the upper bytes of the size, and goes on
/// with the digest.
pub proof fn law_head_has_the_upper_bytes_first(size: u64, digest: Seq<char>)
    ensures
        ({
            let h = header_bytes(size, digest);
            &&& h.len() >= 8
            &&& h[0] == size / 0x100_0000_0000_0000
            &&& h[6] == (size / 256) % 256
            &&& h[7] == size % 256
            &&& h.skip(8) == vstd::utf8::encode_utf8(digest)
        }),
{
    reveal_with_fuel(be_bytes, 9);
    let h = header_bytes(size, digest);
    let b = be_bytes(size as nat, 8);
    assert(b.len() == 8);
    assert(h.skip(8) =~= vstd::utf8::encode_utf8(digest));
    assert(b[7] == (size as nat % 256) as u8);
    assert(b[6] == (size as nat / 256 % 256) as u8);
    let top = size as nat / 256 / 256 / 256 / 256 / 256 / 256 / 256;
    assert(b[0] == (top % 256) as u8);
    assert(top == size as nat / 0x100_0000_0000_0000);
    assert(top < 256);
}

/// Each byte has two digits, its upper half first, from `0` to `f`.
pub proof fn law_bytes_have_two_digits(data: Seq<u8>, i: int, high: u8, low: u8)
    requires
        0 <= i < data.len(),
        high < 16,
        low < 16,
        data[i] == 16 * high + low,
    ensures
        hex(data).len() == 2 * data.len(),
        hex(data)[2 * i] as u32 == (if high < 10 {
            48 + high
        } else {
            87 + high
        }),
        hex(data)[2 * i + 1] as u32 == (if low < 10 {
            48 + low
        } else {
            87 + low
        }),
{
    assert(data[i] / 16 == high);
    assert(data[i] % 16 == low);
    assert((2 * i) / 2 == i && (2 * i) % 2 == 0);
    assert((2 * i + 1) / 2 == i && (2 * i + 1) % 2 == 1);
}

} // verus!
