//! Names and paths of transferred files.
//!
//! Paths are texts. Their components are separated as on the platform they
//! come from: by `/`, and on Windows by `\` too.
use vstd::prelude::*;

use crate::file_transfer::prefix::{
    breaks, is_break, is_drive, is_drive_at, is_verbatim, lemma_prefix_end, lemma_prefix_kept,
    lemma_prefix_tells_verbatim, prefix_of, read_prefix, verbatim, Breaks,
};
use crate::network::tailscale::debug_text::{quoted, quoted_text};
use crate::text::{
    chars_of, decimal, decimal_text, join2, join3, lemma_decimal_reads_back, owned, string_of,
    trim_range, trimmed, without_white_end, without_white_start,
};

verus! {

// ---------------------------------------------------------------------------
// Base names
// ---------------------------------------------------------------------------

/// A separator of any platform: names come from strangers.
pub open spec fn is_separator(c: char) -> bool {
    c == '/' || c == '\\'
}

/// What follows the last separator.
pub open spec fn after_last_separator(s: Seq<char>) -> Seq<char>
    decreases s.len(),
{
    if s.len() == 0 || is_separator(s.last()) {
        Seq::empty()
    } else {
        after_last_separator(s.drop_last()).push(s.last())
    }
}

/// The name without its directories, if that is a name a file can have.
pub open spec fn base_name(name: Seq<char>) -> Option<Seq<char>> {
    let last = trimmed(after_last_separator(name));
    if last.len() == 0 || last == seq!['.'] || last == seq!['.', '.'] || last.contains('\0') {
        None
    } else {
        Some(last)
    }
}

pub proof fn lemma_after_last_separator(cs: Seq<char>, k: int, n: int)
    requires
        0 <= k <= n <= cs.len(),
        k == 0 || is_separator(cs[k - 1]),
        forall|i: int| k <= i < n ==> !is_separator(#[trigger] cs[i]),
    ensures
        after_last_separator(cs.take(n)) == cs.subrange(k, n),
    decreases n,
{
    let s = cs.take(n);
    if n == 0 {
        assert(cs.subrange(k, n) =~= Seq::empty());
    } else if k == n {
        assert(s.last() == cs[n - 1]);
        assert(cs.subrange(k, n) =~= Seq::empty());
    } else {
        assert(s.last() == cs[n - 1]);
        assert(s.drop_last() =~= cs.take(n - 1));
        lemma_after_last_separator(cs, k, n - 1);
        assert(cs.subrange(k, n - 1).push(cs[n - 1]) =~= cs.subrange(k, n));
    }
}

/// Reduces a name that a peer chose to one that stays in its directory:
/// without its directories and the white space around it, and `None` where
/// nothing is left that can name a file.
pub fn safe_base_name(name: &str) -> (r: Option<String>)
    ensures
        match r {
            Some(s) => base_name(name@) == Some(s@),
            None => base_name(name@) is None,
        },
{
    let cs: Vec<char> = chars_of(name);
    let n: usize = cs.len();
    let mut k: usize = n;
    while k > 0 && cs[k - 1] != '/' && cs[k - 1] != '\\'
        invariant
            k <= n == cs@.len(),
            forall|i: int| k <= i < n ==> !is_separator(#[trigger] cs@[i]),
        decreases k,
    {
        k -= 1;
    }
    proof {
        lemma_after_last_separator(cs@, k as int, n as int);
        assert(cs@.take(n as int) =~= cs@);
    }
    let (a, b) = trim_range(&cs, k, n);
    let ghost last = cs@.subrange(a as int, b as int);
    let len: usize = b - a;
    if len == 0 {
        return None;
    }
    if len == 1 && cs[a] == '.' {
        assert(last =~= seq!['.']);
        return None;
    }
    if len == 2 && cs[a] == '.' && cs[a + 1] == '.' {
        assert(last =~= seq!['.', '.']);
        return None;
    }
    assert(last != seq!['.']) by {
        assert(seq!['.'].len() == 1 && seq!['.'][0] == '.');
        assert(last[0] == cs@[a as int]);
    }
    assert(last != seq!['.', '.']) by {
        assert(seq!['.', '.'].len() == 2 && seq!['.', '.'][0] == '.' && seq!['.', '.'][1] == '.');
        assert(len == 2 ==> last[0] == cs@[a as int] && last[1] == cs@[a + 1]);
    }
    let mut i: usize = a;
    while i < b
        invariant
            a <= i <= b <= n == cs@.len(),
            last == cs@.subrange(a as int, b as int),
            last == trimmed(after_last_separator(name@)),
            forall|j: int| a <= j < i ==> #[trigger] cs@[j] != '\0',
        decreases b - i,
    {
        if cs[i] == '\0' {
            assert(last[i - a] == '\0');
            return None;
        }
        i += 1;
    }
    assert(!last.contains('\0')) by {
        if last.contains('\0') {
            let j = choose|j: int| 0 <= j < last.len() && last[j] == '\0';
            assert(cs@[a + j] == '\0');
        }
    }
    Some(string_of(&cs, a, b))
}

pub proof fn lemma_trimmed_is_part(s: Seq<char>, c: char)
    requires
        trimmed(s).contains(c),
    ensures
        s.contains(c),
{
    let t = without_white_start(s);
    lemma_end_part(t, c);
    lemma_start_part(s, c);
}

pub proof fn lemma_start_part(s: Seq<char>, c: char)
    requires
        without_white_start(s).contains(c),
    ensures
        s.contains(c),
    decreases s.len(),
{
    if without_white_start(s) != s {
        lemma_start_part(s.skip(1), c);
        let j = choose|j: int| 0 <= j < s.skip(1).len() && s.skip(1)[j] == c;
        assert(s[j + 1] == c);
    }
}

pub proof fn lemma_end_part(s: Seq<char>, c: char)
    requires
        without_white_end(s).contains(c),
    ensures
        s.contains(c),
    decreases s.len(),
{
    if without_white_end(s) != s {
        lemma_end_part(s.drop_last(), c);
        let j = choose|j: int| 0 <= j < s.drop_last().len() && s.drop_last()[j] == c;
        assert(s[j] == c);
    }
}

pub proof fn lemma_no_separator_after_last(s: Seq<char>, c: char)
    requires
        after_last_separator(s).contains(c),
    ensures
        !is_separator(c),
    decreases s.len(),
{
    if s.len() > 0 && !is_separator(s.last()) {
        let front = after_last_separator(s.drop_last());
        let j = choose|j: int| 0 <= j < front.push(s.last()).len() && front.push(s.last())[j] == c;
        if j < front.len() {
            assert(front[j] == c);
            lemma_no_separator_after_last(s.drop_last(), c);
        }
    }
}

/// Whatever name a peer sends, the base name cannot leave its directory: it
/// holds no separator and no null, and is neither empty nor a dot name.
pub proof fn law_base_name_never_escapes(name: Seq<char>, c: char)
    requires
        base_name(name) is Some,
        base_name(name)->0.contains(c),
    ensures
        c != '/',
        c != '\\',
        c != '\0',
        base_name(name)->0.len() > 0,
        base_name(name)->0 != seq!['.'],
        base_name(name)->0 != seq!['.', '.'],
{
    lemma_trimmed_is_part(after_last_separator(name), c);
    lemma_no_separator_after_last(name, c);
}

// ---------------------------------------------------------------------------
// Destinations
// ---------------------------------------------------------------------------

/// The text without the separators at its end.
pub open spec fn without_end_separators(s: Seq<char>) -> Seq<char>
    decreases s.len(),
{
    if s.len() > 0 && is_separator(s.last()) {
        without_end_separators(s.drop_last())
    } else {
        s
    }
}

/// Whether a path means a directory: there is one, or it ends like one.
pub open spec fn means_directory(save_path: Seq<char>, is_dir: bool) -> bool {
    is_dir || (save_path.len() > 0 && is_separator(save_path.last()))
}

/// Where a received file goes: an explicit path as it stands, in a directory
/// under the base name of the file. `Err` with the reason where the name is
/// unsafe.
pub open spec fn destination(save_path: Seq<char>, file_name: Seq<char>, is_dir: bool) -> Result<
    Seq<char>,
    Seq<char>,
> {
    if means_directory(save_path, is_dir) {
        match base_name(file_name) {
            Some(safe) => Ok(without_end_separators(save_path) + "/"@ + safe),
            None => Err("Rejected unsafe file name from peer: "@ + quoted(file_name)),
        }
    } else {
        Ok(save_path)
    }
}

fn drop_end_separators(s: &str) -> (r: String)
    ensures
        r@ == without_end_separators(s@),
{
    let cs: Vec<char> = chars_of(s);
    let n: usize = cs.len();
    let mut k: usize = n;
    assert(cs@.take(n as int) =~= cs@);
    while k > 0 && (cs[k - 1] == '/' || cs[k - 1] == '\\')
        invariant
            k <= n == cs@.len(),
            without_end_separators(cs@) == without_end_separators(cs@.take(k as int)),
        decreases k,
    {
        assert(cs@.take(k as int).last() == cs@[k - 1]);
        assert(cs@.take(k as int).drop_last() =~= cs@.take(k - 1));
        k -= 1;
    }
    assert(k > 0 ==> cs@.take(k as int).last() == cs@[k - 1]);
    assert(cs@.subrange(0, k as int) =~= cs@.take(k as int));
    string_of(&cs, 0, k)
}

/// Resolves where a received file goes. `is_dir` says whether `save_path` is
/// an existing directory. `Err` gives the reason.
pub fn resolve_dest_path(save_path: &str, file_name: &str, is_dir: bool) -> (r: Result<
    String,
    String,
>)
    ensures
        match r {
            Ok(p) => destination(save_path@, file_name@, is_dir) == Ok::<Seq<char>, Seq<char>>(p@),
            Err(e) => destination(save_path@, file_name@, is_dir) == Err::<Seq<char>, Seq<char>>(
                e@,
            ),
        },
{
    let cs: Vec<char> = chars_of(save_path);
    let n: usize = cs.len();
    let as_dir: bool = is_dir || (n > 0 && (cs[n - 1] == '/' || cs[n - 1] == '\\'));
    assert(n > 0 ==> save_path@.last() == cs@[n - 1]);
    if as_dir {
        match safe_base_name(file_name) {
            Some(safe) => {
                let dir: String = drop_end_separators(save_path);
                Ok(join3(dir.as_str(), "/", safe.as_str()))
            },
            None => {
                let shown: String = quoted_text(file_name);
                Err(join2("Rejected unsafe file name from peer: ", shown.as_str()))
            },
        }
    } else {
        Ok(owned(save_path))
    }
}

/// In a directory a received file stays: its path is the directory and one
/// more component.
pub proof fn law_destination_stays_in_directory(
    save_path: Seq<char>,
    file_name: Seq<char>,
    is_dir: bool,
    c: char,
)
    requires
        means_directory(save_path, is_dir),
        destination(save_path, file_name, is_dir) is Ok,
        base_name(file_name)->0.contains(c),
    ensures
        destination(save_path, file_name, is_dir)->Ok_0 == without_end_separators(save_path) + "/"@
            + base_name(file_name)->0,
        !is_separator(c),
        base_name(file_name)->0 != seq!['.', '.'],
{
    law_base_name_never_escapes(file_name, c);
}

// ---------------------------------------------------------------------------
// Components
// ---------------------------------------------------------------------------

/// What separates the components of a path.
pub open spec fn splitting(windows: bool, s: Seq<char>) -> Breaks {
    if !windows {
        Breaks::Slash
    } else if is_verbatim(s) {
        Breaks::Backslash
    } else {
        Breaks::Either
    }
}

/// What a path begins with, the drive or the share of a Windows path.
pub open spec fn head_of(windows: bool, s: Seq<char>) -> Option<(Seq<char>, int)> {
    if windows {
        prefix_of(s)
    } else {
        None
    }
}

/// Where the drive or the share ends.
pub open spec fn head_end(windows: bool, s: Seq<char>) -> int {
    match head_of(windows, s) {
        Some((_, end)) => end,
        None => 0,
    }
}

/// The root is written.
pub open spec fn at_root(windows: bool, s: Seq<char>) -> bool {
    let h = head_end(windows, s);
    h < s.len() && (if windows {
        is_separator(s[h])
    } else {
        s[h] == '/'
    })
}

/// The path has a root although none is written: that of a share or a device.
pub open spec fn implies_root(windows: bool, s: Seq<char>) -> bool {
    head_of(windows, s) is Some && is_separator(s[0]) && !is_verbatim(s)
}

/// The path starts at the current directory, and says so.
pub open spec fn starts_here(windows: bool, s: Seq<char>) -> bool {
    let h = head_end(windows, s);
    &&& !implies_root(windows, s)
    &&& !(windows && is_verbatim(s))
    &&& h < s.len()
    &&& s[h] == '.'
    &&& h + 1 == s.len() || breaks(splitting(windows, s), s[h + 1])
}

/// Where the components begin, behind the root or the leading dot.
pub open spec fn body_start(windows: bool, s: Seq<char>) -> int {
    if at_root(windows, s) || starts_here(windows, s) {
        head_end(windows, s) + 1
    } else {
        head_end(windows, s)
    }
}

/// Where the last piece of `s[start..end]` begins: behind the last separator.
pub open spec fn piece_start(k: Breaks, s: Seq<char>, start: int, end: int) -> int
    decreases end - start,
{
    if end <= start {
        start
    } else if breaks(k, s[end - 1]) {
        end
    } else {
        piece_start(k, s, start, end - 1)
    }
}

/// Empty pieces do not count as components, nor do dots, unless the path is to
/// be taken as it is written.
pub open spec fn is_void(k: Breaks, piece: Seq<char>) -> bool {
    piece.len() == 0 || (piece == seq!['.'] && k != Breaks::Backslash)
}

/// The end of what lies before a piece that begins at `at`.
pub open spec fn end_before(start: int, at: int) -> int {
    if at > start {
        at - 1
    } else {
        start
    }
}

pub proof fn lemma_piece_start(k: Breaks, s: Seq<char>, start: int, end: int)
    requires
        0 <= start <= end <= s.len(),
    ensures
        start <= piece_start(k, s, start, end) <= end,
        piece_start(k, s, start, end) > start ==> breaks(k, s[piece_start(k, s, start, end) - 1]),
        forall|i: int| piece_start(k, s, start, end) <= i < end ==> !breaks(k, #[trigger] s[i]),
    decreases end - start,
{
    if start < end && !breaks(k, s[end - 1]) {
        lemma_piece_start(k, s, start, end - 1);
    }
}

/// Where the last component of `s[start..end]` begins and ends.
pub open spec fn last_component(k: Breaks, s: Seq<char>, start: int, end: int) -> Option<
    (int, int),
>
    decreases end - start,
{
    if end <= start {
        None
    } else {
        let at = piece_start(k, s, start, end);
        if at < start || at > end {
            None
        } else if is_void(k, s.subrange(at, end)) {
            last_component(k, s, start, end_before(start, at))
        } else {
            Some((at, end))
        }
    }
}

/// The components of `s[start..end]`, in order.
pub open spec fn components_in(k: Breaks, s: Seq<char>, start: int, end: int) -> Seq<Seq<char>>
    decreases end - start,
{
    if end <= start {
        Seq::empty()
    } else {
        let at = piece_start(k, s, start, end);
        if at < start || at > end {
            Seq::empty()
        } else if is_void(k, s.subrange(at, end)) {
            components_in(k, s, start, end_before(start, at))
        } else {
            components_in(k, s, start, end_before(start, at)).push(s.subrange(at, end))
        }
    }
}

/// The drive or share, and the root or the leading dot. Behind a drive a dot is
/// no component.
pub open spec fn front_of(windows: bool, s: Seq<char>) -> Seq<Seq<char>> {
    let head: Seq<Seq<char>> = match head_of(windows, s) {
        Some((piece, _)) => seq![piece],
        None => seq![],
    };
    if at_root(windows, s) || implies_root(windows, s) {
        head.push(seq!['/'])
    } else if starts_here(windows, s) && head_of(windows, s) is None {
        head.push(seq!['.'])
    } else {
        head
    }
}

/// All components of a path.
pub open spec fn components(windows: bool, s: Seq<char>) -> Seq<Seq<char>> {
    front_of(windows, s) + components_in(
        splitting(windows, s),
        s,
        body_start(windows, s),
        s.len() as int,
    )
}

/// A path lies at or below another: its components begin with the other's.
pub open spec fn is_inside(windows: bool, root: Seq<char>, path: Seq<char>) -> bool {
    let r = components(windows, root);
    let p = components(windows, path);
    r.len() <= p.len() && p.take(r.len() as int) == r
}

/// How a path is laid out.
struct Layout {
    breaks: Breaks,
    head: Option<Vec<char>>,
    rooted: bool,
    here: bool,
    /// Where the components begin.
    body: usize,
}

fn lay_out(cs: &Vec<char>, windows: bool) -> (r: Layout)
    ensures
        r.breaks == splitting(windows, cs@),
        match r.head {
            Some(piece) => head_of(windows, cs@) matches Some((p, _)) && p == piece@,
            None => head_of(windows, cs@) is None,
        },
        r.rooted == (at_root(windows, cs@) || implies_root(windows, cs@)),
        r.here == (starts_here(windows, cs@) && !r.rooted && r.head is None),
        r.body == body_start(windows, cs@),
        r.body <= cs@.len(),
{
    let n: usize = cs.len();
    if !windows {
        let rooted: bool = n > 0 && cs[0] == '/';
        let here: bool = n > 0 && cs[0] == '.' && (n == 1 || cs[1] == '/');
        let body: usize = if rooted || here {
            1
        } else {
            0
        };
        return Layout { breaks: Breaks::Slash, head: None, rooted, here, body };
    }
    let exact: bool = verbatim(cs);
    let breaks: Breaks = if exact {
        Breaks::Backslash
    } else {
        Breaks::Either
    };
    let (head, h): (Option<Vec<char>>, usize) = match read_prefix(cs) {
        Some((piece, end)) => (Some(piece), end),
        None => (None, 0),
    };
    let written: bool = h < n && (cs[h] == '/' || cs[h] == '\\');
    let implied: bool = h > 0 && (cs[0] == '/' || cs[0] == '\\') && !exact;
    let here: bool = !implied && !exact && h < n && cs[h] == '.' && (h + 1 == n || is_break(
        breaks,
        cs[h + 1],
    ));
    let body: usize = if written || here {
        h + 1
    } else {
        h
    };
    Layout { breaks, head, rooted: written || implied, here: here && h == 0, body }
}

fn find_piece(k: Breaks, cs: &Vec<char>, start: usize, end: usize) -> (r: usize)
    requires
        start <= end <= cs@.len(),
    ensures
        r == piece_start(k, cs@, start as int, end as int),
        start <= r <= end,
{
    let mut at: usize = end;
    while at > start && !is_break(k, cs[at - 1])
        invariant
            start <= at <= end <= cs@.len(),
            piece_start(k, cs@, start as int, end as int) == piece_start(
                k,
                cs@,
                start as int,
                at as int,
            ),
        decreases at,
    {
        at -= 1;
    }
    at
}

fn void_piece(k: Breaks, cs: &Vec<char>, at: usize, end: usize) -> (r: bool)
    requires
        at <= end <= cs@.len(),
    ensures
        r == is_void(k, cs@.subrange(at as int, end as int)),
{
    let ghost piece = cs@.subrange(at as int, end as int);
    let len: usize = end - at;
    if len == 0 {
        return true;
    }
    if len == 1 && cs[at] == '.' {
        assert(piece =~= seq!['.']);
        return k != Breaks::Backslash;
    }
    assert(piece != seq!['.']) by {
        assert(piece[0] == cs@[at as int]);
        assert(seq!['.'].len() == 1 && seq!['.'][0] == '.');
    }
    false
}

fn find_last(k: Breaks, cs: &Vec<char>, start: usize, end: usize) -> (r: Option<(usize, usize)>)
    requires
        start <= end <= cs@.len(),
    ensures
        match r {
            Some((b, e)) => last_component(k, cs@, start as int, end as int) == Some(
                (b as int, e as int),
            ) && start <= b < e <= end,
            None => last_component(k, cs@, start as int, end as int) is None,
        },
    decreases end,
{
    if end <= start {
        return None;
    }
    let at: usize = find_piece(k, cs, start, end);
    if void_piece(k, cs, at, end) {
        let before: usize = if at > start {
            at - 1
        } else {
            start
        };
        find_last(k, cs, start, before)
    } else {
        Some((at, end))
    }
}

fn push_components(
    k: Breaks,
    cs: &Vec<char>,
    start: usize,
    end: usize,
    out: &mut Vec<Vec<char>>,
)
    requires
        start <= end <= cs@.len(),
    ensures
        piece_views(final(out)@) == piece_views(old(out)@) + components_in(
            k,
            cs@,
            start as int,
            end as int,
        ),
    decreases end,
{
    if end <= start {
        assert(piece_views(out@) + Seq::<Seq<char>>::empty() =~= piece_views(out@));
        return ;
    }
    let at: usize = find_piece(k, cs, start, end);
    let before: usize = if at > start {
        at - 1
    } else {
        start
    };
    push_components(k, cs, start, before, out);
    if !void_piece(k, cs, at, end) {
        let piece: Vec<char> = copy_piece(cs, at, end);
        let ghost was = out@;
        out.push(piece);
        assert(piece_views(out@) =~= piece_views(was).push(piece@));
        assert(piece_views(out@) =~= piece_views(old(out)@) + components_in(
            k,
            cs@,
            start as int,
            end as int,
        ));
    }
}

pub open spec fn piece_views(v: Seq<Vec<char>>) -> Seq<Seq<char>> {
    v.map_values(|p: Vec<char>| p@)
}

fn copy_piece(cs: &Vec<char>, at: usize, end: usize) -> (r: Vec<char>)
    requires
        at <= end <= cs@.len(),
    ensures
        r@ == cs@.subrange(at as int, end as int),
{
    let mut out: Vec<char> = Vec::new();
    let mut i: usize = at;
    while i < end
        invariant
            at <= i <= end <= cs@.len(),
            out@ == cs@.subrange(at as int, i as int),
        decreases end - i,
    {
        out.push(cs[i]);
        i += 1;
        assert(out@ =~= cs@.subrange(at as int, i as int));
    }
    out
}

fn push_mark(out: &mut Vec<Vec<char>>, c: char)
    ensures
        piece_views(final(out)@) == piece_views(old(out)@).push(seq![c]),
{
    let mut mark: Vec<char> = Vec::new();
    mark.push(c);
    assert(mark@ =~= seq![c]);
    out.push(mark);
    assert(piece_views(out@) =~= piece_views(old(out)@).push(seq![c]));
}

fn list_components(path: &str, windows: bool) -> (r: Vec<Vec<char>>)
    ensures
        piece_views(r@) == components(windows, path@),
{
    let cs: Vec<char> = chars_of(path);
    let n: usize = cs.len();
    let mut out: Vec<Vec<char>> = Vec::new();
    let layout: Layout = lay_out(&cs, windows);
    match layout.head {
        Some(piece) => {
            out.push(piece);
            assert(piece_views(out@) =~= seq![piece@]);
        },
        None => {
            assert(piece_views(out@) =~= seq![]);
        },
    }
    if layout.rooted {
        push_mark(&mut out, '/');
    } else if layout.here {
        push_mark(&mut out, '.');
    }
    assert(piece_views(out@) == front_of(windows, cs@));
    push_components(layout.breaks, &cs, layout.body, n, &mut out);
    out
}

fn same_piece(a: &Vec<char>, b: &Vec<char>) -> (r: bool)
    ensures
        r == (a@ == b@),
{
    let n: usize = a.len();
    if n != b.len() {
        return false;
    }
    let mut i: usize = 0;
    while i < n
        invariant
            n == a@.len() == b@.len(),
            i <= n,
            forall|j: int| 0 <= j < i ==> a@[j] == b@[j],
        decreases n - i,
    {
        if a[i] != b[i] {
            return false;
        }
        i += 1;
    }
    assert(a@ =~= b@);
    true
}

/// Whether a path lies at or below another.
pub fn inside(root: &str, path: &str, windows: bool) -> (r: bool)
    ensures
        r == is_inside(windows, root@, path@),
{
    let a: Vec<Vec<char>> = list_components(root, windows);
    let b: Vec<Vec<char>> = list_components(path, windows);
    let n: usize = a.len();
    let ghost ra = components(windows, root@);
    let ghost rb = components(windows, path@);
    assert(ra.len() == a@.len() && rb.len() == b@.len());
    if n > b.len() {
        return false;
    }
    let mut i: usize = 0;
    while i < n
        invariant
            n == a@.len() == ra.len(),
            n <= b@.len() == rb.len(),
            i <= n,
            ra == piece_views(a@),
            rb == piece_views(b@),
            ra == components(windows, root@),
            rb == components(windows, path@),
            forall|j: int| 0 <= j < i ==> ra[j] == rb[j],
        decreases n - i,
    {
        assert(ra[i as int] == a@[i as int]@ && rb[i as int] == b@[i as int]@);
        if !same_piece(&a[i], &b[i]) {
            assert(rb.take(n as int)[i as int] != ra[i as int]);
            return false;
        }
        i += 1;
    }
    assert(rb.take(n as int) =~= ra);
    true
}

pub proof fn lemma_piece_start_local(k: Breaks, s: Seq<char>, t: Seq<char>, start: int, end: int)
    requires
        0 <= start <= end <= s.len(),
        end <= t.len(),
        forall|i: int| start <= i < end ==> s[i] == t[i],
    ensures
        piece_start(k, s, start, end) == piece_start(k, t, start, end),
    decreases end - start,
{
    if start < end && !breaks(k, s[end - 1]) {
        lemma_piece_start_local(k, s, t, start, end - 1);
    }
}

pub proof fn lemma_components_local(k: Breaks, s: Seq<char>, t: Seq<char>, start: int, end: int)
    requires
        0 <= start <= end <= s.len(),
        end <= t.len(),
        forall|i: int| start <= i < end ==> s[i] == t[i],
    ensures
        components_in(k, s, start, end) == components_in(k, t, start, end),
    decreases end - start,
{
    if start < end {
        lemma_piece_start_local(k, s, t, start, end);
        lemma_piece_start(k, s, start, end);
        let at = piece_start(k, s, start, end);
        assert(s.subrange(at, end) =~= t.subrange(at, end));
        lemma_components_local(k, s, t, start, end_before(start, at));
    }
}

/// A separator ends what comes before it.
pub proof fn lemma_components_over_break(k: Breaks, s: Seq<char>, start: int, mid: int, end: int)
    requires
        0 <= start <= mid < end <= s.len(),
        breaks(k, s[mid]),
    ensures
        components_in(k, s, start, end).len() >= components_in(k, s, start, mid).len(),
        components_in(k, s, start, end).take(components_in(k, s, start, mid).len() as int)
            == components_in(k, s, start, mid),
    decreases end,
{
    lemma_piece_start(k, s, start, end);
    let at = piece_start(k, s, start, end);
    assert(at > mid) by {
        if at <= mid {
            assert(!breaks(k, s[mid]));
        }
    }
    let whole = components_in(k, s, start, end);
    let front = components_in(k, s, start, mid);
    let before = end_before(start, at);
    if before == mid {
        assert(whole.take(front.len() as int) =~= front);
    } else {
        lemma_components_over_break(k, s, start, mid, before);
        assert(whole.take(front.len() as int) =~= components_in(k, s, start, before).take(
            front.len() as int,
        ));
    }
}

/// The layout of a path that another one goes on from, with the same drive or
/// share, is that of the other.
pub proof fn lemma_same_splitting(windows: bool, root: Seq<char>, s: Seq<char>)
    requires
        head_of(windows, s) == head_of(windows, root),
    ensures
        splitting(windows, s) == splitting(windows, root),
        windows ==> is_verbatim(s) == is_verbatim(root),
{
    if windows {
        lemma_prefix_tells_verbatim(s);
        lemma_prefix_tells_verbatim(root);
    }
}

/// Whatever lies below a directory is inside it. On Windows the longer path
/// has to name the same drive or share: `\\server\share` is not below
/// `\\server`.
pub proof fn law_below_is_inside(windows: bool, root: Seq<char>, c: char, rest: Seq<char>)
    requires
        root.len() > 0,
        breaks(splitting(windows, root), c),
        head_of(windows, root + seq![c] + rest) == head_of(windows, root),
    ensures
        is_inside(windows, root, root + seq![c] + rest),
{
    let s = root + seq![c] + rest;
    let n = root.len() as int;
    let k = splitting(windows, root);
    lemma_same_splitting(windows, root, s);
    if windows {
        lemma_prefix_end(root);
    }
    assert(s[n] == c);
    assert(s[0] == root[0]);
    let a = components(windows, root);
    let b = components(windows, s);
    let h = head_end(windows, root);
    if h == n {
        assert(at_root(windows, s));
        assert(components_in(k, root, n, n) =~= Seq::empty());
        assert(b.take(a.len() as int) =~= a);
    } else {
        assert(s[h] == root[h]);
        if h + 1 < n {
            assert(s[h + 1] == root[h + 1]);
        }
        let start = body_start(windows, root);
        assert(body_start(windows, s) == start);
        lemma_components_local(k, root, s, start, n);
        lemma_components_over_break(k, s, start, n, s.len() as int);
        let ra = components_in(k, root, start, n);
        let rb = components_in(k, s, start, s.len() as int);
        assert(front_of(windows, s) == front_of(windows, root));
        assert forall|i: int| 0 <= i < a.len() implies #[trigger] b[i] == a[i] by {
            let f = a.len() - ra.len();
            if i >= f {
                assert(rb.take(ra.len() as int)[i - f] == ra[i - f]);
            }
        }
        assert(b.take(a.len() as int) =~= a);
    }
}

/// A name that only begins like the directory's is not inside it.
pub proof fn law_sibling_is_not_inside(windows: bool, root: Seq<char>, extra: Seq<char>)
    requires
        at_root(windows, root),
        last_component(
            splitting(windows, root),
            root,
            body_start(windows, root),
            root.len() as int,
        ) matches Some((_, e)) && e == root.len(),
        extra.len() > 0,
        forall|i: int|
            0 <= i < extra.len() ==> !breaks(splitting(windows, root), #[trigger] extra[i]),
    ensures
        !is_inside(windows, root, root + extra),
{
    let s = root + extra;
    let n = root.len() as int;
    let m = s.len() as int;
    let k = splitting(windows, root);
    let start = body_start(windows, root);
    if windows {
        lemma_prefix_end(root);
    }
    let at = piece_start(k, root, start, n);
    lemma_piece_start(k, root, start, n);
    if is_void(k, root.subrange(at, n)) {
        lemma_last_ends(k, root, start, end_before(start, at));
    }
    assert(!breaks(k, root[n - 1]));
    if windows {
        lemma_prefix_kept(root, extra);
    }
    lemma_same_splitting(windows, root, s);
    let h = head_end(windows, root);
    assert(s[h] == root[h]);
    assert(s[0] == root[0]);
    assert(body_start(windows, s) == start);
    assert forall|j: int| n <= j <= m implies #[trigger] piece_start(k, s, start, j) == at by {
        lemma_piece_start_extends(k, s, start, n, j);
        lemma_piece_start_local(k, root, s, start, n);
    }
    let piece = s.subrange(at, m);
    assert(!is_void(k, piece)) by {
        assert(seq!['.'].len() == 1);
    }
    lemma_components_local(k, root, s, start, end_before(start, at));
    let a = components(windows, root);
    let b = components(windows, s);
    assert(front_of(windows, s) == front_of(windows, root));
    assert(a.len() == b.len());
    assert(a.last() == root.subrange(at, n));
    assert(b.last() == piece);
    assert(piece.len() != root.subrange(at, n).len());
    assert(b.take(a.len() as int) =~= b);
}

pub proof fn lemma_last_ends(k: Breaks, s: Seq<char>, start: int, end: int)
    requires
        0 <= start <= end <= s.len(),
    ensures
        last_component(k, s, start, end) matches Some((b, e)) ==> start <= b < e <= end && (
        forall|i: int| b <= i < e ==> !breaks(k, #[trigger] s[i])),
    decreases end - start,
{
    if start < end {
        lemma_piece_start(k, s, start, end);
        let at = piece_start(k, s, start, end);
        if is_void(k, s.subrange(at, end)) {
            lemma_last_ends(k, s, start, end_before(start, at));
        }
    }
}

pub proof fn lemma_piece_start_extends(k: Breaks, s: Seq<char>, start: int, n: int, j: int)
    requires
        0 <= start <= n <= j <= s.len(),
        forall|i: int| n <= i < j ==> !breaks(k, #[trigger] s[i]),
    ensures
        piece_start(k, s, start, j) == piece_start(k, s, start, n),
    decreases j - n,
{
    if n < j {
        lemma_piece_start_extends(k, s, start, n, j - 1);
    }
}

// ---------------------------------------------------------------------------
// Deduplicated names
// ---------------------------------------------------------------------------

/// A component that is no name: the parent, or a dot.
pub open spec fn is_dots(piece: Seq<char>) -> bool {
    piece == seq!['.', '.'] || piece == seq!['.']
}

/// The last component of a path, if it is a name.
pub open spec fn file_name_of(windows: bool, path: Seq<char>) -> Option<Seq<char>> {
    match last_component(
        splitting(windows, path),
        path,
        body_start(windows, path),
        path.len() as int,
    ) {
        Some((b, e)) => if is_dots(path.subrange(b, e)) {
            None
        } else {
            Some(path.subrange(b, e))
        },
        None => None,
    }
}

/// The name of a file is a single component, so none of its directories is
/// told with it.
pub proof fn law_file_name_is_bare(windows: bool, path: Seq<char>, i: int)
    requires
        file_name_of(windows, path) matches Some(name) && 0 <= i < name.len(),
    ensures
        !breaks(splitting(windows, path), (file_name_of(windows, path)->0)[i]),
{
    if windows {
        lemma_prefix_end(path);
    }
    let k = splitting(windows, path);
    let start = body_start(windows, path);
    lemma_last_ends(k, path, start, path.len() as int);
    if let Some((b, e)) = last_component(k, path, start, path.len() as int) {
        assert(path.subrange(b, e)[i] == path[b + i]);
    }
}

fn dots(cs: &Vec<char>, b: usize, e: usize) -> (r: bool)
    requires
        b <= e <= cs@.len(),
    ensures
        r == is_dots(cs@.subrange(b as int, e as int)),
{
    let ghost name = cs@.subrange(b as int, e as int);
    let len: usize = e - b;
    assert(seq!['.', '.'].len() == 2 && seq!['.', '.'][0] == '.' && seq!['.', '.'][1] == '.');
    assert(seq!['.'].len() == 1 && seq!['.'][0] == '.');
    if len == 1 {
        assert(name[0] == cs@[b as int]);
        assert(cs@[b as int] == '.' ==> name =~= seq!['.']);
        cs[b] == '.'
    } else if len == 2 {
        assert(name[0] == cs@[b as int] && name[1] == cs@[b + 1]);
        assert(cs@[b as int] == '.' && cs@[b + 1] == '.' ==> name =~= seq!['.', '.']);
        cs[b] == '.' && cs[b + 1] == '.'
    } else {
        false
    }
}

/// The last component of a path, if it is a name.
pub fn file_name(path: &str, windows: bool) -> (r: Option<String>)
    ensures
        match r {
            Some(s) => file_name_of(windows, path@) == Some(s@),
            None => file_name_of(windows, path@) is None,
        },
{
    let cs: Vec<char> = chars_of(path);
    let n: usize = cs.len();
    let layout: Layout = lay_out(&cs, windows);
    match find_last(layout.breaks, &cs, layout.body, n) {
        Some((b, e)) => if dots(&cs, b, e) {
            None
        } else {
            Some(string_of(&cs, b, e))
        },
        None => None,
    }
}

/// The last dot of a name.
pub open spec fn last_dot(name: Seq<char>) -> int
    decreases name.len(),
{
    if name.len() == 0 {
        -1
    } else if name.last() == '.' {
        name.len() - 1
    } else {
        last_dot(name.drop_last())
    }
}

/// The name without its extension. A dot in front makes no extension.
pub open spec fn stem_of(name: Seq<char>) -> Seq<char> {
    if last_dot(name) <= 0 {
        name
    } else {
        name.take(last_dot(name))
    }
}

/// The extension of a name with its dot.
pub open spec fn suffix_of(name: Seq<char>) -> Seq<char> {
    if last_dot(name) <= 0 {
        Seq::empty()
    } else {
        name.skip(last_dot(name))
    }
}

/// What goes between a path and one more component. Nothing goes behind a
/// separator, nor behind a bare drive.
pub open spec fn joint(windows: bool, dir: Seq<char>) -> Seq<char> {
    if dir.len() == 0 {
        Seq::empty()
    } else if windows {
        if is_separator(dir.last()) || (dir.len() == 2 && is_drive_at(dir, 0)) {
            Seq::empty()
        } else {
            "\\"@
        }
    } else if dir.last() == '/' {
        Seq::empty()
    } else {
        "/"@
    }
}

/// A path and one more component. A name that begins with a drive leads away
/// from the path.
pub open spec fn joined(windows: bool, dir: Seq<char>, name: Seq<char>) -> Seq<char> {
    if windows && is_drive_at(name, 0) {
        name
    } else {
        dir + joint(windows, dir) + name
    }
}

/// The directory of the last component: the path up to the component before.
pub open spec fn directory_of(windows: bool, path: Seq<char>) -> Seq<char> {
    let k = splitting(windows, path);
    let start = body_start(windows, path);
    match last_component(k, path, start, path.len() as int) {
        Some((b, _)) => match last_component(k, path, start, end_before(start, b)) {
            Some((_, e)) => path.take(e),
            None => path.take(start),
        },
        None => path,
    }
}

/// The path with another name for its last component.
pub open spec fn renamed(windows: bool, path: Seq<char>, name: Seq<char>) -> Seq<char> {
    if file_name_of(windows, path) is Some {
        joined(windows, directory_of(windows, path), name)
    } else {
        joined(windows, path, name)
    }
}

/// The sibling of a path that carries a number.
pub open spec fn numbered(windows: bool, path: Seq<char>, i: u32) -> Seq<char> {
    let name = match file_name_of(windows, path) {
        Some(n) => n,
        None => "file"@,
    };
    renamed(windows, path, stem_of(name) + " ("@ + decimal(i as nat) + ")"@ + suffix_of(name))
}

fn find_dot(cs: &Vec<char>) -> (r: usize)
    ensures
        r == (if last_dot(cs@) < 0 {
            0
        } else {
            last_dot(cs@)
        }),
        r == 0 || r < cs@.len(),
{
    let n: usize = cs.len();
    let mut k: usize = n;
    assert(cs@.take(n as int) =~= cs@);
    while k > 0 && cs[k - 1] != '.'
        invariant
            k <= n == cs@.len(),
            last_dot(cs@) == last_dot(cs@.take(k as int)),
        decreases k,
    {
        assert(cs@.take(k as int).last() == cs@[k - 1]);
        assert(cs@.take(k as int).drop_last() =~= cs@.take(k - 1));
        k -= 1;
    }
    assert(k > 0 ==> cs@.take(k as int).last() == cs@[k - 1]);
    if k == 0 {
        0
    } else {
        k - 1
    }
}

/// A path and one more component.
pub fn join_path(dir: &str, name: &str, windows: bool) -> (r: String)
    ensures
        r@ == joined(windows, dir@, name@),
{
    if windows && is_drive(&chars_of(name)) {
        return owned(name);
    }
    let cs: Vec<char> = chars_of(dir);
    let n: usize = cs.len();
    assert(n > 0 ==> dir@.last() == cs@[n - 1]);
    let bare: bool = if n == 0 {
        true
    } else if windows {
        cs[n - 1] == '/' || cs[n - 1] == '\\' || (n == 2 && is_drive(&cs))
    } else {
        cs[n - 1] == '/'
    };
    if bare {
        assert(dir@ + Seq::<char>::empty() =~= dir@);
        join2(dir, name)
    } else if windows {
        join3(dir, "\\", name)
    } else {
        join3(dir, "/", name)
    }
}

fn find_directory(path: &str, windows: bool) -> (r: String)
    ensures
        r@ == directory_of(windows, path@),
{
    let cs: Vec<char> = chars_of(path);
    let n: usize = cs.len();
    let layout: Layout = lay_out(&cs, windows);
    let start: usize = layout.body;
    let end: usize = match find_last(layout.breaks, &cs, start, n) {
        Some((b, _)) => {
            let before: usize = if b > start {
                b - 1
            } else {
                start
            };
            match find_last(layout.breaks, &cs, start, before) {
                Some((_, e)) => e,
                None => start,
            }
        },
        None => n,
    };
    assert(cs@.subrange(0, end as int) =~= cs@.take(end as int));
    assert(cs@.take(n as int) =~= cs@);
    string_of(&cs, 0, end)
}

/// The sibling of a path that carries a number: `report.pdf` becomes
/// `report (1).pdf`.
pub fn dedup_candidate(path: &str, i: u32, windows: bool) -> (r: String)
    ensures
        r@ == numbered(windows, path@, i),
{
    let found: Option<String> = file_name(path, windows);
    let has_name: bool = found.is_some();
    let name: String = match found {
        Some(n) => n,
        None => owned("file"),
    };
    let cs: Vec<char> = chars_of(name.as_str());
    let n: usize = cs.len();
    let dot: usize = find_dot(&cs);
    let at: usize = if dot == 0 {
        n
    } else {
        dot
    };
    let stem: String = string_of(&cs, 0, at);
    let suffix: String = string_of(&cs, at, n);
    assert(stem@ =~= stem_of(name@));
    assert(suffix@ =~= suffix_of(name@));
    let number: String = decimal_text(i as u64);
    let head: String = join3(stem.as_str(), " (", number.as_str());
    let full: String = join3(head.as_str(), ")", suffix.as_str());
    if has_name {
        let dir: String = find_directory(path, windows);
        join_path(dir.as_str(), full.as_str(), windows)
    } else {
        join_path(path, full.as_str(), windows)
    }
}

pub proof fn lemma_cancel(head: Seq<char>, a: Seq<char>, b: Seq<char>, tail: Seq<char>)
    requires
        head + a + tail == head + b + tail,
    ensures
        a == b,
{
    let x = head + a + tail;
    let y = head + b + tail;
    assert(x.len() == head.len() + a.len() + tail.len());
    assert(y.len() == head.len() + b.len() + tail.len());
    assert forall|i: int| 0 <= i < a.len() implies a[i] == b[i] by {
        assert(x[head.len() + i] == a[i]);
        assert(y[head.len() + i] == b[i]);
    }
    assert(a =~= b);
}

/// Different numbers make different siblings, so none is tried twice.
pub proof fn law_numbered_names_differ(windows: bool, path: Seq<char>, i: u32, j: u32)
    requires
        numbered(windows, path, i) == numbered(windows, path, j),
    ensures
        i == j,
{
    let name = match file_name_of(windows, path) {
        Some(n) => n,
        None => "file"@,
    };
    let head = stem_of(name) + " ("@;
    let tail = ")"@ + suffix_of(name);
    let a = decimal(i as nat);
    let b = decimal(j as nat);
    let dir = if file_name_of(windows, path) is Some {
        directory_of(windows, path)
    } else {
        path
    };
    let full_a = stem_of(name) + " ("@ + a + ")"@ + suffix_of(name);
    let full_b = stem_of(name) + " ("@ + b + ")"@ + suffix_of(name);
    assert(full_a =~= head + a + tail);
    assert(full_b =~= head + b + tail);
    let none = Seq::<char>::empty();
    reveal_strlit(" (");
    assert(is_drive_at(full_a, 0) == is_drive_at(full_b, 0)) by {
        assert(full_a[0] == head[0] && full_a[1] == head[1]);
        assert(full_b[0] == head[0] && full_b[1] == head[1]);
    }
    let d = if windows && is_drive_at(full_a, 0) {
        none
    } else {
        dir + joint(windows, dir)
    };
    assert(d + full_a =~= d + full_a + none);
    assert(d + full_b =~= d + full_b + none);
    assert(none + full_a =~= full_a && none + full_b =~= full_b);
    lemma_cancel(d, full_a, full_b, none);
    lemma_cancel(head, a, b, tail);
    lemma_decimal_reads_back(i as nat);
    lemma_decimal_reads_back(j as nat);
}

} // verus!
