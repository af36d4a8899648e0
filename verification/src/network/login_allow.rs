//! Login allow-lists: shell-style globs over tailnet logins.
//!
//! - `*` stands for any run of characters other than `/`;
//! - `?` stands for one character other than `/`;
//! - `[abc]`, `[a-z]`, `[^abc]` stand for one character in, or not in, a class;
//! - `\x` stands for `x`.
//!
//! A malformed glob (a class without an end, a `\` at the end, an empty or a
//! reversed range) matches nothing. An empty list admits everybody; a
//! non-empty list admits nobody whose login is unknown.
use vstd::prelude::*;

use crate::text::{chars_of, lowercase, owned, texts, to_lower};

verus! {

/// A glob that is not well-formed.
#[derive(Debug, Clone, Copy, PartialEq, Eq, Structural)]
pub struct BadPattern;

impl BadPattern {
    /// The message shown to a user.
    pub fn message(&self) -> (r: String)
        ensures
            r@ == "syntax error in login glob"@,
    {
        owned("syntax error in login glob")
    }
}

// ---------------------------------------------------------------------------
// Grammar
// ---------------------------------------------------------------------------

/// One element of a glob.
pub enum Tok {
    /// `*`
    Star,
    /// `?`
    One,
    /// A character that stands for itself.
    Lit(char),
    /// One character in (or not in) some ranges.
    Class { negated: bool, ranges: Seq<(char, char)> },
}

/// A possibly escaped character of a class, and what follows it. There has to
/// be something that follows, since a class ends with `]`.
pub open spec fn class_char(p: Seq<char>) -> Option<(char, Seq<char>)> {
    if p.len() == 0 || p[0] == '-' || p[0] == ']' {
        None
    } else {
        let skip: int = if p[0] == '\\' {
            1
        } else {
            0
        };
        if p.len() <= skip + 1 {
            None
        } else {
            Some((p[skip], p.skip(skip + 1)))
        }
    }
}

/// One range of a class, `a` or `a-b`, and what follows it. A range does not
/// run backwards.
pub open spec fn class_range(p: Seq<char>) -> Option<((char, char), Seq<char>)> {
    match class_char(p) {
        None => None,
        Some((lo, rest)) => if rest[0] == '-' {
            match class_char(rest.skip(1)) {
                None => None,
                Some((hi, rest)) => if lo <= hi {
                    Some(((lo, hi), rest))
                } else {
                    None
                },
            }
        } else {
            Some(((lo, lo), rest))
        },
    }
}

/// The ranges up to the closing bracket, and what follows it. The bracket may
/// close the class where `closable`.
pub open spec fn class_ranges(p: Seq<char>, closable: bool) -> Option<
    (Seq<(char, char)>, Seq<char>),
>
    decreases p.len(),
{
    if closable && p.len() > 0 && p[0] == ']' {
        Some((seq![], p.skip(1)))
    } else {
        match class_range(p) {
            None => None,
            Some((range, rest)) => if rest.len() >= p.len() {
                None
            } else {
                match class_ranges(rest, true) {
                    None => None,
                    Some((more, rest)) => Some((seq![range] + more, rest)),
                }
            },
        }
    }
}

/// The first element of a non-empty glob, and what follows it.
pub open spec fn first_token(p: Seq<char>) -> Option<(Tok, Seq<char>)> {
    if p[0] == '*' {
        Some((Tok::Star, p.skip(1)))
    } else if p[0] == '?' {
        Some((Tok::One, p.skip(1)))
    } else if p[0] == '\\' {
        if p.len() < 2 {
            None
        } else {
            Some((Tok::Lit(p[1]), p.skip(2)))
        }
    } else if p[0] == '[' {
        let negated = p.len() > 1 && p[1] == '^';
        match class_ranges(
            p.skip(
                if negated {
                    2
                } else {
                    1
                },
            ),
            false,
        ) {
            None => None,
            Some((ranges, rest)) => Some((Tok::Class { negated, ranges }, rest)),
        }
    } else {
        Some((Tok::Lit(p[0]), p.skip(1)))
    }
}

/// The elements of a glob; `None` if it is malformed.
pub open spec fn tokens(p: Seq<char>) -> Option<Seq<Tok>>
    decreases p.len(),
{
    if p.len() == 0 {
        Some(seq![])
    } else {
        match first_token(p) {
            None => None,
            Some((t, rest)) => if rest.len() >= p.len() {
                None
            } else {
                match tokens(rest) {
                    None => None,
                    Some(more) => Some(seq![t] + more),
                }
            },
        }
    }
}

// ---------------------------------------------------------------------------
// Meaning
// ---------------------------------------------------------------------------

pub open spec fn in_range(r: (char, char), c: char) -> bool {
    r.0 <= c && c <= r.1
}

pub open spec fn in_some_range(ranges: Seq<(char, char)>, c: char) -> bool {
    exists|i: int| 0 <= i < ranges.len() && in_range(#[trigger] ranges[i], c)
}

/// The element stands for the single character `c`.
pub open spec fn accepts(t: Tok, c: char) -> bool {
    match t {
        Tok::Star => false,
        Tok::One => c != '/',
        Tok::Lit(x) => c == x,
        Tok::Class { negated, ranges } => in_some_range(ranges, c) != negated,
    }
}

/// A glob matches a name: `*` stands for a run without `/`, and every other
/// element for one character.
pub open spec fn stands_for(ts: Seq<Tok>, name: Seq<char>) -> bool
    decreases ts.len(),
{
    if ts.len() == 0 {
        name.len() == 0
    } else if ts[0] is Star {
        exists|j: int| #[trigger] star_run(name, j) && stands_for(ts.skip(1), name.skip(j))
    } else {
        name.len() > 0 && accepts(ts[0], name[0]) && stands_for(ts.skip(1), name.skip(1))
    }
}

/// A `*` may stand for the first `j` characters of `name`.
pub open spec fn star_run(name: Seq<char>, j: int) -> bool {
    0 <= j <= name.len() && !name.take(j).contains('/')
}

/// How many `*` the glob begins with.
pub open spec fn star_count(ts: Seq<Tok>) -> nat
    decreases ts.len(),
{
    if ts.len() > 0 && ts[0] is Star {
        1 + star_count(ts.skip(1))
    } else {
        0
    }
}

/// How many elements come before the first `*`.
pub open spec fn chunk_count(ts: Seq<Tok>) -> nat
    decreases ts.len(),
{
    if ts.len() > 0 && !(ts[0] is Star) {
        1 + chunk_count(ts.skip(1))
    } else {
        0
    }
}

pub open spec fn chunk_end(ts: Seq<Tok>) -> int {
    (star_count(ts) + chunk_count(ts.skip(star_count(ts) as int))) as int
}

/// The elements between the first run of `*` and the next.
pub open spec fn chunk_of(ts: Seq<Tok>) -> Seq<Tok> {
    ts.subrange(star_count(ts) as int, chunk_end(ts))
}

/// The elements stand for the characters of `name` from `at` on.
pub open spec fn fits(chunk: Seq<Tok>, name: Seq<char>, at: int) -> bool {
    &&& 0 <= at
    &&& at + chunk.len() <= name.len()
    &&& forall|i: int| 0 <= i < chunk.len() ==> accepts(#[trigger] chunk[i], name[at + i])
}

/// The first place from `at` on where the chunk fits: the last chunk has to
/// reach the end of the name, and only a `*` may move the chunk, never over a
/// `/`.
pub open spec fn first_fit(
    chunk: Seq<Tok>,
    name: Seq<char>,
    last: bool,
    star: bool,
    at: int,
) -> Option<int>
    decreases name.len() - at,
{
    if fits(chunk, name, at) && (!last || at + chunk.len() == name.len()) {
        Some(at)
    } else if star && 0 <= at < name.len() && name[at] != '/' {
        first_fit(chunk, name, last, star, at + 1)
    } else {
        None
    }
}

/// The glob matches the name when each chunk takes the first place where it
/// fits.
pub open spec fn glob_accepts(ts: Seq<Tok>, name: Seq<char>) -> bool
    decreases ts.len(),
{
    if ts.len() == 0 {
        name.len() == 0
    } else {
        let chunk = chunk_of(ts);
        let star = star_count(ts) > 0;
        let rest = ts.skip(chunk_end(ts));
        if chunk.len() == 0 {
            !name.contains('/')
        } else if rest.len() >= ts.len() {
            false
        } else {
            match first_fit(chunk, name, rest.len() == 0, star, 0) {
                Some(at) => glob_accepts(rest, name.skip(at + chunk.len())),
                None => false,
            }
        }
    }
}

/// A well-formed glob that matches the name.
pub open spec fn admits(pattern: Seq<char>, name: Seq<char>) -> bool {
    tokens(pattern) is Some && glob_accepts(tokens(pattern)->0, name)
}

/// No class of the glob stands for `/`.
pub open spec fn classes_spare_slash(ts: Seq<Tok>) -> bool {
    forall|i: int| 0 <= i < ts.len() && (#[trigger] ts[i]) is Class ==> !accepts(ts[i], '/')
}

// ---------------------------------------------------------------------------
// Parsing
// ---------------------------------------------------------------------------

/// One element of a parsed glob.
#[derive(Debug)]
pub enum GlobTok {
    Star,
    One,
    Lit(char),
    Class { negated: bool, ranges: Vec<(char, char)> },
}

impl View for GlobTok {
    type V = Tok;

    open spec fn view(&self) -> Tok {
        match self {
            GlobTok::Star => Tok::Star,
            GlobTok::One => Tok::One,
            GlobTok::Lit(c) => Tok::Lit(*c),
            GlobTok::Class { negated, ranges } => Tok::Class { negated: *negated, ranges: ranges@ },
        }
    }
}

pub open spec fn toks(v: Seq<GlobTok>) -> Seq<Tok> {
    Seq::new(v.len(), |i: int| v[i]@)
}

/// Reads one possibly escaped character of a class at `at`: the character and
/// the position after it.
pub fn get_esc(cs: &Vec<char>, at: usize) -> (r: Option<(char, usize)>)
    requires
        at <= cs@.len(),
    ensures
        match r {
            Some((c, next)) => at < next < cs@.len() && class_char(cs@.skip(at as int)) == Some(
                (c, cs@.skip(next as int)),
            ),
            None => class_char(cs@.skip(at as int)) is None,
        },
{
    let ghost p = cs@.skip(at as int);
    if at == cs.len() || cs[at] == '-' || cs[at] == ']' {
        return None;
    }
    let mut i: usize = at;
    if cs[i] == '\\' {
        i += 1;
        if i == cs.len() {
            return None;
        }
    }
    if i + 1 == cs.len() {
        return None;
    }
    proof {
        assert(p.skip(i - at + 1) =~= cs@.skip(i + 1));
    }
    Some((cs[i], i + 1))
}

fn get_range(cs: &Vec<char>, at: usize) -> (r: Option<((char, char), usize)>)
    requires
        at <= cs@.len(),
    ensures
        match r {
            Some((range, next)) => at < next < cs@.len() && class_range(cs@.skip(at as int))
                == Some((range, cs@.skip(next as int))),
            None => class_range(cs@.skip(at as int)) is None,
        },
{
    let n: usize = cs.len();
    match get_esc(cs, at) {
        None => None,
        Some((lo, next)) => {
            assert(next < n);
            if cs[next] == '-' {
                proof {
                    assert(cs@.skip(next as int).skip(1) =~= cs@.skip(next + 1));
                }
                match get_esc(cs, next + 1) {
                    None => None,
                    Some((hi, after)) => if lo <= hi {
                        Some(((lo, hi), after))
                    } else {
                        None
                    },
                }
            } else {
                Some(((lo, lo), next))
            }
        },
    }
}

/// Reads the ranges of a class from `at` on: the ranges and the position
/// after the closing bracket.
fn get_class(cs: &Vec<char>, at: usize) -> (r: Option<(Vec<(char, char)>, usize)>)
    requires
        at <= cs@.len(),
    ensures
        match r {
            Some((ranges, next)) => at < next <= cs@.len() && class_ranges(
                cs@.skip(at as int),
                false,
            ) == Some((ranges@, cs@.skip(next as int))),
            None => class_ranges(cs@.skip(at as int), false) is None,
        },
{
    let ghost whole = class_ranges(cs@.skip(at as int), false);
    let mut ranges: Vec<(char, char)> = Vec::new();
    let mut i: usize = at;
    loop
        invariant
            at <= i <= cs@.len(),
            (ranges@.len() == 0) == (i == at),
            whole == class_ranges(cs@.skip(at as int), false),
            match class_ranges(cs@.skip(i as int), ranges@.len() > 0) {
                Some((more, rest)) => whole == Some((ranges@ + more, rest)),
                None => whole is None,
            },
        decreases cs@.len() - i,
    {
        if ranges.len() > 0 && i < cs.len() && cs[i] == ']' {
            proof {
                assert(cs@.skip(i as int).skip(1) =~= cs@.skip(i + 1));
                assert(ranges@ + Seq::<(char, char)>::empty() =~= ranges@);
            }
            return Some((ranges, i + 1));
        }
        match get_range(cs, i) {
            None => {
                return None;
            },
            Some((range, next)) => {
                let ghost before = ranges@;
                ranges.push(range);
                proof {
                    match class_ranges(cs@.skip(next as int), true) {
                        Some((more, rest)) => {
                            assert(before + (seq![range] + more) =~= ranges@ + more);
                        },
                        None => {},
                    }
                }
                i = next;
            },
        }
    }
}

/// Reads the element at `at`, and the position after it.
fn get_token(cs: &Vec<char>, at: usize) -> (r: Option<(GlobTok, usize)>)
    requires
        at < cs@.len(),
    ensures
        match r {
            Some((t, next)) => at < next <= cs@.len() && first_token(cs@.skip(at as int)) == Some(
                (t@, cs@.skip(next as int)),
            ),
            None => first_token(cs@.skip(at as int)) is None,
        },
{
    let ghost p = cs@.skip(at as int);
    proof {
        assert(p.skip(1) =~= cs@.skip(at + 1));
        if at + 2 <= cs@.len() {
            assert(p.skip(2) =~= cs@.skip(at + 2));
        }
    }
    let n: usize = cs.len();
    assert(at < n);
    let c: char = cs[at];
    if c == '*' {
        Some((GlobTok::Star, at + 1))
    } else if c == '?' {
        Some((GlobTok::One, at + 1))
    } else if c == '\\' {
        if at + 1 == cs.len() {
            None
        } else {
            Some((GlobTok::Lit(cs[at + 1]), at + 2))
        }
    } else if c == '[' {
        let negated: bool = at + 1 < cs.len() && cs[at + 1] == '^';
        match get_class(
            cs,
            if negated {
                at + 2
            } else {
                at + 1
            },
        ) {
            None => None,
            Some((ranges, next)) => Some((GlobTok::Class { negated, ranges }, next)),
        }
    } else {
        Some((GlobTok::Lit(c), at + 1))
    }
}

/// Reads a glob.
fn parse_glob(cs: &Vec<char>) -> (r: Option<Vec<GlobTok>>)
    ensures
        match r {
            Some(v) => tokens(cs@) == Some(toks(v@)),
            None => tokens(cs@) is None,
        },
{
    let mut v: Vec<GlobTok> = Vec::new();
    let mut i: usize = 0;
    proof {
        assert(cs@.skip(0) =~= cs@);
        assert(toks(v@) =~= seq![]);
        match tokens(cs@) {
            Some(more) => {
                assert(toks(v@) + more =~= more);
            },
            None => {},
        }
    }
    while i < cs.len()
        invariant
            i <= cs@.len(),
            match tokens(cs@.skip(i as int)) {
                Some(more) => tokens(cs@) == Some(toks(v@) + more),
                None => tokens(cs@) is None,
            },
        decreases cs@.len() - i,
    {
        match get_token(cs, i) {
            None => {
                return None;
            },
            Some((t, next)) => {
                let ghost before = toks(v@);
                v.push(t);
                proof {
                    assert(toks(v@) =~= before.push(t@));
                    match tokens(cs@.skip(next as int)) {
                        Some(more) => {
                            assert(before + (seq![t@] + more) =~= toks(v@) + more);
                        },
                        None => {},
                    }
                }
                i = next;
            },
        }
    }
    proof {
        assert(cs@.skip(i as int) =~= seq![]);
        assert(toks(v@) + Seq::<Tok>::empty() =~= toks(v@));
    }
    Some(v)
}

// ---------------------------------------------------------------------------
// Matching
// ---------------------------------------------------------------------------

fn find_range(ranges: &Vec<(char, char)>, c: char) -> (r: bool)
    ensures
        r == in_some_range(ranges@, c),
{
    let mut i: usize = 0;
    while i < ranges.len()
        invariant
            i <= ranges@.len(),
            forall|j: int| 0 <= j < i ==> !in_range(#[trigger] ranges@[j], c),
        decreases ranges@.len() - i,
    {
        if ranges[i].0 <= c && c <= ranges[i].1 {
            assert(in_range(ranges@[i as int], c));
            return true;
        }
        i += 1;
    }
    false
}

fn accepts_char(t: &GlobTok, c: char) -> (r: bool)
    ensures
        r == accepts(t@, c),
{
    match t {
        GlobTok::Star => false,
        GlobTok::One => c != '/',
        GlobTok::Lit(x) => c == *x,
        GlobTok::Class { negated, ranges } => find_range(ranges, c) != *negated,
    }
}

/// From position `at` on: whether a `*` stands there, where the chunk behind
/// it begins, and where it ends.
pub fn scan_chunk(ts: &Vec<GlobTok>, at: usize) -> (r: (bool, usize, usize))
    requires
        at <= ts@.len(),
    ensures
        ({
            let rest = toks(ts@).skip(at as int);
            &&& r.0 == (star_count(rest) > 0)
            &&& r.1 == at + star_count(rest)
            &&& r.2 == at + chunk_end(rest)
            &&& at <= r.1 <= r.2 <= ts@.len()
            &&& at < ts@.len() ==> at < r.2
        }),
{
    let ghost rest = toks(ts@).skip(at as int);
    let mut i: usize = at;
    proof {
        assert(rest.skip(0) =~= rest);
    }
    while i < ts.len() && is_star(&ts[i])
        invariant
            at <= i <= ts@.len(),
            rest == toks(ts@).skip(at as int),
            star_count(rest) == i - at + star_count(rest.skip(i - at)),
        decreases ts@.len() - i,
    {
        proof {
            assert(rest.skip(i - at)[0] == ts@[i as int]@);
            assert(rest.skip(i - at).skip(1) =~= rest.skip(i - at + 1));
        }
        i += 1;
    }
    proof {
        if i < ts@.len() {
            assert(rest.skip(i - at)[0] == ts@[i as int]@);
        }
        assert(star_count(rest) == i - at);
    }
    let start: usize = i;
    let ghost chunky = rest.skip(start - at);
    proof {
        assert(chunky.skip(0) =~= chunky);
    }
    while i < ts.len() && !is_star(&ts[i])
        invariant
            at <= start <= i <= ts@.len(),
            rest == toks(ts@).skip(at as int),
            chunky == rest.skip(start - at),
            chunk_count(chunky) == i - start + chunk_count(chunky.skip(i - start)),
        decreases ts@.len() - i,
    {
        proof {
            assert(chunky.skip(i - start)[0] == ts@[i as int]@);
            assert(chunky.skip(i - start).skip(1) =~= chunky.skip(i - start + 1));
        }
        i += 1;
    }
    proof {
        if i < ts@.len() {
            assert(chunky.skip(i - start)[0] == ts@[i as int]@);
        }
    }
    (start > at, start, i)
}

fn is_star(t: &GlobTok) -> (r: bool)
    ensures
        r == (t@ is Star),
{
    match t {
        GlobTok::Star => true,
        _ => false,
    }
}

/// Whether the elements `ts[from..to]` stand for the characters of `name` from
/// `at` on.
pub fn match_chunk(ts: &Vec<GlobTok>, from: usize, to: usize, name: &Vec<char>, at: usize) -> (r:
    bool)
    requires
        from <= to <= ts@.len(),
        at <= name@.len(),
    ensures
        r == fits(toks(ts@).subrange(from as int, to as int), name@, at as int),
{
    let ghost chunk = toks(ts@).subrange(from as int, to as int);
    if to - from > name.len() - at {
        return false;
    }
    let mut i: usize = 0;
    while i < to - from
        invariant
            from <= to <= ts@.len(),
            at + (to - from) <= name@.len(),
            name@.len() <= usize::MAX,
            chunk == toks(ts@).subrange(from as int, to as int),
            i <= to - from,
            forall|j: int| 0 <= j < i ==> accepts(#[trigger] chunk[j], name@[at + j]),
        decreases to - from - i,
    {
        assert(chunk[i as int] == ts@[from + i]@);
        if !accepts_char(&ts[from + i], name[at + i]) {
            return false;
        }
        i += 1;
    }
    true
}

fn has_slash(name: &Vec<char>, from: usize) -> (r: bool)
    requires
        from <= name@.len(),
    ensures
        r == name@.skip(from as int).contains('/'),
{
    let mut i: usize = from;
    while i < name.len()
        invariant
            from <= i <= name@.len(),
            forall|j: int| from <= j < i ==> name@[j] != '/',
        decreases name@.len() - i,
    {
        if name[i] == '/' {
            assert(name@.skip(from as int)[i - from] == '/');
            return true;
        }
        i += 1;
    }
    false
}

/// Where the chunk `ts[from..to]` fits first in `name` from `at` on, as a
/// position in `name`.
fn find_fit(
    ts: &Vec<GlobTok>,
    from: usize,
    to: usize,
    star: bool,
    name: &Vec<char>,
    at: usize,
) -> (r: Option<usize>)
    requires
        from <= to <= ts@.len(),
        at <= name@.len(),
    ensures
        ({
            let chunk = toks(ts@).subrange(from as int, to as int);
            let tail = name@.skip(at as int);
            match r {
                Some(pos) => at <= pos && pos + (to - from) <= name@.len() && first_fit(
                    chunk,
                    tail,
                    to == ts@.len(),
                    star,
                    0,
                ) == Some(pos - at),
                None => first_fit(chunk, tail, to == ts@.len(), star, 0) is None,
            }
        }),
{
    let ghost chunk = toks(ts@).subrange(from as int, to as int);
    let ghost tail = name@.skip(at as int);
    let last: bool = to == ts.len();
    let mut pos: usize = at;
    loop
        invariant
            from <= to <= ts@.len(),
            at <= pos <= name@.len(),
            chunk == toks(ts@).subrange(from as int, to as int),
            tail == name@.skip(at as int),
            last == (to == ts@.len()),
            first_fit(chunk, tail, last, star, 0) == first_fit(chunk, tail, last, star, pos - at),
        decreases name@.len() - pos,
    {
        let fit: bool = match_chunk(ts, from, to, name, pos);
        proof {
            assert(fits(chunk, name@, pos as int) == fits(chunk, tail, pos - at)) by {
                if fits(chunk, name@, pos as int) {
                    assert forall|i: int| 0 <= i < chunk.len() implies accepts(
                        #[trigger] chunk[i],
                        tail[pos - at + i],
                    ) by {
                        assert(tail[pos - at + i] == name@[pos + i]);
                    }
                }
                if fits(chunk, tail, pos - at) {
                    assert forall|i: int| 0 <= i < chunk.len() implies accepts(
                        #[trigger] chunk[i],
                        name@[pos + i],
                    ) by {
                        assert(tail[pos - at + i] == name@[pos + i]);
                    }
                }
            }
        }
        if fit && (!last || name.len() - pos == to - from) {
            return Some(pos);
        }
        if !star || pos == name.len() || name[pos] == '/' {
            return None;
        }
        pos += 1;
    }
}

/// Whether a glob matches a name.
pub fn glob_match(pattern: &str, name: &str) -> (r: Result<bool, BadPattern>)
    ensures
        match r {
            Ok(b) => tokens(pattern@) is Some && b == glob_accepts(tokens(pattern@)->0, name@),
            Err(_) => tokens(pattern@) is None,
        },
{
    let p: Vec<char> = chars_of(pattern);
    let n: Vec<char> = chars_of(name);
    let ts: Vec<GlobTok> = match parse_glob(&p) {
        Some(ts) => ts,
        None => {
            return Err(BadPattern);
        },
    };
    let ghost all = toks(ts@);
    let total: usize = n.len();
    let mut i: usize = 0;
    let mut at: usize = 0;
    proof {
        assert(all.skip(0) =~= all);
        assert(name@.skip(0) =~= name@);
    }
    while i < ts.len()
        invariant
            i <= ts@.len(),
            at <= n@.len(),
            total == n@.len(),
            n@ == name@,
            all == toks(ts@),
            tokens(pattern@) == Some(all),
            glob_accepts(all, name@) == glob_accepts(all.skip(i as int), name@.skip(at as int)),
        decreases ts@.len() - i,
    {
        let (star, from, to) = scan_chunk(&ts, i);
        let ghost rest = all.skip(i as int);
        proof {
            assert(chunk_of(rest) =~= all.subrange(from as int, to as int));
            assert(rest.skip(chunk_end(rest)) =~= all.skip(to as int));
        }
        if from == to {
            return Ok(!has_slash(&n, at));
        }
        match find_fit(&ts, from, to, star, &n, at) {
            None => {
                return Ok(false);
            },
            Some(pos) => {
                proof {
                    assert(name@.skip(at as int).skip(pos - at + (to - from)) =~= name@.skip(
                        pos + (to - from),
                    ));
                }
                assert(pos + (to - from) <= total);
                at = pos + (to - from);
                i = to;
            },
        }
    }
    proof {
        assert(all.skip(i as int).len() == 0);
    }
    Ok(at == total)
}

// ---------------------------------------------------------------------------
// Admission
// ---------------------------------------------------------------------------

/// Some glob of the list matches the login.
pub open spec fn some_glob_admits(globs: Seq<Seq<char>>, login: Seq<char>) -> bool {
    exists|i: int| 0 <= i < globs.len() && admits(#[trigger] globs[i], login)
}

/// The lowercase of every text.
pub open spec fn all_lowercase(v: Seq<Seq<char>>) -> Seq<Seq<char>> {
    Seq::new(v.len(), |i: int| lowercase(v[i]))
}

/// Whether some glob of the list matches the login, both as they are.
pub fn any_glob_matches(globs: &Vec<String>, login: &str) -> (r: bool)
    ensures
        r == some_glob_admits(texts(globs@), login@),
{
    let mut i: usize = 0;
    while i < globs.len()
        invariant
            i <= globs@.len(),
            forall|j: int| 0 <= j < i ==> !admits(#[trigger] texts(globs@)[j], login@),
        decreases globs@.len() - i,
    {
        let hit: bool = match glob_match(globs[i].as_str(), login) {
            Ok(b) => b,
            Err(_) => false,
        };
        assert(texts(globs@)[i as int] == globs@[i as int]@);
        if hit {
            return true;
        }
        i += 1;
    }
    false
}

/// What the list says of a login.
pub open spec fn login_passes(globs: Seq<Seq<char>>, login: Option<Seq<char>>) -> bool {
    globs.len() == 0 || (login is Some && login->0.len() > 0 && some_glob_admits(
        all_lowercase(globs),
        lowercase(login->0),
    ))
}

/// Admission: an empty list admits everybody; otherwise the login has to be
/// known, and a glob has to match it without regard to case.
pub fn login_allowed(globs: &[String], login: Option<&str>) -> (r: bool)
    ensures
        r == login_passes(
            texts(globs@),
            match login {
                Some(l) => Some(l@),
                None => None,
            },
        ),
{
    if globs.len() == 0 {
        return true;
    }
    let login: &str = match login {
        Some(l) => {
            if l.is_empty() {
                return false;
            }
            l
        },
        None => {
            return false;
        },
    };
    let lower: String = to_lower(login);
    let mut lowered: Vec<String> = Vec::new();
    let mut i: usize = 0;
    while i < globs.len()
        invariant
            i <= globs@.len(),
            lowered@.len() == i,
            forall|j: int| 0 <= j < i ==> (#[trigger] lowered@[j])@ == lowercase(globs@[j]@),
        decreases globs@.len() - i,
    {
        lowered.push(to_lower(globs[i].as_str()));
        i += 1;
    }
    assert(texts(lowered@) =~= all_lowercase(texts(globs@)));
    any_glob_matches(&lowered, lower.as_str())
}

// ---------------------------------------------------------------------------
// Laws
// ---------------------------------------------------------------------------

/// A non-empty list admits nobody whose login is absent or empty.
pub proof fn law_unknown_login_fails_closed(globs: Seq<Seq<char>>)
    requires
        globs.len() > 0,
    ensures
        !login_passes(globs, None),
        !login_passes(globs, Some(Seq::empty())),
{
}

/// A malformed glob admits nobody, whatever the name.
pub proof fn law_malformed_glob_admits_nobody(pattern: Seq<char>, name: Seq<char>)
    requires
        tokens(pattern) is None,
    ensures
        !admits(pattern, name),
{
}

/// No range of a class runs backwards: a glob with such a range is malformed.
pub proof fn law_ranges_run_forward(pattern: Seq<char>, i: int, j: int)
    requires
        tokens(pattern) is Some,
        0 <= i < tokens(pattern)->0.len(),
        tokens(pattern)->0[i] matches Tok::Class { ranges, .. } && 0 <= j < ranges.len(),
    ensures
        tokens(pattern)->0[i]->ranges[j].0 <= tokens(pattern)->0[i]->ranges[j].1,
    decreases pattern.len(),
{
    let (t, rest) = first_token(pattern)->0;
    if i == 0 {
        let from: int = if pattern.len() > 1 && pattern[1] == '^' {
            2
        } else {
            1
        };
        lemma_ranges_run_forward(pattern.skip(from), false, j);
    } else {
        assert(tokens(pattern)->0[i] == tokens(rest)->0[i - 1]);
        law_ranges_run_forward(rest, i - 1, j);
    }
}

proof fn lemma_ranges_run_forward(p: Seq<char>, closable: bool, j: int)
    ensures
        class_ranges(p, closable) matches Some((ranges, _)) ==> (0 <= j < ranges.len()
            ==> ranges[j].0 <= ranges[j].1),
    decreases p.len(),
{
    match class_ranges(p, closable) {
        Some((ranges, _)) => if 0 < j < ranges.len() {
            let (range, rest) = class_range(p)->0;
            let (more, _) = class_ranges(rest, true)->0;
            assert(ranges[j] == more[j - 1]);
            lemma_ranges_run_forward(rest, true, j - 1);
        },
        None => {},
    }
}

/// A longer list admits whoever a shorter one admits, unless the shorter one
/// is empty.
pub proof fn law_more_globs_admit_more(
    globs: Seq<Seq<char>>,
    glob: Seq<char>,
    login: Option<Seq<char>>,
)
    requires
        globs.len() > 0,
        login_passes(globs, login),
    ensures
        login_passes(globs.push(glob), login),
{
    let i = choose|i: int|
        0 <= i < globs.len() && admits(#[trigger] all_lowercase(globs)[i], lowercase(login->0));
    assert(all_lowercase(globs.push(glob))[i] == all_lowercase(globs)[i]);
}

proof fn lemma_stars(ts: Seq<Tok>, name: Seq<char>, j: int, tail: Seq<Tok>)
    requires
        star_count(ts) > 0,
        star_run(name, j),
        tail == ts.skip(star_count(ts) as int),
        stands_for(tail, name.skip(j)),
    ensures
        stands_for(ts, name),
    decreases ts.len(),
{
    if star_count(ts) == 1 {
        assert(star_count(ts.skip(1)) == 0);
        assert(tail =~= ts.skip(1));
        assert(star_run(name, j) && stands_for(ts.skip(1), name.skip(j)));
    } else {
        lemma_counts(ts.skip(1));
        assert(ts.skip(1).skip(star_count(ts.skip(1)) as int) =~= tail);
        lemma_stars(ts.skip(1), name, j, tail);
        assert(name.skip(0) =~= name);
        assert(star_run(name, 0)) by {
            assert(name.take(0).len() == 0);
        }
        assert(star_run(name, 0) && stands_for(ts.skip(1), name.skip(0)));
    }
}

/// What a run of stars stands for, taken apart.
proof fn lemma_stars_apart(ts: Seq<Tok>, name: Seq<char>) -> (j: int)
    requires
        star_count(ts) > 0,
        stands_for(ts, name),
    ensures
        star_run(name, j),
        stands_for(ts.skip(star_count(ts) as int), name.skip(j)),
    decreases ts.len(),
{
    let j = choose|j: int| #[trigger] star_run(name, j) && stands_for(ts.skip(1), name.skip(j));
    if star_count(ts) == 1 {
        assert(star_count(ts.skip(1)) == 0);
        j
    } else {
        let k = lemma_stars_apart(ts.skip(1), name.skip(j));
        lemma_counts(ts.skip(1));
        assert(ts.skip(1).skip(star_count(ts.skip(1)) as int) =~= ts.skip(star_count(ts) as int));
        assert(name.skip(j).skip(k) =~= name.skip(j + k));
        assert(star_run(name, j + k)) by {
            assert(name.take(j + k) =~= name.take(j) + name.skip(j).take(k));
            let run = name.take(j + k);
            if run.contains('/') {
                let x = choose|x: int| 0 <= x < run.len() && run[x] == '/';
                if x < j {
                    assert(name.take(j)[x] == '/');
                } else {
                    assert(name.skip(j).take(k)[x - j] == '/');
                }
            }
        }
        j + k
    }
}

/// Elements that are no `*` stand for exactly as many characters.
proof fn lemma_chunk(chunk: Seq<Tok>, rest: Seq<Tok>, name: Seq<char>)
    requires
        forall|i: int| 0 <= i < chunk.len() ==> !((#[trigger] chunk[i]) is Star),
    ensures
        stands_for(chunk + rest, name) == (fits(chunk, name, 0) && stands_for(
            rest,
            name.skip(chunk.len() as int),
        )),
    decreases chunk.len(),
{
    if chunk.len() == 0 {
        assert(chunk + rest =~= rest);
        assert(name.skip(0) =~= name);
    } else {
        let ts = chunk + rest;
        assert(ts[0] == chunk[0]);
        assert(ts.skip(1) =~= chunk.skip(1) + rest);
        lemma_chunk(chunk.skip(1), rest, name.skip(1));
        if 0 < chunk.len() <= name.len() {
            assert(name.skip(1).skip(chunk.skip(1).len() as int) =~= name.skip(chunk.len() as int));
            if fits(chunk, name, 0) {
                assert(accepts(chunk[0], name[0]));
                assert(fits(chunk.skip(1), name.skip(1), 0)) by {
                    assert forall|i: int| 0 <= i < chunk.skip(1).len() implies accepts(
                        #[trigger] chunk.skip(1)[i],
                        name.skip(1)[0 + i],
                    ) by {
                        assert(accepts(chunk[i + 1], name[0 + (i + 1)]));
                    }
                }
            }
            if accepts(chunk[0], name[0]) && fits(chunk.skip(1), name.skip(1), 0) {
                assert forall|i: int| 0 <= i < chunk.len() implies accepts(
                    #[trigger] chunk[i],
                    name[0 + i],
                ) by {
                    if i > 0 {
                        assert(accepts(chunk.skip(1)[i - 1], name.skip(1)[0 + (i - 1)]));
                    }
                }
            }
        }
    }
}

proof fn lemma_counts(ts: Seq<Tok>)
    ensures
        star_count(ts) <= ts.len(),
        forall|i: int| 0 <= i < star_count(ts) ==> (#[trigger] ts[i]) is Star,
        star_count(ts) < ts.len() ==> !(ts[star_count(ts) as int] is Star),
    decreases ts.len(),
{
    if ts.len() > 0 && ts[0] is Star {
        lemma_counts(ts.skip(1));
        assert forall|i: int| 0 <= i < star_count(ts) implies (#[trigger] ts[i]) is Star by {
            if i > 0 {
                assert(ts.skip(1)[i - 1] is Star);
            }
        }
    }
}

proof fn lemma_chunk_counts(ts: Seq<Tok>)
    ensures
        chunk_count(ts) <= ts.len(),
        forall|i: int| 0 <= i < chunk_count(ts) ==> !((#[trigger] ts[i]) is Star),
        chunk_count(ts) < ts.len() ==> ts[chunk_count(ts) as int] is Star,
    decreases ts.len(),
{
    if ts.len() > 0 && !(ts[0] is Star) {
        lemma_chunk_counts(ts.skip(1));
        assert forall|i: int| 0 <= i < chunk_count(ts) implies !((#[trigger] ts[i]) is Star) by {
            if i > 0 {
                assert(!(ts.skip(1)[i - 1] is Star));
            }
        }
    }
}

proof fn lemma_split(ts: Seq<Tok>)
    requires
        ts.len() > 0,
    ensures
        0 <= star_count(ts) <= chunk_end(ts) <= ts.len(),
        0 < chunk_end(ts),
        forall|i: int| 0 <= i < chunk_of(ts).len() ==> !((#[trigger] chunk_of(ts)[i]) is Star),
        ts.skip(star_count(ts) as int) == chunk_of(ts) + ts.skip(chunk_end(ts)),
        chunk_end(ts) < ts.len() ==> ts.skip(chunk_end(ts))[0] is Star,
        chunk_of(ts).len() == 0 ==> chunk_end(ts) == ts.len() && star_count(ts) == ts.len(),
{
    lemma_counts(ts);
    let tail = ts.skip(star_count(ts) as int);
    lemma_chunk_counts(tail);
    assert forall|i: int| 0 <= i < chunk_of(ts).len() implies !((#[trigger] chunk_of(ts)[i])
        is Star) by {
        assert(chunk_of(ts)[i] == tail[i]);
    }
    assert(tail =~= chunk_of(ts) + ts.skip(chunk_end(ts)));
    if star_count(ts) < ts.len() {
        assert(tail[0] == ts[star_count(ts) as int]);
    }
    if chunk_end(ts) < ts.len() {
        assert(ts.skip(chunk_end(ts))[0] == tail[chunk_count(tail) as int]);
    }
}

proof fn lemma_first_fit(
    chunk: Seq<Tok>,
    name: Seq<char>,
    last: bool,
    star: bool,
    at: int,
)
    requires
        0 <= at <= name.len(),
        star_run(name, at),
        at > 0 ==> star,
    ensures
        match first_fit(chunk, name, last, star, at) {
            Some(p) => at <= p && fits(chunk, name, p) && (!last || p + chunk.len() == name.len())
                && star_run(name, p) && (!star ==> p == 0) && forall|q: int|
                at <= q < p ==> !(#[trigger] fits(chunk, name, q) && (!last || q + chunk.len()
                    == name.len())),
            None => forall|q: int|
                at <= q && (star || q == at) && star_run(name, q) ==> !(#[trigger] fits(
                    chunk,
                    name,
                    q,
                ) && (!last || q + chunk.len() == name.len())),
        },
    decreases name.len() - at,
{
    if fits(chunk, name, at) && (!last || at + chunk.len() == name.len()) {
    } else if star && at < name.len() && name[at] != '/' {
        assert(star_run(name, at + 1)) by {
            let run = name.take(at + 1);
            if run.contains('/') {
                let x = choose|x: int| 0 <= x < run.len() && run[x] == '/';
                if x < at {
                    assert(name.take(at)[x] == '/');
                }
            }
        }
        lemma_first_fit(chunk, name, last, star, at + 1);
    } else {
        assert forall|q: int|
            at <= q && (star || q == at) && star_run(name, q) implies !(#[trigger] fits(
            chunk,
            name,
            q,
        ) && (!last || q + chunk.len() == name.len())) by {
            if q > at {
                if at < name.len() {
                    assert(name.take(q)[at] == '/');
                }
            }
        }
    }
}

/// Whatever a glob lets pass matches in the plain sense: there is a way to
/// let every `*` stand for a run without `/` and every other element for one
/// character.
pub proof fn law_glob_match_is_sound(ts: Seq<Tok>, name: Seq<char>)
    requires
        glob_accepts(ts, name),
    ensures
        stands_for(ts, name),
    decreases ts.len(),
{
    if ts.len() > 0 {
        lemma_split(ts);
        let chunk = chunk_of(ts);
        let rest = ts.skip(chunk_end(ts));
        let star = star_count(ts) > 0;
        let tail = ts.skip(star_count(ts) as int);
        assert(star_run(name, 0)) by {
            assert(name.take(0).len() == 0);
        }
        if chunk.len() == 0 {
            let j = name.len() as int;
            assert(name.take(j) =~= name);
            assert(star_run(name, j));
            assert(tail.len() == 0);
            assert(stands_for(tail, name.skip(j)));
            lemma_stars(ts, name, j, tail);
        } else {
            lemma_first_fit(chunk, name, rest.len() == 0, star, 0);
            let p = first_fit(chunk, name, rest.len() == 0, star, 0)->0;
            law_glob_match_is_sound(rest, name.skip(p + chunk.len()));
            assert(name.skip(p).skip(chunk.len() as int) =~= name.skip(p + chunk.len()));
            assert(fits(chunk, name.skip(p), 0)) by {
                assert forall|i: int| 0 <= i < chunk.len() implies accepts(
                    #[trigger] chunk[i],
                    name.skip(p)[0 + i],
                ) by {
                    assert(accepts(chunk[i], name[p + i]));
                }
            }
            lemma_chunk(chunk, rest, name.skip(p));
            assert(stands_for(tail, name.skip(p)));
            if star {
                lemma_stars(ts, name, p, tail);
            } else {
                assert(tail =~= ts);
                assert(name.skip(0) =~= name);
            }
        }
    }
}

/// The first `/` of the part of `name` that a chunk stands for, if its
/// classes spare `/`, is one that a literal stands for: two places where the
/// chunk fits behind runs without `/` are the same place, or no `/` lies
/// between their ends.
proof fn lemma_fits_between(chunk: Seq<Tok>, name: Seq<char>, p: int, q: int)
    requires
        forall|i: int| 0 <= i < chunk.len() ==> !((#[trigger] chunk[i]) is Star),
        classes_spare_slash(chunk) || !name.contains('/'),
        0 <= p <= q,
        star_run(name, p),
        star_run(name, q),
        fits(chunk, name, p),
        fits(chunk, name, q),
    ensures
        star_run(name.skip(p + chunk.len()), q - p),
{
    let k = chunk.len() as int;
    let part = name.skip(p + k).take(q - p);
    if part.contains('/') {
        let x = choose|x: int| 0 <= x < part.len() && part[x] == '/';
        let at = p + k + x;
        assert(name[at] == '/');
        assert(name.contains('/'));
        assert(classes_spare_slash(chunk));
        // The slash lies in the part that the chunk stands for at `q`.
        if at < q {
            assert(name.take(q)[at] == '/');
        }
        let o = at - q;
        assert(accepts(chunk[o], name[q + o]));
        assert(chunk[o] == Tok::Lit('/'));
        // The same literal stands for a character before `q` or in the same
        // part, strictly before: going down from literal to literal ends
        // before `q`.
        lemma_slash_descends(chunk, name, p, q, o);
    }
}

proof fn lemma_slash_descends(chunk: Seq<Tok>, name: Seq<char>, p: int, q: int, o: int)
    requires
        forall|i: int| 0 <= i < chunk.len() ==> !((#[trigger] chunk[i]) is Star),
        classes_spare_slash(chunk),
        0 <= p < q,
        star_run(name, q),
        fits(chunk, name, p),
        fits(chunk, name, q),
        0 <= o < chunk.len(),
    ensures
        chunk[o] != Tok::Lit('/'),
    decreases o,
{
    if chunk[o] == Tok::Lit('/') {
        // At `p` this literal stands for a slash at `p + o`.
        assert(accepts(chunk[o], name[p + o]));
        assert(name[p + o] == '/');
        if p + o < q {
            assert(name.take(q)[p + o] == '/');
        } else {
            let o2 = p + o - q;
            assert(accepts(chunk[o2], name[q + o2]));
            assert(chunk[o2] == Tok::Lit('/'));
            lemma_slash_descends(chunk, name, p, q, o2);
        }
    }
}

/// A glob whose rest begins with `*` matches as well when more of the name,
/// without `/`, is left to it.
proof fn lemma_star_takes_more(rest: Seq<Tok>, name: Seq<char>, d: int)
    requires
        rest.len() > 0,
        rest[0] is Star,
        star_run(name, d),
        stands_for(rest, name.skip(d)),
    ensures
        stands_for(rest, name),
{
    let j = choose|j: int| #[trigger]
        star_run(name.skip(d), j) && stands_for(rest.skip(1), name.skip(d).skip(j));
    assert(name.skip(d).skip(j) =~= name.skip(d + j));
    assert(star_run(name, d + j)) by {
        let run = name.take(d + j);
            if run.contains('/') {
            let x = choose|x: int| 0 <= x < run.len() && run[x] == '/';
            if x < d {
                assert(name.take(d)[x] == '/');
            } else {
                assert(name.skip(d).take(j)[x - d] == '/');
            }
        }
    }
    assert(star_run(name, d + j) && stands_for(rest.skip(1), name.skip(d + j)));
}

/// A name that matches in the plain sense passes the glob, as long as no class
/// of the glob stands for `/`, or the name has none.
pub proof fn law_glob_match_is_complete(ts: Seq<Tok>, name: Seq<char>)
    requires
        stands_for(ts, name),
        classes_spare_slash(ts) || !name.contains('/'),
    ensures
        glob_accepts(ts, name),
    decreases ts.len(),
{
    if ts.len() > 0 {
        lemma_split(ts);
        let chunk = chunk_of(ts);
        let rest = ts.skip(chunk_end(ts));
        let star = star_count(ts) > 0;
        let last = rest.len() == 0;
        let tail = ts.skip(star_count(ts) as int);
        let mut q: int = 0;
        if star {
            q = lemma_stars_apart(ts, name);
        } else {
            assert(tail =~= ts);
            assert(name.skip(0) =~= name);
            assert(star_run(name, 0)) by {
                assert(name.take(0).len() == 0);
            }
        }
        assert(star_run(name, q) && stands_for(tail, name.skip(q)));
        lemma_chunk(chunk, rest, name.skip(q));
        let k = chunk.len() as int;
        assert(name.skip(q).skip(k) =~= name.skip(q + k));
        assert(fits(chunk, name, q)) by {
            assert forall|i: int| 0 <= i < chunk.len() implies accepts(
                #[trigger] chunk[i],
                name[q + i],
            ) by {
                assert(accepts(chunk[i], name.skip(q)[0 + i]));
            }
        }
        if chunk.len() == 0 {
            assert(rest.len() == 0);
            assert(name.take(q) =~= name);
        } else {
            assert(star_run(name, 0)) by {
                assert(name.take(0).len() == 0);
            }
            lemma_first_fit(chunk, name, last, star, 0);
            if last {
                assert(name.skip(q + k).len() == 0);
            }
            let found = first_fit(chunk, name, last, star, 0);
            assert(found is Some);
            let p = found->0;
            assert(p <= q) by {
                if p > q {
                    assert(fits(chunk, name, q));
                }
            }
            assert(classes_spare_slash(chunk) || !name.contains('/')) by {
                if classes_spare_slash(ts) {
                    assert forall|i: int|
                        0 <= i < chunk.len() && (#[trigger] chunk[i]) is Class implies !accepts(
                        chunk[i],
                        '/',
                    ) by {
                        assert(chunk[i] == ts[star_count(ts) + i]);
                    }
                }
            }
            lemma_fits_between(chunk, name, p, q);
            let left = name.skip(p + k);
            assert(left.skip(q - p) =~= name.skip(q + k));
            if last {
                assert(p + k == name.len());
                assert(left =~= name.skip(q + k));
            } else {
                lemma_star_takes_more(rest, left, q - p);
            }
            assert(classes_spare_slash(rest) || !left.contains('/')) by {
                if classes_spare_slash(ts) {
                    assert forall|i: int|
                        0 <= i < rest.len() && (#[trigger] rest[i]) is Class implies !accepts(
                        rest[i],
                        '/',
                    ) by {
                        assert(rest[i] == ts[chunk_end(ts) + i]);
                    }
                } else if left.contains('/') {
                    let x = choose|x: int| 0 <= x < left.len() && left[x] == '/';
                    assert(name[p + k + x] == '/');
                }
            }
            law_glob_match_is_complete(rest, left);
        }
    }
}

} // verus!
