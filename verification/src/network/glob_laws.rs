//! What globs stand for, form by form.
use vstd::prelude::*;

use crate::network::login_allow::{
    accepts, admits, all_lowercase, chunk_count, chunk_end, chunk_of, class_char, class_range,
    class_ranges, classes_spare_slash, first_fit, first_token, fits, glob_accepts, in_some_range,
    law_glob_match_is_complete, law_glob_match_is_sound, login_passes, stands_for, star_count,
    star_run, tokens, Tok,
};
use crate::text::lowercase;

verus! {

/// A Unicode scalar value, as every character is.
pub open spec fn is_scalar(c: char) -> bool {
    0 <= c as int <= 0xD7FF || 0xE000 <= c as int <= 0x10FFFF
}

/// No character of a text has a meaning of its own in a glob.
pub open spec fn is_plain(s: Seq<char>) -> bool {
    forall|i: int|
        0 <= i < s.len() ==> is_scalar(#[trigger] s[i]) && s[i] != '*' && s[i] != '?' && s[i] != '['
            && s[i] != '\\'
}

/// No character of a text has a meaning of its own in a class.
pub open spec fn is_plain_in_class(s: Seq<char>) -> bool {
    forall|i: int|
        0 <= i < s.len() ==> is_scalar(#[trigger] s[i]) && s[i] != '-' && s[i] != ']' && s[i]
            != '\\'
}

/// The elements of a glob that is plain.
pub open spec fn lits(s: Seq<char>) -> Seq<Tok>
    decreases s.len(),
{
    if s.len() == 0 {
        seq![]
    } else {
        seq![Tok::Lit(s[0])] + lits(s.skip(1))
    }
}

proof fn lemma_lits(s: Seq<char>)
    requires
        is_plain(s),
    ensures
        lits(s).len() == s.len(),
        forall|i: int| 0 <= i < s.len() ==> #[trigger] lits(s)[i] == Tok::Lit(s[i]),
    decreases s.len(),
{
    if s.len() > 0 {
        let tail = s.skip(1);
        assert forall|i: int| 0 <= i < tail.len() implies is_scalar(#[trigger] tail[i]) && tail[i]
            != '*' && tail[i] != '?' && tail[i] != '[' && tail[i] != '\\' by {
            assert(tail[i] == s[i + 1]);
        }
        assert(is_scalar(s[0]));
        lemma_lits(tail);
        assert forall|i: int| 0 <= i < s.len() implies #[trigger] lits(s)[i] == Tok::Lit(s[i]) by {
            if i > 0 {
                assert(lits(s)[i] == lits(s.skip(1))[i - 1]);
            }
        }
    }
}

proof fn lemma_plain_tokens(a: Seq<char>, rest: Seq<char>)
    requires
        is_plain(a),
    ensures
        tokens(rest) is None ==> tokens(a + rest) is None,
        tokens(rest) matches Some(more) ==> tokens(a + rest) == Some(lits(a) + more),
    decreases a.len(),
{
    lemma_lits(a);
    if a.len() == 0 {
        assert(a + rest =~= rest);
        match tokens(rest) {
            Some(more) => {
                assert(lits(a) + more =~= more);
            },
            None => {},
        }
    } else {
        let p = a + rest;
        let tail = a.skip(1);
        assert(p.skip(1) =~= tail + rest);
        assert(p[0] == a[0]);
        assert(first_token(p) == Some((Tok::Lit(a[0]), p.skip(1))));
        assert(is_plain(tail)) by {
            assert forall|i: int| 0 <= i < tail.len() implies is_scalar(#[trigger] tail[i]) && tail[i] != '*' && tail[i]
                != '?' && tail[i] != '[' && tail[i] != '\\' by {
                assert(tail[i] == a[i + 1]);
            }
        }
        lemma_plain_tokens(tail, rest);
        match tokens(rest) {
            Some(more) => {
                assert(seq![Tok::Lit(a[0])] + (lits(tail) + more) =~= lits(a) + more);
            },
            None => {},
        }
    }
}

proof fn lemma_only_plain_tokens(a: Seq<char>)
    requires
        is_plain(a),
    ensures
        tokens(a) == Some(lits(a)),
{
    lemma_plain_tokens(a, Seq::empty());
    assert(a + Seq::empty() =~= a);
    assert(lits(a) + seq![] =~= lits(a));
}

proof fn lemma_no_stars(ts: Seq<Tok>)
    requires
        forall|i: int| 0 <= i < ts.len() ==> !((#[trigger] ts[i]) is Star),
    ensures
        chunk_count(ts) == ts.len(),
        star_count(ts) == 0,
    decreases ts.len(),
{
    if ts.len() > 0 {
        assert(!(ts[0] is Star));
        assert forall|i: int| 0 <= i < ts.skip(1).len() implies !((#[trigger] ts.skip(
            1,
        )[i]) is Star) by {
            assert(ts.skip(1)[i] == ts[i + 1]);
        }
        lemma_no_stars(ts.skip(1));
    }
}

proof fn lemma_one_by_one(ts: Seq<Tok>, name: Seq<char>)
    requires
        forall|i: int| 0 <= i < ts.len() ==> !((#[trigger] ts[i]) is Star),
    ensures
        glob_accepts(ts, name) <==> ts.len() == name.len() && forall|i: int|
            0 <= i < ts.len() ==> accepts(#[trigger] ts[i], name[i]),
{
    lemma_no_stars(ts);
    if ts.len() > 0 {
        assert(ts.skip(0) =~= ts);
        assert(chunk_end(ts) == ts.len());
        assert(chunk_of(ts) =~= ts);
        assert(ts.skip(ts.len() as int).len() == 0);
        let all = forall|i: int| 0 <= i < ts.len() ==> accepts(#[trigger] ts[i], name[0 + i]);
        assert(all <==> forall|i: int| 0 <= i < ts.len() ==> accepts(#[trigger] ts[i], name[i]));
        let n = name.len() as int;
        assert(name.skip(0 + n).len() == 0);
        assert(glob_accepts(Seq::<Tok>::empty(), name.skip(n)));
        assert(ts.skip(ts.len() as int) =~= Seq::<Tok>::empty());
        assert(first_fit(ts, name, true, false, 0) == if fits(ts, name, 0) && ts.len()
            == name.len() {
            Some(0int)
        } else {
            None::<int>
        });
    }
}

proof fn lemma_one_between(a: Seq<char>, t: Tok, b: Seq<char>, name: Seq<char>)
    requires
        !(t is Star),
        is_plain(a),
        is_plain(b),
    ensures
        glob_accepts(lits(a) + seq![t] + lits(b), name) <==> exists|c: char|
            accepts(t, c) && name == #[trigger] (a + seq![c] + b),
{
    let ts = lits(a) + seq![t] + lits(b);
    let n = a.len() as int;
    lemma_lits(a);
    lemma_lits(b);
    assert forall|i: int| 0 <= i < ts.len() implies !((#[trigger] ts[i]) is Star) by {}
    lemma_one_by_one(ts, name);
    if glob_accepts(ts, name) {
        assert(accepts(ts[n], name[n]));
        assert forall|i: int| 0 <= i < name.len() implies name[i] == (a + seq![name[n]] + b)[i] by {
            assert(accepts(ts[i], name[i]));
        }
        assert(name =~= a + seq![name[n]] + b);
    }
    if exists|c: char| accepts(t, c) && name == #[trigger] (a + seq![c] + b) {
        let c = choose|c: char| accepts(t, c) && name == #[trigger] (a + seq![c] + b);
        assert forall|i: int| 0 <= i < ts.len() implies accepts(#[trigger] ts[i], name[i]) by {}
    }
}

proof fn lemma_lits_stand(a: Seq<char>, rest: Seq<Tok>, name: Seq<char>)
    requires
        is_plain(a),
    ensures
        stands_for(lits(a) + rest, name) <==> a.len() <= name.len() && name.take(a.len() as int)
            == a && stands_for(rest, name.skip(a.len() as int)),
    decreases a.len(),
{
    let ts = lits(a) + rest;
    lemma_lits(a);
    if a.len() == 0 {
        assert(ts =~= rest);
        assert(name.skip(0) =~= name);
        assert(name.take(0) =~= a);
    } else {
        let tail = a.skip(1);
        assert forall|i: int| 0 <= i < tail.len() implies is_scalar(#[trigger] tail[i]) && tail[i]
            != '*' && tail[i] != '?' && tail[i] != '[' && tail[i] != '\\' by {
            assert(tail[i] == a[i + 1]);
        }
        lemma_lits(tail);
        assert(ts[0] == Tok::Lit(a[0]));
        assert(ts.skip(1) =~= lits(tail) + rest);
        if name.len() > 0 {
            let n = name.skip(1);
            lemma_lits_stand(tail, rest, n);
            if a.len() <= name.len() {
                assert(n.skip(tail.len() as int) =~= name.skip(a.len() as int));
                if name[0] == a[0] && n.take(tail.len() as int) == tail {
                    assert forall|i: int| 0 <= i < a.len() implies name[i] == a[i] by {
                        if i > 0 {
                            assert(n.take(tail.len() as int)[i - 1] == tail[i - 1]);
                        }
                    }
                    assert(name.take(a.len() as int) =~= a);
                }
                if name.take(a.len() as int) == a {
                    assert(name.take(a.len() as int)[0] == a[0]);
                    assert forall|i: int| 0 <= i < tail.len() implies n[i] == tail[i] by {
                        assert(name.take(a.len() as int)[i + 1] == a[i + 1]);
                    }
                    assert(n.take(tail.len() as int) =~= tail);
                }
            }
        }
    }
}

/// A glob without special characters admits itself and no other name.
pub proof fn law_plain_globs_name_themselves(glob: Seq<char>, name: Seq<char>)
    requires
        is_plain(glob),
    ensures
        admits(glob, name) <==> name == glob,
{
    lemma_only_plain_tokens(glob);
    lemma_lits(glob);
    lemma_one_by_one(lits(glob), name);
    if admits(glob, name) {
        assert forall|i: int| 0 <= i < name.len() implies name[i] == glob[i] by {
            assert(accepts(lits(glob)[i], name[i]));
        }
        assert(name =~= glob);
    }
}

proof fn lemma_star_tokens(a: Seq<char>, b: Seq<char>)
    requires
        is_plain(a),
        is_plain(b),
    ensures
        tokens(a + seq!['*'] + b) == Some(lits(a) + (seq![Tok::Star] + lits(b))),
        classes_spare_slash(lits(a) + (seq![Tok::Star] + lits(b))),
{
    let rest = seq!['*'] + b;
    assert(a + seq!['*'] + b =~= a + rest);
    assert(rest.skip(1) =~= b);
    assert(rest[0] == '*');
    lemma_only_plain_tokens(b);
    assert(first_token(rest) == Some((Tok::Star, b)));
    assert(tokens(rest) == Some(seq![Tok::Star] + lits(b)));
    lemma_plain_tokens(a, rest);
    lemma_lits(a);
    lemma_lits(b);
}

proof fn lemma_star_stands(a: Seq<char>, b: Seq<char>, name: Seq<char>)
    requires
        is_plain(a),
        is_plain(b),
    ensures
        stands_for(lits(a) + (seq![Tok::Star] + lits(b)), name) <==> exists|run: Seq<char>|
            !run.contains('/') && name == #[trigger] (a + run + b),
{
    let more = seq![Tok::Star] + lits(b);
    let ts = lits(a) + more;
    lemma_lits(b);
    let k = a.len() as int;
    lemma_lits_stand(a, more, name);
    assert(more[0] is Star);
    assert(more.skip(1) =~= lits(b));
    if stands_for(ts, name) {
        let n = name.skip(k);
        let j = choose|j: int| #[trigger] star_run(n, j) && stands_for(more.skip(1), n.skip(j));
        lemma_lits_stand(b, seq![], n.skip(j));
        assert(lits(b) + seq![] =~= lits(b));
        let run = n.take(j);
        assert(n.skip(j).take(b.len() as int) =~= n.skip(j));
        assert(name =~= a + run + b) by {
            assert(n =~= run + n.skip(j));
            assert(name =~= name.take(k) + n);
        }
    }
    if exists|run: Seq<char>| !run.contains('/') && name == #[trigger] (a + run + b) {
        let run = choose|run: Seq<char>| !run.contains('/') && name == #[trigger] (a + run + b);
        let n = name.skip(k);
        let j = run.len() as int;
        assert(n =~= run + b);
        assert(n.take(j) =~= run);
        assert(n.skip(j) =~= b);
        assert(name.take(k) =~= a);
        lemma_lits_stand(b, seq![], b);
        assert(lits(b) + seq![] =~= lits(b));
        assert(b.take(b.len() as int) =~= b);
        assert(star_run(n, j) && stands_for(more.skip(1), n.skip(j)));
    }
}

/// A `*` between two plain texts stands for any run of characters, the empty
/// one too, that has no `/` in it.
pub proof fn law_star_stands_for_a_run(a: Seq<char>, b: Seq<char>, name: Seq<char>)
    requires
        is_plain(a),
        is_plain(b),
    ensures
        admits(a + seq!['*'] + b, name) <==> exists|run: Seq<char>|
            !run.contains('/') && name == #[trigger] (a + run + b),
{
    let ts = lits(a) + (seq![Tok::Star] + lits(b));
    lemma_star_tokens(a, b);
    lemma_star_stands(a, b, name);
    if admits(a + seq!['*'] + b, name) {
        law_glob_match_is_sound(ts, name);
    }
    if stands_for(ts, name) {
        law_glob_match_is_complete(ts, name);
    }
}

/// A `?` stands for one character other than `/`.
pub proof fn law_question_mark_stands_for_one(a: Seq<char>, b: Seq<char>, name: Seq<char>)
    requires
        is_plain(a),
        is_plain(b),
    ensures
        admits(a + seq!['?'] + b, name) <==> exists|c: char|
            c != '/' && name == #[trigger] (a + seq![c] + b),
{
    let rest = seq!['?'] + b;
    assert(a + seq!['?'] + b =~= a + rest);
    assert(rest.skip(1) =~= b);
    lemma_only_plain_tokens(b);
    assert(first_token(rest) == Some((Tok::One, b)));
    lemma_plain_tokens(a, rest);
    assert(lits(a) + (seq![Tok::One] + lits(b)) =~= lits(a) + seq![Tok::One] + lits(b));
    lemma_one_between(a, Tok::One, b, name);
    assert forall|c: char| c != '/' implies accepts(Tok::One, c) by {}
    if exists|c: char| c != '/' && name == #[trigger] (a + seq![c] + b) {
        let c = choose|c: char| c != '/' && name == #[trigger] (a + seq![c] + b);
        assert(accepts(Tok::One, c) && name == a + seq![c] + b);
    }
    if admits(a + seq!['?'] + b, name) {
        let c = choose|c: char| accepts(Tok::One, c) && name == #[trigger] (a + seq![c] + b);
        assert(c != '/' && name == a + seq![c] + b);
    }
}

/// A character behind a backslash stands for itself, whatever it means
/// otherwise.
pub proof fn law_escaped_characters_stand_for_themselves(
    a: Seq<char>,
    c: char,
    b: Seq<char>,
    name: Seq<char>,
)
    requires
        is_plain(a),
        is_plain(b),
    ensures
        admits(a + seq!['\\', c] + b, name) <==> name == a + seq![c] + b,
{
    let rest = seq!['\\', c] + b;
    assert(a + seq!['\\', c] + b =~= a + rest);
    assert(rest.skip(2) =~= b);
    lemma_only_plain_tokens(b);
    assert(first_token(rest) == Some((Tok::Lit(c), b)));
    lemma_plain_tokens(a, rest);
    assert(lits(a) + (seq![Tok::Lit(c)] + lits(b)) =~= lits(a) + seq![Tok::Lit(c)] + lits(b));
    lemma_one_between(a, Tok::Lit(c), b, name);
    if name == a + seq![c] + b {
        assert(accepts(Tok::Lit(c), c) && name == a + seq![c] + b);
    }
}

/// A backslash at the end escapes nothing: the glob is malformed.
pub proof fn law_backslash_needs_a_character(a: Seq<char>, name: Seq<char>)
    requires
        is_plain(a),
    ensures
        tokens(a + seq!['\\']) is None,
        !admits(a + seq!['\\'], name),
{
    assert(first_token(seq!['\\']) is None);
    assert(tokens(seq!['\\']) is None);
    lemma_plain_tokens(a, seq!['\\']);
}

/// The ranges of a class of single characters.
pub open spec fn singles(s: Seq<char>) -> Seq<(char, char)>
    decreases s.len(),
{
    if s.len() == 0 {
        seq![]
    } else {
        seq![(s[0], s[0])] + singles(s.skip(1))
    }
}

proof fn lemma_singles(s: Seq<char>)
    ensures
        singles(s).len() == s.len(),
        forall|i: int| 0 <= i < s.len() ==> #[trigger] singles(s)[i] == (s[i], s[i]),
    decreases s.len(),
{
    if s.len() > 0 {
        lemma_singles(s.skip(1));
        assert forall|i: int| 0 <= i < s.len() implies #[trigger] singles(s)[i] == (s[i], s[i]) by {
            if i > 0 {
                assert(singles(s)[i] == singles(s.skip(1))[i - 1]);
            }
        }
    }
}

proof fn lemma_class_of_singles(s: Seq<char>, b: Seq<char>, closable: bool)
    requires
        is_plain_in_class(s),
        s.len() > 0 || closable,
    ensures
        class_ranges(s + seq![']'] + b, closable) == Some((singles(s), b)),
    decreases s.len(),
{
    let p = s + seq![']'] + b;
    if s.len() == 0 {
        assert(p[0] == ']');
        assert(p.skip(1) =~= b);
        assert(singles(s) =~= seq![]);
    } else {
        let tail = s.skip(1);
        let q = tail + seq![']'] + b;
        assert(p[0] == s[0]);
        assert(p.skip(1) =~= q);
        assert(class_char(p) == Some((s[0], q)));
        assert(q[0] != '-') by {
            if tail.len() > 0 {
                assert(q[0] == s[1]);
            } else {
                assert(q[0] == ']');
            }
        }
        assert(class_range(p) == Some(((s[0], s[0]), q)));
        assert(is_plain_in_class(tail)) by {
            assert forall|i: int| 0 <= i < tail.len() implies is_scalar(#[trigger] tail[i]) && tail[i] != '-' && tail[i]
                != ']' && tail[i] != '\\' by {
                assert(tail[i] == s[i + 1]);
            }
        }
        lemma_class_of_singles(tail, b, true);
        assert(seq![(s[0], s[0])] + singles(tail) =~= singles(s));
    }
}

proof fn lemma_class_glob(
    a: Seq<char>,
    inner: Seq<char>,
    negated: bool,
    ranges: Seq<(char, char)>,
    b: Seq<char>,
    name: Seq<char>,
)
    requires
        is_plain(a),
        is_plain(b),
        negated || inner.len() == 0 || inner[0] != '^',
        class_ranges(inner + seq![']'] + b, false) == Some((ranges, b)),
    ensures
        ({
            let head: Seq<char> = if negated {
                seq!['[', '^']
            } else {
                seq!['[']
            };
            admits(a + head + inner + seq![']'] + b, name) <==> exists|c: char|
                in_some_range(ranges, c) != negated && name == #[trigger] (a + seq![c] + b)
        }),
{
    let head: Seq<char> = if negated {
        seq!['[', '^']
    } else {
        seq!['[']
    };
    let rest = head + (inner + seq![']'] + b);
    assert(a + head + inner + seq![']'] + b =~= a + rest);
    assert(rest[0] == '[');
    assert(rest.skip(head.len() as int) =~= inner + seq![']'] + b);
    if !negated {
        assert(rest[1] == (inner + seq![']'] + b)[0]);
    }
    lemma_only_plain_tokens(b);
    let t = Tok::Class { negated, ranges };
    assert(first_token(rest) == Some((t, b)));
    assert(b.len() < rest.len());
    lemma_plain_tokens(a, rest);
    assert(lits(a) + (seq![t] + lits(b)) =~= lits(a) + seq![t] + lits(b));
    lemma_one_between(a, t, b, name);
    if exists|c: char| accepts(t, c) && name == #[trigger] (a + seq![c] + b) {
        let c = choose|c: char| accepts(t, c) && name == #[trigger] (a + seq![c] + b);
        assert(in_some_range(ranges, c) != negated && name == a + seq![c] + b);
    }
    if exists|c: char| in_some_range(ranges, c) != negated && name == #[trigger] (a + seq![c] + b) {
        let c = choose|c: char|
            in_some_range(ranges, c) != negated && name == #[trigger] (a + seq![c] + b);
        assert(accepts(t, c) && name == a + seq![c] + b);
    }
}

proof fn lemma_in_singles(s: Seq<char>, c: char)
    ensures
        in_some_range(singles(s), c) <==> s.contains(c),
{
    lemma_singles(s);
    if in_some_range(singles(s), c) {
        let i = choose|i: int|
            0 <= i < singles(s).len() && (#[trigger] singles(s)[i]).0 <= c && c <= singles(s)[i].1;
        assert(s[i] == c);
    }
    if s.contains(c) {
        let i = choose|i: int| 0 <= i < s.len() && s[i] == c;
        assert(singles(s)[i] == (c, c));
    }
}

/// A class of single characters stands for any one of them, and with `^` for
/// any one character that is none of them.
pub proof fn law_classes_stand_for_their_characters(
    a: Seq<char>,
    set: Seq<char>,
    b: Seq<char>,
    name: Seq<char>,
)
    requires
        is_plain(a),
        is_plain(b),
        set.len() > 0,
        is_plain_in_class(set),
    ensures
        set[0] != '^' ==> (admits(a + seq!['['] + set + seq![']'] + b, name) <==> exists|c: char|
            set.contains(c) && name == #[trigger] (a + seq![c] + b)),
        admits(a + seq!['[', '^'] + set + seq![']'] + b, name) <==> exists|c: char|
            !set.contains(c) && name == #[trigger] (a + seq![c] + b),
{
    lemma_class_of_singles(set, b, false);
    assert forall|c: char| in_some_range(singles(set), c) == set.contains(c) by {
        lemma_in_singles(set, c);
    }
    if set[0] != '^' {
        lemma_class_glob(a, set, false, singles(set), b, name);
        if exists|c: char| set.contains(c) && name == #[trigger] (a + seq![c] + b) {
            let c = choose|c: char| set.contains(c) && name == #[trigger] (a + seq![c] + b);
            assert(in_some_range(singles(set), c) != false && name == a + seq![c] + b);
        }
        if exists|c: char|
            in_some_range(singles(set), c) != false && name == #[trigger] (a + seq![c] + b) {
            let c = choose|c: char|
                in_some_range(singles(set), c) != false && name == #[trigger] (a + seq![c] + b);
            assert(set.contains(c) && name == a + seq![c] + b);
        }
    }
    lemma_class_glob(a, set, true, singles(set), b, name);
    if exists|c: char| !set.contains(c) && name == #[trigger] (a + seq![c] + b) {
        let c = choose|c: char| !set.contains(c) && name == #[trigger] (a + seq![c] + b);
        assert(in_some_range(singles(set), c) != true && name == a + seq![c] + b);
    }
    if exists|c: char|
        in_some_range(singles(set), c) != true && name == #[trigger] (a + seq![c] + b) {
        let c = choose|c: char|
            in_some_range(singles(set), c) != true && name == #[trigger] (a + seq![c] + b);
        assert(!set.contains(c) && name == a + seq![c] + b);
    }
}

/// A range in a class stands for the characters from its first to its last,
/// both of them too; one that runs backwards admits nobody.
pub proof fn law_ranges_stand_for_what_lies_between(
    a: Seq<char>,
    lo: char,
    hi: char,
    b: Seq<char>,
    name: Seq<char>,
)
    requires
        is_plain(a),
        is_plain(b),
        is_plain_in_class(seq![lo, hi]),
        lo != '^',
    ensures
        admits(a + seq!['['] + seq![lo, '-', hi] + seq![']'] + b, name) <==> exists|c: char|
            lo <= c && c <= hi && name == #[trigger] (a + seq![c] + b),
{
    let inner = seq![lo, '-', hi];
    let p = inner + seq![']'] + b;
    let q = p.skip(1);
    let end = seq![']'] + b;
    assert(seq![lo, hi][0] == lo && seq![lo, hi][1] == hi);
    assert(class_char(p) == Some((lo, q)));
    assert(q[0] == '-');
    assert(q.skip(1).skip(1) =~= end);
    assert(q.skip(1)[0] == hi);
    assert(class_char(q.skip(1)) == Some((hi, end)));
    if lo <= hi {
        assert(class_range(p) == Some(((lo, hi), end)));
        assert(end.skip(1) =~= b);
        assert(end[0] == ']');
        assert(class_ranges(end, true) == Some((Seq::<(char, char)>::empty(), b)));
        let ranges: Seq<(char, char)> = seq![(lo, hi)];
        assert(seq![(lo, hi)] + Seq::<(char, char)>::empty() =~= ranges);
        lemma_class_glob(a, inner, false, ranges, b, name);
        assert forall|c: char| in_some_range(ranges, c) == (lo <= c && c <= hi) by {
            if lo <= c && c <= hi {
                assert(ranges[0] == (lo, hi));
            }
        }
        if exists|c: char| lo <= c && c <= hi && name == #[trigger] (a + seq![c] + b) {
            let c = choose|c: char| lo <= c && c <= hi && name == #[trigger] (a + seq![c] + b);
            assert(in_some_range(ranges, c) != false && name == a + seq![c] + b);
        }
        if exists|c: char|
            in_some_range(ranges, c) != false && name == #[trigger] (a + seq![c] + b) {
            let c = choose|c: char|
                in_some_range(ranges, c) != false && name == #[trigger] (a + seq![c] + b);
            assert(lo <= c && c <= hi && name == a + seq![c] + b);
        }
    } else {
        let rest = seq!['['] + p;
        assert(a + seq!['['] + inner + seq![']'] + b =~= a + rest);
        assert(rest.skip(1) =~= p);
        assert(rest[1] == lo);
        assert(class_range(p) is None);
        assert(class_ranges(p, false) is None);
        assert(first_token(rest) is None);
        lemma_plain_tokens(a, rest);
    }
}

proof fn lemma_unclosed(p: Seq<char>, closable: bool)
    requires
        !p.contains(']'),
    ensures
        class_ranges(p, closable) is None,
    decreases p.len(),
{
    match class_range(p) {
        None => {},
        Some((range, rest)) => {
            assert forall|i: int| 0 <= i < rest.len() implies rest[i] != ']' by {
                assert(p.contains(p[p.len() - rest.len() + i]));
            }
            if rest.len() < p.len() {
                lemma_unclosed(rest, true);
            }
        },
    }
}

/// A class that is never closed makes the glob malformed.
pub proof fn law_classes_are_closed(a: Seq<char>, inner: Seq<char>, name: Seq<char>)
    requires
        is_plain(a),
        !inner.contains(']'),
    ensures
        tokens(a + seq!['['] + inner) is None,
        !admits(a + seq!['['] + inner, name),
{
    let rest = seq!['['] + inner;
    assert(a + seq!['['] + inner =~= a + rest);
    let skip: int = if rest.len() > 1 && rest[1] == '^' {
        2
    } else {
        1
    };
    let p = rest.skip(skip);
    assert forall|i: int| 0 <= i < p.len() implies p[i] != ']' by {
        assert(p[i] == inner[i + skip - 1]);
        assert(inner.contains(inner[i + skip - 1]));
    }
    lemma_unclosed(p, false);
    assert(first_token(rest) is None);
    lemma_plain_tokens(a, rest);
}

/// An empty list admits everybody, known or not.
pub proof fn law_empty_list_admits_everybody(login: Option<Seq<char>>)
    ensures
        login_passes(Seq::empty(), login),
{
}

/// A known login passes a list exactly where one of its globs admits it, each
/// in lower case.
pub proof fn law_one_glob_is_enough(globs: Seq<Seq<char>>, login: Seq<char>)
    requires
        globs.len() > 0,
        login.len() > 0,
    ensures
        login_passes(globs, Some(login)) <==> exists|i: int|
            0 <= i < globs.len() && admits(lowercase(#[trigger] globs[i]), lowercase(login)),
{
    let low = all_lowercase(globs);
    if login_passes(globs, Some(login)) {
        let i = choose|i: int|
            0 <= i < low.len() && admits(#[trigger] low[i], lowercase(login));
        assert(admits(lowercase(globs[i]), lowercase(login)));
    }
    if exists|i: int|
        0 <= i < globs.len() && admits(lowercase(#[trigger] globs[i]), lowercase(login)) {
        let i = choose|i: int|
            0 <= i < globs.len() && admits(lowercase(#[trigger] globs[i]), lowercase(login));
        assert(low[i] == lowercase(globs[i]));
    }
}

/// Two spellings of a login that differ only in case fare alike, and so do two
/// spellings of a list.
pub proof fn law_case_makes_no_difference(
    globs: Seq<Seq<char>>,
    others: Seq<Seq<char>>,
    login: Seq<char>,
    other: Seq<char>,
)
    requires
        globs.len() == others.len(),
        forall|i: int| 0 <= i < globs.len() ==> lowercase(#[trigger] globs[i]) == lowercase(others[i]),
        lowercase(login) == lowercase(other),
        login.len() > 0,
        other.len() > 0,
    ensures
        login_passes(globs, Some(login)) == login_passes(others, Some(other)),
{
    assert(all_lowercase(globs) =~= all_lowercase(others));
}

} // verus!
