//! What operations on texts promise.
use vstd::prelude::*;

use crate::text::{
    all_digits, begins_with, decimal, decimal_value, finishes_with, has_part, is_white,
    lemma_decimal_reads_back, occurs_at, text_before, trimmed, without_white_end,
    without_white_start,
};

verus! {

/// A text begins with another exactly where it is that text and something
/// behind it, and ends with it where it is something and that text.
pub proof fn law_ends_of_texts(whole: Seq<char>, part: Seq<char>)
    ensures
        begins_with(whole, part) <==> exists|rest: Seq<char>| whole == #[trigger] (part + rest),
        finishes_with(whole, part) <==> exists|head: Seq<char>| whole == #[trigger] (head + part),
{
    if begins_with(whole, part) {
        let rest = whole.skip(part.len() as int);
        assert(whole =~= whole.take(part.len() as int) + rest);
        assert(whole == part + rest);
    }
    if exists|rest: Seq<char>| whole == #[trigger] (part + rest) {
        let rest = choose|rest: Seq<char>| whole == #[trigger] (part + rest);
        assert(whole.take(part.len() as int) =~= part);
    }
    if finishes_with(whole, part) {
        let head = whole.take(whole.len() - part.len());
        assert(whole =~= head + whole.skip(whole.len() - part.len()));
        assert(whole == head + part);
    }
    if exists|head: Seq<char>| whole == #[trigger] (head + part) {
        let head = choose|head: Seq<char>| whole == #[trigger] (head + part);
        assert(whole.skip(whole.len() - part.len()) =~= part);
    }
}

/// A text stands in another exactly where the other is it with something
/// before and behind.
pub proof fn law_parts_of_texts(whole: Seq<char>, part: Seq<char>)
    ensures
        has_part(whole, part) <==> exists|head: Seq<char>, rest: Seq<char>|
            whole == #[trigger] (head + part + rest),
{
    if has_part(whole, part) {
        let at = choose|at: int| occurs_at(whole, part, at);
        let head = whole.take(at);
        let rest = whole.skip(at + part.len());
        assert(whole =~= head + whole.subrange(at, at + part.len()) + rest);
        assert(whole == head + part + rest);
    }
    if exists|head: Seq<char>, rest: Seq<char>| whole == #[trigger] (head + part + rest) {
        let (head, rest) = choose|head: Seq<char>, rest: Seq<char>|
            whole == #[trigger] (head + part + rest);
        assert(whole.subrange(head.len() as int, (head.len() + part.len()) as int) =~= part);
        assert(occurs_at(whole, part, head.len() as int));
    }
}

/// The first character in which two texts differ decides which comes first;
/// where there is none, the shorter does.
pub proof fn law_first_difference_decides(a: Seq<char>, b: Seq<char>, i: int)
    requires
        0 <= i <= a.len(),
        i < b.len(),
        forall|j: int| 0 <= j < i ==> #[trigger] a[j] == b[j],
        i < a.len() ==> a[i] as int != b[i] as int,
    ensures
        text_before(a, b) <==> i == a.len() || (a[i] as int) < (b[i] as int),
    decreases i,
{
    if i > 0 {
        let x = a.drop_first();
        let y = b.drop_first();
        assert(a[0] == b[0]);
        assert forall|j: int| 0 <= j < i - 1 implies #[trigger] x[j] == y[j] by {
            assert(x[j] == a[j + 1] && y[j] == b[j + 1]);
        }
        law_first_difference_decides(x, y, i - 1);
    }
}

/// The numeral of a number below ten is its digit; that of a greater one is the
/// numeral of its tenth and its last digit. It has no zero in front.
pub proof fn law_numerals_are_decimal(n: nat, d: nat)
    requires
        d < 10,
    ensures
        decimal(d).len() == 1,
        decimal(d)[0] as int == '0' as int + d,
        n > 0 ==> decimal(10 * n + d) == decimal(n) + decimal(d),
        n > 0 ==> decimal(n)[0] != '0',
        all_digits(decimal(n)),
        decimal_value(decimal(n)) == n,
    decreases n,
{
    lemma_decimal_reads_back(n);
    lemma_decimal_reads_back(d);
    if n > 0 {
        assert((10 * n + d) / 10 == n && (10 * n + d) % 10 == d);
        assert(decimal(10 * n + d) =~= decimal(n) + decimal(d));
        if n >= 10 {
            law_numerals_are_decimal(n / 10, 0);
            lemma_decimal_reads_back(n / 10);
            assert(decimal(n)[0] == decimal(n / 10)[0]);
        }
    }
}

/// The number of a string of digits: each further digit makes ten times what
/// was before it, and its own value more.
pub proof fn law_digits_count_by_ten(s: Seq<char>, c: char)
    requires
        '0' <= c && c <= '9',
    ensures
        decimal_value(Seq::empty()) == 0,
        decimal_value(s.push(c)) == 10 * decimal_value(s) + (c as int - '0' as int),
{
    assert(s.push(c).drop_last() =~= s);
}

proof fn lemma_start(s: Seq<char>) -> (a: int)
    ensures
        0 <= a <= s.len(),
        without_white_start(s) == s.skip(a),
        forall|i: int| 0 <= i < a ==> is_white(#[trigger] s[i]),
        a < s.len() ==> !is_white(s[a]),
    decreases s.len(),
{
    if s.len() > 0 && is_white(s[0]) {
        let r = lemma_start(s.skip(1));
        assert(s.skip(1).skip(r) =~= s.skip(r + 1));
        assert forall|i: int| 0 <= i < r + 1 implies is_white(#[trigger] s[i]) by {
            if i > 0 {
                assert(s.skip(1)[i - 1] == s[i]);
            }
        }
        r + 1
    } else {
        assert(s.skip(0) =~= s);
        0
    }
}

proof fn lemma_end(s: Seq<char>) -> (b: int)
    ensures
        0 <= b <= s.len(),
        without_white_end(s) == s.take(b),
        forall|i: int| b <= i < s.len() ==> is_white(#[trigger] s[i]),
        b > 0 ==> !is_white(s[b - 1]),
    decreases s.len(),
{
    if s.len() > 0 && is_white(s.last()) {
        let t = s.drop_last();
        let r = lemma_end(t);
        assert(t.take(r) =~= s.take(r));
        assert forall|i: int| r <= i < s.len() implies is_white(#[trigger] s[i]) by {
            if i < s.len() - 1 {
                assert(t[i] == s[i]);
            }
        }
        if r > 0 {
            assert(t[r - 1] == s[r - 1]);
        }
        r
    } else {
        assert(s.take(s.len() as int) =~= s);
        s.len() as int
    }
}

/// A text that begins and ends with a character that is not white space is what
/// is left of it with white space around; of white space alone nothing is left.
pub proof fn law_white_space_around_is_dropped(a: Seq<char>, s: Seq<char>, b: Seq<char>)
    requires
        forall|i: int| 0 <= i < a.len() ==> is_white(#[trigger] a[i]),
        forall|i: int| 0 <= i < b.len() ==> is_white(#[trigger] b[i]),
        s.len() > 0 ==> !is_white(s[0]) && !is_white(s[s.len() - 1]),
    ensures
        trimmed(a + s + b) == s,
{
    let whole = a + s + b;
    let x = lemma_start(whole);
    let n = a.len() as int;
    let k = s.len() as int;
    if k == 0 {
        if x < whole.len() {
            assert(x < n ==> whole[x] == a[x]);
            assert(x >= n ==> whole[x] == b[x - n]);
        }
        assert(whole.skip(x).len() == 0);
        let y = lemma_end(whole.skip(x));
        assert(trimmed(whole) =~= s);
    } else {
        assert(whole[n] == s[0]);
        if x < n {
            assert(whole[x] == a[x]);
        }
        assert(x == n);
        let t = whole.skip(x);
        assert(t =~= s + b);
        let y = lemma_end(t);
        if y < k {
            assert(t[k - 1] == s[k - 1]);
        }
        if y > k {
            assert(t[y - 1] == b[y - 1 - k]);
        }
        assert(t.take(y) =~= s);
    }
}

/// White space is the tab to the carriage return, the space and the blanks of
/// Unicode; no character that shows is.
pub proof fn law_white_space_is_blank(c: char)
    ensures
        is_white(' ') && is_white('\t') && is_white('\n') && is_white('\r'),
        '!' <= c && c <= '~' ==> !is_white(c),
        is_white(c) ==> (9 <= c as int <= 13 || c as int == 0x20 || c as int == 0x85 || c as int
            == 0xa0 || c as int == 0x1680 || 0x2000 <= c as int <= 0x200a || c as int == 0x2028
            || c as int == 0x2029 || c as int == 0x202f || c as int == 0x205f || c as int
            == 0x3000),
        (9 <= c as int <= 13 || c as int == 0x20 || c as int == 0x85 || c as int == 0xa0
            || c as int == 0x1680 || 0x2000 <= c as int <= 0x200a || c as int == 0x2028 || c as int
            == 0x2029 || c as int == 0x202f || c as int == 0x205f || c as int == 0x3000)
            ==> is_white(c),
{
}

} // verus!
