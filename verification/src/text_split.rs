//! Lines, words, pieces and numbers in texts.
use crate::base;
use crate::text::{self, from_chars, to_chars, trimmed_start, whitespace};
use vstd::prelude::*;
use vstd::string::*;

verus! {

/// The index of the first `c` at or after `i`, or the length.
pub open spec fn index_from(s: Seq<char>, c: char, i: int) -> int
    decreases s.len() - i,
{
    if i < 0 || i >= s.len() || s[i] == c {
        i
    } else {
        index_from(s, c, i + 1)
    }
}

proof fn lemma_index_from(s: Seq<char>, c: char, i: int)
    requires
        0 <= i <= s.len(),
    ensures
        i <= index_from(s, c, i) <= s.len(),
        index_from(s, c, i) < s.len() ==> s[index_from(s, c, i)] == c,
        forall|j: int| i <= j < index_from(s, c, i) ==> s[j] != c,
    decreases s.len() - i,
{
    if i < s.len() && s[i] != c {
        lemma_index_from(s, c, i + 1);
    }
}

/// The pieces of a text between the characters `c`.
pub open spec fn pieces(s: Seq<char>, c: char) -> Seq<Seq<char>>
    decreases s.len(),
{
    let k = index_from(s, c, 0);
    if 0 <= k < s.len() {
        seq![s.take(k)] + pieces(s.skip(k + 1), c)
    } else {
        seq![s]
    }
}

fn next_index(chars: &Vec<char>, c: char, from: usize) -> (r: usize)
    requires
        from <= chars@.len(),
    ensures
        r == index_from(chars@, c, from as int),
        from <= r <= chars@.len(),
        r < chars@.len() ==> chars@[r as int] == c,
        forall|j: int| from <= j < r ==> chars@[j] != c,
{
    let mut i: usize = from;
    while i < chars.len() && chars[i] != c
        invariant
            from <= i <= chars@.len(),
            index_from(chars@, c, from as int) == index_from(chars@, c, i as int),
            forall|j: int| from <= j < i ==> chars@[j] != c,
        decreases chars@.len() - i,
    {
        i = i + 1;
    }
    i
}

proof fn lemma_index_skip(s: Seq<char>, c: char, n: int, i: int)
    requires
        0 <= n <= s.len(),
        0 <= i <= s.len() - n,
    ensures
        index_from(s.skip(n), c, i) == index_from(s, c, n + i) - n,
    decreases s.len() - n - i,
{
    if i < s.len() - n && s.skip(n)[i] != c {
        lemma_index_skip(s, c, n, i + 1);
    }
}

/// The pieces of a text between the characters `c`.
pub fn split_char(s: &str, c: char) -> (r: Vec<String>)
    ensures
        r.deep_view() == pieces(s@, c),
{
    let chars = to_chars(s);
    let mut out: Vec<String> = Vec::new();
    let mut start: usize = 0;
    assert(s@.skip(0) =~= s@);
    assert(out.deep_view() + pieces(s@, c) =~= pieces(s@, c));
    loop
        invariant_except_break
            start <= chars@.len(),
            chars@ == s@,
            out.deep_view() + pieces(s@.skip(start as int), c) == pieces(s@, c),
        ensures
            out.deep_view() == pieces(s@, c),
        decreases chars@.len() - start,
    {
        let ghost rest = s@.skip(start as int);
        let k = next_index(&chars, c, start);
        let ghost before = out.deep_view();
        proof {
            lemma_index_skip(s@, c, start as int, 0);
        }
        base::push(&mut out, from_chars(&chars, start, k));
        if k == chars.len() {
            assert(s@.subrange(start as int, k as int) =~= rest);
            assert(before + seq![rest] =~= before.push(rest));
            break;
        }
        proof {
            let n = (k - start) as int;
            assert(rest.take(n) =~= s@.subrange(start as int, k as int));
            assert(rest.skip(n + 1) =~= s@.skip(k + 1));
            assert(before + (seq![rest.take(n)] + pieces(s@.skip(k + 1), c)) =~= before.push(
                rest.take(n),
            ) + pieces(s@.skip(k + 1), c));
        }
        start = k + 1;
    }
    out
}

/// A line without the carriage return before its end.
pub open spec fn without_return(s: Seq<char>) -> Seq<char> {
    if s.len() > 0 && s.last() == '\r' {
        s.drop_last()
    } else {
        s
    }
}

/// The lines of a text. A line ends with a line feed, before which a carriage
/// return may stand; the last one need not end.
pub open spec fn lines_of(s: Seq<char>) -> Seq<Seq<char>>
    decreases s.len(),
{
    let k = index_from(s, '\n', 0);
    if s.len() == 0 {
        Seq::empty()
    } else if 0 <= k < s.len() {
        seq![without_return(s.take(k))] + lines_of(s.skip(k + 1))
    } else {
        seq![s]
    }
}

/// The lines of a text.
pub fn lines(s: &str) -> (r: Vec<String>)
    ensures
        r.deep_view() == lines_of(s@),
{
    let chars = to_chars(s);
    let mut out: Vec<String> = Vec::new();
    let mut start: usize = 0;
    assert(s@.skip(0) =~= s@);
    assert(out.deep_view() + lines_of(s@) =~= lines_of(s@));
    while start < chars.len()
        invariant
            start <= chars@.len(),
            chars@ == s@,
            out.deep_view() + lines_of(s@.skip(start as int)) == lines_of(s@),
        decreases chars@.len() - start,
    {
        let ghost rest = s@.skip(start as int);
        let ghost before = out.deep_view();
        let k = next_index(&chars, '\n', start);
        proof {
            lemma_index_skip(s@, '\n', start as int, 0);
        }
        if k == chars.len() {
            base::push(&mut out, from_chars(&chars, start, k));
            assert(s@.subrange(start as int, k as int) =~= rest);
            assert(before + seq![rest] =~= before.push(rest));
            return out;
        }
        let end: usize = if k > start && chars[k - 1] == '\r' {
            k - 1
        } else {
            k
        };
        base::push(&mut out, from_chars(&chars, start, end));
        proof {
            let n = (k - start) as int;
            assert(rest.take(n) =~= s@.subrange(start as int, k as int));
            if n > 0 {
                assert(rest.take(n).last() == s@[k - 1]);
            }
            assert(without_return(rest.take(n)) =~= s@.subrange(start as int, end as int));
            assert(rest.skip(n + 1) =~= s@.skip(k + 1));
            assert(before + (seq![without_return(rest.take(n))] + lines_of(s@.skip(k + 1)))
                =~= before.push(without_return(rest.take(n))) + lines_of(s@.skip(k + 1)));
        }
        start = k + 1;
    }
    assert(s@.skip(start as int) =~= Seq::<char>::empty());
    assert(out.deep_view() + Seq::<Seq<char>>::empty() =~= out.deep_view());
    out
}

/// The index of the first white space at or after `i`, or the length.
pub open spec fn word_end(s: Seq<char>, i: int) -> int
    decreases s.len() - i,
{
    if i < 0 || i >= s.len() || whitespace(s[i]) {
        i
    } else {
        word_end(s, i + 1)
    }
}

proof fn lemma_trimmed_start(s: Seq<char>)
    ensures
        trimmed_start(s).len() <= s.len(),
        trimmed_start(s).len() > 0 ==> !whitespace(trimmed_start(s)[0]),
        trimmed_start(s) == s.skip(s.len() - trimmed_start(s).len()),
    decreases s.len(),
{
    if s.len() > 0 && whitespace(s[0]) {
        lemma_trimmed_start(s.drop_first());
        let n = s.drop_first().len() - trimmed_start(s.drop_first()).len();
        assert(s.drop_first().skip(n) =~= s.skip(n + 1));
    } else {
        assert(s.skip(0) =~= s);
    }
}

proof fn lemma_word_end(s: Seq<char>, i: int)
    requires
        0 <= i <= s.len(),
    ensures
        i <= word_end(s, i) <= s.len(),
    decreases s.len() - i,
{
    if i < s.len() && !whitespace(s[i]) {
        lemma_word_end(s, i + 1);
    }
}

/// The words of a text, between white space.
pub open spec fn words(s: Seq<char>) -> Seq<Seq<char>>
    decreases s.len(),
{
    let t = trimmed_start(s);
    let k = word_end(t, 0);
    if 0 < t.len() <= s.len() && 0 < k <= t.len() {
        seq![t.take(k)] + words(t.skip(k))
    } else {
        Seq::empty()
    }
}

proof fn lemma_word_end_skip(s: Seq<char>, n: int, i: int)
    requires
        0 <= n <= s.len(),
        0 <= i <= s.len() - n,
    ensures
        word_end(s.skip(n), i) == word_end(s, n + i) - n,
    decreases s.len() - n - i,
{
    if i < s.len() - n && !whitespace(s.skip(n)[i]) {
        lemma_word_end_skip(s, n, i + 1);
    }
}

/// The words of a text, between white space.
pub fn split_whitespace(s: &str) -> (r: Vec<String>)
    ensures
        r.deep_view() == words(s@),
{
    let chars = to_chars(s);
    let n: usize = chars.len();
    let mut out: Vec<String> = Vec::new();
    let mut start: usize = 0;
    assert(s@.skip(0) =~= s@);
    assert(out.deep_view() + words(s@) =~= words(s@));
    loop
        invariant_except_break
            start <= n == chars@.len(),
            chars@ == s@,
            out.deep_view() + words(s@.skip(start as int)) == words(s@),
        ensures
            out.deep_view() == words(s@),
        decreases n - start,
    {
        let ghost rest = s@.skip(start as int);
        let ghost before = out.deep_view();
        let a = text::skip_whitespace(&chars, start);
        proof {
            lemma_trimmed_start(rest);
        }
        if a == n {
            assert(s@.skip(a as int) =~= Seq::<char>::empty());
            assert(before + Seq::<Seq<char>>::empty() =~= before);
            break;
        }
        let mut k: usize = a;
        while k < n && !text::is_whitespace(chars[k])
            invariant
                a <= k <= n == chars@.len(),
                word_end(chars@, a as int) == word_end(chars@, k as int),
            decreases n - k,
        {
            k = k + 1;
        }
        let ghost t = s@.skip(a as int);
        proof {
            lemma_word_end_skip(s@, a as int, 0);
            lemma_word_end(s@, a as int);
            assert(!whitespace(s@[a as int]));
            assert(word_end(s@, a as int) == word_end(s@, a + 1));
            lemma_word_end(s@, a + 1);
        }
        base::push(&mut out, from_chars(&chars, a, k));
        proof {
            let m = (k - a) as int;
            assert(t.take(m) =~= s@.subrange(a as int, k as int));
            assert(t.skip(m) =~= s@.skip(k as int));
            assert(before + (seq![t.take(m)] + words(s@.skip(k as int))) =~= before.push(t.take(m))
                + words(s@.skip(k as int)));
        }
        start = k;
    }
    out
}

/// A decimal digit.
pub open spec fn is_digit(c: char) -> bool {
    '0' <= c && c <= '9'
}

/// The number that decimal digits stand for.
pub open spec fn digits_value(s: Seq<char>) -> nat
    decreases s.len(),
{
    if s.len() == 0 {
        0
    } else {
        digits_value(s.drop_last()) * 10 + (s.last() as nat - 48) as nat
    }
}

/// The digits of an unsigned number, before which a plus may stand.
pub open spec fn number_digits(s: Seq<char>) -> Seq<char> {
    if s.len() > 0 && s[0] == '+' {
        s.drop_first()
    } else {
        s
    }
}

/// The number that a text stands for, where it is one that is at most `max`.
pub open spec fn parsed_number(s: Seq<char>, max: nat) -> Option<nat> {
    let d = number_digits(s);
    if d.len() > 0 && (forall|i: int| 0 <= i < d.len() ==> is_digit(#[trigger] d[i]))
        && digits_value(d) <= max {
        Some(digits_value(d))
    } else {
        None
    }
}

proof fn lemma_digits_grow(s: Seq<char>, n: int)
    requires
        0 <= n <= s.len(),
        forall|i: int| 0 <= i < s.len() ==> is_digit(#[trigger] s[i]),
    ensures
        digits_value(s.take(n)) <= digits_value(s),
    decreases s.len() - n,
{
    if n < s.len() {
        lemma_digits_grow(s, n + 1);
        assert(s.take(n + 1).drop_last() =~= s.take(n));
    } else {
        assert(s.take(n) =~= s);
    }
}

/// The number of at most 64 bits that a text stands for.
pub fn parse_u64(s: &str) -> (r: Option<u64>)
    ensures
        match r {
            Some(n) => parsed_number(s@, u64::MAX as nat) == Some(n as nat),
            None => parsed_number(s@, u64::MAX as nat) is None,
        },
{
    let chars = to_chars(s);
    let start: usize = if chars.len() > 0 && chars[0] == '+' {
        1
    } else {
        0
    };
    let ghost d = number_digits(s@);
    assert(d =~= s@.skip(start as int));
    if chars.len() == start {
        return None;
    }
    let mut n: u64 = 0;
    let mut i: usize = start;
    assert(d.take(0) =~= Seq::<char>::empty());
    while i < chars.len()
        invariant
            start <= i <= chars@.len(),
            start < chars@.len(),
            chars@ == s@,
            d == number_digits(s@),
            d == s@.skip(start as int),
            n == digits_value(d.take(i - start)),
            forall|j: int| 0 <= j < i - start ==> is_digit(#[trigger] d[j]),
        decreases chars@.len() - i,
    {
        let c = chars[i];
        let ghost j = i - start;
        assert(d[j] == c);
        if !(c >= '0' && c <= '9') {
            return None;
        }
        let v: u64 = (c as u32 - 48) as u64;
        proof {
            assert(d.take(j + 1).drop_last() =~= d.take(j));
            assert(d.take(j + 1).last() == c);
        }
        if n > (u64::MAX - v) / 10 {
            proof {
                assert(digits_value(d.take(j + 1)) > u64::MAX);
                if forall|m: int| 0 <= m < d.len() ==> is_digit(#[trigger] d[m]) {
                    lemma_digits_grow(d, j + 1);
                }
            }
            return None;
        }
        n = n * 10 + v;
        i = i + 1;
    }
    assert(d.take(d.len() as int) =~= d);
    Some(n)
}

/// The number of at most 32 bits that a text stands for.
pub fn parse_u32(s: &str) -> (r: Option<u32>)
    ensures
        match r {
            Some(n) => parsed_number(s@, u32::MAX as nat) == Some(n as nat),
            None => parsed_number(s@, u32::MAX as nat) is None,
        },
{
    match parse_u64(s) {
        Some(n) => {
            if n <= u32::MAX as u64 {
                Some(n as u32)
            } else {
                None
            }
        },
        None => None,
    }
}

/// The order of texts by their characters, as a dictionary has it.
pub open spec fn text_le(a: Seq<char>, b: Seq<char>) -> bool
    decreases a.len(),
{
    if a.len() == 0 {
        true
    } else if b.len() == 0 {
        false
    } else if a[0] == b[0] {
        text_le(a.drop_first(), b.drop_first())
    } else {
        a[0] < b[0]
    }
}

/// Whether a text comes before another one or is the same.
pub fn str_le(a: &str, b: &str) -> (r: bool)
    ensures
        r == text_le(a@, b@),
{
    let x = to_chars(a);
    let y = to_chars(b);
    let mut i: usize = 0;
    assert(a@.skip(0) =~= a@);
    assert(b@.skip(0) =~= b@);
    while i < x.len() && i < y.len()
        invariant
            i <= x@.len(),
            i <= y@.len(),
            x@ == a@,
            y@ == b@,
            text_le(a@, b@) == text_le(a@.skip(i as int), b@.skip(i as int)),
        decreases x@.len() - i,
    {
        assert(a@.skip(i as int).drop_first() =~= a@.skip(i + 1));
        assert(b@.skip(i as int).drop_first() =~= b@.skip(i + 1));
        if x[i] != y[i] {
            return x[i] < y[i];
        }
        i = i + 1;
    }
    i == x.len()
}

/// A sorted list with one more entry, behind those that do not come after it.
pub open spec fn inserted<V>(s: Seq<(Seq<char>, V)>, x: (Seq<char>, V)) -> Seq<(Seq<char>, V)>
    decreases s.len(),
{
    if s.len() == 0 {
        seq![x]
    } else if text_le(s.last().0, x.0) {
        s.push(x)
    } else {
        inserted(s.drop_last(), x).push(s.last())
    }
}

/// The entries of a list in the order of their names; entries with the same name
/// keep their order.
pub open spec fn sorted<V>(s: Seq<(Seq<char>, V)>) -> Seq<(Seq<char>, V)>
    decreases s.len(),
{
    if s.len() == 0 {
        s
    } else {
        inserted(sorted(s.drop_last()), s.last())
    }
}

proof fn lemma_inserted_at<V>(s: Seq<(Seq<char>, V)>, x: (Seq<char>, V), i: int)
    requires
        0 <= i <= s.len(),
        i > 0 ==> text_le(s[i - 1].0, x.0),
        forall|j: int| i <= j < s.len() ==> !text_le((#[trigger] s[j]).0, x.0),
    ensures
        inserted(s, x) == s.insert(i, x),
    decreases s.len(),
{
    if i == s.len() {
        assert(inserted(s, x) =~= s.insert(i, x));
    } else {
        assert(!text_le(s[s.len() - 1].0, x.0));
        assert forall|j: int| i <= j < s.drop_last().len() implies !text_le(
            (#[trigger] s.drop_last()[j]).0,
            x.0,
        ) by {
            assert(!text_le(s[j].0, x.0));
        }
        lemma_inserted_at(s.drop_last(), x, i);
        assert(inserted(s, x) =~= s.insert(i, x));
    }
}

/// The entries of a list in the order of their names.
pub fn sort_by_name<T: DeepView>(list: Vec<(String, T)>) -> (r: Vec<(String, T)>)
    ensures
        r.deep_view() == sorted(list.deep_view()),
{
    let ghost all = list.deep_view();
    let mut out: Vec<(String, T)> = Vec::new();
    let mut rest = list;
    let ghost mut n: int = 0;
    assert(all.take(0) =~= Seq::empty());
    assert(out.deep_view() =~= sorted(all.take(0)));
    assert(all.skip(0) =~= all);
    while rest.len() > 0
        invariant
            0 <= n <= all.len(),
            rest.deep_view() == all.skip(n),
            out.deep_view() == sorted(all.take(n)),
        decreases rest@.len(),
    {
        let ghost before = rest.deep_view();
        assert(before.len() == all.len() - n);
        let x = rest.remove(0);
        let ghost xv = x.deep_view();
        proof {
            assert(xv == before[0]);
            assert(rest.deep_view() =~= before.drop_first());
            assert(rest.deep_view() =~= all.skip(n + 1));
            assert(all.take(n + 1).drop_last() =~= all.take(n));
            assert(all.take(n + 1).last() == xv);
        }
        let mut i: usize = out.len();
        while i > 0 && !str_le(&out[i - 1].0, &x.0)
            invariant
                i <= out@.len(),
                xv == x.deep_view(),
                forall|j: int|
                    i <= j < out@.len() ==> !text_le((#[trigger] out.deep_view()[j]).0, xv.0),
            decreases i,
        {
            i = i - 1;
        }
        let ghost o = out.deep_view();
        proof {
            lemma_inserted_at(o, xv, i as int);
        }
        out.insert(i, x);
        assert(out.deep_view() =~= o.insert(i as int, xv));
        proof {
            n = n + 1;
        }
    }
    assert(all.skip(n).len() == 0);
    assert(all.take(n) =~= all);
    out
}

proof fn lemma_text_le_total(a: Seq<char>, b: Seq<char>)
    ensures
        text_le(a, b) || text_le(b, a),
    decreases a.len(),
{
    if a.len() > 0 && b.len() > 0 && a[0] == b[0] {
        lemma_text_le_total(a.drop_first(), b.drop_first());
    }
}

proof fn lemma_text_le_transitive(a: Seq<char>, b: Seq<char>, c: Seq<char>)
    requires
        text_le(a, b),
        text_le(b, c),
    ensures
        text_le(a, c),
    decreases a.len(),
{
    if a.len() > 0 && b.len() > 0 && c.len() > 0 && a[0] == b[0] && b[0] == c[0] {
        lemma_text_le_transitive(a.drop_first(), b.drop_first(), c.drop_first());
    }
}

/// The names of a list stand in order.
pub open spec fn in_order<V>(s: Seq<(Seq<char>, V)>) -> bool {
    forall|i: int, j: int|
        0 <= i < j < s.len() ==> text_le((#[trigger] s[i]).0, (#[trigger] s[j]).0)
}

proof fn lemma_inserted_in_order<V>(s: Seq<(Seq<char>, V)>, x: (Seq<char>, V))
    requires
        in_order(s),
    ensures
        in_order(inserted(s, x)),
        inserted(s, x).to_multiset() =~= s.to_multiset().insert(x),
        forall|i: int|
            0 <= i < inserted(s, x).len() ==> (#[trigger] inserted(s, x)[i]) == x || s.contains(
                inserted(s, x)[i],
            ),
    decreases s.len(),
{
    broadcast use vstd::seq_lib::to_multiset_build;

    let r = inserted(s, x);
    if s.len() == 0 {
        assert(seq![x] =~= s.push(x));
    } else if text_le(s.last().0, x.0) {
        assert forall|i: int, j: int| 0 <= i < j < r.len() implies text_le(
            (#[trigger] r[i]).0,
            (#[trigger] r[j]).0,
        ) by {
            if j == s.len() {
                if i < s.len() - 1 {
                    assert(text_le(s[i].0, s[s.len() - 1].0));
                    lemma_text_le_transitive(s[i].0, s.last().0, x.0);
                }
            } else {
                assert(text_le(s[i].0, s[j].0));
            }
        }
        assert forall|i: int| 0 <= i < r.len() implies (#[trigger] r[i]) == x || s.contains(
            r[i],
        ) by {
            if i < s.len() {
                assert(s[i] == r[i]);
            }
        }
    } else {
        let front = s.drop_last();
        assert(in_order(front)) by {
            assert forall|i: int, j: int| 0 <= i < j < front.len() implies text_le(
                (#[trigger] front[i]).0,
                (#[trigger] front[j]).0,
            ) by {
                assert(text_le(s[i].0, s[j].0));
            }
        }
        lemma_inserted_in_order(front, x);
        let f = inserted(front, x);
        assert(s =~= front.push(s.last()));
        assert(s.to_multiset() =~= front.to_multiset().insert(s.last()));
        assert forall|i: int| 0 <= i < r.len() implies (#[trigger] r[i]) == x || s.contains(
            r[i],
        ) by {
            if i < f.len() {
                assert(r[i] == f[i]);
                if f[i] != x {
                    let m = choose|m: int| 0 <= m < front.len() && front[m] == f[i];
                    assert(s[m] == r[i]);
                }
            } else {
                assert(s[s.len() - 1] == r[i]);
            }
        }
        lemma_text_le_total(s.last().0, x.0);
        assert forall|i: int, j: int| 0 <= i < j < r.len() implies text_le(
            (#[trigger] r[i]).0,
            (#[trigger] r[j]).0,
        ) by {
            assert(r[i] == f[i]);
            if j < f.len() {
                assert(text_le(f[i].0, f[j].0));
            } else if f[i] != x {
                assert(front.contains(f[i]));
                let m = choose|m: int| 0 <= m < front.len() && front[m] == f[i];
                assert(text_le(s[m].0, s[s.len() - 1].0));
            }
        }
    }
}

/// A sorted list holds the same entries as before, in the order of their names.
pub proof fn law_sorted<V>(s: Seq<(Seq<char>, V)>)
    ensures
        in_order(sorted(s)),
        sorted(s).to_multiset() =~= s.to_multiset(),
    decreases s.len(),
{
    broadcast use vstd::seq_lib::to_multiset_build;

    if s.len() > 0 {
        law_sorted(s.drop_last());
        lemma_inserted_in_order(sorted(s.drop_last()), s.last());
        assert(s =~= s.drop_last().push(s.last()));
    }
}

} // verus!
