//! What the operations on texts do, said by what they leave of a text.
use crate::text::{
    decimal, digit, find_from, joined, lemma_find_from, occurs_at, split_at_first, trimmed,
    trimmed_end_by, trimmed_start, whitespace,
};
use crate::text_split::{
    digits_value, index_from, inserted, is_digit, lines_of, number_digits, parsed_number, pieces,
    sorted, text_le, word_end, words,
};
use vstd::prelude::*;

verus! {

/// All characters of a text are white space.
pub open spec fn blank(s: Seq<char>) -> bool {
    forall|i: int| 0 <= i < s.len() ==> whitespace(#[trigger] s[i])
}

proof fn lemma_start(s: Seq<char>) -> (a: Seq<char>)
    ensures
        blank(a),
        s == a + trimmed_start(s),
        trimmed_start(s).len() > 0 ==> !whitespace(trimmed_start(s)[0]),
    decreases s.len(),
{
    if s.len() > 0 && whitespace(s[0]) {
        let rest = lemma_start(s.drop_first());
        let a = seq![s[0]] + rest;
        assert(s =~= seq![s[0]] + s.drop_first());
        assert(seq![s[0]] + (rest + trimmed_start(s)) =~= a + trimmed_start(s));
        a
    } else {
        assert(s =~= Seq::empty() + s);
        Seq::empty()
    }
}

/// What is taken off an end is all of it that may go, and nothing else.
pub proof fn law_trimmed_end(s: Seq<char>, drop: spec_fn(char) -> bool) -> (b: Seq<char>)
    ensures
        forall|i: int| 0 <= i < b.len() ==> drop(#[trigger] b[i]),
        s == trimmed_end_by(s, drop) + b,
        trimmed_end_by(s, drop).len() > 0 ==> !drop(trimmed_end_by(s, drop).last()),
    decreases s.len(),
{
    if s.len() > 0 && drop(s.last()) {
        let rest = law_trimmed_end(s.drop_last(), drop);
        let b = rest.push(s.last());
        assert(s =~= s.drop_last().push(s.last()));
        assert((trimmed_end_by(s, drop) + rest).push(s.last()) =~= trimmed_end_by(s, drop) + b);
        b
    } else {
        assert(s =~= s + Seq::empty());
        Seq::empty()
    }
}

/// A trimmed text is the text without white space at both ends: what is taken off is
/// white space, and what stays neither begins nor ends with any.
pub proof fn law_trimmed(s: Seq<char>) -> (ends: (Seq<char>, Seq<char>))
    ensures
        blank(ends.0),
        blank(ends.1),
        s == ends.0 + trimmed(s) + ends.1,
        trimmed(s).len() > 0 ==> !whitespace(trimmed(s)[0]) && !whitespace(trimmed(s).last()),
{
    let a = lemma_start(s);
    let t = trimmed_start(s);
    let b = law_trimmed_end(t, |c: char| whitespace(c));
    assert(a + (trimmed(s) + b) =~= a + trimmed(s) + b);
    if trimmed(s).len() > 0 {
        assert(trimmed(s)[0] == t[0]);
    }
    (a, b)
}

/// Joined texts stand one behind the other, with the separator between neighbours only.
pub proof fn law_joined(x: Seq<Seq<char>>, y: Seq<Seq<char>>, s: Seq<char>, sep: Seq<char>)
    ensures
        joined(Seq::empty(), sep).len() == 0,
        joined(seq![s], sep) == s,
        x.len() > 0 && y.len() > 0 ==> joined(x + y, sep) == joined(x, sep) + sep + joined(y, sep),
    decreases y.len(),
{
    if x.len() > 0 && y.len() > 0 {
        assert((x + y).drop_last() =~= x + y.drop_last());
        if y.len() == 1 {
            assert(x + y.drop_last() =~= x);
            assert((x + y).last() == y[0]);
        } else {
            law_joined(x, y.drop_last(), s, sep);
            assert((x + y).last() == y.last());
        }
        assert(joined(x + y, sep) =~= joined(x, sep) + sep + joined(y, sep));
    }
}

proof fn lemma_index(s: Seq<char>, c: char, i: int)
    requires
        0 <= i <= s.len(),
    ensures
        i <= index_from(s, c, i) <= s.len(),
        index_from(s, c, i) < s.len() ==> s[index_from(s, c, i)] == c,
        forall|j: int| i <= j < index_from(s, c, i) ==> s[j] != c,
    decreases s.len() - i,
{
    if i < s.len() && s[i] != c {
        lemma_index(s, c, i + 1);
    }
}

/// A text is its pieces with the character between them, and no piece holds it.
pub proof fn law_pieces(s: Seq<char>, c: char)
    ensures
        pieces(s, c).len() > 0,
        joined(pieces(s, c), seq![c]) == s,
        forall|i: int| 0 <= i < pieces(s, c).len() ==> !(#[trigger] pieces(s, c)[i]).contains(c),
    decreases s.len(),
{
    let k = index_from(s, c, 0);
    lemma_index(s, c, 0);
    if k < s.len() {
        let rest = s.skip(k + 1);
        law_pieces(rest, c);
        law_joined(seq![s.take(k)], pieces(rest, c), s.take(k), seq![c]);
        assert(s =~= s.take(k) + seq![c] + rest);
        assert forall|i: int| 0 <= i < pieces(s, c).len() implies !(
        #[trigger] pieces(s, c)[i]).contains(c) by {
            if i == 0 {
                assert(pieces(s, c)[0] == s.take(k));
                if s.take(k).contains(c) {
                    let j = choose|j: int| 0 <= j < k && s.take(k)[j] == c;
                    assert(s[j] == c);
                }
            } else {
                assert(pieces(s, c)[i] == pieces(rest, c)[i - 1]);
            }
        }
    } else {
        law_joined(Seq::empty(), Seq::empty(), s, seq![c]);
        if s.contains(c) {
            let j = choose|j: int| 0 <= j < s.len() && s[j] == c;
            assert(false);
        }
        assert(pieces(s, c) == seq![s]);
    }
}

/// The lines of a text: the first ends at the first line feed and loses one carriage
/// return before it, the others follow; an end without a line feed is a line where it is
/// not empty.
pub proof fn law_lines(line: Seq<char>, rest: Seq<char>)
    requires
        !line.contains('\n'),
    ensures
        lines_of(Seq::empty()).len() == 0,
        line.len() > 0 ==> lines_of(line) == seq![line],
        line.len() == 0 || line.last() != '\r' ==> lines_of(line + seq!['\n'] + rest) == seq![line]
            + lines_of(rest),
        lines_of(line + seq!['\r', '\n'] + rest) == seq![line] + lines_of(rest),
{
    assert forall|j: int| 0 <= j < line.len() implies line[j] != '\n' by {
        assert(line.contains(line[j]));
    }
    lemma_index(line, '\n', 0);
    let a = line + seq!['\n'] + rest;
    lemma_index(a, '\n', 0);
    assert(a[line.len() as int] == '\n');
    assert forall|j: int| 0 <= j < line.len() implies a[j] != '\n' by {
        assert(a[j] == line[j]);
    }
    assert(index_from(a, '\n', 0) == line.len());
    assert(a.take(line.len() as int) =~= line);
    assert(a.skip((line.len() + 1) as int) =~= rest);
    let b = line + seq!['\r', '\n'] + rest;
    let n = line.len() + 1;
    lemma_index(b, '\n', 0);
    assert(b[n as int] == '\n');
    assert forall|j: int| 0 <= j < n implies b[j] != '\n' by {
        if j < line.len() {
            assert(b[j] == line[j]);
        } else {
            assert(b[j] == '\r');
        }
    }
    assert(index_from(b, '\n', 0) == n);
    assert(b.take(n as int) =~= line.push('\r'));
    assert(b.take(n as int).drop_last() =~= line);
    assert(b.skip((n + 1) as int) =~= rest);
}

proof fn lemma_word(s: Seq<char>, i: int)
    requires
        0 <= i <= s.len(),
    ensures
        i <= word_end(s, i) <= s.len(),
        word_end(s, i) < s.len() ==> whitespace(s[word_end(s, i)]),
        forall|j: int| i <= j < word_end(s, i) ==> !whitespace(s[j]),
    decreases s.len() - i,
{
    if i < s.len() && !whitespace(s[i]) {
        lemma_word(s, i + 1);
    }
}

/// The words of a text: white space at the start does not count, and a word goes up to
/// the next white space or the end.
pub proof fn law_words(c: char, word: Seq<char>, rest: Seq<char>)
    requires
        whitespace(c),
        word.len() > 0,
        forall|i: int| 0 <= i < word.len() ==> !whitespace(#[trigger] word[i]),
    ensures
        words(Seq::empty()).len() == 0,
        words(seq![c] + rest) == words(rest),
        words(word) == seq![word],
        words(word + seq![c] + rest) == seq![word] + words(rest),
{
    let a = seq![c] + rest;
    assert(a.drop_first() =~= rest);
    assert(trimmed_start(a) == trimmed_start(rest));
    lemma_start_shorter(rest);
    assert(words(a) == words(rest));
    lemma_word(word, 0);
    assert(word_end(word, 0) == word.len()) by {
        if word_end(word, 0) < word.len() {
            assert(whitespace(word[word_end(word, 0)]));
        }
    }
    assert(word.take(word.len() as int) =~= word);
    assert(!whitespace(word[0]));
    assert(trimmed_start(word) == word);
    assert(word.skip(word.len() as int) =~= Seq::empty());
    assert(words(Seq::empty()) =~= Seq::empty());
    assert(words(word) =~= seq![word]);
    let b = word + seq![c] + rest;
    assert(b[0] == word[0]);
    assert(trimmed_start(b) == b);
    lemma_word(b, 0);
    assert forall|j: int| 0 <= j < word.len() implies !whitespace(b[j]) by {
        assert(b[j] == word[j]);
    }
    assert(b[word.len() as int] == c);
    assert(word_end(b, 0) == word.len()) by {
        let k = word_end(b, 0);
        if k < word.len() {
            assert(whitespace(b[k]));
        } else if k > word.len() {
            assert(!whitespace(b[word.len() as int]));
        }
    }
    assert(b.take(word.len() as int) =~= word);
    assert(b.skip(word.len() as int) =~= a);
    assert(words(b) =~= seq![word] + words(rest));
}

proof fn lemma_start_shorter(s: Seq<char>)
    ensures
        trimmed_start(s).len() <= s.len(),
    decreases s.len(),
{
    if s.len() > 0 && whitespace(s[0]) {
        lemma_start_shorter(s.drop_first());
    }
}

/// A text that is split at the first separator is what stands before, the separator and
/// what stands behind; before that place there is none. A text that cannot be split
/// holds none.
pub proof fn law_split_at_first(s: Seq<char>, sep: Seq<char>, i: int)
    ensures
        match split_at_first(s, sep) {
            Some((a, b)) => s == a + sep + b && (i < a.len() ==> !occurs_at(s, sep, i)),
            None => !occurs_at(s, sep, i),
        },
{
    lemma_find_from(s, sep, 0);
    if let Some(k) = find_from(s, sep, 0) {
        let a = s.take(k);
        let b = s.skip(k + sep.len());
        assert(s.subrange(k, k + sep.len()) == sep);
        assert(s =~= a + sep + b);
    }
}

proof fn lemma_decimal_digits(n: nat)
    ensures
        decimal(n).len() > 0,
        forall|i: int| 0 <= i < decimal(n).len() ==> is_digit(#[trigger] decimal(n)[i]),
        digits_value(decimal(n)) == n,
    decreases n,
{
    let d = digit(n % 10);
    assert(is_digit(d) && d as nat == 48 + n % 10);
    if n < 10 {
        assert(decimal(n).drop_last() =~= Seq::empty());
        assert(digits_value(Seq::empty()) == 0);
        assert(decimal(n).last() == d);
    } else {
        lemma_decimal_digits(n / 10);
        let rest = decimal(n / 10);
        assert(decimal(n).drop_last() =~= rest);
        assert forall|i: int| 0 <= i < decimal(n).len() implies is_digit(
            #[trigger] decimal(n)[i],
        ) by {
            if i < rest.len() {
                assert(decimal(n)[i] == rest[i]);
            }
        }
    }
}

/// A number that is written down is read back as itself, with a plus before it too,
/// unless it is over the limit. The digits stand for their places.
pub proof fn law_decimal_reads_back(n: nat, max: nat)
    ensures
        parsed_number(decimal(n), max) == if n <= max {
            Some(n)
        } else {
            None
        },
        parsed_number(seq!['+'] + decimal(n), max) == parsed_number(decimal(n), max),
        n >= 10 ==> decimal(n) == decimal(n / 10) + decimal(n % 10),
        n < 10 ==> decimal(n) == seq![(48 + n) as char],
{
    lemma_decimal_digits(n);
    assert(decimal(n)[0] != '+') by {
        assert(is_digit(decimal(n)[0]));
    }
    assert(number_digits(decimal(n)) == decimal(n));
    assert((seq!['+'] + decimal(n)).drop_first() =~= decimal(n));
    if n >= 10 {
        assert(decimal(n) =~= decimal(n / 10) + decimal(n % 10));
    }
}

/// Only digits, with a plus before them at most, are read as a number.
pub proof fn law_only_numbers_are_read(s: Seq<char>, max: nat, i: int)
    requires
        parsed_number(s, max) is Some,
        0 <= i < s.len(),
    ensures
        parsed_number(s, max)->0 <= max,
        '0' <= s[i] <= '9' || (i == 0 && s[0] == '+' && s.len() > 1),
{
    let d = number_digits(s);
    if s[0] == '+' {
        if i > 0 {
            assert(d[i - 1] == s[i]);
        }
    } else {
        assert(d[i] == s[i]);
    }
}

/// Texts are ordered by the first character in which they differ, and a text comes
/// before the longer ones that it begins.
pub proof fn law_text_order(p: Seq<char>, x: Seq<char>, y: Seq<char>, a: char, b: char)
    requires
        a < b,
    ensures
        text_le(p, p + x),
        x.len() > 0 ==> !text_le(p + x, p),
        text_le(p + seq![a] + x, p + seq![b] + y),
        !text_le(p + seq![b] + y, p + seq![a] + x),
    decreases p.len(),
{
    if p.len() == 0 {
        assert((p + seq![a] + x)[0] == a);
        assert((p + seq![b] + y)[0] == b);
    } else {
        let q = p.drop_first();
        law_text_order(q, x, y, a, b);
        assert((p + x).drop_first() =~= q + x);
        assert((p + seq![a] + x).drop_first() =~= q + seq![a] + x);
        assert((p + seq![b] + y).drop_first() =~= q + seq![b] + y);
        assert((p + x)[0] == p[0]);
        assert((p + seq![a] + x)[0] == p[0]);
        assert((p + seq![b] + y)[0] == p[0]);
    }
}

/// The entries of a list that are called by a name, in order.
pub open spec fn called<V>(s: Seq<(Seq<char>, V)>, name: Seq<char>) -> Seq<(Seq<char>, V)>
    decreases s.len(),
{
    if s.len() == 0 {
        s
    } else if s.last().0 == name {
        called(s.drop_last(), name).push(s.last())
    } else {
        called(s.drop_last(), name)
    }
}

proof fn lemma_same_is_ordered(a: Seq<char>)
    ensures
        text_le(a, a),
    decreases a.len(),
{
    if a.len() > 0 {
        lemma_same_is_ordered(a.drop_first());
    }
}

proof fn lemma_inserted_last<V>(s: Seq<(Seq<char>, V)>, x: (Seq<char>, V), name: Seq<char>)
    ensures
        x.0 == name ==> called(inserted(s, x), name) == called(s, name).push(x),
        x.0 != name ==> called(inserted(s, x), name) == called(s, name),
    decreases s.len(),
{
    lemma_same_is_ordered(name);
    if s.len() == 0 {
        assert(seq![x].drop_last() =~= s);
        assert(called(s, name).push(x) =~= seq![x]);
    } else if text_le(s.last().0, x.0) {
        assert(s.push(x).drop_last() =~= s);
    } else {
        lemma_inserted_last(s.drop_last(), x, name);
        let r = inserted(s.drop_last(), x);
        assert(r.push(s.last()).drop_last() =~= r);
    }
}

/// Entries with the same name keep their order when a list is sorted.
pub proof fn law_sorting_is_stable<V>(s: Seq<(Seq<char>, V)>, name: Seq<char>)
    ensures
        called(sorted(s), name) == called(s, name),
    decreases s.len(),
{
    if s.len() > 0 {
        law_sorting_is_stable(s.drop_last(), name);
        lemma_inserted_last(sorted(s.drop_last()), s.last(), name);
    }
}

} // verus!
