//! Strings as sequences of characters: comparison, searching, trimming,
//! splitting, joining and letter case.
use vstd::prelude::*;
use vstd::string::*;

verus! {

/// `String::push` appends one character.
pub assume_specification[ String::push ](s: &mut String, c: char)
    ensures
        final(s)@ == old(s)@.push(c),
;

/// What `str::to_lowercase` makes of a text: Unicode lower case.
pub uninterp spec fn lowercase(s: Seq<char>) -> Seq<char>;

/// `str::to_lowercase`. Its result is a function of the text; on a text of
/// ASCII characters it maps `A` to `Z` onto `a` to `z` and keeps the rest.
#[verifier::external_body]
pub(crate) fn to_lowercase(s: &str) -> (r: String)
    ensures
        r@ == lowercase(s@),
        is_ascii_text(s@) ==> r@ == ascii_lowercase(s@),
{
    s.to_lowercase()
}

/// The lower case of a text: on a text of ASCII characters that of its letters,
/// and on any other what `str::to_lowercase` makes of it.
pub open spec fn lower(s: Seq<char>) -> Seq<char> {
    if is_ascii_text(s) {
        ascii_lowercase(s)
    } else {
        lowercase(s)
    }
}

/// What the `{:?}` format makes of a text: the text in double quotes, with
/// escapes.
pub uninterp spec fn debug_quoted(s: Seq<char>) -> Seq<char>;

/// A text in which nothing has to be escaped: ASCII letters, digits, spaces, commas
/// and underscores.
pub open spec fn plain_text(s: Seq<char>) -> bool {
    forall|i: int|
        0 <= i < s.len() ==> {
            let c = #[trigger] s[i];
            ('a' <= c && c <= 'z') || ('A' <= c && c <= 'Z') || ('0' <= c && c <= '9') || c == ' '
                || c == ',' || c == '_'
        }
}

/// A text between two double quotes.
pub open spec fn between_quotes(s: Seq<char>) -> Seq<char> {
    seq!['"'] + s + seq!['"']
}

/// The `Debug` rendering of a string, as `format!("{:?}", ..)` gives it: a function
/// of the text, and for a text in which nothing has to be escaped the text between
/// double quotes.
#[verifier::external_body]
pub(crate) fn debug_text(s: &str) -> (r: String)
    ensures
        r@ == debug_quoted(s@),
        plain_text(s@) ==> r@ == between_quotes(s@),
{
    format!("{:?}", s)
}

/// The `Debug` rendering of a text.
pub open spec fn quoted(s: Seq<char>) -> Seq<char> {
    if plain_text(s) {
        between_quotes(s)
    } else {
        debug_quoted(s)
    }
}

/// The texts of a list of strings.
pub open spec fn texts(list: Seq<String>) -> Seq<Seq<char>> {
    list.map_values(|s: String| s@)
}

pub proof fn lemma_texts_push(list: Seq<String>, s: String)
    ensures
        texts(list.push(s)) == texts(list).push(s@),
{
    assert(texts(list.push(s)) =~= texts(list).push(s@));
}

/// Every character is ASCII.
pub open spec fn is_ascii_text(s: Seq<char>) -> bool {
    forall|i: int| 0 <= i < s.len() ==> (#[trigger] s[i] as u32) < 128
}

/// The ASCII lower-case form of a character.
pub open spec fn ascii_lower(c: char) -> char {
    if 'A' <= c && c <= 'Z' {
        ((c as u32 + 32) as u32) as char
    } else {
        c
    }
}

pub open spec fn ascii_lowercase(s: Seq<char>) -> Seq<char> {
    s.map_values(|c: char| ascii_lower(c))
}

/// The characters of `s`, in order.
pub fn to_chars(s: &str) -> (r: Vec<char>)
    ensures
        r@ == s@,
{
    let mut out: Vec<char> = Vec::new();
    for c in it: s.chars()
        invariant
            it.seq() == s@,
            out@ == s@.take(it.index() as int),
    {
        out.push(c);
        assert(s@.take(it.index() as int + 1) == s@.take(it.index() as int).push(
            s@[it.index() as int],
        ));
    }
    assert(s@.take(s@.len() as int) == s@);
    out
}

/// The string made of the characters `chars[from..to]`.
pub fn from_chars(chars: &Vec<char>, from: usize, to: usize) -> (r: String)
    requires
        from <= to <= chars@.len(),
    ensures
        r@ == chars@.subrange(from as int, to as int),
{
    let mut out = String::new();
    let mut i: usize = from;
    while i < to
        invariant
            from <= i <= to <= chars@.len(),
            out@ == chars@.subrange(from as int, i as int),
        decreases to - i,
    {
        out.push(chars[i]);
        assert(chars@.subrange(from as int, i + 1) == chars@.subrange(from as int, i as int).push(
            chars@[i as int],
        ));
        i = i + 1;
    }
    out
}

/// Whether two strings hold the same characters.
pub fn str_eq(a: &str, b: &str) -> (r: bool)
    ensures
        r == (a@ == b@),
{
    let x = to_chars(a);
    let y = to_chars(b);
    if x.len() != y.len() {
        return false;
    }
    let mut i: usize = 0;
    while i < x.len()
        invariant
            i <= x@.len() == y@.len(),
            x@ == a@,
            y@ == b@,
            forall|j: int| 0 <= j < i ==> x@[j] == y@[j],
        decreases x@.len() - i,
    {
        if x[i] != y[i] {
            return false;
        }
        i = i + 1;
    }
    assert(x@ =~= y@);
    true
}

/// An owned copy of a string slice.
pub fn owned(s: &str) -> (r: String)
    ensures
        r@ == s@,
{
    s.to_owned()
}

/// Two texts one after the other.
pub fn cat(a: &str, b: &str) -> (r: String)
    ensures
        r@ == a@ + b@,
{
    let mut out = a.to_owned();
    out.append(b);
    out
}

/// Three texts one after the other.
pub fn cat3(a: &str, b: &str, c: &str) -> (r: String)
    ensures
        r@ == a@ + b@ + c@,
{
    let mut out = cat(a, b);
    out.append(c);
    out
}

/// Five texts one after the other.
pub fn cat5(a: &str, b: &str, c: &str, d: &str, e: &str) -> (r: String)
    ensures
        r@ == a@ + b@ + c@ + d@ + e@,
{
    let mut out = cat3(a, b, c);
    out.append(d);
    out.append(e);
    out
}

/// Whether `list` holds the text `s`.
pub fn list_contains(list: &Vec<String>, s: &str) -> (r: bool)
    ensures
        r == texts(list@).contains(s@),
{
    let mut i: usize = 0;
    while i < list.len()
        invariant
            i <= list@.len(),
            forall|j: int| 0 <= j < i ==> texts(list@)[j] != s@,
        decreases list@.len() - i,
    {
        if str_eq(&list[i], s) {
            assert(texts(list@)[i as int] == s@);
            return true;
        }
        i = i + 1;
    }
    assert(!texts(list@).contains(s@));
    false
}

/// The texts of `list` with `sep` between neighbours.
pub open spec fn joined(list: Seq<Seq<char>>, sep: Seq<char>) -> Seq<char>
    decreases list.len(),
{
    if list.len() == 0 {
        Seq::<char>::empty()
    } else if list.len() == 1 {
        list[0]
    } else {
        joined(list.drop_last(), sep) + sep + list.last()
    }
}

/// Joins the strings of `list` with `sep` between neighbours.
pub fn join(list: &Vec<String>, sep: &str) -> (r: String)
    ensures
        r@ == joined(texts(list@), sep@),
{
    let mut out = String::new();
    let mut i: usize = 0;
    while i < list.len()
        invariant
            i <= list@.len(),
            out@ == joined(texts(list@).take(i as int), sep@),
        decreases list@.len() - i,
    {
        let ghost before = texts(list@).take(i as int);
        let ghost after = texts(list@).take(i + 1);
        assert(after.drop_last() =~= before);
        assert(after.last() == list@[i as int]@);
        if i > 0 {
            out.append(sep);
        } else {
            assert(before =~= Seq::<Seq<char>>::empty());
        }
        out.append(&list[i]);
        assert(i == 0 ==> out@ =~= list@[0]@);
        i = i + 1;
    }
    assert(texts(list@).take(list@.len() as int) =~= texts(list@));
    out
}

/// The characters with the Unicode property `White_Space`.
pub open spec fn whitespace(c: char) -> bool {
    let n = c as u32;
    ||| 0x9 <= n <= 0xd
    ||| n == 0x20
    ||| n == 0x85
    ||| n == 0xa0
    ||| n == 0x1680
    ||| 0x2000 <= n <= 0x200a
    ||| n == 0x2028
    ||| n == 0x2029
    ||| n == 0x202f
    ||| n == 0x205f
    ||| n == 0x3000
}

/// Whether a character has the Unicode property `White_Space`.
pub fn is_whitespace(c: char) -> (r: bool)
    ensures
        r == whitespace(c),
{
    let n: u32 = c as u32;
    (n >= 0x9 && n <= 0xd) || n == 0x20 || n == 0x85 || n == 0xa0 || n == 0x1680 || (n >= 0x2000
        && n <= 0x200a) || n == 0x2028 || n == 0x2029 || n == 0x202f || n == 0x205f || n == 0x3000
}

/// `s` without the longest prefix of white space.
pub open spec fn trimmed_start(s: Seq<char>) -> Seq<char>
    decreases s.len(),
{
    if s.len() > 0 && whitespace(s[0]) {
        trimmed_start(s.drop_first())
    } else {
        s
    }
}

/// `s` without the longest suffix of characters that satisfy `drop`.
pub open spec fn trimmed_end_by(s: Seq<char>, drop: spec_fn(char) -> bool) -> Seq<char>
    decreases s.len(),
{
    if s.len() > 0 && drop(s.last()) {
        trimmed_end_by(s.drop_last(), drop)
    } else {
        s
    }
}

/// `s` without white space at either end.
pub open spec fn trimmed(s: Seq<char>) -> Seq<char> {
    trimmed_end_by(trimmed_start(s), |c: char| whitespace(c))
}

/// The index of the first character of `chars` at or after `from` that is not
/// white space, or the length.
pub fn skip_whitespace(chars: &Vec<char>, from: usize) -> (r: usize)
    requires
        from <= chars@.len(),
    ensures
        from <= r <= chars@.len(),
        trimmed_start(chars@.skip(from as int)) == chars@.skip(r as int),
        r < chars@.len() ==> !whitespace(chars@[r as int]),
        forall|j: int| from <= j < r ==> whitespace(#[trigger] chars@[j]),
{
    let mut i: usize = from;
    while i < chars.len() && is_whitespace(chars[i])
        invariant
            from <= i <= chars@.len(),
            trimmed_start(chars@.skip(from as int)) == trimmed_start(chars@.skip(i as int)),
            forall|j: int| from <= j < i ==> whitespace(#[trigger] chars@[j]),
        decreases chars@.len() - i,
    {
        assert(chars@.skip(i as int).drop_first() == chars@.skip(i + 1));
        i = i + 1;
    }
    i
}

/// Removes white space from both ends.
pub fn trim(s: &str) -> (r: String)
    ensures
        r@ == trimmed(s@),
{
    let chars = to_chars(s);
    let start = skip_whitespace(&chars, 0);
    let ghost f = |c: char| whitespace(c);
    assert(chars@.skip(0) == s@);
    let mut end: usize = chars.len();
    assert(chars@.subrange(start as int, end as int) == trimmed_start(s@));
    while end > start && is_whitespace(chars[end - 1])
        invariant
            start <= end <= chars@.len(),
            f == (|c: char| whitespace(c)),
            trimmed_end_by(chars@.subrange(start as int, end as int), f) == trimmed_end_by(
                trimmed_start(s@),
                f,
            ),
        decreases end,
    {
        assert(chars@.subrange(start as int, end as int).drop_last() == chars@.subrange(
            start as int,
            end - 1,
        ));
        end = end - 1;
    }
    from_chars(&chars, start, end)
}

/// White space or the heading mark `#`.
pub open spec fn blank_or_hash(c: char) -> bool {
    whitespace(c) || c == '#'
}

/// Removes white space and `#` from the end.
pub fn trim_end_blank_or_hash(s: &str) -> (r: String)
    ensures
        r@ == trimmed_end_by(s@, |c: char| blank_or_hash(c)),
{
    let chars = to_chars(s);
    let ghost f = |c: char| blank_or_hash(c);
    let mut end: usize = chars.len();
    assert(chars@.subrange(0, end as int) == s@);
    while end > 0 && (is_whitespace(chars[end - 1]) || chars[end - 1] == '#')
        invariant
            end <= chars@.len(),
            f == (|c: char| blank_or_hash(c)),
            trimmed_end_by(chars@.subrange(0, end as int), f) == trimmed_end_by(s@, f),
        decreases end,
    {
        assert(chars@.subrange(0, end as int).drop_last() == chars@.subrange(0, end - 1));
        end = end - 1;
    }
    from_chars(&chars, 0, end)
}

/// `pat` stands in `s` at index `i`.
pub open spec fn occurs_at(s: Seq<char>, pat: Seq<char>, i: int) -> bool {
    0 <= i && i + pat.len() <= s.len() && s.subrange(i, i + pat.len()) == pat
}

/// The first index at or after `i` at which `pat` stands in `s`.
pub open spec fn find_from(s: Seq<char>, pat: Seq<char>, i: int) -> Option<int>
    decreases s.len() + 1 - i,
{
    if i < 0 || i + pat.len() > s.len() {
        None
    } else if occurs_at(s, pat, i) {
        Some(i)
    } else {
        find_from(s, pat, i + 1)
    }
}

/// `pat` stands somewhere in `s`.
pub open spec fn occurs_in(s: Seq<char>, pat: Seq<char>) -> bool {
    exists|i: int| occurs_at(s, pat, i)
}

/// What `find_from` finds, stated without recursion.
pub proof fn lemma_find_from(s: Seq<char>, pat: Seq<char>, i: int)
    requires
        0 <= i,
    ensures
        match find_from(s, pat, i) {
            Some(k) => i <= k && occurs_at(s, pat, k) && forall|j: int|
                i <= j < k ==> !occurs_at(s, pat, j),
            None => forall|j: int| i <= j ==> !occurs_at(s, pat, j),
        },
    decreases s.len() + 1 - i,
{
    if i + pat.len() <= s.len() && !occurs_at(s, pat, i) {
        lemma_find_from(s, pat, i + 1);
    }
}

/// Whether `pat` stands in `chars` at index `i`.
fn matches_at(chars: &Vec<char>, pat: &Vec<char>, i: usize) -> (r: bool)
    requires
        i <= chars@.len(),
    ensures
        r == occurs_at(chars@, pat@, i as int),
{
    let n: usize = chars.len();
    if pat.len() > n - i {
        return false;
    }
    let mut k: usize = 0;
    while k < pat.len()
        invariant
            k <= pat@.len(),
            i + pat@.len() <= n == chars@.len(),
            forall|j: int| 0 <= j < k ==> chars@[i + j] == pat@[j],
        decreases pat@.len() - k,
    {
        if chars[i + k] != pat[k] {
            assert(chars@.subrange(i as int, i + pat@.len())[k as int] != pat@[k as int]);
            return false;
        }
        k = k + 1;
    }
    assert(chars@.subrange(i as int, i + pat@.len()) =~= pat@);
    true
}

/// The first index at which `pat` stands in `chars`.
fn find_in(chars: &Vec<char>, pat: &Vec<char>) -> (r: Option<usize>)
    ensures
        match r {
            Some(k) => find_from(chars@, pat@, 0) == Some(k as int) && k + pat@.len()
                <= chars@.len(),
            None => find_from(chars@, pat@, 0) is None,
        },
{
    let mut i: usize = 0;
    while i <= chars.len()
        invariant
            i <= chars@.len() + 1,
            find_from(chars@, pat@, 0) == find_from(chars@, pat@, i as int),
        decreases chars@.len() + 1 - i,
    {
        if pat.len() > chars.len() - i {
            return None;
        }
        if matches_at(chars, pat, i) {
            return Some(i);
        }
        if i == chars.len() {
            assert(find_from(chars@, pat@, i + 1) is None);
            return None;
        }
        i = i + 1;
    }
    None
}

/// Whether `pat` stands somewhere in `s`.
pub fn contains(s: &str, pat: &str) -> (r: bool)
    ensures
        r == occurs_in(s@, pat@),
{
    let chars = to_chars(s);
    let p = to_chars(pat);
    let found = find_in(&chars, &p);
    proof {
        lemma_find_from(s@, pat@, 0);
    }
    found.is_some()
}

/// The texts before and after the first `sep` in `s`.
pub open spec fn split_at_first(s: Seq<char>, sep: Seq<char>) -> Option<(Seq<char>, Seq<char>)> {
    match find_from(s, sep, 0) {
        Some(k) => Some((s.take(k), s.skip(k + sep.len()))),
        None => None,
    }
}

/// Splits at the first `sep`.
pub fn split_once(s: &str, sep: &str) -> (r: Option<(String, String)>)
    ensures
        match r {
            Some(parts) => split_at_first(s@, sep@) == Some((parts.0@, parts.1@)),
            None => split_at_first(s@, sep@) is None,
        },
{
    let chars = to_chars(s);
    let p = to_chars(sep);
    match find_in(&chars, &p) {
        Some(k) => {
            let a = from_chars(&chars, 0, k);
            let n: usize = chars.len();
            let b = from_chars(&chars, k + p.len(), n);
            assert(a@ == s@.take(k as int));
            assert(b@ == s@.skip(k + sep@.len()));
            Some((a, b))
        },
        None => None,
    }
}

/// Whether `s` begins with `prefix`.
pub fn starts_with(s: &str, prefix: &str) -> (r: bool)
    ensures
        r == prefix@.is_prefix_of(s@),
{
    let chars = to_chars(s);
    let p = to_chars(prefix);
    let r = matches_at(&chars, &p, 0);
    proof {
        if r {
            assert(s@.subrange(0, prefix@.len() as int) == prefix@);
        }
        if prefix@.is_prefix_of(s@) {
            assert(s@.subrange(0, prefix@.len() as int) =~= prefix@);
        }
    }
    r
}

/// The decimal digit of a number below ten.
pub open spec fn digit(d: nat) -> char {
    (48 + d) as char
}

/// A number in decimal notation.
pub open spec fn decimal(n: nat) -> Seq<char>
    decreases n,
{
    if n < 10 {
        seq![digit(n)]
    } else {
        decimal(n / 10).push(digit(n % 10))
    }
}

/// A number in decimal notation.
pub fn to_decimal(n: u64) -> (r: String)
    ensures
        r@ == decimal(n as nat),
    decreases n,
{
    let d: u8 = (n % 10) as u8;
    let mut out = if n < 10 {
        String::new()
    } else {
        to_decimal(n / 10)
    };
    out.push((48u8 + d) as char);
    proof {
        if n < 10 {
            assert(out@ =~= seq![digit(n as nat)]);
        }
    }
    out
}

/// Whether a text has no characters.
pub fn is_empty(s: &str) -> (r: bool)
    ensures
        r == (s@.len() == 0),
{
    proof {
        reveal_strlit("");
    }
    let r = str_eq(s, "");
    assert(s@.len() == 0 ==> s@ =~= ""@);
    r
}

/// Whether a text begins with another.
pub open spec fn begins(s: Seq<char>, prefix: Seq<char>) -> bool {
    prefix.is_prefix_of(s)
}

} // verus!
