//! Lists of values under names, in the order in which the names were added.
use crate::base::Duplicate;
use crate::text;
use vstd::prelude::*;
use vstd::string::*;

verus! {

/// The value under the first entry called `k`.
pub open spec fn lookup<V>(s: Seq<(Seq<char>, V)>, k: Seq<char>) -> Option<V>
    decreases s.len(),
{
    if s.len() == 0 {
        None
    } else if s[0].0 == k {
        Some(s[0].1)
    } else {
        lookup(s.drop_first(), k)
    }
}

/// The list in which `k` stands for `v`: in the place of the first entry called
/// `k`, or at the end.
pub open spec fn put<V>(s: Seq<(Seq<char>, V)>, k: Seq<char>, v: V) -> Seq<(Seq<char>, V)>
    decreases s.len(),
{
    if s.len() == 0 {
        seq![(k, v)]
    } else if s[0].0 == k {
        seq![(k, v)] + s.drop_first()
    } else {
        seq![s[0]] + put(s.drop_first(), k, v)
    }
}

/// The list without the entries called `k`.
pub open spec fn without<V>(s: Seq<(Seq<char>, V)>, k: Seq<char>) -> Seq<(Seq<char>, V)>
    decreases s.len(),
{
    if s.len() == 0 {
        s
    } else if s[0].0 == k {
        without(s.drop_first(), k)
    } else {
        seq![s[0]] + without(s.drop_first(), k)
    }
}

/// The names of a list.
pub open spec fn keys<V>(s: Seq<(Seq<char>, V)>) -> Seq<Seq<char>> {
    s.map_values(|e: (Seq<char>, V)| e.0)
}

/// The values of a list.
pub open spec fn values<V>(s: Seq<(Seq<char>, V)>) -> Seq<V> {
    s.map_values(|e: (Seq<char>, V)| e.1)
}

/// No name stands twice.
pub open spec fn unique_keys<V>(s: Seq<(Seq<char>, V)>) -> bool {
    forall|i: int, j: int| 0 <= i < j < s.len() ==> (#[trigger] s[i]).0 != (#[trigger] s[j]).0
}

/// A name has a value exactly where an entry is called so.
pub proof fn lemma_lookup_is_some<V>(s: Seq<(Seq<char>, V)>, k: Seq<char>)
    ensures
        lookup(s, k) is Some <==> exists|i: int| 0 <= i < s.len() && (#[trigger] s[i]).0 == k,
    decreases s.len(),
{
    if s.len() > 0 {
        lemma_lookup_is_some(s.drop_first(), k);
        if s[0].0 != k {
            if lookup(s, k) is Some {
                let i = choose|i: int|
                    0 <= i < s.drop_first().len() && (#[trigger] s.drop_first()[i]).0 == k;
                assert(s[i + 1].0 == k);
            }
            if exists|i: int| 0 <= i < s.len() && (#[trigger] s[i]).0 == k {
                let i = choose|i: int| 0 <= i < s.len() && (#[trigger] s[i]).0 == k;
                assert(s.drop_first()[i - 1].0 == k);
            }
        }
    }
}

/// What is found is the first entry called `k`.
pub proof fn lemma_lookup_at<V>(s: Seq<(Seq<char>, V)>, k: Seq<char>, i: int)
    requires
        0 <= i < s.len(),
        s[i].0 == k,
        forall|j: int| 0 <= j < i ==> (#[trigger] s[j]).0 != k,
    ensures
        lookup(s, k) == Some(s[i].1),
    decreases s.len(),
{
    if i > 0 {
        assert(s[0].0 != k);
        assert forall|j: int| 0 <= j < i - 1 implies (#[trigger] s.drop_first()[j]).0 != k by {
            assert(s[j + 1].0 != k);
        }
        lemma_lookup_at(s.drop_first(), k, i - 1);
    }
}

/// Where an entry is called `k`, its value is replaced.
pub proof fn lemma_put_at<V>(s: Seq<(Seq<char>, V)>, k: Seq<char>, v: V, i: int)
    requires
        0 <= i < s.len(),
        s[i].0 == k,
        forall|j: int| 0 <= j < i ==> (#[trigger] s[j]).0 != k,
    ensures
        put(s, k, v) == s.update(i, (k, v)),
    decreases s.len(),
{
    if i == 0 {
        assert(put(s, k, v) =~= s.update(0, (k, v)));
    } else {
        assert(s[0].0 != k);
        assert forall|j: int| 0 <= j < i - 1 implies (#[trigger] s.drop_first()[j]).0 != k by {
            assert(s[j + 1].0 != k);
        }
        lemma_put_at(s.drop_first(), k, v, i - 1);
        assert(put(s, k, v) =~= s.update(i, (k, v)));
    }
}

/// Where no entry is called `k`, one is added at the end.
pub proof fn lemma_put_absent<V>(s: Seq<(Seq<char>, V)>, k: Seq<char>, v: V)
    requires
        forall|j: int| 0 <= j < s.len() ==> (#[trigger] s[j]).0 != k,
    ensures
        put(s, k, v) == s.push((k, v)),
    decreases s.len(),
{
    if s.len() == 0 {
        assert(put(s, k, v) =~= s.push((k, v)));
    } else {
        assert(s[0].0 != k);
        assert forall|j: int| 0 <= j < s.drop_first().len() implies (
        #[trigger] s.drop_first()[j]).0 != k by {
            assert(s[j + 1].0 != k);
        }
        lemma_put_absent(s.drop_first(), k, v);
        assert(put(s, k, v) =~= s.push((k, v)));
    }
}

/// What is put is found again, and nothing else changes.
pub proof fn lemma_lookup_put<V>(s: Seq<(Seq<char>, V)>, k: Seq<char>, v: V, j: Seq<char>)
    ensures
        lookup(put(s, k, v), j) == if j == k {
            Some(v)
        } else {
            lookup(s, j)
        },
    decreases s.len(),
{
    if s.len() == 0 {
        assert(put(s, k, v)[0] == (k, v));
        assert(put(s, k, v).drop_first() =~= s);
    } else if s[0].0 == k {
        assert(put(s, k, v)[0] == (k, v));
        assert(put(s, k, v).drop_first() =~= s.drop_first());
    } else {
        lemma_lookup_put(s.drop_first(), k, v, j);
        assert(put(s, k, v)[0] == s[0]);
        assert(put(s, k, v).drop_first() =~= put(s.drop_first(), k, v));
    }
}

/// What is taken out is gone, and nothing else changes.
pub proof fn lemma_lookup_without<V>(s: Seq<(Seq<char>, V)>, k: Seq<char>, j: Seq<char>)
    ensures
        lookup(without(s, k), j) == if j == k {
            None
        } else {
            lookup(s, j)
        },
    decreases s.len(),
{
    if s.len() > 0 {
        lemma_lookup_without(s.drop_first(), k, j);
        if s[0].0 != k {
            assert(without(s, k)[0] == s[0]);
            assert(without(s, k).drop_first() =~= without(s.drop_first(), k));
        }
    }
}

/// Names stay unique when a value is put.
pub proof fn lemma_unique_put<V>(s: Seq<(Seq<char>, V)>, k: Seq<char>, v: V)
    requires
        unique_keys(s),
    ensures
        unique_keys(put(s, k, v)),
{
    lemma_lookup_is_some(s, k);
    if exists|i: int| 0 <= i < s.len() && (#[trigger] s[i]).0 == k {
        let i = choose|i: int| 0 <= i < s.len() && (#[trigger] s[i]).0 == k;
        lemma_put_at(s, k, v, i);
    } else {
        lemma_put_absent(s, k, v);
    }
}

/// Every entry that is left was there before, and names stay unique.
pub proof fn lemma_unique_without<V>(s: Seq<(Seq<char>, V)>, k: Seq<char>)
    requires
        unique_keys(s),
    ensures
        unique_keys(without(s, k)),
        forall|i: int|
            0 <= i < without(s, k).len() ==> s.contains(#[trigger] without(s, k)[i]),
    decreases s.len(),
{
    if s.len() > 0 {
        let rest = s.drop_first();
        assert forall|i: int, j: int| 0 <= i < j < rest.len() implies (#[trigger] rest[i]).0 != (
        #[trigger] rest[j]).0 by {
            assert(s[i + 1].0 != s[j + 1].0);
        }
        lemma_unique_without(rest, k);
        let w = without(rest, k);
        assert forall|i: int| 0 <= i < without(s, k).len() implies s.contains(
            #[trigger] without(s, k)[i],
        ) by {
            let x = without(s, k)[i];
            if s[0].0 == k || i > 0 {
                let n = if s[0].0 == k {
                    i
                } else {
                    i - 1
                };
                assert(x == w[n]);
                assert(rest.contains(w[n]));
                let m = choose|m: int| 0 <= m < rest.len() && rest[m] == w[n];
                assert(s[m + 1] == x);
            } else {
                assert(s[0] == x);
            }
        }
        if s[0].0 != k {
            assert forall|i: int, j: int| 0 <= i < j < without(s, k).len() implies (
            #[trigger] without(s, k)[i]).0 != (#[trigger] without(s, k)[j]).0 by {
                assert(without(s, k)[j] == w[j - 1]);
                if i == 0 {
                    assert(rest.contains(w[j - 1]));
                    let m = choose|m: int| 0 <= m < rest.len() && rest[m] == w[j - 1];
                    assert(s[m + 1].0 == w[j - 1].0);
                    assert(s[0].0 != s[m + 1].0);
                } else {
                    assert(without(s, k)[i] == w[i - 1]);
                }
            }
        }
    }
}

/// The index of the first entry called `k`.
pub(crate) fn position<T: DeepView>(list: &Vec<(String, T)>, k: &str) -> (r: Option<usize>)
    ensures
        match r {
            Some(i) => i < list@.len() && list.deep_view()[i as int].0 == k@ && forall|j: int|
                0 <= j < i ==> (#[trigger] list.deep_view()[j]).0 != k@,
            None => forall|j: int|
                0 <= j < list@.len() ==> (#[trigger] list.deep_view()[j]).0 != k@,
        },
{
    let mut i: usize = 0;
    while i < list.len()
        invariant
            i <= list@.len(),
            forall|j: int| 0 <= j < i ==> (#[trigger] list.deep_view()[j]).0 != k@,
        decreases list@.len() - i,
    {
        if text::str_eq(&list[i].0, k) {
            return Some(i);
        }
        i = i + 1;
    }
    None
}

/// The value under a name.
pub fn get<'a, T: DeepView>(list: &'a Vec<(String, T)>, k: &str) -> (r: Option<&'a T>)
    ensures
        match r {
            Some(v) => lookup(list.deep_view(), k@) == Some(v.deep_view()),
            None => lookup(list.deep_view(), k@) is None,
        },
{
    match position(list, k) {
        Some(i) => {
            proof {
                lemma_lookup_at(list.deep_view(), k@, i as int);
            }
            Some(&list[i].1)
        },
        None => {
            proof {
                lemma_lookup_is_some(list.deep_view(), k@);
            }
            None
        },
    }
}

/// Whether a name has a value.
pub fn contains_key<T: DeepView>(list: &Vec<(String, T)>, k: &str) -> (r: bool)
    ensures
        r == (lookup(list.deep_view(), k@) is Some),
{
    get(list, k).is_some()
}

/// Puts a value under a name.
pub fn insert<T: DeepView>(list: &mut Vec<(String, T)>, k: String, v: T)
    ensures
        final(list).deep_view() == put(old(list).deep_view(), k@, v.deep_view()),
{
    let ghost before = list.deep_view();
    let ghost vv = v.deep_view();
    match position(list, &k) {
        Some(i) => {
            proof {
                lemma_put_at(before, k@, vv, i as int);
            }
            list.set(i, (k, v));
            assert(list.deep_view() =~= before.update(i as int, (k@, vv)));
        },
        None => {
            proof {
                lemma_put_absent(before, k@, vv);
            }
            list.push((k, v));
            assert(list.deep_view() =~= before.push((k@, vv)));
        },
    }
}

proof fn lemma_without_split<V>(a: Seq<(Seq<char>, V)>, b: Seq<(Seq<char>, V)>, k: Seq<char>)
    ensures
        without(a + b, k) == without(a, k) + without(b, k),
    decreases a.len(),
{
    if a.len() == 0 {
        assert(a + b =~= b);
        assert(without(a, k) + without(b, k) =~= without(b, k));
    } else {
        assert((a + b).drop_first() =~= a.drop_first() + b);
        lemma_without_split(a.drop_first(), b, k);
        if a[0].0 != k {
            assert(seq![a[0]] + (without(a.drop_first(), k) + without(b, k)) =~= (seq![a[0]]
                + without(a.drop_first(), k)) + without(b, k));
        }
    }
}

/// Takes the entries called `k` out.
pub fn remove<T: DeepView>(list: &mut Vec<(String, T)>, k: &str)
    ensures
        final(list).deep_view() == without(old(list).deep_view(), k@),
{
    let ghost before = list.deep_view();
    let ghost mut n: int = 0;
    let mut i: usize = 0;
    assert(before.take(0) =~= Seq::empty());
    assert(list.deep_view() =~= without(before.take(0), k@) + before.skip(0));
    while i < list.len()
        invariant
            0 <= n <= before.len(),
            i <= list@.len(),
            i == without(before.take(n), k@).len(),
            list.deep_view() == without(before.take(n), k@) + before.skip(n),
        decreases list@.len() - i,
    {
        let ghost cur = list.deep_view();
        assert(cur[i as int] == before.skip(n)[0]);
        assert(cur[i as int] == before[n]);
        proof {
            assert(before.take(n + 1) =~= before.take(n) + seq![before[n]]);
            lemma_without_split(before.take(n), seq![before[n]], k@);
            assert(seq![before[n]].drop_first() =~= Seq::empty());
            assert(without(Seq::<(Seq<char>, T::V)>::empty(), k@) =~= Seq::empty());
            assert(seq![before[n]] + Seq::<(Seq<char>, T::V)>::empty() =~= seq![before[n]]);
        }
        if text::str_eq(&list[i].0, k) {
            let _ = list.remove(i);
            assert(list.deep_view() =~= cur.remove(i as int));
            assert(without(before.take(n + 1), k@) =~= without(before.take(n), k@));
            assert(list.deep_view() =~= without(before.take(n + 1), k@) + before.skip(n + 1));
        } else {
            assert(without(before.take(n + 1), k@) =~= without(before.take(n), k@).push(
                before[n],
            ));
            assert(cur =~= without(before.take(n + 1), k@) + before.skip(n + 1));
            i = i + 1;
        }
        proof {
            n = n + 1;
        }
    }
    proof {
        assert(before.skip(n).len() == 0);
        assert(before.take(n) =~= before);
        assert(without(before, k@) + before.skip(n) =~= without(before, k@));
    }
}

/// The names of a list.
pub fn key_list<T: DeepView>(list: &Vec<(String, T)>) -> (r: Vec<String>)
    ensures
        r.deep_view() == keys(list.deep_view()),
{
    let mut out: Vec<String> = Vec::new();
    let mut i: usize = 0;
    while i < list.len()
        invariant
            i <= list@.len(),
            out.deep_view() == keys(list.deep_view()).take(i as int),
        decreases list@.len() - i,
    {
        crate::base::push(&mut out, list[i].0.clone());
        assert(out.deep_view() =~= keys(list.deep_view()).take(i + 1));
        i = i + 1;
    }
    assert(out.deep_view() =~= keys(list.deep_view()));
    out
}

/// Copies of the values of a list.
pub fn value_list<T: Duplicate>(list: &Vec<(String, T)>) -> (r: Vec<T>)
    ensures
        r.deep_view() == values(list.deep_view()),
{
    let mut out: Vec<T> = Vec::new();
    let mut i: usize = 0;
    while i < list.len()
        invariant
            i <= list@.len(),
            out.deep_view() == values(list.deep_view()).take(i as int),
        decreases list@.len() - i,
    {
        crate::base::push(&mut out, list[i].1.duplicate());
        assert(out.deep_view() =~= values(list.deep_view()).take(i + 1));
        i = i + 1;
    }
    assert(out.deep_view() =~= values(list.deep_view()));
    out
}

} // verus!
