//! Lists of texts: taking one out, keeping each once, and their order.
use crate::assoc;
use crate::base;
use crate::text;
use crate::text_split::{self, sorted};
use vstd::prelude::*;
use vstd::string::*;

verus! {

/// The list without a text.
pub open spec fn without_text(list: Seq<Seq<char>>, s: Seq<char>) -> Seq<Seq<char>>
    decreases list.len(),
{
    if list.len() == 0 {
        list
    } else if list.last() == s {
        without_text(list.drop_last(), s)
    } else {
        without_text(list.drop_last(), s).push(list.last())
    }
}

/// The list without a text.
pub fn remove_text(list: &Vec<String>, s: &str) -> (r: Vec<String>)
    ensures
        r.deep_view() == without_text(list.deep_view(), s@),
{
    let mut out: Vec<String> = Vec::new();
    let ghost all = list.deep_view();
    let mut i: usize = 0;
    assert(out.deep_view() =~= without_text(all.take(0), s@));
    while i < list.len()
        invariant
            i <= list@.len(),
            all == list.deep_view(),
            out.deep_view() == without_text(all.take(i as int), s@),
        decreases list@.len() - i,
    {
        assert(all.take(i + 1).drop_last() =~= all.take(i as int));
        if !text::str_eq(&list[i], s) {
            base::push(&mut out, list[i].clone());
        }
        i = i + 1;
    }
    assert(all.take(all.len() as int) =~= all);
    out
}

/// The texts of a list, each once, in the order in which they first come.
pub open spec fn once(list: Seq<Seq<char>>) -> Seq<Seq<char>>
    decreases list.len(),
{
    if list.len() == 0 {
        list
    } else {
        let rest = once(list.drop_last());
        if rest.contains(list.last()) {
            rest
        } else {
            rest.push(list.last())
        }
    }
}

/// The texts of a list, each once, in the order in which they first come.
pub fn once_list(list: &Vec<String>) -> (r: Vec<String>)
    ensures
        r.deep_view() == once(list.deep_view()),
{
    let mut out: Vec<String> = Vec::new();
    let ghost all = list.deep_view();
    let mut i: usize = 0;
    assert(out.deep_view() =~= once(all.take(0)));
    while i < list.len()
        invariant
            i <= list@.len(),
            all == list.deep_view(),
            out.deep_view() == once(all.take(i as int)),
        decreases list@.len() - i,
    {
        assert(all.take(i + 1).drop_last() =~= all.take(i as int));
        assert(text::texts(out@) =~= out.deep_view());
        if !text::list_contains(&out, &list[i]) {
            base::push(&mut out, list[i].clone());
        }
        i = i + 1;
    }
    assert(all.take(all.len() as int) =~= all);
    out
}

/// The texts of a list in their order.
pub open spec fn in_text_order(list: Seq<Seq<char>>) -> Seq<Seq<char>> {
    assoc::keys(sorted(list.map_values(|s: Seq<char>| (s, false))))
}

/// The texts of a list in their order.
pub fn sort_texts(list: &Vec<String>) -> (r: Vec<String>)
    ensures
        r.deep_view() == in_text_order(list.deep_view()),
{
    let ghost all = list.deep_view().map_values(|s: Seq<char>| (s, false));
    let mut pairs: Vec<(String, bool)> = Vec::new();
    let mut i: usize = 0;
    while i < list.len()
        invariant
            i <= list@.len(),
            all == list.deep_view().map_values(|s: Seq<char>| (s, false)),
            pairs.deep_view() == all.take(i as int),
        decreases list@.len() - i,
    {
        base::push(&mut pairs, (list[i].clone(), false));
        assert(pairs.deep_view() =~= all.take(i + 1));
        i = i + 1;
    }
    assert(pairs.deep_view() =~= all);
    let ordered = text_split::sort_by_name(pairs);
    assoc::key_list(&ordered)
}

/// Each text of a list is kept once, and nothing else is.
pub proof fn law_once(list: Seq<Seq<char>>)
    ensures
        once(list).no_duplicates(),
        forall|x: Seq<char>| #![auto] once(list).contains(x) <==> list.contains(x),
    decreases list.len(),
{
    if list.len() > 0 {
        let rest = once(list.drop_last());
        law_once(list.drop_last());
        assert forall|x: Seq<char>| #![auto] once(list).contains(x) <==> list.contains(x) by {
            assert(list.contains(x) <==> list.drop_last().contains(x) || x == list.last()) by {
                if list.contains(x) {
                    let i = choose|i: int| 0 <= i < list.len() && list[i] == x;
                    if i < list.len() - 1 {
                        assert(list.drop_last()[i] == x);
                    }
                }
                if list.drop_last().contains(x) {
                    let i = choose|i: int|
                        0 <= i < list.drop_last().len() && list.drop_last()[i] == x;
                    assert(list[i] == x);
                }
                assert(list[list.len() - 1] == list.last());
            }
            if !rest.contains(list.last()) {
                let all = rest.push(list.last());
                assert(all[rest.len() as int] == list.last());
                if rest.contains(x) {
                    let i = choose|i: int| 0 <= i < rest.len() && rest[i] == x;
                    assert(all[i] == x);
                }
                if all.contains(x) {
                    let i = choose|i: int| 0 <= i < all.len() && all[i] == x;
                    if i < rest.len() {
                        assert(rest[i] == x);
                    }
                }
            }
        }
    }
}

} // verus!
