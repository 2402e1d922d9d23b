//! Copies and lists of values that are described by a deep view.
use crate::text;
use vstd::prelude::*;
use vstd::string::*;

verus! {

/// Values that can be copied without change, as far as their deep view tells.
pub trait Duplicate: DeepView + Sized {
    /// A copy with the same deep view.
    fn duplicate(&self) -> (r: Self)
        ensures
            r.deep_view() == self.deep_view(),
    ;
}

impl Duplicate for String {
    fn duplicate(&self) -> (r: Self) {
        self.clone()
    }
}

impl Duplicate for bool {
    fn duplicate(&self) -> (r: Self) {
        *self
    }
}

impl Duplicate for i32 {
    fn duplicate(&self) -> (r: Self) {
        *self
    }
}

impl Duplicate for u32 {
    fn duplicate(&self) -> (r: Self) {
        *self
    }
}

impl Duplicate for usize {
    fn duplicate(&self) -> (r: Self) {
        *self
    }
}

impl Duplicate for u64 {
    fn duplicate(&self) -> (r: Self) {
        *self
    }
}

impl<T: Duplicate> Duplicate for Option<T> {
    fn duplicate(&self) -> (r: Self) {
        match self {
            Some(x) => Some(x.duplicate()),
            None => None,
        }
    }
}

impl<T: Duplicate> Duplicate for Vec<T> {
    fn duplicate(&self) -> (r: Self) {
        let mut out: Vec<T> = Vec::new();
        let mut i: usize = 0;
        while i < self.len()
            invariant
                i <= self@.len(),
                out@.len() == i,
                forall|j: int| 0 <= j < i ==> out@[j].deep_view() == self@[j].deep_view(),
            decreases self@.len() - i,
        {
            out.push(self[i].duplicate());
            i = i + 1;
        }
        assert(out.deep_view() =~= self.deep_view());
        out
    }
}

impl<A: Duplicate, B: Duplicate> Duplicate for (A, B) {
    fn duplicate(&self) -> (r: Self) {
        (self.0.duplicate(), self.1.duplicate())
    }
}

/// Appends one value to a list.
pub fn push<T: DeepView>(list: &mut Vec<T>, item: T)
    ensures
        final(list)@ == old(list)@.push(item),
        final(list).deep_view() == old(list).deep_view().push(item.deep_view()),
{
    list.push(item);
    assert(list.deep_view() =~= old(list).deep_view().push(item.deep_view()));
}

/// Appends copies of all values of another list.
pub fn extend<T: Duplicate>(list: &mut Vec<T>, more: &Vec<T>)
    ensures
        final(list).deep_view() == old(list).deep_view() + more.deep_view(),
{
    let mut i: usize = 0;
    let ghost before = list.deep_view();
    assert(before + more.deep_view().take(0) =~= before);
    while i < more.len()
        invariant
            i <= more@.len(),
            list.deep_view() == before + more.deep_view().take(i as int),
        decreases more@.len() - i,
    {
        push(list, more[i].duplicate());
        assert(more.deep_view().take(i + 1) =~= more.deep_view().take(i as int).push(
            more.deep_view()[i as int],
        ));
        assert(list.deep_view() =~= before + more.deep_view().take(i + 1));
        i = i + 1;
    }
    assert(more.deep_view().take(more@.len() as int) =~= more.deep_view());
}

/// A list of one value.
pub fn single<T: DeepView>(item: T) -> (r: Vec<T>)
    ensures
        r.deep_view() == seq![item.deep_view()],
{
    let mut out: Vec<T> = Vec::new();
    out.push(item);
    assert(out.deep_view() =~= seq![item.deep_view()]);
    out
}

/// Values whose deep views can be compared.
pub trait Same: DeepView + Sized {
    /// Whether two values have the same deep view.
    fn same(&self, other: &Self) -> (r: bool)
        ensures
            r == (self.deep_view() == other.deep_view()),
    ;
}

impl Same for String {
    fn same(&self, other: &Self) -> (r: bool) {
        text::str_eq(self, other)
    }
}

impl<T: Same> Same for Option<T> {
    fn same(&self, other: &Self) -> (r: bool) {
        match (self, other) {
            (Some(a), Some(b)) => a.same(b),
            (None, None) => true,
            _ => false,
        }
    }
}

impl<T: Same> Same for Vec<T> {
    fn same(&self, other: &Self) -> (r: bool) {
        if self.len() != other.len() {
            assert(self.deep_view().len() != other.deep_view().len());
            return false;
        }
        let mut i: usize = 0;
        while i < self.len()
            invariant
                i <= self@.len(),
                self@.len() == other@.len(),
                forall|j: int| 0 <= j < i ==> self@[j].deep_view() == other@[j].deep_view(),
            decreases self@.len() - i,
        {
            if !self[i].same(&other[i]) {
                assert(self.deep_view()[i as int] != other.deep_view()[i as int]);
                return false;
            }
            i = i + 1;
        }
        assert(self.deep_view() =~= other.deep_view());
        true
    }
}

impl<A: Same, B: Same> Same for (A, B) {
    fn same(&self, other: &Self) -> (r: bool) {
        self.0.same(&other.0) && self.1.same(&other.1)
    }
}

} // verus!
