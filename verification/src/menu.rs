//! What a user is offered to choose from, and what a choice changes.
use crate::base::{self, Duplicate};
use crate::text;
use vstd::prelude::*;
use vstd::string::*;

verus! {

/// One of the things to choose from: what it stands for, how it is called and
/// what is said of it.
#[derive(Debug, PartialEq)]
pub struct Item {
    pub value: String,
    pub label: String,
    pub hint: String,
}

#[verifier::ext_equal]
pub struct ItemView {
    pub value: Seq<char>,
    pub label: Seq<char>,
    pub hint: Seq<char>,
}

impl DeepView for Item {
    type V = ItemView;

    open spec fn deep_view(&self) -> ItemView {
        ItemView { value: self.value@, label: self.label@, hint: self.hint@ }
    }
}

impl Duplicate for Item {
    fn duplicate(&self) -> (r: Self) {
        Item { value: self.value.clone(), label: self.label.clone(), hint: self.hint.clone() }
    }
}

pub open spec fn item(value: Seq<char>, label: Seq<char>, hint: Seq<char>) -> ItemView {
    ItemView { value, label, hint }
}

/// Puts an item behind the others.
pub fn offer(items: &mut Vec<Item>, value: &str, label: &str, hint: &str)
    ensures
        final(items).deep_view() == old(items).deep_view().push(item(value@, label@, hint@)),
{
    base::push(
        items,
        Item { value: text::owned(value), label: text::owned(label), hint: text::owned(hint) },
    );
}

/// Items that are called as what they stand for, all with the same hint.
pub open spec fn plain_items(list: Seq<Seq<char>>, hint: Seq<char>) -> Seq<ItemView> {
    list.map_values(|s: Seq<char>| item(s, s, hint))
}

/// Puts an item for each text behind the others.
pub fn offer_all(items: &mut Vec<Item>, list: &Vec<String>, hint: &str)
    ensures
        final(items).deep_view() == old(items).deep_view() + plain_items(list.deep_view(), hint@),
{
    let ghost before = items.deep_view();
    let ghost all = plain_items(list.deep_view(), hint@);
    let mut i: usize = 0;
    assert(before + all.take(0) =~= before);
    while i < list.len()
        invariant
            i <= list@.len(),
            all == plain_items(list.deep_view(), hint@),
            items.deep_view() == before + all.take(i as int),
        decreases list@.len() - i,
    {
        offer(items, &list[i], &list[i], hint);
        assert(items.deep_view() =~= before + all.take(i + 1));
        i = i + 1;
    }
    assert(all.take(all.len() as int) =~= all);
}

/// The first item that stands for a value.
pub open spec fn item_for(items: Seq<ItemView>, value: Seq<char>) -> Option<ItemView>
    decreases items.len(),
{
    if items.len() == 0 {
        None
    } else if items[0].value == value {
        Some(items[0])
    } else {
        item_for(items.drop_first(), value)
    }
}

/// The first item that stands for a value.
pub fn find_item(items: &Vec<Item>, value: &str) -> (r: Option<Item>)
    ensures
        r.deep_view() == item_for(items.deep_view(), value@),
{
    let ghost all = items.deep_view();
    let mut i: usize = 0;
    assert(all.skip(0) =~= all);
    while i < items.len()
        invariant
            i <= items@.len(),
            all == items.deep_view(),
            item_for(all, value@) == item_for(all.skip(i as int), value@),
        decreases items@.len() - i,
    {
        assert(all.skip(i as int).drop_first() =~= all.skip(i + 1));
        if text::str_eq(&items[i].value, value) {
            return Some(items[i].duplicate());
        }
        i = i + 1;
    }
    None
}

/// What a setting is set to.
#[derive(Debug, PartialEq)]
pub enum SettingValue {
    Text(String),
    Number(u32),
    /// A number of tenths.
    Tenths(u32),
    /// The setting is taken out.
    Deleted,
}

#[verifier::ext_equal]
pub enum SettingValueView {
    Text(Seq<char>),
    Number(u32),
    Tenths(u32),
    Deleted,
}

impl DeepView for SettingValue {
    type V = SettingValueView;

    open spec fn deep_view(&self) -> SettingValueView {
        match self {
            SettingValue::Text(s) => SettingValueView::Text(s@),
            SettingValue::Number(n) => SettingValueView::Number(*n),
            SettingValue::Tenths(n) => SettingValueView::Tenths(*n),
            SettingValue::Deleted => SettingValueView::Deleted,
        }
    }
}

/// A change of one setting, and what is said when it is made.
#[derive(Debug, PartialEq)]
pub struct SettingChange {
    pub key: String,
    pub value: SettingValue,
    pub outro: String,
}

#[verifier::ext_equal]
pub struct SettingChangeView {
    pub key: Seq<char>,
    pub value: SettingValueView,
    pub outro: Seq<char>,
}

impl DeepView for SettingChange {
    type V = SettingChangeView;

    open spec fn deep_view(&self) -> SettingChangeView {
        SettingChangeView {
            key: self.key@,
            value: self.value.deep_view(),
            outro: self.outro@,
        }
    }
}

/// A setting that is set to a text.
pub open spec fn text_change(key: Seq<char>, value: Seq<char>, outro: Seq<char>) -> Option<
    SettingChangeView,
> {
    Some(SettingChangeView { key, value: SettingValueView::Text(value), outro })
}

/// Sets a setting to a text.
pub fn set_text(key: &str, value: &str, outro: &str) -> (r: Option<SettingChange>)
    ensures
        r.deep_view() == text_change(key@, value@, outro@),
{
    Some(
        SettingChange {
            key: text::owned(key),
            value: SettingValue::Text(text::owned(value)),
            outro: text::owned(outro),
        },
    )
}

} // verus!
