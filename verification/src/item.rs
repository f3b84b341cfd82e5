//! The unit of work: one content package to download.

use vstd::prelude::*;

verus! {

/// One installable package: the identifier handed to the downloader and a
/// label used in messages only.
#[derive(Debug, PartialEq, Eq)]
pub struct Item {
    pub id: String,
    pub name: String,
}

/// Mathematical value of an [`Item`].
pub struct ItemView {
    pub id: Seq<char>,
    pub name: Seq<char>,
}

impl View for Item {
    type V = ItemView;

    open spec fn view(&self) -> ItemView {
        ItemView { id: self.id@, name: self.name@ }
    }
}

impl DeepView for Item {
    type V = ItemView;

    open spec fn deep_view(&self) -> ItemView {
        self@
    }
}

impl Clone for Item {
    fn clone(&self) -> (r: Self)
        ensures
            r@ == self@,
    {
        Item { id: self.id.clone(), name: self.name.clone() }
    }
}

impl Item {
    /// An item with this identifier and this label.
    pub fn new(id: String, name: String) -> (r: Item)
        ensures
            r@ == (ItemView { id: id@, name: name@ }),
    {
        Item { id, name }
    }
}

} // verus!
