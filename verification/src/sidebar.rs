//! The information panel beside a document: a list of titled values, each
//! filed under a key.

use vstd::prelude::*;
use crate::text::same_text;

verus! {

/// One line of the panel.
pub enum SidebarItem {
    /// A title and the value shown beside it.
    Text(String, String),
}

/// The lines of the panel under their keys, in the order they were added.
pub struct Sidebar {
    items: Vec<(&'static str, SidebarItem)>,
}

/// One line of the panel as text: its key, its title and its value.
pub struct SidebarLine {
    pub key: Seq<char>,
    pub title: Seq<char>,
    pub value: Seq<char>,
}

/// The text of the line `item`, filed under `key`.
pub open spec fn line_of(key: &'static str, item: SidebarItem) -> SidebarLine {
    match item {
        SidebarItem::Text(title, value) => SidebarLine { key: key@, title: title@, value: value@ },
    }
}

/// `position` is the first place in `entries` that is filed under `key`.
pub open spec fn first_under(
    entries: Seq<(&'static str, SidebarItem)>,
    key: Seq<char>,
    position: int,
) -> bool {
    &&& 0 <= position < entries.len()
    &&& entries[position].0@ == key
    &&& forall|earlier: int| 0 <= earlier < position ==> (#[trigger] entries[earlier]).0@ != key
}

/// No place in `entries` is filed under `key`.
pub open spec fn none_under(entries: Seq<(&'static str, SidebarItem)>, key: Seq<char>) -> bool {
    forall|position: int| 0 <= position < entries.len() ==> (#[trigger] entries[position]).0@ != key
}

impl Default for Sidebar {
    /// A panel without lines.
    fn default() -> (sidebar: Self)
        ensures
            sidebar.entries() == Seq::<(&'static str, SidebarItem)>::empty(),
    {
        Sidebar { items: Vec::new() }
    }
}

impl Sidebar {
    /// The lines with their keys, first added first.
    pub closed spec fn entries(&self) -> Seq<(&'static str, SidebarItem)> {
        self.items@
    }

    /// The lines as text, first added first.
    pub open spec fn lines(&self) -> Seq<SidebarLine> {
        Seq::new(self.entries().len(), |i: int| line_of(self.entries()[i].0, self.entries()[i].1))
    }

    /// Adds `item` as the last line, filed under `key`.
    pub fn add_item(&mut self, key: &'static str, item: SidebarItem)
        ensures
            final(self).entries() == old(self).entries().push((key, item)),
    {
        self.items.push((key, item));
    }

    /// Lets `update_fn` change the first line that is filed under `key`.
    /// Does nothing, and does not call `update_fn`, where there is no such line.
    pub fn update_item<F>(&mut self, key: &str, update_fn: F) where
        F: FnMut(&mut SidebarItem) -> (),

        requires
            forall|position: int| #[trigger]
                first_under(old(self).entries(), key@, position) ==> forall|
                    item: &mut SidebarItem,
                |
                    *item == old(self).entries()[position].1 ==> #[trigger] update_fn.requires(
                        (item,),
                    ),
        ensures
            none_under(old(self).entries(), key@) ==> final(self).entries() == old(self).entries(),
            forall|position: int| #[trigger]
                first_under(old(self).entries(), key@, position) ==> exists|item: &mut SidebarItem|
                    {
                        &&& #[trigger] update_fn.ensures((item,), ())
                        &&& *item == old(self).entries()[position].1
                        &&& final(self).entries() == old(self).entries().update(
                            position,
                            (old(self).entries()[position].0, *final(item)),
                        )
                    },
    {
        let mut update = update_fn;
        let mut i: usize = 0;
        while i < self.items.len()
            invariant
                update == update_fn,
                i <= self.items@.len(),
                self.items@ == old(self).items@,
                forall|earlier: int| 0 <= earlier < i ==> (#[trigger] self.items@[earlier]).0@ != key@,
                forall|position: int| #[trigger]
                    first_under(old(self).entries(), key@, position) ==> forall|
                        item: &mut SidebarItem,
                    |
                        *item == old(self).entries()[position].1 ==> #[trigger] update_fn.requires(
                            (item,),
                        ),
            decreases self.items@.len() - i,
        {
            if same_text(self.items[i].0, key) {
                assert(first_under(old(self).entries(), key@, i as int));
                update(&mut self.items[i].1);
                proof {
                    let before = old(self).entries();
                    let changed = self.items@[i as int].1;
                    assert(self.items@ =~= before.update(i as int, (before[i as int].0, changed)));
                    assert(exists|item: &mut SidebarItem|
                        {
                            &&& #[trigger] update_fn.ensures((item,), ())
                            &&& *item == before[i as int].1
                            &&& self.entries() == before.update(
                                i as int,
                                (before[i as int].0, *final(item)),
                            )
                        });
                    assert forall|position: int| #[trigger]
                        first_under(before, key@, position) implies exists|item: &mut SidebarItem|
                        {
                            &&& #[trigger] update_fn.ensures((item,), ())
                            &&& *item == before[position].1
                            &&& self.entries() == before.update(
                                position,
                                (before[position].0, *final(item)),
                            )
                        } by {
                        if position < i {
                            assert(before[position].0@ != key@);
                        } else if i < position {
                            assert(before[i as int].0@ != key@);
                        }
                        assert(position == i);
                    }
                }
                return ;
            }
            i += 1;
        }
        proof {
            let before = old(self).entries();
            assert forall|position: int| !first_under(before, key@, position) by {
                if 0 <= position < before.len() {
                    assert(before[position].0@ != key@);
                }
            }
        }
    }

    /// The lines with their keys, first added first.
    pub fn items(&self) -> (items: &Vec<(&'static str, SidebarItem)>)
        ensures
            items@ == self.entries(),
    {
        &self.items
    }
}

} // verus!
