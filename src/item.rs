use vstd::prelude::*;

use crate::context::AccordionContext;
use crate::open_set::{closed, opened};

verus! {

/// What an item tells its trigger and content panel about itself.
pub struct Item {
    /// The id that the accordion handed out when the item registered.
    pub id: usize,
    /// The item's position among its siblings, given by the caller.
    pub index: usize,
    /// The generated id that links the trigger to the content panel.
    pub aria_id: String,
    /// Whether this item alone is disabled.
    pub disabled: bool,
}

impl Item {
    /// Whether this item alone is disabled; the accordion's flag is not read.
    pub fn is_disabled(&self) -> (r: bool)
        ensures
            r == self.disabled,
    {
        self.disabled
    }

    /// The generated id of the item.
    pub fn aria_id(&self) -> (r: String)
        ensures
            r@ == self.aria_id@,
    {
        self.aria_id.clone()
    }
}

/// The id of a content panel: the one given explicitly, else the item's
/// generated id.
pub fn content_id(explicit: Option<String>, item: &Item) -> (r: String)
    ensures
        r@ == match explicit {
            Some(s) => s@,
            None => item.aria_id@,
        },
{
    match explicit {
        Some(s) => s,
        None => item.aria_id(),
    }
}

impl AccordionContext {
    /// Mounts an item: registers it, opens it when it is to be open by
    /// default, and returns its id.
    pub fn mount_item(&mut self, default_open: bool) -> (id: usize)
        requires
            old(self).wf(),
            old(self).next_id < usize::MAX,
            old(self).num_items < usize::MAX,
        ensures
            final(self).wf(),
            id == old(self).next_id,
            final(self).next_id == old(self).next_id + 1,
            final(self).num_items == old(self).num_items + 1,
            final(self).open_items@ == if default_open {
                opened(old(self).open_items@, old(self).allow_multiple_open, id)
            } else {
                old(self).open_items@
            },
            final(self).focused_index == old(self).focused_index,
            old(self).same_config(final(self)),
    {
        let id = self.register_item();
        if default_open {
            self.set_open(id);
        }
        id
    }

    /// Whether an item counts as disabled: the accordion or the item itself is.
    pub fn is_item_disabled(&self, item: &Item) -> (r: bool)
        ensures
            r == (self.disabled || item.disabled),
    {
        self.is_disabled() || item.is_disabled()
    }

    /// Toggles the item `id`: closes it when it is open, opens it otherwise.
    pub fn toggle(&mut self, id: usize)
        requires
            old(self).wf(),
        ensures
            final(self).wf(),
            final(self).open_items@ == if old(self).open_items@.contains(id) {
                closed(old(self).open_items@, old(self).collapsible, id)
            } else {
                opened(old(self).open_items@, old(self).allow_multiple_open, id)
            },
            final(self).focused_index == old(self).focused_index,
            old(self).same_items(final(self)),
            old(self).same_config(final(self)),
    {
        if self.is_open(id) {
            self.set_closed(id);
        } else {
            self.set_open(id);
        }
    }
}

/// Whether an item whose open state was `last` reports a change on seeing `open`.
pub open spec fn fires(last: bool, open: bool) -> bool {
    open != last
}

/// Watches the open state of one item and reports each change once. An item
/// starts closed, so an item that is open when first seen reports that once.
pub struct OpenWatcher {
    /// The open state last seen.
    pub last: bool,
}

impl OpenWatcher {
    /// A watcher that has seen the item closed.
    pub fn new() -> (r: Self)
        ensures
            r.last == false,
    {
        OpenWatcher { last: false }
    }

    /// Records the current open state; returns whether it changed, in which
    /// case the item's change callback is owed with `open`.
    pub fn observe(&mut self, open: bool) -> (changed: bool)
        ensures
            changed == fires(old(self).last, open),
            final(self).last == open,
    {
        let changed = open != self.last;
        self.last = open;
        changed
    }
}

/// The open state seen last and the reports made, after a watcher that had
/// seen `last` observes `vals` in order.
pub open spec fn watch(last: bool, vals: Seq<bool>) -> (bool, Seq<bool>)
    decreases vals.len(),
{
    if vals.len() == 0 {
        (last, Seq::empty())
    } else {
        let (seen, reports) = watch(last, vals.drop_last());
        (vals.last(), reports.push(fires(seen, vals.last())))
    }
}

/// The open state before the `k`-th observation of `vals`.
pub open spec fn before(last: bool, vals: Seq<bool>, k: int) -> bool {
    if k == 0 {
        last
    } else {
        vals[k - 1]
    }
}

/// A watcher reports exactly at the observations where the open state differs
/// from the one before, once for each such change; a watcher that saw the item
/// closed reports an item that is open when first seen.
pub proof fn lemma_reports_are_changes(last: bool, vals: Seq<bool>)
    ensures
        watch(last, vals).1.len() == vals.len(),
        watch(last, vals).0 == if vals.len() == 0 {
            last
        } else {
            vals.last()
        },
        forall|k: int|
            0 <= k < vals.len() ==> #[trigger] watch(last, vals).1[k] == (vals[k] != before(
                last,
                vals,
                k,
            )),
    decreases vals.len(),
{
    if vals.len() > 0 {
        let init = vals.drop_last();
        lemma_reports_are_changes(last, init);
        assert forall|k: int| 0 <= k < vals.len() implies #[trigger] watch(last, vals).1[k] == (
        vals[k] != before(last, vals, k)) by {
            if k < vals.len() - 1 {
                assert(watch(last, vals).1[k] == watch(last, init).1[k]);
                assert(before(last, vals, k) == before(last, init, k));
            }
        }
    }
}

} // verus!
