use vstd::prelude::*;

use crate::focus::{next_index, prev_index, step_next, step_prev};
use crate::lifecycle::{run_events, ItemEvent};
use crate::open_set::{closed, lemma_closed, lemma_opened, opened, without};

verus! {

/// The state that an accordion shares with its items: which items are open,
/// which one has the focus, how many there are, and the fixed configuration.
pub struct AccordionContext {
    /// The id that the next registered item receives.
    pub next_id: usize,
    /// The ids of the open items, in the order in which they were opened.
    pub open_items: Vec<usize>,
    /// Whether several items may be open at once.
    pub allow_multiple_open: bool,
    /// Whether the whole accordion is disabled.
    pub disabled: bool,
    /// Whether the last open item may be closed.
    pub collapsible: bool,
    /// Whether the items are laid out side by side.
    pub horizontal: bool,
    /// The number of items currently registered.
    pub num_items: usize,
    /// The index of the focused item, if any.
    pub focused_index: Option<usize>,
}

/// Whether `items` holds `id`.
fn contains_id(items: &Vec<usize>, id: usize) -> (r: bool)
    ensures
        r == items@.contains(id),
{
    let mut i: usize = 0;
    while i < items.len()
        invariant
            0 <= i <= items.len(),
            forall|k: int| 0 <= k < i ==> items@[k] != id,
        decreases items.len() - i,
    {
        if items[i] == id {
            assert(items@[i as int] == id);
            return true;
        }
        i += 1;
    }
    false
}

/// A copy of `items` without `id`.
fn remove_id(items: &Vec<usize>, id: usize) -> (r: Vec<usize>)
    ensures
        r@ == without(items@, id),
{
    let mut kept: Vec<usize> = Vec::new();
    let mut i: usize = 0;
    while i < items.len()
        invariant
            0 <= i <= items.len(),
            kept@ == without(items@.subrange(0, i as int), id),
        decreases items.len() - i,
    {
        let x = items[i];
        assert(items@.subrange(0, i + 1).drop_last() =~= items@.subrange(0, i as int));
        if x != id {
            kept.push(x);
        }
        i += 1;
    }
    assert(items@.subrange(0, items.len() as int) =~= items@);
    kept
}

impl AccordionContext {
    /// The invariant: no id is open twice, and at most one is open unless
    /// several are allowed.
    pub open spec fn wf(&self) -> bool {
        &&& self.open_items@.no_duplicates()
        &&& (!self.allow_multiple_open ==> self.open_items@.len() <= 1)
    }

    /// The configuration of `other` is that of `self`.
    pub open spec fn same_config(&self, other: &AccordionContext) -> bool {
        &&& other.allow_multiple_open == self.allow_multiple_open
        &&& other.disabled == self.disabled
        &&& other.collapsible == self.collapsible
        &&& other.horizontal == self.horizontal
    }

    /// The items and their ids are those of `other`.
    pub open spec fn same_items(&self, other: &AccordionContext) -> bool {
        &&& other.next_id == self.next_id
        &&& other.num_items == self.num_items
    }

    /// Whether a step of the focus can be taken: nothing is focused, or there
    /// is at least one item to move among.
    pub open spec fn can_step(&self) -> bool {
        match self.focused_index {
            None => true,
            Some(_) => self.num_items > 0,
        }
    }

    /// The focus after a step forward.
    pub open spec fn focus_after_next(&self) -> Option<usize> {
        match self.focused_index {
            None => None,
            Some(i) => Some(next_index(i as int, self.num_items as int) as usize),
        }
    }

    /// The focus after a step back.
    pub open spec fn focus_after_prev(&self) -> Option<usize> {
        match self.focused_index {
            None => None,
            Some(i) => Some(prev_index(i as int, self.num_items as int) as usize),
        }
    }

    /// A fresh state: no items, none open, none focused.
    pub fn new(allow_multiple_open: bool, disabled: bool, collapsible: bool, horizontal: bool) -> (r:
        Self)
        ensures
            r.wf(),
            r.next_id == 0,
            r.num_items == 0,
            r.open_items@ == Seq::<usize>::empty(),
            r.focused_index is None,
            r.allow_multiple_open == allow_multiple_open,
            r.disabled == disabled,
            r.collapsible == collapsible,
            r.horizontal == horizontal,
    {
        AccordionContext {
            next_id: 0,
            num_items: 0,
            open_items: Vec::new(),
            allow_multiple_open,
            disabled,
            collapsible,
            horizontal,
            focused_index: None,
        }
    }

    /// Registers an item and returns its id, which no earlier item received.
    pub fn register_item(&mut self) -> (id: usize)
        requires
            old(self).next_id < usize::MAX,
            old(self).num_items < usize::MAX,
        ensures
            id == old(self).next_id,
            final(self).next_id == old(self).next_id + 1,
            run_events(old(self).next_id as int, seq![ItemEvent::Register]) == (
                final(self).next_id as int,
                seq![id as int],
            ),
            final(self).num_items == old(self).num_items + 1,
            final(self).open_items@ == old(self).open_items@,
            final(self).focused_index == old(self).focused_index,
            old(self).same_config(final(self)),
    {
        let ghost events = seq![ItemEvent::Register];
        proof {
            reveal_with_fuel(run_events, 2);
            assert(events.drop_last() =~= Seq::<ItemEvent>::empty());
            assert(events.last() == ItemEvent::Register);
        }
        assert(Seq::<int>::empty().push(old(self).next_id as int) =~= seq![old(self).next_id as int]);
        let id = self.next_id;
        self.next_id = self.next_id + 1;
        self.num_items = self.num_items + 1;
        id
    }

    /// Unregisters an item; its id is not handed out again.
    pub fn unregister_item(&mut self)
        requires
            old(self).num_items > 0,
        ensures
            final(self).num_items == old(self).num_items - 1,
            final(self).next_id == old(self).next_id,
            run_events(old(self).next_id as int, seq![ItemEvent::Unregister]) == (
                final(self).next_id as int,
                Seq::<int>::empty(),
            ),
            final(self).open_items@ == old(self).open_items@,
            final(self).focused_index == old(self).focused_index,
            old(self).same_config(final(self)),
    {
        let ghost events = seq![ItemEvent::Unregister];
        proof {
            reveal_with_fuel(run_events, 2);
            assert(events.drop_last() =~= Seq::<ItemEvent>::empty());
            assert(events.last() == ItemEvent::Unregister);
        }
        self.num_items = self.num_items - 1;
    }

    /// Opens the item `id`, closing every other one first unless several may
    /// be open. Opening an open item changes nothing.
    pub fn set_open(&mut self, id: usize)
        requires
            old(self).wf(),
        ensures
            final(self).wf(),
            final(self).open_items@ == opened(
                old(self).open_items@,
                old(self).allow_multiple_open,
                id,
            ),
            final(self).focused_index == old(self).focused_index,
            old(self).same_items(final(self)),
            old(self).same_config(final(self)),
    {
        proof {
            lemma_opened(self.open_items@, self.allow_multiple_open, id);
        }
        if !self.allow_multiple_open {
            self.open_items.clear();
            self.open_items.push(id);
            assert(self.open_items@ =~= seq![id]);
        } else if !contains_id(&self.open_items, id) {
            self.open_items.push(id);
        }
    }

    /// Closes the item `id`, unless the accordion is not collapsible and
    /// exactly one item is open: then nothing changes.
    pub fn set_closed(&mut self, id: usize)
        requires
            old(self).wf(),
        ensures
            final(self).wf(),
            final(self).open_items@ == closed(old(self).open_items@, old(self).collapsible, id),
            final(self).focused_index == old(self).focused_index,
            old(self).same_items(final(self)),
            old(self).same_config(final(self)),
    {
        proof {
            lemma_closed(self.open_items@, self.collapsible, id);
        }
        if !self.collapsible && self.open_items.len() == 1 {
            return;
        }
        self.open_items = remove_id(&self.open_items, id);
    }

    /// Whether the item `id` is open.
    pub fn is_open(&self, id: usize) -> (r: bool)
        ensures
            r == self.open_items@.contains(id),
    {
        contains_id(&self.open_items, id)
    }

    /// Whether the whole accordion is disabled; an item's own flag is not read.
    pub fn is_disabled(&self) -> (r: bool)
        ensures
            r == self.disabled,
    {
        self.disabled
    }

    /// Whether the item at `index` has the focus.
    pub fn is_focused(&self, index: usize) -> (r: bool)
        ensures
            r == (self.focused_index == Some(index)),
    {
        match self.focused_index {
            Some(current) => current == index,
            None => false,
        }
    }

    /// Sets or clears the focused index.
    pub fn set_focus(&mut self, index: Option<usize>)
        ensures
            final(self).focused_index == index,
            final(self).open_items@ == old(self).open_items@,
            old(self).same_items(final(self)),
            old(self).same_config(final(self)),
    {
        self.focused_index = index;
    }

    /// Moves the focus to the next item, from the last to the first; nothing
    /// changes when no item is focused.
    pub fn focus_next(&mut self)
        requires
            old(self).can_step(),
        ensures
            final(self).focused_index == old(self).focus_after_next(),
            final(self).open_items@ == old(self).open_items@,
            old(self).same_items(final(self)),
            old(self).same_config(final(self)),
    {
        if let Some(i) = self.focused_index {
            self.focused_index = Some(step_next(i, self.num_items));
        }
    }

    /// Moves the focus to the previous item, from the first to the last;
    /// nothing changes when no item is focused.
    pub fn focus_prev(&mut self)
        requires
            old(self).can_step(),
        ensures
            final(self).focused_index == old(self).focus_after_prev(),
            final(self).open_items@ == old(self).open_items@,
            old(self).same_items(final(self)),
            old(self).same_config(final(self)),
    {
        if let Some(i) = self.focused_index {
            self.focused_index = Some(step_prev(i, self.num_items));
        }
    }

    /// Moves the focus to the first item.
    pub fn focus_start(&mut self)
        ensures
            final(self).focused_index == Some(0usize),
            final(self).open_items@ == old(self).open_items@,
            old(self).same_items(final(self)),
            old(self).same_config(final(self)),
    {
        self.focused_index = Some(0);
    }

    /// Moves the focus to the last item.
    pub fn focus_end(&mut self)
        requires
            old(self).num_items > 0,
        ensures
            final(self).focused_index == Some((old(self).num_items - 1) as usize),
            final(self).open_items@ == old(self).open_items@,
            old(self).same_items(final(self)),
            old(self).same_config(final(self)),
    {
        self.focused_index = Some(self.num_items - 1);
    }

    /// Whether the items are laid out side by side.
    pub fn is_horizontal(&self) -> (r: bool)
        ensures
            r == self.horizontal,
    {
        self.horizontal
    }
}

} // verus!
