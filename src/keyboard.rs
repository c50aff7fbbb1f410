use vstd::prelude::*;

use crate::context::AccordionContext;

verus! {

/// The keys that a trigger reacts to; every other key is `Other`.
#[derive(Clone, Copy, PartialEq, Eq, Structural, Debug)]
pub enum Key {
    ArrowUp,
    ArrowDown,
    ArrowLeft,
    ArrowRight,
    Home,
    End,
    Other,
}

/// What a key press does to the focus.
#[derive(Clone, Copy, PartialEq, Eq, Structural, Debug)]
pub enum KeyAction {
    Prev,
    Next,
    Start,
    End,
    Ignore,
}

/// The action of `key`: the arrows along the layout step the focus, Home and
/// End jump to the ends, and every other key is left alone.
pub open spec fn key_action(key: Key, horizontal: bool) -> KeyAction {
    match key {
        Key::ArrowUp => if !horizontal { KeyAction::Prev } else { KeyAction::Ignore },
        Key::ArrowDown => if !horizontal { KeyAction::Next } else { KeyAction::Ignore },
        Key::ArrowLeft => if horizontal { KeyAction::Prev } else { KeyAction::Ignore },
        Key::ArrowRight => if horizontal { KeyAction::Next } else { KeyAction::Ignore },
        Key::Home => KeyAction::Start,
        Key::End => KeyAction::End,
        Key::Other => KeyAction::Ignore,
    }
}

impl AccordionContext {
    /// Whether `action` can be taken: a step needs an item to move among when
    /// one is focused, and a jump to the end needs an item.
    pub open spec fn action_defined(&self, action: KeyAction) -> bool {
        match action {
            KeyAction::Prev => self.can_step(),
            KeyAction::Next => self.can_step(),
            KeyAction::End => self.num_items > 0,
            _ => true,
        }
    }

    /// The focus after `action`.
    pub open spec fn focus_after(&self, action: KeyAction) -> Option<usize> {
        match action {
            KeyAction::Prev => self.focus_after_prev(),
            KeyAction::Next => self.focus_after_next(),
            KeyAction::Start => Some(0usize),
            KeyAction::End => Some((self.num_items - 1) as usize),
            KeyAction::Ignore => self.focused_index,
        }
    }

    /// Handles a key pressed on a trigger. Returns whether the key was handled,
    /// in which case the browser's default behaviour is to be suppressed.
    pub fn handle_key(&mut self, key: Key) -> (handled: bool)
        requires
            old(self).action_defined(key_action(key, old(self).horizontal)),
        ensures
            handled == (key_action(key, old(self).horizontal) != KeyAction::Ignore),
            final(self).focused_index == old(self).focus_after(
                key_action(key, old(self).horizontal),
            ),
            final(self).open_items@ == old(self).open_items@,
            old(self).same_items(final(self)),
            old(self).same_config(final(self)),
    {
        let horizontal = self.is_horizontal();
        match key {
            Key::ArrowUp => {
                if !horizontal {
                    self.focus_prev();
                    return true;
                }
                false
            },
            Key::ArrowDown => {
                if !horizontal {
                    self.focus_next();
                    return true;
                }
                false
            },
            Key::ArrowLeft => {
                if horizontal {
                    self.focus_prev();
                    return true;
                }
                false
            },
            Key::ArrowRight => {
                if horizontal {
                    self.focus_next();
                    return true;
                }
                false
            },
            Key::Home => {
                self.focus_start();
                true
            },
            Key::End => {
                self.focus_end();
                true
            },
            Key::Other => false,
        }
    }
}

} // verus!
