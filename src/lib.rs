//! The state behind an accessible accordion: which items are open, which one
//! has the keyboard focus, and how items join and leave, with the rules on
//! single-open and collapsible accordions proved to hold.

pub mod context;
pub mod focus;
pub mod item;
pub mod keyboard;
pub mod lifecycle;
pub mod open_set;
