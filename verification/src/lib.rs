//! Core gameplay logic for a grid inventory: item templates, the
//! stack-merging rules of the inventory store, and the slot-selection
//! decisions of the inventory screen.
//!
//! The inventory store keeps an ordered list of item stacks and offers a
//! single operation, adding a quantity of an item.  Stackable items are
//! merged into the last matching stack up to its capacity, with overflow
//! split into a fresh stack; non-stackable items always occupy a stack of
//! their own.  Every newly created stack is reported back to the caller so
//! that a presentation layer can render a new slot for it.

pub mod inventory;
pub mod inventory_ui;
pub mod item;
pub mod slot_type;
