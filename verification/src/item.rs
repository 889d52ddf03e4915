//! Item templates and stacks.
//!
//! An [`Item`] plays both roles the inventory needs: it carries the
//! immutable template data (name, price, capacity, visual references,
//! equip classification) and, through its `stacks` field, the current
//! quantity of one inventory stack.  The name is the merge key: two
//! stacks hold the same kind of item exactly when their names agree.

use vstd::prelude::*;

use crate::slot_type::SlotType;

verus! {

/// One item template together with a stack count.
///
/// `max_stacks` is the stack capacity: a value above 1 makes the item
/// stackable, a value of 1 (or less) means every unit sits in a stack of
/// its own.  The optional fields name engine resources by path and are
/// carried through untouched by the inventory logic.
pub struct Item {
    /// Display name; also the key under which stacks are merged.
    pub name: String,
    /// Unit price.
    pub price: u32,
    /// Stack capacity; items with a capacity above 1 are stackable.
    pub max_stacks: i64,
    /// Resource path of the collision shape used by world pickups.
    pub collision_shape: Option<String>,
    /// Resource path of the main texture.
    pub texture: Option<String>,
    /// Resource path of the texture shown when the item is held.
    pub side_texture: Option<String>,
    /// Current quantity of this stack.
    pub stacks: i64,
    /// Where the item may be equipped.
    pub slot_type: SlotType,
}

/// Clones an optional resource path.
fn clone_resource(r: &Option<String>) -> (c: Option<String>)
    ensures
        c == *r,
{
    match r {
        Some(s) => Some(s.clone()),
        None => None,
    }
}

impl Item {
    /// The same item with the stack count replaced.
    pub open spec fn spec_with_stacks(self, stacks: i64) -> Item {
        Item {
            name: self.name,
            price: self.price,
            max_stacks: self.max_stacks,
            collision_shape: self.collision_shape,
            texture: self.texture,
            side_texture: self.side_texture,
            stacks: stacks,
            slot_type: self.slot_type,
        }
    }

    /// Whether the item may share a stack with further units of itself.
    pub open spec fn spec_stackable(self) -> bool {
        self.max_stacks > 1
    }

    /// Builds an item template without visual or collision resources.
    pub fn new(name: String, price: u32, max_stacks: i64, stacks: i64, slot_type: SlotType) -> (r:
        Item)
        ensures
            r == (Item {
                name: name,
                price: price,
                max_stacks: max_stacks,
                collision_shape: None::<String>,
                texture: None::<String>,
                side_texture: None::<String>,
                stacks: stacks,
                slot_type: slot_type,
            }),
    {
        Item {
            name,
            price,
            max_stacks,
            collision_shape: None,
            texture: None,
            side_texture: None,
            stacks,
            slot_type,
        }
    }

    /// Copies the item, giving the copy the requested stack count.
    pub fn with_stacks(&self, stacks: i64) -> (r: Item)
        ensures
            r == self.spec_with_stacks(stacks),
    {
        Item {
            name: self.name.clone(),
            price: self.price,
            max_stacks: self.max_stacks,
            collision_shape: clone_resource(&self.collision_shape),
            texture: clone_resource(&self.texture),
            side_texture: clone_resource(&self.side_texture),
            stacks,
            slot_type: self.slot_type,
        }
    }
}

impl Clone for Item {
    /// A clone is equal to the original, field for field.
    fn clone(&self) -> (r: Self)
        ensures
            r == *self,
    {
        self.with_stacks(self.stacks)
    }
}

} // verus!
