//! Classification of where an item may be equipped.

use vstd::prelude::*;

verus! {

/// The equip slot an item belongs to, or `NotEquippable` for plain goods.
#[derive(Clone, Copy, Debug, PartialEq, Eq, Structural)]
pub enum SlotType {
    RightHand,
    LeftHand,
    Potions,
    NotEquippable,
}

impl SlotType {
    /// The display name of this slot type, as the engine-facing layers
    /// spell it.
    pub open spec fn spec_gd_name(self) -> Seq<char> {
        match self {
            SlotType::RightHand => "RightHand"@,
            SlotType::LeftHand => "LeftHand"@,
            SlotType::Potions => "Potions"@,
            SlotType::NotEquippable => "NotEquippable"@,
        }
    }

    /// Renders the slot type as the string the engine-facing layers use.
    pub fn to_gd_string(&self) -> (r: String)
        ensures
            r@ == self.spec_gd_name(),
    {
        match self {
            SlotType::RightHand => "RightHand".to_owned(),
            SlotType::LeftHand => "LeftHand".to_owned(),
            SlotType::Potions => "Potions".to_owned(),
            SlotType::NotEquippable => "NotEquippable".to_owned(),
        }
    }
}

} // verus!
