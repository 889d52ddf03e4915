//! Slot-selection decisions of the inventory screen.
//!
//! The screen owns a fixed grid of slot widgets.  When a new stack is to
//! be shown it goes into the first still-empty slot; the last slot of the
//! grid is never handed out.  The decisions made here — which slot to
//! fill, whether and with what text an equip menu is offered, whether the
//! stack count is shown — are returned as plain values for a rendering
//! layer to apply.

use vstd::prelude::*;

use crate::item::Item;
use crate::slot_type::SlotType;

verus! {

/// The first index `j` with `i <= j < n` at which `s` holds `true`, or -1
/// if there is none.
pub open spec fn first_empty_from(s: Seq<bool>, i: int, n: int) -> int
    decreases n - i,
{
    if i < 0 || i >= n {
        -1
    } else if s[i] {
        i
    } else {
        first_empty_from(s, i + 1, n)
    }
}

/// Indices known to hold `false` may be skipped without changing the
/// first-empty index.
pub proof fn lemma_first_empty_from_skip(s: Seq<bool>, i: int, n: int)
    requires
        0 <= i <= n,
        forall|j: int| 0 <= j < i ==> !s[j],
    ensures
        first_empty_from(s, 0, n) == first_empty_from(s, i, n),
    decreases i,
{
    if i > 0 {
        lemma_first_empty_from_skip(s, i - 1, n);
    }
}

/// The text of the equip menu offered for an item of the given slot type;
/// empty for items that cannot be equipped, for which no menu is shown.
pub open spec fn spec_menu_text(t: SlotType) -> Seq<char> {
    match t {
        SlotType::RightHand => "Equip to Right Hand"@,
        SlotType::LeftHand => "Equip to Left Hand"@,
        SlotType::NotEquippable => Seq::<char>::empty(),
        _ => t.spec_gd_name(),
    }
}

/// What a rendering layer must apply to a slot widget after a stack was
/// placed into it.
pub struct SlotUpdate {
    /// Index of the slot that received the stack.
    pub slot_index: usize,
    /// Whether an equip menu is offered for the item.
    pub show_menu_text: bool,
    /// The text of the equip menu; empty when none is offered.
    pub menu_text: String,
    /// Whether the stack count is shown (only counts of at least 2 are).
    pub show_stack_label: bool,
}

/// The decision state of the inventory screen: which of its slot widgets
/// are still empty, how the grid is laid out, and whether the screen is
/// currently shown.
pub struct InventoryUI {
    /// Number of grid columns.
    pub columns: i64,
    /// Whether the screen is visible.
    pub visible: bool,
    /// For each slot widget, whether it is still empty.
    pub slot_is_empty: Vec<bool>,
}

impl InventoryUI {
    /// Creates a hidden screen whose `size` slots are all empty.
    pub fn new(size: usize, columns: i64) -> (r: InventoryUI)
        ensures
            r.columns == columns,
            !r.visible,
            r.slot_is_empty@.len() == size,
            forall|j: int| 0 <= j < size ==> r.slot_is_empty@[j],
    {
        let mut slots: Vec<bool> = Vec::new();
        let mut i: usize = 0;
        while i < size
            invariant
                i <= size,
                slots@.len() == i,
                forall|j: int| 0 <= j < i ==> slots@[j],
            decreases size - i,
        {
            slots.push(true);
            i += 1;
        }
        InventoryUI { columns, visible: false, slot_is_empty: slots }
    }

    /// Flips the visibility of the screen.
    pub fn toggle(&mut self)
        ensures
            final(self).visible == !old(self).visible,
            final(self).columns == old(self).columns,
            final(self).slot_is_empty == old(self).slot_is_empty,
    {
        self.visible = !self.visible;
    }

    /// The index of the first empty slot, or -1 if every slot considered
    /// is taken.  The last slot of the grid is never considered.
    pub fn get_empty_slot(&self) -> (r: i32)
        requires
            self.slot_is_empty@.len() <= i32::MAX as int,
        ensures
            r as int == first_empty_from(self.slot_is_empty@, 0, self.slot_is_empty@.len() - 1),
            r == -1 ==> forall|j: int|
                0 <= j < self.slot_is_empty@.len() - 1 ==> !self.slot_is_empty@[j],
            r != -1 ==> 0 <= r as int && (r as int) < self.slot_is_empty@.len() - 1
                && self.slot_is_empty@[r as int] && forall|j: int|
                0 <= j < r as int ==> !self.slot_is_empty@[j],
    {
        let ghost s = self.slot_is_empty@;
        let n = self.slot_is_empty.len();
        let mut i: usize = 0;
        while i + 1 < n
            invariant
                n == self.slot_is_empty@.len(),
                s == self.slot_is_empty@,
                n <= i32::MAX as int,
                i <= n,
                n == 0 ==> i == 0,
                n > 0 ==> i + 1 <= n,
                forall|j: int| 0 <= j < i ==> !s[j],
            decreases n - i,
        {
            if self.slot_is_empty[i] {
                proof {
                    lemma_first_empty_from_skip(s, i as int, s.len() - 1);
                }
                return i as i32;
            }
            i += 1;
        }
        proof {
            if i as int <= s.len() - 1 {
                lemma_first_empty_from_skip(s, i as int, s.len() - 1);
            }
        }
        -1
    }

    /// The text of the equip menu for the given slot-type name: the two
    /// hand slots get a dedicated phrase, every other name is shown as it
    /// is.
    pub fn get_equipable_popup_text(&self, value: String) -> (r: String)
        ensures
            value@ == "RightHand"@ ==> r@ == "Equip to Right Hand"@,
            value@ == "LeftHand"@ ==> r@ == "Equip to Left Hand"@,
            value@ != "RightHand"@ && value@ != "LeftHand"@ ==> r@ == value@,
    {
        proof {
            reveal_strlit("RightHand");
            reveal_strlit("LeftHand");
            // The two names differ in length, so the views differ.
            assert("RightHand"@.len() == 9);
            assert("LeftHand"@.len() == 8);
        }
        let right_hand: String = "RightHand".to_owned();
        if value == right_hand {
            return "Equip to Right Hand".to_owned();
        }
        let left_hand: String = "LeftHand".to_owned();
        if value == left_hand {
            return "Equip to Left Hand".to_owned();
        }
        value
    }

    /// Places a freshly created stack into the first empty slot and says
    /// what a rendering layer must apply there; returns `None`, changing
    /// nothing, when no empty slot is left.
    pub fn add_item(&mut self, item: &Item) -> (r: Option<SlotUpdate>)
        requires
            old(self).slot_is_empty@.len() <= i32::MAX as int,
        ensures
            final(self).columns == old(self).columns,
            final(self).visible == old(self).visible,
            ({
                let s = old(self).slot_is_empty@;
                let k = first_empty_from(s, 0, s.len() - 1);
                if k == -1 {
                    final(self).slot_is_empty@ == s && r is None
                } else {
                    final(self).slot_is_empty@ == s.update(k, false) && (r matches Some(u)
                        && u.slot_index as int == k && u.show_menu_text == (item.slot_type
                        != SlotType::NotEquippable) && u.menu_text@ == spec_menu_text(
                        item.slot_type,
                    ) && u.show_stack_label == (item.stacks >= 2))
                }
            }),
    {
        let slot = self.get_empty_slot();
        if slot < 0 {
            return None;
        }
        let idx = slot as usize;
        let show_menu_text = item.slot_type != SlotType::NotEquippable;
        let menu_text: String = if show_menu_text {
            proof {
                reveal_strlit("RightHand");
                reveal_strlit("LeftHand");
                reveal_strlit("Potions");
            }
            self.get_equipable_popup_text(item.slot_type.to_gd_string())
        } else {
            String::new()
        };
        self.slot_is_empty[idx] = false;
        Some(
            SlotUpdate {
                slot_index: idx,
                show_menu_text,
                menu_text,
                show_stack_label: item.stacks >= 2,
            },
        )
    }
}

} // verus!
