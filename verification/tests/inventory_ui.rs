use inventory_store::inventory_ui::InventoryUI;
use inventory_store::item::Item;
use inventory_store::slot_type::SlotType;

fn screen() -> InventoryUI {
    InventoryUI::new(8, 4)
}

#[test]
fn toggle_flips_visibility() {
    let mut ui = screen();
    assert!(!ui.visible);
    ui.toggle();
    assert!(ui.visible);
    ui.toggle();
    assert!(!ui.visible);
}

#[test]
fn first_empty_slot_is_chosen() {
    let ui = screen();
    assert_eq!(ui.get_empty_slot(), 0);
}

#[test]
fn taken_slots_are_skipped() {
    let mut ui = screen();
    ui.slot_is_empty[0] = false;
    ui.slot_is_empty[1] = false;
    assert_eq!(ui.get_empty_slot(), 2);
}

#[test]
fn the_last_slot_is_never_handed_out() {
    let mut ui = InventoryUI::new(2, 2);
    ui.slot_is_empty[0] = false;
    // Slot 1 is still empty, but as the last slot it is not considered.
    assert_eq!(ui.get_empty_slot(), -1);
}

#[test]
fn a_single_slot_grid_is_always_full() {
    let ui = InventoryUI::new(1, 1);
    assert_eq!(ui.get_empty_slot(), -1);
}

#[test]
fn popup_text_for_the_hand_slots() {
    let ui = screen();
    assert_eq!(ui.get_equipable_popup_text("RightHand".to_owned()), "Equip to Right Hand");
    assert_eq!(ui.get_equipable_popup_text("LeftHand".to_owned()), "Equip to Left Hand");
    assert_eq!(ui.get_equipable_popup_text("Potions".to_owned()), "Potions");
}

#[test]
fn equippable_item_gets_a_menu() {
    let mut ui = screen();
    let sword = Item::new("Sword".to_owned(), 150, 1, 1, SlotType::RightHand);
    let update = ui.add_item(&sword).expect("a slot should be free");
    assert_eq!(update.slot_index, 0);
    assert!(update.show_menu_text);
    assert_eq!(update.menu_text, "Equip to Right Hand");
    assert!(!update.show_stack_label);
    assert!(!ui.slot_is_empty[0]);
}

#[test]
fn plain_item_gets_no_menu_and_a_count() {
    let mut ui = screen();
    let shard = Item::new("Shard".to_owned(), 5, 99, 1, SlotType::NotEquippable);
    let mut with_count = shard.with_stacks(12);
    with_count.name = "Shard".to_owned();
    let update = ui.add_item(&with_count).expect("a slot should be free");
    assert!(!update.show_menu_text);
    assert_eq!(update.menu_text, "");
    assert!(update.show_stack_label);
}

#[test]
fn slots_fill_in_order_until_none_is_left() {
    let mut ui = InventoryUI::new(3, 3);
    let potion = Item::new("Potion".to_owned(), 25, 99, 1, SlotType::Potions);

    let first = ui.add_item(&potion).expect("slot 0 should be free");
    assert_eq!(first.slot_index, 0);
    assert_eq!(first.menu_text, "Potions");

    let second = ui.add_item(&potion).expect("slot 1 should be free");
    assert_eq!(second.slot_index, 1);

    // Slot 2 is the last slot of the grid and is never handed out.
    assert!(ui.add_item(&potion).is_none());
}
