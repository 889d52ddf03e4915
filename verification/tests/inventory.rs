use inventory_store::inventory::Inventory;
use inventory_store::item::Item;
use inventory_store::slot_type::SlotType;

fn potion() -> Item {
    Item::new("Potion".to_owned(), 25, 99, 1, SlotType::Potions)
}

fn sword() -> Item {
    Item::new("Sword".to_owned(), 150, 1, 1, SlotType::RightHand)
}

#[test]
fn empty_inventory_has_no_entries() {
    let inv = Inventory::new();
    assert_eq!(inv.entries().len(), 0);
}

#[test]
fn potion_stacking_scenario() {
    let mut inv = Inventory::new();

    let created = inv.add_item(&potion(), 50);
    assert_eq!(inv.entries().len(), 1);
    assert_eq!(inv.entries()[0].name, "Potion");
    assert_eq!(inv.entries()[0].stacks, 50);
    assert_eq!(created.len(), 1);
    assert_eq!(created[0].stacks, 50);

    let created = inv.add_item(&potion(), 60);
    assert_eq!(inv.entries().len(), 2);
    assert_eq!(inv.entries()[0].stacks, 99);
    assert_eq!(inv.entries()[1].name, "Potion");
    assert_eq!(inv.entries()[1].stacks, 11);
    assert_eq!(created.len(), 1);
    assert_eq!(created[0].name, "Potion");
    assert_eq!(created[0].stacks, 11);
}

#[test]
fn merge_within_capacity_creates_nothing() {
    let mut inv = Inventory::new();
    inv.add_item(&potion(), 50);
    let created = inv.add_item(&potion(), 30);
    assert_eq!(inv.entries().len(), 1);
    assert_eq!(inv.entries()[0].stacks, 80);
    assert!(created.is_empty());
}

#[test]
fn overflow_saturates_and_splits() {
    let mut inv = Inventory::new();
    inv.add_item(&potion(), 40);
    let created = inv.add_item(&potion(), 80);
    assert_eq!(inv.entries().len(), 2);
    assert_eq!(inv.entries()[0].stacks, 99);
    assert_eq!(inv.entries()[1].stacks, 40 + 80 - 99);
    assert_eq!(created.len(), 1);
    assert_eq!(created[0].stacks, 21);
}

#[test]
fn merge_target_is_last_matching_entry() {
    let mut inv = Inventory::new();
    inv.add_item(&potion(), 99);
    inv.add_item(&potion(), 11);
    assert_eq!(inv.entries().len(), 2);

    // The second stack is the last match, so a further add merges there.
    let created = inv.add_item(&potion(), 5);
    assert_eq!(inv.entries().len(), 2);
    assert_eq!(inv.entries()[0].stacks, 99);
    assert_eq!(inv.entries()[1].stacks, 16);
    assert!(created.is_empty());
}

#[test]
fn first_stack_is_clamped_and_split() {
    let mut inv = Inventory::new();
    let created = inv.add_item(&potion(), 250);
    assert_eq!(inv.entries().len(), 2);
    assert_eq!(inv.entries()[0].stacks, 99);
    assert_eq!(inv.entries()[1].stacks, 151);
    assert_eq!(created.len(), 2);
    assert_eq!(created[0].stacks, 99);
    assert_eq!(created[1].stacks, 151);
}

#[test]
fn swords_never_share_a_stack() {
    let mut inv = Inventory::new();
    let created = inv.add_item(&sword(), 1);
    assert_eq!(created.len(), 1);
    let created = inv.add_item(&sword(), 1);
    assert_eq!(created.len(), 1);
    assert_eq!(inv.entries().len(), 2);
    assert_eq!(inv.entries()[0].name, "Sword");
    assert_eq!(inv.entries()[0].stacks, 1);
    assert_eq!(inv.entries()[1].name, "Sword");
    assert_eq!(inv.entries()[1].stacks, 1);
}

#[test]
fn three_non_stackable_adds_make_three_entries() {
    let mut inv = Inventory::new();
    inv.add_item(&sword(), 1);
    inv.add_item(&sword(), 1);
    inv.add_item(&sword(), 1);
    assert_eq!(inv.entries().len(), 3);
    for entry in inv.entries() {
        assert_eq!(entry.stacks, 1);
    }
}

#[test]
fn non_positive_quantity_appends_unmerged() {
    let mut inv = Inventory::new();
    inv.add_item(&potion(), 50);

    let created = inv.add_item(&potion(), 0);
    assert_eq!(inv.entries().len(), 2);
    assert_eq!(inv.entries()[0].stacks, 50);
    assert_eq!(inv.entries()[1].stacks, 0);
    assert_eq!(created.len(), 1);

    let created = inv.add_item(&potion(), -5);
    assert_eq!(inv.entries().len(), 3);
    assert_eq!(inv.entries()[2].stacks, -5);
    assert_eq!(created.len(), 1);
}

#[test]
fn querying_entries_twice_is_identical() {
    let mut inv = Inventory::new();
    inv.add_item(&potion(), 50);
    inv.add_item(&sword(), 1);

    let first: Vec<(String, i64)> =
        inv.entries().iter().map(|e| (e.name.clone(), e.stacks)).collect();
    let second: Vec<(String, i64)> =
        inv.entries().iter().map(|e| (e.name.clone(), e.stacks)).collect();
    assert_eq!(first, second);
}

#[test]
fn counts_can_reach_the_integer_limit() {
    let ore = Item::new("Ore".to_owned(), 1, i64::MAX, 1, SlotType::NotEquippable);
    let mut inv = Inventory::new();
    inv.add_item(&ore, i64::MAX - 1);
    let created = inv.add_item(&ore, 1);
    assert_eq!(inv.entries().len(), 1);
    assert_eq!(inv.entries()[0].stacks, i64::MAX);
    assert!(created.is_empty());
}

#[test]
fn created_stacks_carry_the_template_fields() {
    let mut inv = Inventory::new();
    let created = inv.add_item(&potion(), 7);
    assert_eq!(created.len(), 1);
    assert_eq!(created[0].name, "Potion");
    assert_eq!(created[0].price, 25);
    assert_eq!(created[0].max_stacks, 99);
    assert_eq!(created[0].slot_type, SlotType::Potions);
    assert_eq!(created[0].stacks, 7);
}
