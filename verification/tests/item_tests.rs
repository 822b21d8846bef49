use ultima_console::entities::player::Player;
use ultima_console::inventory::item::{apply_item_effect, Item};

#[test]
fn test_new_item() {
    let item = Item::new("Health Potion", (10, 10));
    assert_eq!(item.name, "Health Potion");
}

#[test]
fn test_add_item() {
    let mut player = Player::new("Test Player");
    let item = Item::new("Health Potion", (10, 10));
    Item::add_item(&mut player, item);
    assert_eq!(player.inventory.len(), 1);
    assert_eq!(player.inventory[0].name, "Health Potion");
}

#[test]
fn test_use_item() {
    let mut player = Player::new("Test Player");
    let potion = Item::new("Health Potion", (10, 10));
    Item::add_item(&mut player, potion);

    Item::use_item(&mut player, "Health Potion");
    assert_eq!(player.inventory.len(), 0);
    assert_eq!(player.health, 120);

    Item::use_item(&mut player, "Mana Potion");
    assert_eq!(player.inventory.len(), 0);
    assert_eq!(player.mana, 50);
}

#[test]
fn test_use_item_messages() {
    let mut player = Player::new("Test Player");
    Item::add_item(&mut player, Item::new("Health Potion", (10, 10)));

    assert_eq!(Item::use_item(&mut player, "Health Potion"), "You used item");
    assert_eq!(
        Item::use_item(&mut player, "Health Potion"),
        "Object not found on inventary."
    );
    assert_eq!(player.health, 120);
}

#[test]
fn test_use_item_takes_first_match() {
    let mut player = Player::new("Test Player");
    Item::add_item(&mut player, Item::new("Mana Potion", (1, 1)));
    Item::add_item(&mut player, Item::new("Health Potion", (2, 2)));
    Item::add_item(&mut player, Item::new("Health Potion", (3, 3)));

    Item::use_item(&mut player, "Health Potion");
    assert_eq!(player.health, 120);
    assert_eq!(player.inventory.len(), 2);
    assert_eq!(player.inventory[0].name, "Mana Potion");
    assert_eq!(player.inventory[1].name, "Health Potion");
    assert_eq!(player.inventory[1].position, (3, 3));
}

#[test]
fn test_use_unknown_item_is_not_useful() {
    let mut player = Player::new("Test Player");
    Item::add_item(&mut player, Item::new("Rusty Key", (1, 1)));

    let msg = Item::use_item(&mut player, "Rusty Key");
    assert_eq!(msg, "You used item");
    assert_eq!(player.inventory.len(), 0);
    assert_eq!(player.health, 100);
    assert_eq!(player.mana, 50);
}

#[test]
fn test_apply_item_effect() {
    let mut player = Player::new("Test Player");
    let health_potion = Item::new("Health Potion", (10, 10));
    let mana_potion = Item::new("Mana Potion", (5, 5));

    apply_item_effect(&mut player, &health_potion);
    assert_eq!(player.health, 120);
    apply_item_effect(&mut player, &mana_potion);
    assert_eq!(player.mana, 65);
}
