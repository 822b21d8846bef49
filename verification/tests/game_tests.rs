use ultima_console::entities::npc::NPC;
use ultima_console::entities::player::{Player, PlayerStatus};
use ultima_console::game::{apply_command, find_nearby_item, setup_world, Command, GameState};
use ultima_console::inventory::item::Item;
use ultima_console::maps::maps::Maps;
use ultima_console::maps::tile::TileContent;

fn small_world() -> GameState {
    let mut player = Player::new("Hero");
    player.position = (5, 5);
    GameState {
        player,
        map: Maps::new(10, 10),
        npcs: Vec::new(),
        items: Vec::new(),
    }
}

#[test]
fn test_setup_world() {
    let state = setup_world();
    assert_eq!(state.player.name, "Hero");
    assert_eq!(state.player.health, 100);
    assert_eq!(state.map.width, 1);
    assert_eq!(state.map.height, 1);
    assert_eq!(state.npcs.len(), 3);
    for npc in &state.npcs {
        assert_eq!(npc.name, "Guard");
        assert_eq!(npc.dialogue, "You shall not pass!");
        assert_eq!(npc.health, 50);
        assert_eq!(npc.strength, 10);
        assert!((1..70).contains(&npc.position.0));
        assert!((1..20).contains(&npc.position.1));
    }
    assert_eq!(state.items.len(), 2);
    assert_eq!(state.items[0].name, "Mana Potion");
    assert_eq!(state.items[0].position, (14, 7));
    assert_eq!(state.items[1].name, "Health Potion");
    assert_eq!(state.items[1].position, (10, 10));
}

#[test]
fn test_apply_command_moves() {
    let mut state = small_world();
    let log = apply_command(&mut state, Command::MoveUp);
    assert_eq!(state.player.position, (5, 4));
    assert_eq!(log, vec!["Player moved up".to_string()]);

    apply_command(&mut state, Command::MoveLeft);
    assert_eq!(state.player.position, (4, 4));
    apply_command(&mut state, Command::MoveDown);
    assert_eq!(state.player.position, (4, 5));
    let log = apply_command(&mut state, Command::MoveRight);
    assert_eq!(state.player.position, (5, 5));
    assert_eq!(log, vec!["Player moved right".to_string()]);
}

#[test]
fn test_apply_command_move_blocked() {
    let mut state = small_world();
    state.map.grid[4][5] = TileContent::Obstacle;
    let log = apply_command(&mut state, Command::MoveUp);
    assert_eq!(state.player.position, (5, 5));
    assert_eq!(log, vec!["Player moved up".to_string()]);
}

#[test]
fn test_apply_command_train() {
    let mut state = small_world();
    let log = apply_command(&mut state, Command::Train);
    assert_eq!(state.player.strength, 11);
    assert_eq!(state.player.agility, 9);
    assert_eq!(
        log,
        vec!["You train to improve your strength and agility.".to_string()]
    );
}

#[test]
fn test_apply_command_fight_defeats_npc() {
    let mut state = small_world();
    state
        .npcs
        .push(NPC::new("Guard", "You shall not pass!", (6, 5), 50, 10));

    let log = apply_command(&mut state, Command::Fight);
    assert_eq!(state.npcs.len(), 0, "a defeated NPC leaves the collection");
    assert_eq!(state.player.health, 60);
    assert_eq!(state.player.experience, 10);
    assert_eq!(log.len(), 1);
    assert!(log[0].ends_with("You defeated the NPC!\n"));
}

#[test]
fn test_apply_command_fight_player_defeated() {
    let mut state = small_world();
    state.player.health = 20;
    state
        .npcs
        .push(NPC::new("Brute", "Grrr.", (6, 5), 50, 30));

    let log = apply_command(&mut state, Command::Fight);
    assert!(state.player.health <= 0);
    assert_eq!(state.player.status, PlayerStatus::Injured);
    assert_eq!(state.npcs.len(), 1, "the standing NPC stays in the collection");
    assert_eq!(state.npcs[0].health, 40);
    assert!(log[0].ends_with("You were defeated by the NPC!\n"));

    // A felled player cannot start another fight.
    let log = apply_command(&mut state, Command::Fight);
    assert_eq!(log, vec!["You are in no condition to fight.".to_string()]);
    assert_eq!(state.npcs[0].health, 40);
}

#[test]
fn test_apply_command_fight_nothing_nearby() {
    let mut state = small_world();
    state
        .npcs
        .push(NPC::new("Guard", "You shall not pass!", (8, 8), 50, 10));

    let log = apply_command(&mut state, Command::Fight);
    assert_eq!(state.npcs.len(), 1);
    assert_eq!(state.player.health, 100);
    assert_eq!(log, vec!["Nothing nearby.".to_string()]);
}

#[test]
fn test_apply_command_fight_picks_first_adjacent() {
    let mut state = small_world();
    state
        .npcs
        .push(NPC::new("Far", "Far away.", (1, 1), 50, 10));
    state
        .npcs
        .push(NPC::new("Near A", "Hello.", (6, 6), 50, 10));
    state
        .npcs
        .push(NPC::new("Near B", "Hello.", (4, 4), 50, 10));

    apply_command(&mut state, Command::Fight);
    assert_eq!(state.npcs.len(), 2);
    assert_eq!(state.npcs[0].name, "Far");
    assert_eq!(state.npcs[1].name, "Near B");
}

#[test]
fn test_apply_command_interact() {
    let mut state = small_world();
    state
        .npcs
        .push(NPC::new("Guard", "You shall not pass!", (5, 6), 50, 10));

    let log = apply_command(&mut state, Command::Interact);
    assert_eq!(log, vec!["You shall not pass!".to_string()]);
    assert_eq!(state.npcs.len(), 1);
    assert_eq!(state.npcs[0].health, 50);

    state.npcs.clear();
    let log = apply_command(&mut state, Command::Interact);
    assert_eq!(log, vec!["Nothing nearby.".to_string()]);
}

#[test]
fn test_apply_command_pickup() {
    let mut state = small_world();
    state.items.push(Item::new("Health Potion", (6, 6)));

    let log = apply_command(&mut state, Command::PickUp);
    assert_eq!(state.items.len(), 0);
    assert_eq!(state.player.inventory.len(), 1);
    assert_eq!(state.player.inventory[0].name, "Health Potion");
    assert_eq!(log, vec!["You found a new item!".to_string()]);

    // Nothing left nearby: picking up again changes nothing and says nothing.
    let log = apply_command(&mut state, Command::PickUp);
    assert_eq!(state.player.inventory.len(), 1);
    assert!(log.is_empty());
}

#[test]
fn test_apply_command_use_item() {
    let mut state = small_world();
    state
        .player
        .inventory
        .push(Item::new("Health Potion", (6, 6)));

    let log = apply_command(&mut state, Command::UseItem("Health Potion".to_string()));
    assert_eq!(state.player.health, 120);
    assert_eq!(state.player.inventory.len(), 0);
    assert_eq!(log, vec!["You used item".to_string()]);

    let log = apply_command(&mut state, Command::UseItem("Health Potion".to_string()));
    assert_eq!(state.player.health, 120);
    assert_eq!(log, vec!["Object not found on inventary.".to_string()]);
}

#[test]
fn test_apply_command_quit() {
    let mut state = small_world();
    let log = apply_command(&mut state, Command::Quit);
    assert!(log.is_empty());
    assert_eq!(state.player.position, (5, 5));
}

#[test]
fn test_refresh_grid() {
    let mut state = small_world();
    state.refresh_grid();
    assert_eq!(state.map.grid[5][5], TileContent::Player);
}

#[test]
fn test_find_nearby_item() {
    let items = vec![
        Item::new("Mana Potion", (1, 1)),
        Item::new("Health Potion", (5, 6)),
    ];
    assert_eq!(find_nearby_item((5, 5), &items), Some(1));
    assert_eq!(find_nearby_item((8, 8), &items), None);
}
