use ultima_console::entities::npc::NPC;
use ultima_console::entities::player::{Player, PlayerStatus};
use ultima_console::maps::maps::Maps;
use ultima_console::maps::tile::TileContent;

#[test]
fn test_new_player() {
    let player = Player::new("Test Player");
    assert_eq!(player.name, "Test Player");
    assert_eq!(player.health, 100);
    assert_eq!(player.mana, 50);
    assert_eq!(player.level, 1);
    assert_eq!(player.experience, 0);
    assert_eq!(player.strength, 10);
    assert_eq!(player.agility, 8);
    assert_eq!(player.charisma, 5);
    assert_eq!(player.inventory.len(), 0);
    assert_eq!(player.position, (1, 1));
    assert_eq!(player.map_limits, (100, 100));
}

#[test]
fn test_move_player() {
    let mut player = Player::new("Test Player");
    player.move_player(1, 1);
    assert_eq!(player.position, (2, 2));

    player.move_player(100, 100);
    assert_ne!(player.position, (102, 102));
}

#[test]
fn test_move_player_messages() {
    let mut player = Player::new("Test Player");
    let msg = player.move_player(9, 41);
    assert_eq!(msg, "You moved to the position: (10, 42)");

    let msg = player.move_player(100, 100);
    assert_eq!(
        msg,
        "You can't move in that direction, you're at the edge of the maps."
    );
    assert_eq!(player.position, (10, 42));
}

#[test]
fn test_gain_experience() {
    let mut player = Player::new("Test Player");
    player.gain_experience(50);
    assert_eq!(player.experience, 50);
    assert_eq!(player.level, 1);

    player.gain_experience(50);
    assert_eq!(player.experience, 0);
    assert_eq!(player.level, 2);
    assert_eq!(player.health, 120);
    assert_eq!(player.mana, 60);
    assert_eq!(player.strength, 12);
    assert_eq!(player.agility, 9);
    assert_eq!(player.charisma, 6);
}

#[test]
fn test_experience_overshoot_discarded() {
    // One large grant crosses the level-1 threshold; the overshoot is
    // discarded on level-up, so a second threshold cannot fire from it.
    let mut player = Player::new("Test Player");
    player.gain_experience(250);
    assert_eq!(player.level, 2);
    assert_eq!(player.experience, 0);
    assert_eq!(player.health, 120);
    assert_eq!(player.mana, 60);
    assert_eq!(player.strength, 12);
    assert_eq!(player.agility, 9);
    assert_eq!(player.charisma, 6);
}

#[test]
fn test_set_status() {
    let mut player = Player::new("Test Player");
    player.set_status(PlayerStatus::InCombat);
    assert_eq!(player.status, PlayerStatus::InCombat);

    player.set_status(PlayerStatus::Exhausted);
    assert_eq!(player.status, PlayerStatus::Exhausted);
}

#[test]
fn test_check_status() {
    let mut player = Player::new("Test Player");
    player.set_status(PlayerStatus::Normal);
    player.check_status();

    player.set_status(PlayerStatus::InCombat);
    player.check_status();

    player.set_status(PlayerStatus::Exhausted);
    player.check_status();

    player.set_status(PlayerStatus::Injured);
    player.check_status();
}

#[test]
fn test_status_messages() {
    let mut player = Player::new("Test Player");
    assert_eq!(
        player.set_status(PlayerStatus::InCombat),
        "Your current status is: InCombat"
    );
    assert_eq!(player.check_status(), "You are in a fight!");
    player.set_status(PlayerStatus::Injured);
    assert_eq!(player.check_status(), "You are hurt and you need to heal.");
}

#[test]
fn test_engage_in_combat() {
    let mut player = Player::new("Test Player");
    let mut npc = NPC::new("Test NPC", "You shall not pass!", (5, 5), 50, 10);

    let combat_log = player.engage_in_combat(&mut npc);
    assert!(combat_log.contains("You dealt"));
    assert!(combat_log.contains("The NPC dealt"));

    assert!(player.health <= 100);
    assert!(npc.health <= 50);
}

#[test]
fn test_combat_example() {
    // Player(health=100, strength=10) against NPC(health=50, strength=10):
    // five player hits fell the NPC; the NPC retaliates only four times,
    // because it never strikes back once defeated.
    let mut player = Player::new("Test Player");
    let mut npc = NPC::new("Test NPC", "You shall not pass!", (5, 5), 50, 10);

    let combat_log = player.engage_in_combat(&mut npc);
    assert_eq!(npc.health, 0);
    assert_eq!(player.health, 60);
    let round = "You dealt 10 damage to the NPC!\nThe NPC dealt 10 damage to you!\n";
    let expected = format!(
        "{}{}{}{}You dealt 10 damage to the NPC!\nYou defeated the NPC!\n",
        round, round, round, round
    );
    assert_eq!(combat_log, expected);
}

#[test]
fn test_combat_is_deterministic() {
    let run = || {
        let mut player = Player::new("Test Player");
        let mut npc = NPC::new("Test NPC", "You shall not pass!", (5, 5), 47, 9);
        let log = player.engage_in_combat(&mut npc);
        (player.health, npc.health, log)
    };
    let first = run();
    let second = run();
    assert_eq!(first, second);
}

#[test]
fn test_combat_player_defeat() {
    let mut player = Player::new("Test Player");
    player.health = 20;
    let mut npc = NPC::new("Test NPC", "You shall not pass!", (5, 5), 50, 30);

    let combat_log = player.engage_in_combat(&mut npc);
    assert!(player.health <= 0);
    assert!(npc.health > 0);
    assert!(combat_log.ends_with("You were defeated by the NPC!\n"));
}

#[test]
fn test_train_player() {
    let mut player = Player::new("Test Player");
    let original_strength = player.strength;
    let original_agility = player.agility;

    Player::train_player(&mut player);
    assert_eq!(player.strength, original_strength + 1);
    assert_eq!(player.agility, original_agility + 1);
}

#[test]
fn test_move_up_down_left_right() {
    let mut player = Player::new("Test Player");
    let maps = Maps::new(10, 10);

    // Move up
    player.position = (5, 5);
    player.move_up(&maps);
    assert_eq!(player.position, (5, 4));

    // Move down
    player.move_down(&maps);
    assert_eq!(player.position, (5, 5));

    // Move left
    player.move_left(&maps);
    assert_eq!(player.position, (4, 5));

    // Move right
    player.move_right(&maps);
    assert_eq!(player.position, (5, 5));
}

#[test]
fn test_moves_blocked_at_grid_edge() {
    let mut player = Player::new("Test Player");
    let maps = Maps::new(3, 3);

    player.position = (0, 0);
    player.move_up(&maps);
    assert_eq!(player.position, (0, 0));
    player.move_left(&maps);
    assert_eq!(player.position, (0, 0));

    player.position = (2, 2);
    player.move_down(&maps);
    assert_eq!(player.position, (2, 2));
    player.move_right(&maps);
    assert_eq!(player.position, (2, 2));
}

#[test]
fn test_move_onto_stale_player_marker() {
    // The grid is a projection that can lag behind the authoritative
    // position; a leftover player marker must not wall the player in.
    let mut player = Player::new("Test Player");
    let mut maps = Maps::new(10, 10);
    maps.update_player_position(5, 5);
    player.position = (5, 5);
    player.move_up(&maps);
    assert_eq!(player.position, (5, 4));
    player.move_down(&maps);
    assert_eq!(player.position, (5, 5));
}

#[test]
fn test_combat_with_harmless_player() {
    // A player who deals no damage still sees combat resolve: the NPC's
    // retaliation ends it.
    let mut player = Player::new("Test Player");
    player.strength = 0;
    let mut npc = NPC::new("Test NPC", "You shall not pass!", (5, 5), 50, 10);

    let combat_log = player.engage_in_combat(&mut npc);
    assert_eq!(player.health, 0);
    assert_eq!(npc.health, 50);
    assert!(combat_log.contains("You dealt 0 damage to the NPC!\n"));
    assert!(combat_log.ends_with("You were defeated by the NPC!\n"));
}

#[test]
fn test_moves_blocked_by_occupied_tile() {
    let mut player = Player::new("Test Player");
    let mut maps = Maps::new(10, 10);
    maps.grid[4][5] = TileContent::Obstacle;
    maps.grid[6][5] = TileContent::NPC;

    player.position = (5, 5);
    player.move_up(&maps);
    assert_eq!(player.position, (5, 5));
    player.move_down(&maps);
    assert_eq!(player.position, (5, 5));
    player.move_left(&maps);
    assert_eq!(player.position, (4, 5));
}
