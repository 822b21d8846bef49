use ultima_console::entities::npc::NPC;
use ultima_console::entities::player::Player;
use ultima_console::game::GameState;
use ultima_console::maps::maps::Maps;
use ultima_console::quest::quest::Quest;
use ultima_console::ui::{render_snapshot, UIState};

#[test]
fn test_ui_state_new() {
    let ui = UIState::new(4);
    assert_eq!(ui.command_input, "");
    assert!(ui.log_buffer.is_empty());
    assert_eq!(ui.max_log_lines, 4);
}

#[test]
fn test_add_log_keeps_latest() {
    let mut ui = UIState::new(4);
    ui.add_log("first".to_string());
    assert_eq!(ui.get_log(), "first");
    ui.add_log("second".to_string());
    assert_eq!(ui.get_log(), "second");
    assert_eq!(ui.log_buffer.len(), 1);
}

#[test]
fn test_get_log_joins() {
    let mut ui = UIState::new(4);
    ui.log_buffer.push_back("one".to_string());
    ui.log_buffer.push_back("two".to_string());
    ui.log_buffer.push_back("three".to_string());
    assert_eq!(ui.get_log(), "one | two | three");
}

#[test]
fn test_get_log_empty() {
    let ui = UIState::new(4);
    assert_eq!(ui.get_log(), "");
}

#[test]
fn test_render_snapshot() {
    let mut player = Player::new("Hero");
    player.position = (0, 0);
    player
        .inventory
        .push(ultima_console::inventory::item::Item::new("Health Potion", (3, 3)));
    let state = GameState {
        player,
        map: Maps::new(3, 2),
        npcs: vec![NPC::new("Guard", "Halt!", (2, 0), 50, 10)],
        items: Vec::new(),
    };
    let mut ui = UIState::new(4);
    ui.add_log("ready".to_string());

    let snap = render_snapshot(&state, &ui);
    assert_eq!(snap.grid_text, "@.N\n...\n");
    assert_eq!(
        snap.player_stats,
        "Name: Hero\nHealth: 100\nStrength: 10\nAgility: 8\nExperience: 0"
    );
    assert_eq!(snap.inventory, vec!["Health Potion".to_string()]);
    assert_eq!(snap.recent_log, "ready");
}

#[test]
fn test_render_snapshot_negative_health() {
    let mut player = Player::new("Hero");
    player.position = (0, 0);
    player.health = -5;
    let state = GameState {
        player,
        map: Maps::new(2, 1),
        npcs: Vec::new(),
        items: Vec::new(),
    };
    let ui = UIState::new(4);

    let snap = render_snapshot(&state, &ui);
    assert!(snap.player_stats.contains("Health: -5"));
}

#[test]
fn test_quest() {
    let quest = Quest::new("The Lost Amulet", "Find the amulet.");
    assert_eq!(quest.title, "The Lost Amulet");
    assert_eq!(quest.description, "Find the amulet.");
    assert_eq!(quest.start(), "Quest started: The Lost Amulet");
}

#[test]
fn test_npc_basics() {
    let npc = NPC::new("Guard", "You shall not pass!", (5, 5), 50, 10);
    assert_eq!(npc.name, "Guard");
    assert_eq!(npc.position, (5, 5));
    assert_eq!(npc.attack(), 10);
    assert_eq!(npc.interact(), "You shall not pass!");
}
