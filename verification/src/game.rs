use vstd::prelude::*;
use vstd::string::StringExecFns;

use rand::Rng;

use crate::entities::npc::NPC;
use crate::entities::player::{combat_healths, combat_transcript, Player, PlayerStatus};
use crate::inventory::item::{effect_applied, first_item_index, has_item, Item};
use crate::maps::maps::{chebyshev_adjacent, Maps};
use crate::text::str_eq;

verus! {

/// Relies on rand's `Rng::gen_range` over a `usize` range: on a
/// non-empty range `lo..hi` it returns a value at least `lo` and below
/// `hi`; it panics only on an empty range, which the precondition rules
/// out. Nothing more is assumed of the drawn value.
#[verifier::external_body]
fn random_in_range(lo: usize, hi: usize) -> (r: usize)
    requires
        lo < hi,
    ensures
        lo <= r < hi,
{
    rand::thread_rng().gen_range(lo..hi)
}

/// One discrete input command for the interaction loop.
#[derive(Debug)]
pub enum Command {
    MoveUp,
    MoveDown,
    MoveLeft,
    MoveRight,
    Train,
    PickUp,
    Fight,
    Interact,
    UseItem(String),
    Quit,
}

/// The whole mutable world: the player, the grid projection, and the
/// collections of active NPCs and on-floor items.
pub struct GameState {
    pub player: Player,
    pub map: Maps,
    pub npcs: Vec<NPC>,
    pub items: Vec<Item>,
}

/// Some NPC of the collection stands within Chebyshev distance 1 of
/// the position.
pub open spec fn has_adjacent_npc(npcs: Seq<NPC>, pos: (usize, usize)) -> bool {
    exists|i: int| 0 <= i < npcs.len() && chebyshev_adjacent((#[trigger] npcs[i]).position, pos)
}

/// The index of the first NPC within Chebyshev distance 1 of the
/// position (meaningful only when `has_adjacent_npc` holds).
pub open spec fn first_adjacent_npc(npcs: Seq<NPC>, pos: (usize, usize)) -> int
    decreases npcs.len(),
{
    if npcs.len() == 0 {
        0
    } else if chebyshev_adjacent(npcs[0].position, pos) {
        0
    } else {
        1 + first_adjacent_npc(npcs.drop_first(), pos)
    }
}

/// An adjacent index with no adjacent index before it is the first one.
proof fn lemma_first_adjacent_npc(npcs: Seq<NPC>, pos: (usize, usize), k: int)
    requires
        0 <= k < npcs.len(),
        chebyshev_adjacent(npcs[k].position, pos),
        forall|j: int| 0 <= j < k ==> !chebyshev_adjacent((#[trigger] npcs[j]).position, pos),
    ensures
        first_adjacent_npc(npcs, pos) == k,
        has_adjacent_npc(npcs, pos),
    decreases k,
{
    if k == 0 {
    } else {
        assert(npcs.drop_first()[k - 1] == npcs[k]);
        assert(forall|j: int|
            0 <= j < k - 1 ==> (#[trigger] npcs.drop_first()[j]) == npcs[j + 1]);
        lemma_first_adjacent_npc(npcs.drop_first(), pos, k - 1);
    }
}

/// Some item of the collection lies within Chebyshev distance 1 of the
/// position.
pub open spec fn has_adjacent_item(items: Seq<Item>, pos: (usize, usize)) -> bool {
    exists|i: int| 0 <= i < items.len() && chebyshev_adjacent((#[trigger] items[i]).position, pos)
}

/// The index of the first item within Chebyshev distance 1 of the
/// position (meaningful only when `has_adjacent_item` holds).
pub open spec fn first_adjacent_item(items: Seq<Item>, pos: (usize, usize)) -> int
    decreases items.len(),
{
    if items.len() == 0 {
        0
    } else if chebyshev_adjacent(items[0].position, pos) {
        0
    } else {
        1 + first_adjacent_item(items.drop_first(), pos)
    }
}

/// An adjacent index with no adjacent index before it is the first one.
proof fn lemma_first_adjacent_item(items: Seq<Item>, pos: (usize, usize), k: int)
    requires
        0 <= k < items.len(),
        chebyshev_adjacent(items[k].position, pos),
        forall|j: int| 0 <= j < k ==> !chebyshev_adjacent((#[trigger] items[j]).position, pos),
    ensures
        first_adjacent_item(items, pos) == k,
        has_adjacent_item(items, pos),
    decreases k,
{
    if k == 0 {
    } else {
        assert(items.drop_first()[k - 1] == items[k]);
        assert(forall|j: int|
            0 <= j < k - 1 ==> (#[trigger] items.drop_first()[j]) == items[j + 1]);
        lemma_first_adjacent_item(items.drop_first(), pos, k - 1);
    }
}

/// Returns the first item, in collection order, lying within Chebyshev
/// distance 1 of the position; `None` when no item is that close.
pub fn find_nearby_item(player_position: (usize, usize), items: &Vec<Item>) -> (r: Option<usize>)
    ensures
        match r {
            Some(i) => {
                &&& i < items@.len()
                &&& i == first_adjacent_item(items@, player_position)
                &&& has_adjacent_item(items@, player_position)
            },
            None => !has_adjacent_item(items@, player_position),
        },
{
    let mut k: usize = 0;
    while k < items.len()
        invariant
            k <= items@.len(),
            forall|j: int|
                0 <= j < k ==> !chebyshev_adjacent(
                    (#[trigger] items@[j]).position,
                    player_position,
                ),
        decreases items@.len() - k,
    {
        let (item_x, item_y) = items[k].position;
        let (player_x, player_y) = player_position;
        let dx_ok = if item_x >= player_x {
            item_x - player_x <= 1
        } else {
            player_x - item_x <= 1
        };
        let dy_ok = if item_y >= player_y {
            item_y - player_y <= 1
        } else {
            player_y - item_y <= 1
        };
        if dx_ok && dy_ok {
            proof {
                lemma_first_adjacent_item(items@, player_position, k as int);
            }
            return Some(k);
        }
        k += 1;
    }
    None
}

/// The player after a one-cell step by (`dx`, `dy`): the step applies
/// only when the target cell lies on the grid and its tile is neither
/// an obstacle nor an NPC marker; otherwise the player is unchanged.
pub open spec fn step_result(p: Player, m: Maps, dx: int, dy: int) -> Player {
    if p.step_allowed(m, p.position.0 + dx, p.position.1 + dy) {
        Player {
            position: ((p.position.0 + dx) as usize, (p.position.1 + dy) as usize),
            ..p
        }
    } else {
        p
    }
}

/// The player after training: strength and agility rise by one each,
/// unless either would overflow, in which case nothing changes.
pub open spec fn trained(p: Player) -> Player {
    if p.strength + 1 <= i32::MAX && p.agility + 1 <= i32::MAX {
        Player {
            strength: (p.strength + 1) as i32,
            agility: (p.agility + 1) as i32,
            ..p
        }
    } else {
        p
    }
}

/// The arithmetic bounds under which an experience grant of `amount`
/// cannot overflow any counter or stat.
pub open spec fn experience_bounds_ok(p: Player, amount: int) -> bool {
    &&& p.experience + amount <= u32::MAX
    &&& p.level * 100 <= u32::MAX
    &&& (p.experience + amount >= p.level * 100 ==> {
        &&& p.level + 1 <= u32::MAX
        &&& p.health + 20 <= i32::MAX
        &&& p.mana + 10 <= i32::MAX
        &&& p.strength + 2 <= i32::MAX
        &&& p.agility + 1 <= i32::MAX
        &&& p.charisma + 1 <= i32::MAX
    })
}

/// The player after an experience grant of `amount`: experience rises,
/// a level-up fires when the threshold of `level * 100` is reached, and
/// a grant that would overflow a counter or stat is dropped whole.
pub open spec fn experience_granted(p: Player, amount: int) -> Player {
    if !experience_bounds_ok(p, amount) {
        p
    } else if p.experience + amount >= p.level * 100 {
        Player {
            level: (p.level + 1) as u32,
            experience: 0,
            health: (p.health + 20) as i32,
            mana: (p.mana + 10) as i32,
            strength: (p.strength + 2) as i32,
            agility: (p.agility + 1) as i32,
            charisma: (p.charisma + 1) as i32,
            ..p
        }
    } else {
        Player { experience: (p.experience + amount) as u32, ..p }
    }
}

/// Grants experience after checking every overflow bound, dropping the
/// grant when one fails: gameplay input never panics the game.
fn grant_experience_safely(player: &mut Player, amount: u32)
    ensures
        *final(player) == experience_granted(*old(player), amount as int),
{
    let fits_counters = amount <= u32::MAX - player.experience && player.level <= u32::MAX / 100;
    if fits_counters {
        let will_level = player.experience + amount >= player.level * 100;
        let fits_stats = !will_level || (player.level < u32::MAX && player.health <= i32::MAX - 20
            && player.mana <= i32::MAX - 10 && player.strength <= i32::MAX - 2
            && player.agility < i32::MAX && player.charisma < i32::MAX);
        if fits_stats {
            player.gain_experience(amount);
        }
    }
}

impl GameState {
    /// A well-formed world: the grid is well-formed, the player can deal
    /// damage, and every NPC still in the collection is alive and can
    /// deal damage (a defeated NPC is removed the moment it falls).
    pub open spec fn wf(self) -> bool {
        &&& self.map.wf()
        &&& self.player.strength >= 1
        &&& forall|i: int|
            0 <= i < self.npcs@.len() ==> (#[trigger] self.npcs@[i]).health >= 1
                && self.npcs@[i].strength >= 1
    }

    /// Refreshes the grid projection from the authoritative player
    /// position by marking the player's tile.
    pub fn refresh_grid(&mut self)
        requires
            old(self).map.wf(),
        ensures
            (*final(self) == (GameState { map: final(self).map, ..*old(self) })),
            final(self).map.wf(),
            final(self).map.width == old(self).map.width,
            final(self).map.height == old(self).map.height,
            forall|i: int, j: int|
                0 <= i < old(self).map.width && 0 <= j < old(self).map.height
                    ==> #[trigger] final(self).map.tile_at(i, j) == (if i
                    == old(self).player.position.0 && j == old(self).player.position.1 {
                        crate::maps::tile::TileContent::Player
                    } else {
                        old(self).map.tile_at(i, j)
                    }),
    {
        let (x, y) = self.player.position;
        self.map.update_player_position(x, y);
    }
}

/// Applies one input command to the world and returns the ordered log of
/// outcome lines it produced. Boundary violations — a blocked or
/// off-grid move, nothing nearby to fight, talk to or pick up, a missing
/// inventory item, or a grant that would overflow a counter — are
/// absorbed as no-ops with at most a log line, never as errors: gameplay
/// input cannot crash the game. The grid projection is not touched here;
/// the caller refreshes it afterwards with `refresh_grid`.
pub fn apply_command(state: &mut GameState, command: Command) -> (outcome_log: Vec<String>)
    requires
        old(state).wf(),
    ensures
        final(state).wf(),
        final(state).map == old(state).map,
        match command {
            Command::MoveUp => {
                &&& (*final(state) == (GameState { player: final(state).player, ..*old(state) }))
                &&& final(state).player == step_result(old(state).player, old(state).map, 0, -1)
                &&& outcome_log@.len() == 1
                &&& outcome_log@[0]@ == "Player moved up"@
            },
            Command::MoveDown => {
                &&& (*final(state) == (GameState { player: final(state).player, ..*old(state) }))
                &&& final(state).player == step_result(old(state).player, old(state).map, 0, 1)
                &&& outcome_log@.len() == 1
                &&& outcome_log@[0]@ == "Player moved down"@
            },
            Command::MoveLeft => {
                &&& (*final(state) == (GameState { player: final(state).player, ..*old(state) }))
                &&& final(state).player == step_result(old(state).player, old(state).map, -1, 0)
                &&& outcome_log@.len() == 1
                &&& outcome_log@[0]@ == "Player moved left"@
            },
            Command::MoveRight => {
                &&& (*final(state) == (GameState { player: final(state).player, ..*old(state) }))
                &&& final(state).player == step_result(old(state).player, old(state).map, 1, 0)
                &&& outcome_log@.len() == 1
                &&& outcome_log@[0]@ == "Player moved right"@
            },
            Command::Train => {
                &&& (*final(state) == (GameState { player: final(state).player, ..*old(state) }))
                &&& final(state).player == trained(old(state).player)
                &&& outcome_log@.len() == 1
                &&& outcome_log@[0]@ == "You train to improve your strength and agility."@
            },
            Command::PickUp => {
                if has_adjacent_item(old(state).items@, old(state).player.position) {
                    let i = first_adjacent_item(old(state).items@, old(state).player.position);
                    &&& (*final(state) == (GameState {
                        player: final(state).player,
                        items: final(state).items,
                        ..*old(state)
                    }))
                    &&& final(state).items@ == old(state).items@.remove(i)
                    &&& (final(state).player == (Player {
                        inventory: final(state).player.inventory,
                        ..old(state).player
                    }))
                    &&& final(state).player.inventory@ == old(state).player.inventory@.push(
                        old(state).items@[i],
                    )
                    &&& outcome_log@.len() == 1
                    &&& outcome_log@[0]@ == "You found a new item!"@
                } else {
                    &&& *final(state) == *old(state)
                    &&& outcome_log@.len() == 0
                }
            },
            Command::Fight => {
                if old(state).player.health < 1 {
                    &&& *final(state) == *old(state)
                    &&& outcome_log@.len() == 1
                    &&& outcome_log@[0]@ == "You are in no condition to fight."@
                } else if !has_adjacent_npc(old(state).npcs@, old(state).player.position) {
                    &&& *final(state) == *old(state)
                    &&& outcome_log@.len() == 1
                    &&& outcome_log@[0]@ == "Nothing nearby."@
                } else {
                    let i = first_adjacent_npc(old(state).npcs@, old(state).player.position);
                    let foe = old(state).npcs@[i];
                    let outcome = combat_healths(
                        old(state).player.health as int,
                        old(state).player.strength as int,
                        foe.health as int,
                        foe.strength as int,
                    );
                    let fought = (Player { health: outcome.0 as i32, ..old(state).player });
                    &&& (*final(state) == (GameState {
                        player: final(state).player,
                        npcs: final(state).npcs,
                        ..*old(state)
                    }))
                    &&& outcome_log@.len() == 1
                    &&& outcome_log@[0]@ == combat_transcript(
                        old(state).player.health as int,
                        old(state).player.strength as int,
                        foe.health as int,
                        foe.strength as int,
                    )
                    &&& if outcome.1 <= 0 {
                        &&& final(state).npcs@ == old(state).npcs@.remove(i)
                        &&& final(state).player == experience_granted(fought, 10)
                    } else {
                        // The player fell: the NPC stays and the player's
                        // status records the defeat.
                        &&& final(state).npcs@ == old(state).npcs@.update(
                            i,
                            (NPC { health: outcome.1 as i32, ..foe }),
                        )
                        &&& final(state).player == (Player {
                            status: PlayerStatus::Injured,
                            ..fought
                        })
                    }
                }
            },
            Command::Interact => {
                if has_adjacent_npc(old(state).npcs@, old(state).player.position) {
                    let i = first_adjacent_npc(old(state).npcs@, old(state).player.position);
                    &&& *final(state) == *old(state)
                    &&& outcome_log@.len() == 1
                    &&& outcome_log@[0]@ == old(state).npcs@[i].dialogue@
                } else {
                    &&& *final(state) == *old(state)
                    &&& outcome_log@.len() == 1
                    &&& outcome_log@[0]@ == "Nothing nearby."@
                }
            },
            Command::UseItem(name) => {
                if (name@ == "Health Potion"@ && old(state).player.health + 20 > i32::MAX) || (
                name@ == "Mana Potion"@ && old(state).player.mana + 15 > i32::MAX) {
                    &&& *final(state) == *old(state)
                    &&& outcome_log@.len() == 0
                } else if has_item(old(state).player.inventory@, name@) {
                    &&& (*final(state) == (GameState {
                        player: final(state).player,
                        ..*old(state)
                    }))
                    &&& (final(state).player == (Player {
                        inventory: final(state).player.inventory,
                        ..effect_applied(old(state).player, name@)
                    }))
                    &&& final(state).player.inventory@ == old(state).player.inventory@.remove(
                        first_item_index(old(state).player.inventory@, name@),
                    )
                    &&& outcome_log@.len() == 1
                    &&& outcome_log@[0]@ == "You used item"@
                } else {
                    &&& *final(state) == *old(state)
                    &&& outcome_log@.len() == 1
                    &&& outcome_log@[0]@ == "Object not found on inventary."@
                }
            },
            Command::Quit => {
                &&& *final(state) == *old(state)
                &&& outcome_log@.len() == 0
            },
        },
{
    let mut outcome_log: Vec<String> = Vec::new();
    match command {
        Command::MoveUp => {
            state.player.move_up(&state.map);
            outcome_log.push(String::from_str("Player moved up"));
        },
        Command::MoveDown => {
            state.player.move_down(&state.map);
            outcome_log.push(String::from_str("Player moved down"));
        },
        Command::MoveLeft => {
            state.player.move_left(&state.map);
            outcome_log.push(String::from_str("Player moved left"));
        },
        Command::MoveRight => {
            state.player.move_right(&state.map);
            outcome_log.push(String::from_str("Player moved right"));
        },
        Command::Train => {
            if state.player.strength < i32::MAX && state.player.agility < i32::MAX {
                Player::train_player(&mut state.player);
            }
            outcome_log.push(String::from_str("You train to improve your strength and agility."));
        },
        Command::PickUp => {
            match find_nearby_item(state.player.position, &state.items) {
                Some(item_index) => {
                    let item = state.items.remove(item_index);
                    let msg = Item::add_item(&mut state.player, item);
                    outcome_log.push(msg);
                },
                None => {},
            }
        },
        Command::Fight => {
            if state.player.health < 1 {
                outcome_log.push(String::from_str("You are in no condition to fight."));
            } else {
                match state.map.find_nearby_npc(state.player.position, &state.npcs) {
                    Some(npc_index) => {
                        proof {
                            lemma_first_adjacent_npc(
                                state.npcs@,
                                state.player.position,
                                npc_index as int,
                            );
                        }
                        let mut npc = state.npcs.remove(npc_index);
                        let combat_log = state.player.engage_in_combat(&mut npc);
                        if npc.health <= 0 {
                            // The defeated NPC stays removed; the victory pays off.
                            grant_experience_safely(&mut state.player, 10);
                        } else {
                            state.player.status = PlayerStatus::Injured;
                            state.npcs.insert(npc_index, npc);
                            proof {
                                assert(state.npcs@ =~= old(state).npcs@.update(
                                    npc_index as int,
                                    npc,
                                ));
                            }
                        }
                        outcome_log.push(combat_log);
                    },
                    None => {
                        outcome_log.push(String::from_str("Nothing nearby."));
                    },
                }
            }
        },
        Command::Interact => {
            match state.map.find_nearby_npc(state.player.position, &state.npcs) {
                Some(npc_index) => {
                    proof {
                        lemma_first_adjacent_npc(
                            state.npcs@,
                            state.player.position,
                            npc_index as int,
                        );
                    }
                    let line = state.npcs[npc_index].interact();
                    outcome_log.push(line);
                },
                None => {
                    outcome_log.push(String::from_str("Nothing nearby."));
                },
            }
        },
        Command::UseItem(name) => {
            let health_ok = !str_eq(name.as_str(), "Health Potion") || state.player.health
                <= i32::MAX - 20;
            let mana_ok = !str_eq(name.as_str(), "Mana Potion") || state.player.mana <= i32::MAX
                - 15;
            if health_ok && mana_ok {
                let msg = Item::use_item(&mut state.player, name.as_str());
                outcome_log.push(msg);
            }
        },
        Command::Quit => {},
    }
    outcome_log
}

/// Builds the initial world: a placeholder grid (the presentation layer
/// resizes it to its frame), the named player, three guards at random
/// in-bounds positions, and the two starting potions on the floor.
pub fn setup_world() -> (state: GameState)
    ensures
        state.wf(),
        state.map.width == 1 && state.map.height == 1 && state.map.all_empty(),
        state.player.name@ == "Hero"@,
        state.player.health == 100,
        state.player.mana == 50,
        state.player.level == 1,
        state.player.experience == 0,
        state.player.strength == 10,
        state.player.agility == 8,
        state.player.charisma == 5,
        state.player.inventory@ =~= Seq::<Item>::empty(),
        state.player.position == (1usize, 1usize),
        state.player.map_limits == (100usize, 100usize),
        state.npcs@.len() == 3,
        forall|i: int|
            0 <= i < 3 ==> {
                &&& (#[trigger] state.npcs@[i]).name@ == "Guard"@
                &&& state.npcs@[i].dialogue@ == "You shall not pass!"@
                &&& state.npcs@[i].health == 50
                &&& state.npcs@[i].strength == 10
                &&& 1 <= state.npcs@[i].position.0 < 70
                &&& 1 <= state.npcs@[i].position.1 < 20
            },
        state.items@.len() == 2,
        state.items@[0].name@ == "Mana Potion"@ && state.items@[0].position == (14usize, 7usize),
        state.items@[1].name@ == "Health Potion"@ && state.items@[1].position == (
            10usize,
            10usize,
        ),
{
    let map = Maps::new(1, 1);
    let player = Player::new("Hero");

    let mut npcs: Vec<NPC> = Vec::new();
    let mut guard_count: usize = 0;
    while guard_count < 3
        invariant
            guard_count <= 3,
            npcs@.len() == guard_count,
            forall|i: int|
                0 <= i < guard_count ==> {
                    &&& (#[trigger] npcs@[i]).name@ == "Guard"@
                    &&& npcs@[i].dialogue@ == "You shall not pass!"@
                    &&& npcs@[i].health == 50
                    &&& npcs@[i].strength == 10
                    &&& 1 <= npcs@[i].position.0 < 70
                    &&& 1 <= npcs@[i].position.1 < 20
                },
        decreases 3 - guard_count,
    {
        let guard_x = random_in_range(1, 70);
        let guard_y = random_in_range(1, 20);
        npcs.push(NPC::new("Guard", "You shall not pass!", (guard_x, guard_y), 50, 10));
        guard_count += 1;
    }

    let mut items: Vec<Item> = Vec::new();
    items.push(Item::new("Mana Potion", (14, 7)));
    items.push(Item::new("Health Potion", (10, 10)));

    GameState { player, map, npcs, items }
}

} // verus!
