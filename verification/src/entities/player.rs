use vstd::prelude::*;
use vstd::string::StringExecFns;

use crate::entities::npc::NPC;
use crate::inventory::item::Item;
use crate::maps::maps::Maps;
use crate::maps::tile::TileContent;
use crate::text::{decimal, push_decimal_i32, push_decimal_usize};

verus! {

/// The player's coarse condition flag. Informational only: no behaviour
/// is gated on it.
#[derive(Clone, Copy, Debug, PartialEq, Eq, Structural)]
pub enum PlayerStatus {
    Normal,
    InCombat,
    Exhausted,
    Injured,
}

/// The player entity. Health is signed so that it can go negative
/// transiently during combat; the position is authoritative, grid tiles
/// are only a projection of it.
pub struct Player {
    pub name: String,
    pub health: i32,
    pub mana: i32,
    pub level: u32,
    pub experience: u32,
    pub strength: i32,
    pub agility: i32,
    pub charisma: i32,
    pub inventory: Vec<Item>,
    pub position: (usize, usize),
    pub map_limits: (usize, usize),
    pub status: PlayerStatus,
}

/// The name of a status value, as it appears in the status message.
pub open spec fn status_name(status: PlayerStatus) -> Seq<char> {
    match status {
        PlayerStatus::Normal => "Normal"@,
        PlayerStatus::InCombat => "InCombat"@,
        PlayerStatus::Exhausted => "Exhausted"@,
        PlayerStatus::Injured => "Injured"@,
    }
}

/// The sentence reported for each status value.
pub open spec fn status_report(status: PlayerStatus) -> Seq<char> {
    match status {
        PlayerStatus::Normal => "You are in good condition"@,
        PlayerStatus::InCombat => "You are in a fight!"@,
        PlayerStatus::Exhausted => "You are exhausted and need rest."@,
        PlayerStatus::Injured => "You are hurt and you need to heal."@,
    }
}

/// The message reported after a successful free move.
pub open spec fn moved_message(x: int, y: int) -> Seq<char> {
    "You moved to the position: ("@ + decimal(x) + ", "@ + decimal(y) + ")"@
}

/// The message reported when a free move runs off the map limits.
pub open spec fn edge_message() -> Seq<char> {
    "You can't move in that direction, you're at the edge of the maps."@
}

/// The log line for one player hit.
pub open spec fn player_hit_message(damage: int) -> Seq<char> {
    "You dealt "@ + decimal(damage) + " damage to the NPC!\n"@
}

/// The log line for one NPC hit.
pub open spec fn npc_hit_message(damage: int) -> Seq<char> {
    "The NPC dealt "@ + decimal(damage) + " damage to you!\n"@
}

/// The termination measure of a combat round: with a hitting player the
/// NPC's health falls every round, otherwise the NPC's retaliation makes
/// the player's health fall.
pub open spec fn combat_measure(ph: int, ps: int, nh: int) -> int {
    if ps >= 1 {
        nh
    } else {
        ph
    }
}

/// The final healths of a combat between a player with health `ph` and
/// strength `ps` and an NPC with health `nh` and strength `ns`. Rounds
/// repeat in fixed order: the player hits first; the NPC retaliates only
/// if still alive. The first pair member is the player's final health,
/// the second the NPC's. Combat is a pure function of the four starting
/// values: no randomness and no mitigation enter it.
pub open spec fn combat_healths(ph: int, ps: int, nh: int, ns: int) -> (int, int)
    decreases combat_measure(ph, ps, nh),
    when nh >= 1 && (ps >= 1 || (ns >= 1 && ph >= 1))
{
    let nh_hit = nh - ps;
    if nh_hit <= 0 {
        (ph, nh_hit)
    } else {
        let ph_hit = ph - ns;
        if ph_hit <= 0 {
            (ph_hit, nh_hit)
        } else {
            combat_healths(ph_hit, ps, nh_hit, ns)
        }
    }
}

/// The full combat log for the same combat: one line per hit, in the
/// order the hits land, closed by the line naming the side that fell.
pub open spec fn combat_transcript(ph: int, ps: int, nh: int, ns: int) -> Seq<char>
    decreases combat_measure(ph, ps, nh),
    when nh >= 1 && (ps >= 1 || (ns >= 1 && ph >= 1))
{
    let nh_hit = nh - ps;
    if nh_hit <= 0 {
        player_hit_message(ps) + "You defeated the NPC!\n"@
    } else {
        let ph_hit = ph - ns;
        if ph_hit <= 0 {
            player_hit_message(ps) + npc_hit_message(ns)
                + "You were defeated by the NPC!\n"@
        } else {
            player_hit_message(ps) + npc_hit_message(ns) + combat_transcript(
                ph_hit,
                ps,
                nh_hit,
                ns,
            )
        }
    }
}

/// Combat is deterministic: two combats started from equal health and
/// strength values on both sides resolve to the same final healths and
/// produce the same log, however often they are re-run.
pub proof fn lemma_combat_deterministic(p1: Player, n1: NPC, p2: Player, n2: NPC)
    requires
        p1.health == p2.health,
        p1.strength == p2.strength,
        n1.health == n2.health,
        n1.strength == n2.strength,
    ensures
        combat_healths(
            p1.health as int,
            p1.strength as int,
            n1.health as int,
            n1.strength as int,
        ) == combat_healths(
            p2.health as int,
            p2.strength as int,
            n2.health as int,
            n2.strength as int,
        ),
        combat_transcript(
            p1.health as int,
            p1.strength as int,
            n1.health as int,
            n1.strength as int,
        ) == combat_transcript(
            p2.health as int,
            p2.strength as int,
            n2.health as int,
            n2.strength as int,
        ),
{
}

/// Combat always resolves, and with exactly one side at health zero or
/// below: either the NPC falls and the player is still standing, or the
/// player falls to a still-standing NPC. It suffices that one side can
/// deal damage — that side's victim loses health every round until it
/// falls. Simultaneous defeat cannot happen, because the player hits
/// first and a felled NPC never retaliates.
pub proof fn lemma_combat_resolves(ph: int, ps: int, nh: int, ns: int)
    requires
        ph >= 1,
        nh >= 1,
        ps >= 1 || ns >= 1,
    ensures
        ({
            let outcome = combat_healths(ph, ps, nh, ns);
            (outcome.1 <= 0 && outcome.0 >= 1) || (outcome.0 <= 0 && outcome.1 >= 1)
        }),
    decreases combat_measure(ph, ps, nh),
{
    let nh_hit = nh - ps;
    if nh_hit <= 0 {
    } else {
        let ph_hit = ph - ns;
        if ph_hit <= 0 {
        } else {
            lemma_combat_resolves(ph_hit, ps, nh_hit, ns);
        }
    }
}

/// Appends the log line for one player hit.
fn push_player_hit(log: &mut String, damage: i32)
    requires
        damage >= 0,
    ensures
        final(log)@ == old(log)@ + player_hit_message(damage as int),
{
    log.append("You dealt ");
    push_decimal_i32(log, damage);
    log.append(" damage to the NPC!\n");
    proof {
        assert(log@ =~= old(log)@ + player_hit_message(damage as int));
    }
}

/// Appends the log line for one NPC hit.
fn push_npc_hit(log: &mut String, damage: i32)
    requires
        damage >= 0,
    ensures
        final(log)@ == old(log)@ + npc_hit_message(damage as int),
{
    log.append("The NPC dealt ");
    push_decimal_i32(log, damage);
    log.append(" damage to you!\n");
    proof {
        assert(log@ =~= old(log)@ + npc_hit_message(damage as int));
    }
}

impl Player {
    pub fn new(name: &str) -> (player: Player)
        ensures
            player.name@ == name@,
            player.health == 100,
            player.mana == 50,
            player.level == 1,
            player.experience == 0,
            player.strength == 10,
            player.agility == 8,
            player.charisma == 5,
            player.inventory@ =~= Seq::<Item>::empty(),
            player.position == (1usize, 1usize),
            player.map_limits == (100usize, 100usize),
            player.status == PlayerStatus::Normal,
    {
        Player {
            name: name.to_owned(),
            health: 100,
            mana: 50,
            level: 1,
            experience: 0,
            strength: 10,
            agility: 8,
            charisma: 5,
            inventory: Vec::new(),
            position: (1, 1),
            map_limits: (100, 100),
            status: PlayerStatus::Normal,
        }
    }

    /// A free move by (`dx`, `dy`) stays within the player's own map limits.
    pub open spec fn can_move_by(self, dx: int, dy: int) -> bool {
        &&& self.position.0 + dx < self.map_limits.0
        &&& self.position.1 + dy < self.map_limits.1
    }

    /// Moves the player by (`dx`, `dy`) when the target lies within the
    /// map limits; otherwise leaves the position unchanged. Either way the
    /// returned message says what happened.
    pub fn move_player(&mut self, dx: usize, dy: usize) -> (msg: String)
        ensures
            old(self).can_move_by(dx as int, dy as int) ==> {
                &&& (*final(self) == (Player {
                    position: (
                        (old(self).position.0 + dx) as usize,
                        (old(self).position.1 + dy) as usize,
                    ),
                    ..*old(self)
                }))
                &&& msg@ == moved_message(
                    old(self).position.0 + dx,
                    old(self).position.1 + dy,
                )
            },
            !old(self).can_move_by(dx as int, dy as int) ==> {
                &&& *final(self) == *old(self)
                &&& msg@ == edge_message()
            },
    {
        let can_x = dx < self.map_limits.0 && self.position.0 < self.map_limits.0 - dx;
        let can_y = dy < self.map_limits.1 && self.position.1 < self.map_limits.1 - dy;
        if can_x && can_y {
            self.position = (self.position.0 + dx, self.position.1 + dy);
            let mut msg = String::from_str("You moved to the position: (");
            push_decimal_usize(&mut msg, self.position.0);
            msg.append(", ");
            push_decimal_usize(&mut msg, self.position.1);
            msg.append(")");
            proof {
                assert(msg@ =~= moved_message(
                    old(self).position.0 + dx,
                    old(self).position.1 + dy,
                ));
            }
            msg
        } else {
            String::from_str("You can't move in that direction, you're at the edge of the maps.")
        }
    }

    /// Adds experience; when the total reaches the current level's
    /// threshold of `level * 100`, the player levels up once: the level
    /// rises by one, the experience resets to zero (any overshoot is
    /// discarded), and fixed stat bonuses apply. A reset always lands
    /// below the next threshold, so one grant levels up at most once.
    pub fn gain_experience(&mut self, amount: u32)
        requires
            old(self).experience + amount <= u32::MAX,
            old(self).level * 100 <= u32::MAX,
            old(self).experience + amount >= old(self).level * 100 ==> {
                &&& old(self).level + 1 <= u32::MAX
                &&& old(self).health + 20 <= i32::MAX
                &&& old(self).mana + 10 <= i32::MAX
                &&& old(self).strength + 2 <= i32::MAX
                &&& old(self).agility + 1 <= i32::MAX
                &&& old(self).charisma + 1 <= i32::MAX
            },
        ensures
            old(self).experience + amount >= old(self).level * 100 ==> (*final(self) == (Player {
                level: (old(self).level + 1) as u32,
                experience: 0,
                health: (old(self).health + 20) as i32,
                mana: (old(self).mana + 10) as i32,
                strength: (old(self).strength + 2) as i32,
                agility: (old(self).agility + 1) as i32,
                charisma: (old(self).charisma + 1) as i32,
                ..*old(self)
            })),
            old(self).experience + amount < old(self).level * 100 ==> (*final(self) == (Player {
                experience: (old(self).experience + amount) as u32,
                ..*old(self)
            })),
    {
        self.experience = self.experience + amount;
        let required_experience = self.level * 100;
        if self.experience >= required_experience {
            self.level_up();
        }
    }

    /// One level-up step: level +1, experience reset, and the fixed
    /// per-level stat bonuses.
    fn level_up(&mut self)
        requires
            old(self).level + 1 <= u32::MAX,
            old(self).health + 20 <= i32::MAX,
            old(self).mana + 10 <= i32::MAX,
            old(self).strength + 2 <= i32::MAX,
            old(self).agility + 1 <= i32::MAX,
            old(self).charisma + 1 <= i32::MAX,
        ensures
            (*final(self) == (Player {
                level: (old(self).level + 1) as u32,
                experience: 0,
                health: (old(self).health + 20) as i32,
                mana: (old(self).mana + 10) as i32,
                strength: (old(self).strength + 2) as i32,
                agility: (old(self).agility + 1) as i32,
                charisma: (old(self).charisma + 1) as i32,
                ..*old(self)
            })),
    {
        self.level = self.level + 1;
        self.experience = 0;
        self.health = self.health + 20;
        self.mana = self.mana + 10;
        self.strength = self.strength + 2;
        self.agility = self.agility + 1;
        self.charisma = self.charisma + 1;
    }

    /// Sets the status flag and reports the new status.
    pub fn set_status(&mut self, status: PlayerStatus) -> (msg: String)
        ensures
            (*final(self) == (Player { status, ..*old(self) })),
            msg@ == "Your current status is: "@ + status_name(status),
    {
        self.status = status;
        let mut msg = String::from_str("Your current status is: ");
        let name: &str = match self.status {
            PlayerStatus::Normal => "Normal",
            PlayerStatus::InCombat => "InCombat",
            PlayerStatus::Exhausted => "Exhausted",
            PlayerStatus::Injured => "Injured",
        };
        msg.append(name);
        msg
    }

    /// Reports the sentence for the current status.
    pub fn check_status(&self) -> (msg: String)
        ensures
            msg@ == status_report(self.status),
    {
        match self.status {
            PlayerStatus::Normal => String::from_str("You are in good condition"),
            PlayerStatus::InCombat => String::from_str("You are in a fight!"),
            PlayerStatus::Exhausted => String::from_str("You are exhausted and need rest."),
            PlayerStatus::Injured => String::from_str("You are hurt and you need to heal."),
        }
    }

    /// The damage the player deals with one hit.
    fn attack(&self) -> (damage: i32)
        ensures
            damage == self.strength,
    {
        self.strength
    }

    /// A one-cell step to (`x`, `y`) is allowed: the candidate cell lies
    /// on the grid and its tile is not an obstacle or NPC marker. A
    /// stale player marker does not block: the grid is a projection
    /// that may lag behind the authoritative position.
    pub open spec fn step_allowed(self, map: Maps, x: int, y: int) -> bool {
        &&& map.spec_in_bounds(x, y)
        &&& map.tile_at(x, y) != TileContent::Obstacle
        &&& map.tile_at(x, y) != TileContent::NPC
    }

    /// Steps one cell up (towards row zero) when the target cell is on
    /// the grid and not blocked; otherwise the position is unchanged.
    pub fn move_up(&mut self, map: &Maps)
        requires
            map.wf(),
        ensures
            old(self).position.1 >= 1 && old(self).step_allowed(
                *map,
                old(self).position.0 as int,
                old(self).position.1 - 1,
            ) ==> (*final(self) == (Player {
                position: (old(self).position.0, (old(self).position.1 - 1) as usize),
                ..*old(self)
            })),
            !(old(self).position.1 >= 1 && old(self).step_allowed(
                *map,
                old(self).position.0 as int,
                old(self).position.1 - 1,
            )) ==> *final(self) == *old(self),
    {
        if self.position.1 > 0 && map.in_bounds(self.position.0, self.position.1 - 1)
            && map.is_walkable(self.position.0, self.position.1 - 1) {
            self.position = (self.position.0, self.position.1 - 1);
        }
    }

    /// Steps one cell down when the target cell is on the grid and not
    /// blocked; otherwise the position is unchanged.
    pub fn move_down(&mut self, map: &Maps)
        requires
            map.wf(),
        ensures
            old(self).step_allowed(
                *map,
                old(self).position.0 as int,
                old(self).position.1 + 1,
            ) ==> (*final(self) == (Player {
                position: (old(self).position.0, (old(self).position.1 + 1) as usize),
                ..*old(self)
            })),
            !old(self).step_allowed(
                *map,
                old(self).position.0 as int,
                old(self).position.1 + 1,
            ) ==> *final(self) == *old(self),
    {
        if self.position.1 < map.height() - 1 && self.position.0 < map.width()
            && map.is_walkable(self.position.0, self.position.1 + 1) {
            self.position = (self.position.0, self.position.1 + 1);
        }
    }

    /// Steps one cell left when the target cell is on the grid and not
    /// blocked; otherwise the position is unchanged.
    pub fn move_left(&mut self, map: &Maps)
        requires
            map.wf(),
        ensures
            old(self).position.0 >= 1 && old(self).step_allowed(
                *map,
                old(self).position.0 - 1,
                old(self).position.1 as int,
            ) ==> (*final(self) == (Player {
                position: ((old(self).position.0 - 1) as usize, old(self).position.1),
                ..*old(self)
            })),
            !(old(self).position.0 >= 1 && old(self).step_allowed(
                *map,
                old(self).position.0 - 1,
                old(self).position.1 as int,
            )) ==> *final(self) == *old(self),
    {
        if self.position.0 > 0 && map.in_bounds(self.position.0 - 1, self.position.1)
            && map.is_walkable(self.position.0 - 1, self.position.1) {
            self.position = (self.position.0 - 1, self.position.1);
        }
    }

    /// Steps one cell right when the target cell is on the grid and not
    /// blocked; otherwise the position is unchanged.
    pub fn move_right(&mut self, map: &Maps)
        requires
            map.wf(),
        ensures
            old(self).step_allowed(
                *map,
                old(self).position.0 + 1,
                old(self).position.1 as int,
            ) ==> (*final(self) == (Player {
                position: ((old(self).position.0 + 1) as usize, old(self).position.1),
                ..*old(self)
            })),
            !old(self).step_allowed(
                *map,
                old(self).position.0 + 1,
                old(self).position.1 as int,
            ) ==> *final(self) == *old(self),
    {
        if self.position.0 < map.width() - 1 && self.position.1 < map.height()
            && map.is_walkable(self.position.0 + 1, self.position.1) {
            self.position = (self.position.0 + 1, self.position.1);
        }
    }

    /// Fights the NPC to resolution: rounds of fixed order (player hits
    /// first, the NPC retaliates only while alive) repeat until one
    /// side's health drops to zero or below. Both healths are mutated in
    /// place; the returned log lists every hit and the outcome. The
    /// caller removes a defeated NPC from its collection. Both sides
    /// must enter alive, and at least one must be able to deal damage,
    /// or no round could end the exchange.
    pub fn engage_in_combat(&mut self, npc: &mut NPC) -> (combat_log: String)
        requires
            old(self).health >= 1,
            old(npc).health >= 1,
            old(self).strength >= 0,
            old(npc).strength >= 0,
            old(self).strength >= 1 || old(npc).strength >= 1,
        ensures
            (*final(self) == (Player { health: final(self).health, ..*old(self) })),
            (*final(npc) == (NPC { health: final(npc).health, ..*old(npc) })),
            (final(self).health as int, final(npc).health as int) == combat_healths(
                old(self).health as int,
                old(self).strength as int,
                old(npc).health as int,
                old(npc).strength as int,
            ),
            combat_log@ == combat_transcript(
                old(self).health as int,
                old(self).strength as int,
                old(npc).health as int,
                old(npc).strength as int,
            ),
    {
        let mut combat_log = String::new();
        let ghost orig_self = *self;
        let ghost orig_npc = *npc;
        let ghost full_healths = combat_healths(
            orig_self.health as int,
            orig_self.strength as int,
            orig_npc.health as int,
            orig_npc.strength as int,
        );
        let ghost full_transcript = combat_transcript(
            orig_self.health as int,
            orig_self.strength as int,
            orig_npc.health as int,
            orig_npc.strength as int,
        );
        proof {
            assert(combat_log@ + full_transcript =~= full_transcript);
        }
        while self.health > 0 && npc.health > 0
            invariant
                (*self == (Player { health: self.health, ..orig_self })),
                (*npc == (NPC { health: npc.health, ..orig_npc })),
                self.strength >= 0,
                npc.strength >= 0,
                self.strength >= 1 || npc.strength >= 1,
                if self.health > 0 && npc.health > 0 {
                    &&& full_healths == combat_healths(
                        self.health as int,
                        self.strength as int,
                        npc.health as int,
                        npc.strength as int,
                    )
                    &&& full_transcript == combat_log@ + combat_transcript(
                        self.health as int,
                        self.strength as int,
                        npc.health as int,
                        npc.strength as int,
                    )
                } else {
                    &&& full_healths == (self.health as int, npc.health as int)
                    &&& full_transcript == combat_log@ + (if npc.health <= 0 {
                        "You defeated the NPC!\n"@
                    } else {
                        "You were defeated by the NPC!\n"@
                    })
                },
            decreases vstd::math::max(
                combat_measure(self.health as int, self.strength as int, npc.health as int),
                0,
            ),
        {
            let ghost head_ph = self.health as int;
            let ghost head_nh = npc.health as int;
            let ghost pre = combat_log@;

            // The player hits first.
            let player_damage = self.attack();
            npc.health = npc.health - player_damage;
            push_player_hit(&mut combat_log, player_damage);

            if npc.health > 0 {
                // The NPC is still standing and retaliates.
                let npc_damage = npc.attack();
                self.health = self.health - npc_damage;
                push_npc_hit(&mut combat_log, npc_damage);
                proof {
                    if self.health > 0 {
                        assert(full_transcript =~= combat_log@ + combat_transcript(
                            self.health as int,
                            self.strength as int,
                            npc.health as int,
                            npc.strength as int,
                        )) by {
                            assert(combat_transcript(
                                head_ph,
                                self.strength as int,
                                head_nh,
                                npc.strength as int,
                            ) =~= player_hit_message(self.strength as int) + npc_hit_message(
                                npc.strength as int,
                            ) + combat_transcript(
                                self.health as int,
                                self.strength as int,
                                npc.health as int,
                                npc.strength as int,
                            ));
                        }
                    } else {
                        assert(full_transcript =~= combat_log@
                            + "You were defeated by the NPC!\n"@) by {
                            assert(combat_transcript(
                                head_ph,
                                self.strength as int,
                                head_nh,
                                npc.strength as int,
                            ) =~= player_hit_message(self.strength as int) + npc_hit_message(
                                npc.strength as int,
                            ) + "You were defeated by the NPC!\n"@);
                        }
                    }
                }
            } else {
                proof {
                    assert(full_transcript =~= combat_log@ + "You defeated the NPC!\n"@) by {
                        assert(combat_transcript(
                            head_ph,
                            self.strength as int,
                            head_nh,
                            npc.strength as int,
                        ) =~= player_hit_message(self.strength as int)
                            + "You defeated the NPC!\n"@);
                    }
                }
            }
        }
        let ghost pre = combat_log@;
        if npc.health <= 0 {
            combat_log.append("You defeated the NPC!\n");
        } else {
            combat_log.append("You were defeated by the NPC!\n");
        }
        proof {
            assert(combat_log@ =~= full_transcript);
        }
        combat_log
    }

    /// Training raises strength and agility by one each.
    pub fn train_player(player: &mut Player)
        requires
            old(player).strength + 1 <= i32::MAX,
            old(player).agility + 1 <= i32::MAX,
        ensures
            (*final(player) == (Player {
                strength: (old(player).strength + 1) as i32,
                agility: (old(player).agility + 1) as i32,
                ..*old(player)
            })),
    {
        player.strength = player.strength + 1;
        player.agility = player.agility + 1;
    }
}

} // verus!
