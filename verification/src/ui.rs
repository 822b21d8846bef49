use std::collections::VecDeque;

use vstd::prelude::*;
use vstd::string::StringExecFns;

use crate::entities::player::Player;
use crate::game::GameState;
use crate::text::{decimal, decimal_signed, push_decimal_u64, push_signed_decimal_i32};

verus! {

/// The outcome-log side of the presentation state: a buffer of recent
/// log lines and the text the user has typed. `add_log` drops the
/// oldest buffered line before appending, so the buffer it maintains
/// never grows past one line; `max_log_lines` records how much room
/// the display offers.
pub struct UIState {
    pub command_input: String,
    pub log_buffer: VecDeque<String>,
    pub max_log_lines: usize,
}

/// The log lines joined with " | " between them.
pub open spec fn joined_from(msgs: Seq<String>, i: int) -> Seq<char>
    decreases msgs.len() - i,
    when 0 <= i <= msgs.len()
{
    if i == msgs.len() {
        Seq::empty()
    } else if i == msgs.len() - 1 {
        msgs[i]@
    } else {
        msgs[i]@ + " | "@ + joined_from(msgs, i + 1)
    }
}

/// The whole log buffer joined with " | " between the lines.
pub open spec fn joined(msgs: Seq<String>) -> Seq<char> {
    joined_from(msgs, 0)
}

impl UIState {
    pub fn new(max_log_lines: usize) -> (ui: UIState)
        ensures
            ui.command_input@ == Seq::<char>::empty(),
            ui.log_buffer@ == Seq::<String>::empty(),
            ui.max_log_lines == max_log_lines,
    {
        UIState {
            command_input: String::new(),
            log_buffer: VecDeque::with_capacity(max_log_lines),
            max_log_lines,
        }
    }

    /// Appends a log line, first dropping the oldest line if any is
    /// buffered: the buffer never grows past one line.
    pub fn add_log(&mut self, message: String)
        ensures
            (*final(self) == (UIState { log_buffer: final(self).log_buffer, ..*old(self) })),
            old(self).log_buffer@.len() == 0 ==> final(self).log_buffer@ =~= seq![message],
            old(self).log_buffer@.len() > 0 ==> final(self).log_buffer@
                =~= old(self).log_buffer@.subrange(1, old(self).log_buffer@.len() as int).push(
                message,
            ),
    {
        if self.log_buffer.len() > 0 {
            self.log_buffer.pop_front();
        }
        self.log_buffer.push_back(message);
    }

    /// The buffered log lines as one string, separated by " | ".
    pub fn get_log(&self) -> (log: String)
        ensures
            log@ == joined(self.log_buffer@),
    {
        let mut log = String::new();
        let line_count = self.log_buffer.len();
        let ghost msgs = self.log_buffer@;
        let mut k: usize = 0;
        while k < line_count
            invariant
                line_count == msgs.len(),
                msgs == self.log_buffer@,
                k <= line_count,
                k == 0 ==> log@ =~= Seq::<char>::empty(),
                0 < k < line_count ==> joined(msgs) == log@ + " | "@ + joined_from(msgs, k as int),
                k == line_count && k > 0 ==> joined(msgs) == log@,
            decreases line_count - k,
        {
            let ghost pre = log@;
            if k > 0 {
                log.append(" | ");
            }
            log.append(self.log_buffer[k].as_str());
            proof {
                if k == 0 {
                    assert(log@ =~= msgs[0]@);
                    if line_count > 1 {
                        assert(joined(msgs) == log@ + " | "@ + joined_from(msgs, 1)) by {
                            assert(joined_from(msgs, 0) =~= msgs[0]@ + " | "@ + joined_from(
                                msgs,
                                1,
                            ));
                        }
                    }
                } else {
                    assert(log@ =~= pre + " | "@ + msgs[k as int]@);
                    if k as int == line_count - 1 {
                        assert(joined_from(msgs, k as int) == msgs[k as int]@);
                        assert(joined(msgs) =~= log@);
                    } else {
                        assert(joined_from(msgs, k as int) =~= msgs[k as int]@ + " | "@
                            + joined_from(msgs, k as int + 1));
                        assert(joined(msgs) =~= log@ + " | "@ + joined_from(msgs, k as int + 1));
                    }
                }
            }
            k += 1;
        }
        log
    }
}

/// The stats panel text for a player.
pub open spec fn stats_text(p: Player) -> Seq<char> {
    "Name: "@ + p.name@ + "\nHealth: "@ + decimal_signed(p.health as int) + "\nStrength: "@
        + decimal_signed(p.strength as int) + "\nAgility: "@ + decimal_signed(p.agility as int)
        + "\nExperience: "@ + decimal(p.experience as int)
}

/// Everything the presentation layer renders in one frame: the grid as
/// text, the stats panel, the carried item names, and the recent log.
pub struct Snapshot {
    pub grid_text: String,
    pub player_stats: String,
    pub inventory: Vec<String>,
    pub recent_log: String,
}

/// Assembles one frame's worth of presentation data from the world and
/// the log buffer. The core keeps no reference to it: the presentation
/// layer only renders what it is handed.
pub fn render_snapshot(state: &GameState, ui: &UIState) -> (snap: Snapshot)
    requires
        state.map.wf(),
    ensures
        snap.grid_text@ == state.map.spec_render(state.player.position, state.npcs@),
        snap.player_stats@ == stats_text(state.player),
        snap.inventory@.len() == state.player.inventory@.len(),
        forall|i: int|
            0 <= i < snap.inventory@.len() ==> (#[trigger] snap.inventory@[i])@
                == state.player.inventory@[i].name@,
        snap.recent_log@ == joined(ui.log_buffer@),
{
    let grid_text = state.map.draw(state.player.position, &state.npcs);

    let mut player_stats = String::from_str("Name: ");
    player_stats.append(state.player.name.as_str());
    player_stats.append("\nHealth: ");
    push_signed_decimal_i32(&mut player_stats, state.player.health);
    player_stats.append("\nStrength: ");
    push_signed_decimal_i32(&mut player_stats, state.player.strength);
    player_stats.append("\nAgility: ");
    push_signed_decimal_i32(&mut player_stats, state.player.agility);
    player_stats.append("\nExperience: ");
    push_decimal_u64(&mut player_stats, state.player.experience as u64);
    proof {
        assert(player_stats@ =~= stats_text(state.player));
    }

    let mut inventory: Vec<String> = Vec::new();
    let mut k: usize = 0;
    let carried = state.player.inventory.len();
    while k < carried
        invariant
            carried == state.player.inventory@.len(),
            k <= carried,
            inventory@.len() == k,
            forall|i: int|
                0 <= i < k ==> (#[trigger] inventory@[i])@ == state.player.inventory@[i].name@,
        decreases carried - k,
    {
        inventory.push(state.player.inventory[k].name.clone());
        k += 1;
    }

    let recent_log = ui.get_log();
    Snapshot { grid_text, player_stats, inventory, recent_log }
}

} // verus!
