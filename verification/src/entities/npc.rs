use vstd::prelude::*;

verus! {

/// A non-player character: fixed dialogue, a grid position, and the two
/// stats combat reads. Health is signed so that it can go negative
/// transiently; the owner of the NPC collection removes an NPC as soon as
/// its health drops to zero or below.
#[derive(Debug)]
pub struct NPC {
    pub name: String,
    pub dialogue: String,
    pub position: (usize, usize),
    pub health: i32,
    pub strength: i32,
}

impl NPC {
    pub fn new(name: &str, dialogue: &str, position: (usize, usize), health: i32, strength: i32) -> (npc: NPC)
        ensures
            npc.name@ == name@,
            npc.dialogue@ == dialogue@,
            npc.position == position,
            npc.health == health,
            npc.strength == strength,
    {
        NPC {
            name: name.to_owned(),
            dialogue: dialogue.to_owned(),
            position,
            health,
            strength,
        }
    }

    /// The damage this NPC deals with one hit.
    pub fn attack(&self) -> (damage: i32)
        ensures
            damage == self.strength,
    {
        self.strength
    }

    /// Talking to an NPC yields its dialogue line.
    pub fn interact(&self) -> (line: String)
        ensures
            line@ == self.dialogue@,
    {
        self.dialogue.clone()
    }
}

} // verus!
