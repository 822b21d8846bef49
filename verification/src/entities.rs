pub mod npc;
pub mod player;
