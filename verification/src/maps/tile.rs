use vstd::prelude::*;

verus! {

/// What one cell of the grid holds. The grid is a derived render surface:
/// entity positions are authoritative and every tile is recomputed from them.
#[derive(Clone, Copy, Debug, PartialEq, Eq, Structural)]
pub enum TileContent {
    Empty,
    Player,
    NPC,
    Obstacle,
}

/// A grid cell together with a description of what stands on it.
pub struct Tile {
    pub content: TileContent,
    pub description: String,
}

impl TileContent {
    /// The single glyph this tile renders as.
    pub open spec fn glyph(self) -> char {
        match self {
            TileContent::Player => '@',
            TileContent::NPC => 'N',
            TileContent::Empty => '.',
            TileContent::Obstacle => '#',
        }
    }

    pub fn to_char(self) -> (c: char)
        ensures
            c == self.glyph(),
    {
        match self {
            TileContent::Player => '@',
            TileContent::NPC => 'N',
            TileContent::Empty => '.',
            TileContent::Obstacle => '#',
        }
    }
}

} // verus!
