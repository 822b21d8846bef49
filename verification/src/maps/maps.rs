use vstd::prelude::*;
use vstd::string::StringExecFns;

use crate::entities::npc::NPC;
use crate::maps::tile::TileContent;

verus! {

/// Chebyshev adjacency: `b` lies within one step of `a` in any of the
/// eight directions (or on the same cell).
pub open spec fn chebyshev_adjacent(a: (usize, usize), b: (usize, usize)) -> bool {
    &&& -1 <= a.0 - b.0 <= 1
    &&& -1 <= a.1 - b.1 <= 1
}

/// Some NPC of the collection stands on cell (`x`, `y`).
pub open spec fn npc_at(npcs: Seq<NPC>, x: int, y: int) -> bool {
    exists|j: int|
        0 <= j < npcs.len() && (#[trigger] npcs[j]).position.0 == x && npcs[j].position.1 == y
}

/// True iff some NPC of the collection stands on cell (`x`, `y`).
fn npc_occupies(npcs: &Vec<NPC>, x: usize, y: usize) -> (r: bool)
    ensures
        r == npc_at(npcs@, x as int, y as int),
{
    let mut k: usize = 0;
    while k < npcs.len()
        invariant
            k <= npcs@.len(),
            forall|j: int|
                0 <= j < k ==> !((#[trigger] npcs@[j]).position.0 == x && npcs@[j].position.1 == y),
        decreases npcs@.len() - k,
    {
        let p = npcs[k].position;
        if p.0 == x && p.1 == y {
            assert(npcs@[k as int].position.0 == x && npcs@[k as int].position.1 == y);
            return true;
        }
        k += 1;
    }
    false
}

/// The world grid: a `width` x `height` matrix of tiles. The grid is a
/// projection of entity positions used for occupancy checks and rendering;
/// the authoritative position of each entity lives on the entity itself.
pub struct Maps {
    pub width: usize,
    pub height: usize,
    pub grid: Vec<Vec<TileContent>>,
}

/// Builds an all-empty `width` x `height` matrix.
fn empty_grid(width: usize, height: usize) -> (g: Vec<Vec<TileContent>>)
    ensures
        g@.len() == height,
        forall|y: int| 0 <= y < height ==> (#[trigger] g@[y])@.len() == width,
        forall|y: int, x: int|
            0 <= y < height && 0 <= x < width ==> #[trigger] g@[y]@[x] == TileContent::Empty,
{
    let mut g: Vec<Vec<TileContent>> = Vec::new();
    let mut y: usize = 0;
    while y < height
        invariant
            y <= height,
            g@.len() == y,
            forall|j: int| 0 <= j < y ==> (#[trigger] g@[j])@.len() == width,
            forall|j: int, x: int|
                0 <= j < y && 0 <= x < width ==> #[trigger] g@[j]@[x] == TileContent::Empty,
        decreases height - y,
    {
        let mut row: Vec<TileContent> = Vec::new();
        let mut x: usize = 0;
        while x < width
            invariant
                x <= width,
                row@.len() == x,
                forall|i: int| 0 <= i < x ==> #[trigger] row@[i] == TileContent::Empty,
            decreases width - x,
        {
            row.push(TileContent::Empty);
            x += 1;
        }
        g.push(row);
        y += 1;
    }
    g
}

impl Maps {
    /// The grid matches its recorded dimensions: one row per unit of height,
    /// each row holding one tile per unit of width. Degenerate (zero-sized)
    /// grids are rejected at construction.
    pub open spec fn wf(self) -> bool {
        &&& 1 <= self.width
        &&& 1 <= self.height
        &&& self.grid@.len() == self.height
        &&& forall|y: int| 0 <= y < self.height ==> (#[trigger] self.grid@[y])@.len() == self.width
    }

    /// The tile stored at column `x`, row `y`.
    pub open spec fn tile_at(self, x: int, y: int) -> TileContent {
        self.grid@[y]@[x]
    }

    /// A position lies on the grid.
    pub open spec fn spec_in_bounds(self, x: int, y: int) -> bool {
        0 <= x < self.width && 0 <= y < self.height
    }

    /// Every tile of the grid is empty.
    pub open spec fn all_empty(self) -> bool {
        forall|y: int, x: int|
            0 <= y < self.height && 0 <= x < self.width
                ==> #[trigger] self.tile_at(x, y) == TileContent::Empty
    }

    pub fn new(width: usize, height: usize) -> (m: Maps)
        requires
            1 <= width,
            1 <= height,
        ensures
            m.wf(),
            m.width == width,
            m.height == height,
            m.all_empty(),
    {
        Maps { width, height, grid: empty_grid(width, height) }
    }

    /// Replaces the grid with a new all-empty matrix of the given size.
    /// Any previously placed markers are lost: the grid is re-populated
    /// from entity state on each refresh.
    pub fn resize(&mut self, width: usize, height: usize)
        requires
            1 <= width,
            1 <= height,
        ensures
            final(self).wf(),
            final(self).width == width,
            final(self).height == height,
            final(self).all_empty(),
    {
        self.width = width;
        self.height = height;
        self.grid = empty_grid(width, height);
    }

    /// Resizes the grid to fill a presentation frame of the given size.
    pub fn resize_to_frame(&mut self, frame_width: usize, frame_height: usize)
        requires
            1 <= frame_width,
            1 <= frame_height,
        ensures
            final(self).wf(),
            final(self).width == frame_width,
            final(self).height == frame_height,
            final(self).all_empty(),
    {
        self.width = frame_width;
        self.height = frame_height;
        self.grid = empty_grid(self.width, self.height);
    }

    pub fn width(&self) -> (w: usize)
        requires
            self.wf(),
        ensures
            w == self.width,
    {
        self.grid[0].len()
    }

    pub fn height(&self) -> (h: usize)
        requires
            self.wf(),
        ensures
            h == self.height,
    {
        self.grid.len()
    }

    /// True iff the position lies on the grid.
    pub fn in_bounds(&self, x: usize, y: usize) -> (r: bool)
        ensures
            r == self.spec_in_bounds(x as int, y as int),
    {
        x < self.width && y < self.height
    }

    /// True iff the tile holds nothing (no obstacle, player or NPC marker).
    /// Bounds are the caller's responsibility: callers check them first.
    pub fn is_empty(&self, x: usize, y: usize) -> (r: bool)
        requires
            self.wf(),
            self.spec_in_bounds(x as int, y as int),
        ensures
            r == (self.tile_at(x as int, y as int) == TileContent::Empty),
    {
        self.grid[y][x] == TileContent::Empty
    }

    /// True iff movement may enter the tile: only obstacles and NPC
    /// markers block. An empty tile is walkable, and so is a stale
    /// player marker — the grid is a projection that may lag behind the
    /// authoritative player position, and a leftover marker must not
    /// wall the player in.
    pub fn is_walkable(&self, x: usize, y: usize) -> (r: bool)
        requires
            self.wf(),
            self.spec_in_bounds(x as int, y as int),
        ensures
            r == (self.tile_at(x as int, y as int) != TileContent::Obstacle && self.tile_at(
                x as int,
                y as int,
            ) != TileContent::NPC),
    {
        let tile = self.grid[y][x];
        !(tile == TileContent::Obstacle) && !(tile == TileContent::NPC)
    }

    /// Marks the player's tile. Out-of-bounds positions are ignored.
    pub fn update_player_position(&mut self, x: usize, y: usize)
        requires
            old(self).wf(),
        ensures
            final(self).wf(),
            final(self).width == old(self).width,
            final(self).height == old(self).height,
            forall|i: int, j: int|
                0 <= i < old(self).width && 0 <= j < old(self).height
                    ==> #[trigger] final(self).tile_at(i, j) == (if i == x && j == y {
                        TileContent::Player
                    } else {
                        old(self).tile_at(i, j)
                    }),
            !old(self).spec_in_bounds(x as int, y as int) ==> *final(self) == *old(self),
    {
        if self.in_bounds(x, y) {
            self.grid[y][x] = TileContent::Player;
        }
    }

    /// Returns the first NPC, in collection order, standing within Chebyshev
    /// distance 1 of the player; `None` when no NPC is that close.
    pub fn find_nearby_npc(&self, player_position: (usize, usize), npcs: &Vec<NPC>) -> (r: Option<
        usize,
    >)
        ensures
            match r {
                Some(i) => {
                    &&& i < npcs@.len()
                    &&& chebyshev_adjacent(npcs@[i as int].position, player_position)
                    &&& forall|j: int|
                        0 <= j < i ==> !chebyshev_adjacent(
                            (#[trigger] npcs@[j]).position,
                            player_position,
                        )
                },
                None => forall|j: int|
                    0 <= j < npcs@.len() ==> !chebyshev_adjacent(
                        (#[trigger] npcs@[j]).position,
                        player_position,
                    ),
            },
    {
        let mut k: usize = 0;
        while k < npcs.len()
            invariant
                k <= npcs@.len(),
                forall|j: int|
                    0 <= j < k ==> !chebyshev_adjacent(
                        (#[trigger] npcs@[j]).position,
                        player_position,
                    ),
            decreases npcs@.len() - k,
        {
            let (npc_x, npc_y) = npcs[k].position;
            let (player_x, player_y) = player_position;
            let dx_ok = if npc_x >= player_x {
                npc_x - player_x <= 1
            } else {
                player_x - npc_x <= 1
            };
            let dy_ok = if npc_y >= player_y {
                npc_y - player_y <= 1
            } else {
                player_y - npc_y <= 1
            };
            if dx_ok && dy_ok {
                return Some(k);
            }
            k += 1;
        }
        None
    }

    /// Both spatial queries are functions of the grid model alone: a
    /// position is in bounds exactly when it indexes a tile of the grid,
    /// and an in-bounds position is empty exactly when that tile holds
    /// `Empty`. Movement borrows the map immutably, so any sequence of
    /// moves leaves the grid, and with it both answers, unchanged.
    pub proof fn lemma_grid_queries_agree(self, x: int, y: int)
        requires
            self.wf(),
        ensures
            self.spec_in_bounds(x, y) <==> (0 <= y < self.grid@.len() && 0 <= x
                < self.grid@[y]@.len()),
            self.spec_in_bounds(x, y) ==> ((self.tile_at(x, y) == TileContent::Empty) <==> self.grid@[y]@[x]
                == TileContent::Empty),
    {
    }

    /// The glyph rendered for cell (`x`, `y`): the player's glyph takes
    /// precedence, then any NPC standing there, then an obstacle tile;
    /// everything else renders as empty.
    pub open spec fn cell_glyph(
        self,
        player_position: (usize, usize),
        npcs: Seq<NPC>,
        x: int,
        y: int,
    ) -> char {
        if player_position.0 == x && player_position.1 == y {
            '@'
        } else if npc_at(npcs, x, y) {
            'N'
        } else if self.tile_at(x, y) == TileContent::Obstacle {
            '#'
        } else {
            '.'
        }
    }

    /// The rendered text of row `y` from column `x` on, ending in a newline.
    pub open spec fn render_row_from(
        self,
        player_position: (usize, usize),
        npcs: Seq<NPC>,
        y: int,
        x: int,
    ) -> Seq<char>
        decreases self.width - x,
        when 0 <= x <= self.width
    {
        if x == self.width {
            seq!['\n']
        } else {
            seq![self.cell_glyph(player_position, npcs, x, y)] + self.render_row_from(
                player_position,
                npcs,
                y,
                x + 1,
            )
        }
    }

    /// The rendered text of all rows from `y` down.
    pub open spec fn render_rows_from(
        self,
        player_position: (usize, usize),
        npcs: Seq<NPC>,
        y: int,
    ) -> Seq<char>
        decreases self.height - y,
        when 0 <= y <= self.height
    {
        if y == self.height {
            Seq::empty()
        } else {
            self.render_row_from(player_position, npcs, y, 0) + self.render_rows_from(
                player_position,
                npcs,
                y + 1,
            )
        }
    }

    /// The full rendered text surface: `height` lines of `width` glyphs each.
    pub open spec fn spec_render(
        self,
        player_position: (usize, usize),
        npcs: Seq<NPC>,
    ) -> Seq<char> {
        self.render_rows_from(player_position, npcs, 0)
    }

    /// Renders the grid as text, one character per tile, one line per row.
    pub fn draw(&self, player_position: (usize, usize), npcs: &Vec<NPC>) -> (map_string: String)
        requires
            self.wf(),
        ensures
            map_string@ == self.spec_render(player_position, npcs@),
    {
        let mut map_string = String::new();
        let mut y: usize = 0;
        while y < self.height
            invariant
                self.wf(),
                y <= self.height,
                self.spec_render(player_position, npcs@) == map_string@ + self.render_rows_from(
                    player_position,
                    npcs@,
                    y as int,
                ),
            decreases self.height - y,
        {
            let mut x: usize = 0;
            while x < self.width
                invariant
                    self.wf(),
                    y < self.height,
                    x <= self.width,
                    self.spec_render(player_position, npcs@) == map_string@
                        + self.render_row_from(player_position, npcs@, y as int, x as int)
                        + self.render_rows_from(player_position, npcs@, y as int + 1),
                decreases self.width - x,
            {
                let ghost glyph = self.cell_glyph(player_position, npcs@, x as int, y as int);
                let ghost pre = map_string@;
                if player_position.0 == x && player_position.1 == y {
                    map_string.append("@");
                    proof {
                        reveal_strlit("@");
                        assert(map_string@ =~= pre + seq![glyph]);
                    }
                } else if npc_occupies(npcs, x, y) {
                    map_string.append("N");
                    proof {
                        reveal_strlit("N");
                        assert(map_string@ =~= pre + seq![glyph]);
                    }
                } else if self.grid[y][x] == TileContent::Obstacle {
                    map_string.append("#");
                    proof {
                        reveal_strlit("#");
                        assert(map_string@ =~= pre + seq![glyph]);
                    }
                } else {
                    map_string.append(".");
                    proof {
                        reveal_strlit(".");
                        assert(map_string@ =~= pre + seq![glyph]);
                    }
                }
                proof {
                    assert(pre + self.render_row_from(player_position, npcs@, y as int, x as int)
                        =~= map_string@ + self.render_row_from(
                        player_position,
                        npcs@,
                        y as int,
                        x as int + 1,
                    ));
                }
                x += 1;
            }
            let ghost pre = map_string@;
            map_string.append("\n");
            proof {
                reveal_strlit("\n");
                assert(map_string@ =~= pre + seq!['\n']);
                assert(pre + self.render_row_from(player_position, npcs@, y as int, x as int)
                    =~= map_string@);
            }
            y += 1;
        }
        map_string
    }
}

} // verus!
