//! Choosing a passable neighboring tile on the bounded hex grid.
//!
//! Positions are axial coordinates: the six neighbors of `(x, y)` are
//! `(x±1, y)`, `(x, y±1)`, `(x+1, y-1)` and `(x-1, y+1)`. A candidate is
//! passable when it lies on the grid, its terrain tile does not carry the
//! impassable marker, and no organism occupies it. Among the passable
//! candidates one is drawn at random; a fully boxed-in position yields no
//! candidate, which is a normal outcome, not an error.
use vstd::prelude::*;
use vstd::seq_lib::lemma_seq_contains_after_push;

verus! {

broadcast use lemma_seq_contains_after_push;

/// An axial coordinate on the bounded hex grid.
#[derive(Clone, Copy, Debug, Hash, PartialEq, Eq, Structural)]
pub struct TilePos {
    /// Column coordinate.
    pub x: u32,
    /// Row coordinate.
    pub y: u32,
}

/// The bounds of the hex grid: it holds the positions with `x < width` and
/// `y < height`.
#[derive(Clone, Copy, Debug, PartialEq, Eq, Structural)]
pub struct TilemapSize {
    /// Number of columns.
    pub width: u32,
    /// Number of rows.
    pub height: u32,
}

/// The terrain layer as the pathfinding core reads it: the set of positions
/// whose terrain tile carries the impassable marker.
pub struct TerrainLayer {
    /// Positions that block organism movement.
    pub impassable: Vec<TilePos>,
}

impl TerrainLayer {
    /// The terrain at `p` blocks movement into `p`.
    pub open spec fn blocks(self, p: TilePos) -> bool {
        self.impassable@.contains(p)
    }
}

/// The organism layer as the pathfinding core reads it: the set of positions
/// currently occupied by an organism tile.
pub struct OrganismLayer {
    /// Positions an organism currently occupies.
    pub occupied: Vec<TilePos>,
}

impl OrganismLayer {
    /// An organism occupies `p`.
    pub open spec fn occupies(self, p: TilePos) -> bool {
        self.occupied@.contains(p)
    }
}

/// `p` lies on the grid.
pub open spec fn in_bounds(p: TilePos, size: TilemapSize) -> bool {
    p.x < size.width && p.y < size.height
}

/// `q` is one of the six hex-adjacent positions around `p`.
pub open spec fn is_hex_neighbor(p: TilePos, q: TilePos) -> bool {
    ||| q.x == p.x + 1 && q.y == p.y
    ||| q.x + 1 == p.x && q.y == p.y
    ||| q.x == p.x && q.y == p.y + 1
    ||| q.x == p.x && q.y + 1 == p.y
    ||| q.x == p.x + 1 && q.y + 1 == p.y
    ||| q.x + 1 == p.x && q.y == p.y + 1
}

/// `q` is a tile an organism may enter: on the grid, terrain passable, and
/// unoccupied.
pub open spec fn open_tile(
    q: TilePos,
    terrain: TerrainLayer,
    organisms: OrganismLayer,
    size: TilemapSize,
) -> bool {
    in_bounds(q, size) && !terrain.blocks(q) && !organisms.occupies(q)
}

/// `q` is a tile an organism standing at `p` may move to.
pub open spec fn passable_neighbor(
    p: TilePos,
    q: TilePos,
    terrain: TerrainLayer,
    organisms: OrganismLayer,
    size: TilemapSize,
) -> bool {
    is_hex_neighbor(p, q) && open_tile(q, terrain, organisms, size)
}

/// `q` is the single tile an organism standing at `p` may move to.
pub open spec fn sole_passable_neighbor(
    p: TilePos,
    q: TilePos,
    terrain: TerrainLayer,
    organisms: OrganismLayer,
    size: TilemapSize,
) -> bool {
    &&& passable_neighbor(p, q, terrain, organisms, size)
    &&& forall|q2: TilePos|
        passable_neighbor(p, q2, terrain, organisms, size) ==> q2 == q
}

fn contains_pos(v: &Vec<TilePos>, p: TilePos) -> (found: bool)
    ensures
        found == v@.contains(p),
{
    let n = v.len();
    let mut i: usize = 0;
    while i < n
        invariant
            i <= n,
            n == v@.len(),
            forall|j: int| 0 <= j < i ==> v@[j] != p,
        decreases n - i,
    {
        if v[i] == p {
            return true;
        }
        i = i + 1;
    }
    false
}

fn is_open(
    q: TilePos,
    terrain: &TerrainLayer,
    organisms: &OrganismLayer,
    map_size: &TilemapSize,
) -> (open: bool)
    ensures
        open == open_tile(q, *terrain, *organisms, *map_size),
{
    q.x < map_size.width && q.y < map_size.height && !contains_pos(&terrain.impassable, q)
        && !contains_pos(&organisms.occupied, q)
}

/// Enumerates the hex-adjacent positions around `current_pos` and keeps
/// exactly those an organism may move to: on the grid, terrain passable and
/// unoccupied.
pub fn passable_neighbors(
    current_pos: &TilePos,
    terrain: &TerrainLayer,
    organisms: &OrganismLayer,
    map_size: &TilemapSize,
) -> (candidates: Vec<TilePos>)
    requires
        in_bounds(*current_pos, *map_size),
    ensures
        forall|i: int|
            0 <= i < candidates@.len() ==> passable_neighbor(
                *current_pos,
                #[trigger] candidates@[i],
                *terrain,
                *organisms,
                *map_size,
            ),
        forall|q: TilePos|
            passable_neighbor(*current_pos, q, *terrain, *organisms, *map_size)
                ==> candidates@.contains(q),
{
    let x = current_pos.x;
    let y = current_pos.y;
    let mut candidates: Vec<TilePos> = Vec::new();
    let east = TilePos { x: x + 1, y };
    if is_open(east, terrain, organisms, map_size) {
        candidates.push(east);
    }
    if x > 0 {
        let west = TilePos { x: x - 1, y };
        if is_open(west, terrain, organisms, map_size) {
            candidates.push(west);
        }
    }
    let north = TilePos { x, y: y + 1 };
    if is_open(north, terrain, organisms, map_size) {
        candidates.push(north);
    }
    if y > 0 {
        let south = TilePos { x, y: y - 1 };
        if is_open(south, terrain, organisms, map_size) {
            candidates.push(south);
        }
    }
    if y > 0 {
        let north_east = TilePos { x: x + 1, y: y - 1 };
        if is_open(north_east, terrain, organisms, map_size) {
            candidates.push(north_east);
        }
    }
    if x > 0 {
        let south_west = TilePos { x: x - 1, y: y + 1 };
        if is_open(south_west, terrain, organisms, map_size) {
            candidates.push(south_west);
        }
    }
    candidates
}

/// Picks a passable neighbor of `current_pos` with randomness the caller
/// brings: the candidate at `draw`, modulo the number of passable
/// candidates. Callers that need reproducible movement draw `draw` from
/// their own seeded generator; the contract matches
/// [`get_random_passable_neighbor`].
pub fn select_passable_neighbor(
    current_pos: &TilePos,
    terrain: &TerrainLayer,
    organisms: &OrganismLayer,
    map_size: &TilemapSize,
    draw: usize,
) -> (choice: Option<TilePos>)
    requires
        in_bounds(*current_pos, *map_size),
    ensures
        choice matches Some(q) ==> passable_neighbor(
            *current_pos,
            q,
            *terrain,
            *organisms,
            *map_size,
        ),
        choice is None ==> forall|q: TilePos|
            !passable_neighbor(*current_pos, q, *terrain, *organisms, *map_size),
        forall|q: TilePos|
            sole_passable_neighbor(*current_pos, q, *terrain, *organisms, *map_size)
                ==> choice == Some(q),
{
    let candidates = passable_neighbors(current_pos, terrain, organisms, map_size);
    if candidates.len() == 0 {
        assert forall|q: TilePos| !passable_neighbor(
            *current_pos,
            q,
            *terrain,
            *organisms,
            *map_size,
        ) by {
            if passable_neighbor(*current_pos, q, *terrain, *organisms, *map_size) {
                assert(candidates@.contains(q));
            }
        }
        None
    } else {
        let idx = draw % candidates.len();
        let chosen = candidates[idx];
        assert forall|q: TilePos|
            sole_passable_neighbor(*current_pos, q, *terrain, *organisms, *map_size)
                implies chosen == q by {
            assert(passable_neighbor(*current_pos, candidates@[idx as int], *terrain, *organisms, *map_size));
        }
        Some(chosen)
    }
}

/// Relies on rand::Rng::gen_range over `0..n`: it returns a value of that
/// range, and panics only on an empty range. The draw comes from the
/// process-wide thread-local generator, so nothing beyond the range is
/// stated.
#[verifier::external_body]
fn random_index(n: usize) -> (r: usize)
    requires
        0 < n,
    ensures
        r < n,
{
    rand::Rng::gen_range(&mut rand::thread_rng(), 0..n)
}

/// Picks a random passable neighbor of `current_pos`: a hex-adjacent
/// position on the grid whose terrain is passable and that no organism
/// occupies. Returns a candidate exactly when one exists — a boxed-in
/// position yields `None`, the normal "cannot move" outcome — and when a
/// single candidate is open, returns that one.
pub fn get_random_passable_neighbor(
    current_pos: &TilePos,
    terrain: &TerrainLayer,
    organisms: &OrganismLayer,
    map_size: &TilemapSize,
) -> (choice: Option<TilePos>)
    requires
        in_bounds(*current_pos, *map_size),
    ensures
        choice matches Some(q) ==> passable_neighbor(
            *current_pos,
            q,
            *terrain,
            *organisms,
            *map_size,
        ),
        choice is None ==> forall|q: TilePos|
            !passable_neighbor(*current_pos, q, *terrain, *organisms, *map_size),
        forall|q: TilePos|
            sole_passable_neighbor(*current_pos, q, *terrain, *organisms, *map_size)
                ==> choice == Some(q),
{
    let candidates = passable_neighbors(current_pos, terrain, organisms, map_size);
    if candidates.len() == 0 {
        assert forall|q: TilePos| !passable_neighbor(
            *current_pos,
            q,
            *terrain,
            *organisms,
            *map_size,
        ) by {
            if passable_neighbor(*current_pos, q, *terrain, *organisms, *map_size) {
                assert(candidates@.contains(q));
            }
        }
        None
    } else {
        let idx = random_index(candidates.len());
        let chosen = candidates[idx];
        assert forall|q: TilePos|
            sole_passable_neighbor(*current_pos, q, *terrain, *organisms, *map_size)
                implies chosen == q by {
            assert(passable_neighbor(*current_pos, candidates@[idx as int], *terrain, *organisms, *map_size));
        }
        Some(chosen)
    }
}

} // verus!
