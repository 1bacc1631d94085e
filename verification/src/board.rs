//! The board's row map and its four tile maps.
//!
//! Rows count from the top: the home row with its five nests, five rows of
//! soup, the median, five conveyor belts and the start row. Each of the four
//! maps holds only the cells its own terrain owns, a tile value being a cell
//! index plus one (0 is a hole), so the maps never overlap and never leave a
//! cell uncovered.

use vstd::prelude::*;

verus! {

pub const COLS: u32 = 15;
pub const ROWS: u32 = 13;
pub const HOME_ROW: u32 = 0;
pub const FIRST_WATER_ROW: u32 = 1;
pub const LAST_WATER_ROW: u32 = 5;
pub const MEDIAN_ROW: u32 = 6;
pub const FIRST_ROAD_ROW: u32 = 7;
pub const LAST_ROAD_ROW: u32 = 11;
pub const START_ROW: u32 = 12;

/// The board column nest `index` stands on (all other home-row tiles are
/// coop wall).
pub open spec fn spec_home_col(index: int) -> u32 {
    if index == 0 {
        1
    } else if index == 1 {
        4
    } else if index == 2 {
        7
    } else if index == 3 {
        10
    } else {
        13
    }
}

pub fn home_col(index: usize) -> (col: u32)
    requires
        index < 5,
    ensures
        col == spec_home_col(index as int),
{
    if index == 0 {
        1
    } else if index == 1 {
        4
    } else if index == 2 {
        7
    } else if index == 3 {
        10
    } else {
        13
    }
}

/// The nest standing on column `col`, if any.
pub open spec fn spec_home_col_index(col: u32) -> Option<usize> {
    if col == 1 {
        Some(0usize)
    } else if col == 4 {
        Some(1usize)
    } else if col == 7 {
        Some(2usize)
    } else if col == 10 {
        Some(3usize)
    } else if col == 13 {
        Some(4usize)
    } else {
        None
    }
}

pub fn home_col_index(col: u32) -> (index: Option<usize>)
    ensures
        index == spec_home_col_index(col),
        index matches Some(i) ==> i < 5 && spec_home_col(i as int) == col,
        index is None ==> forall|i: int| 0 <= i < 5 ==> spec_home_col(i) != col,
{
    let mut i: usize = 0;
    while i < 5
        invariant
            i <= 5,
            forall|j: int| 0 <= j < i ==> spec_home_col(j) != col,
        decreases 5 - i,
    {
        if home_col(i) == col {
            return Some(i);
        }
        i += 1;
    }
    assert(spec_home_col(0) != col && spec_home_col(1) != col && spec_home_col(2) != col
        && spec_home_col(3) != col && spec_home_col(4) != col);
    None
}

/// The nests' columns and the column-to-nest lookup agree both ways.
pub proof fn lemma_home_col_index(col: u32)
    ensures
        spec_home_col_index(col) matches Some(i) ==> i < 5 && spec_home_col(i as int) == col,
        spec_home_col_index(col) is None ==> forall|i: int| 0 <= i < 5 ==> spec_home_col(i) != col,
        forall|i: int| 0 <= i < 5 ==> spec_home_col_index(#[trigger] spec_home_col(i)) == Some(i as usize),
        spec_home_col_index(col) matches Some(i) ==> col < COLS,
{
}

pub open spec fn spec_is_water_row(row: u32) -> bool {
    FIRST_WATER_ROW <= row <= LAST_WATER_ROW
}

pub open spec fn spec_is_road_row(row: u32) -> bool {
    FIRST_ROAD_ROW <= row <= LAST_ROAD_ROW
}

/// Whether `row` is one of the soup rows.
#[verifier::when_used_as_spec(spec_is_water_row)]
pub fn is_water_row(row: u32) -> (water: bool)
    ensures
        water == spec_is_water_row(row),
{
    FIRST_WATER_ROW <= row && row <= LAST_WATER_ROW
}

/// Whether `row` is one of the conveyor-belt rows.
#[verifier::when_used_as_spec(spec_is_road_row)]
pub fn is_road_row(row: u32) -> (road: bool)
    ensures
        road == spec_is_road_row(row),
{
    FIRST_ROAD_ROW <= row && row <= LAST_ROAD_ROW
}

/// What a board cell is made of. One kind is one tile sheet.
#[derive(Debug, Clone, Copy, PartialEq, Eq, Structural)]
pub enum Terrain {
    /// The median, the start row, and the ground the nests stand on.
    Floor,
    /// The coop wall between the nests, where a miss kills.
    Wall,
    /// The river of soup.
    Soup,
    /// The conveyor belts the carts run on.
    Belt,
}

impl Terrain {
    pub open spec fn spec_at(index: int) -> Terrain {
        if index == 0 {
            Terrain::Floor
        } else if index == 1 {
            Terrain::Wall
        } else if index == 2 {
            Terrain::Soup
        } else {
            Terrain::Belt
        }
    }

    /// Every terrain, in the order the maps are built and drawn.
    pub fn all() -> (terrains: Vec<Terrain>)
        ensures
            terrains@.len() == 4,
            forall|i: int| 0 <= i < 4 ==> #[trigger] terrains@[i] == Terrain::spec_at(i),
    {
        vec![Terrain::Floor, Terrain::Wall, Terrain::Soup, Terrain::Belt]
    }

    /// The clip each of these cells plays.
    pub fn clip(self) -> (clip: &'static str)
        ensures
            clip@ == (match self {
                Terrain::Belt => "run"@,
                _ => "idle"@,
            }),
    {
        match self {
            Terrain::Floor => "idle",
            Terrain::Wall => "idle",
            Terrain::Soup => "idle",
            Terrain::Belt => "run",
        }
    }

    /// What the editor hierarchy calls this map.
    pub fn label(self) -> (label: &'static str)
        ensures
            label@ == (match self {
                Terrain::Floor => "floor"@,
                Terrain::Wall => "wall"@,
                Terrain::Soup => "soup"@,
                Terrain::Belt => "belt"@,
            }),
    {
        match self {
            Terrain::Floor => "floor",
            Terrain::Wall => "wall",
            Terrain::Soup => "soup",
            Terrain::Belt => "belt",
        }
    }
}

/// The row map: the home row is floor under the nests and wall between
/// them, then soup, the median's floor, the belts, and the start row's floor.
pub open spec fn spec_terrain_at(col: u32, row: u32) -> Terrain {
    if row == HOME_ROW {
        if spec_home_col_index(col) is Some {
            Terrain::Floor
        } else {
            Terrain::Wall
        }
    } else if spec_is_water_row(row) {
        Terrain::Soup
    } else if row == MEDIAN_ROW {
        Terrain::Floor
    } else if spec_is_road_row(row) {
        Terrain::Belt
    } else {
        Terrain::Floor
    }
}

#[verifier::when_used_as_spec(spec_terrain_at)]
pub fn terrain_at(col: u32, row: u32) -> (terrain: Terrain)
    ensures
        terrain == spec_terrain_at(col, row),
{
    if row == HOME_ROW {
        if home_col_index(col).is_some() {
            Terrain::Floor
        } else {
            Terrain::Wall
        }
    } else if is_water_row(row) {
        Terrain::Soup
    } else if row == MEDIAN_ROW {
        Terrain::Floor
    } else if is_road_row(row) {
        Terrain::Belt
    } else {
        Terrain::Floor
    }
}

/// The row map is the one the rules name: soup exactly on the soup rows,
/// belt exactly on the belt rows, wall only on the home row between the nests.
pub proof fn lemma_row_map_matches_rules(col: u32, row: u32)
    ensures
        (spec_terrain_at(col, row) == Terrain::Soup) <==> spec_is_water_row(row),
        (spec_terrain_at(col, row) == Terrain::Belt) <==> spec_is_road_row(row),
        (spec_terrain_at(col, row) == Terrain::Wall) <==> (row == HOME_ROW
            && spec_home_col_index(col) is None),
        row == MEDIAN_ROW || row == START_ROW ==> spec_terrain_at(col, row) == Terrain::Floor,
{
}

/// The tile value cell (`col`, `row`) holds in `terrain`'s map.
pub open spec fn spec_map_tile(terrain: Terrain, tile: u32, col: u32, row: u32) -> u32 {
    if spec_terrain_at(col, row) == terrain {
        tile
    } else {
        0
    }
}

/// Whether `tiles` is `terrain`'s whole map, row-major, `COLS` wide.
pub open spec fn spec_is_map(tiles: Seq<u32>, terrain: Terrain, tile: u32) -> bool {
    &&& tiles.len() == COLS * ROWS
    &&& forall|row: u32, col: u32|
        row < ROWS && col < COLS ==> #[trigger] tiles[row * COLS + col] == spec_map_tile(
            terrain,
            tile,
            col,
            row,
        )
}

/// Build one map's tiles: the cells `terrain` owns show `tile`, every other
/// cell is a hole.
pub fn build_tiles(terrain: Terrain, tile: u32) -> (tiles: Vec<u32>)
    ensures
        spec_is_map(tiles@, terrain, tile),
{
    let mut tiles: Vec<u32> = Vec::new();
    let mut row: u32 = 0;
    while row < ROWS
        invariant
            row <= ROWS,
            tiles@.len() == row * COLS,
            forall|r: u32, c: u32|
                r < row && c < COLS ==> #[trigger] tiles@[r * COLS + c] == spec_map_tile(
                    terrain,
                    tile,
                    c,
                    r,
                ),
        decreases ROWS - row,
    {
        let mut col: u32 = 0;
        while col < COLS
            invariant
                row < ROWS,
                col <= COLS,
                tiles@.len() == row * COLS + col,
                forall|r: u32, c: u32|
                    (r < row && c < COLS) || (r == row && c < col) ==> #[trigger] tiles@[r * COLS
                        + c] == spec_map_tile(terrain, tile, c, r),
            decreases COLS - col,
        {
            let value = if terrain_at(col, row) == terrain {
                tile
            } else {
                0
            };
            tiles.push(value);
            col += 1;
        }
        row += 1;
    }
    tiles
}

/// A map holds only its own terrain, and the four maps together cover every
/// cell of the board exactly once.
pub proof fn lemma_maps_partition_board(
    floor: Seq<u32>,
    wall: Seq<u32>,
    soup: Seq<u32>,
    belt: Seq<u32>,
    tile: u32,
    col: u32,
    row: u32,
)
    requires
        tile != 0,
        spec_is_map(floor, Terrain::Floor, tile),
        spec_is_map(wall, Terrain::Wall, tile),
        spec_is_map(soup, Terrain::Soup, tile),
        spec_is_map(belt, Terrain::Belt, tile),
        col < COLS,
        row < ROWS,
    ensures
        (floor[row * COLS + col] != 0) <==> spec_terrain_at(col, row) == Terrain::Floor,
        (wall[row * COLS + col] != 0) <==> spec_terrain_at(col, row) == Terrain::Wall,
        (soup[row * COLS + col] != 0) <==> spec_terrain_at(col, row) == Terrain::Soup,
        (belt[row * COLS + col] != 0) <==> spec_terrain_at(col, row) == Terrain::Belt,
        (if floor[row * COLS + col] != 0 { 1int } else { 0 }) + (if wall[row * COLS + col] != 0 {
            1int
        } else {
            0
        }) + (if soup[row * COLS + col] != 0 { 1int } else { 0 }) + (if belt[row * COLS + col]
            != 0 {
            1int
        } else {
            0
        }) == 1,
{
    assert(floor[row * COLS + col] == spec_map_tile(Terrain::Floor, tile, col, row));
    assert(wall[row * COLS + col] == spec_map_tile(Terrain::Wall, tile, col, row));
    assert(soup[row * COLS + col] == spec_map_tile(Terrain::Soup, tile, col, row));
    assert(belt[row * COLS + col] == spec_map_tile(Terrain::Belt, tile, col, row));
}

/// Rewrite row `row` of a `width`-wide map to `tile`, and only when a cell of
/// it actually changes; a row past the map's end is left alone.
pub fn set_row(tiles: &mut Vec<u32>, width: u32, row: u32, tile: u32)
    requires
        row * width <= u32::MAX,
        row * width + width <= usize::MAX,
    ensures
        row * width + width <= old(tiles)@.len() ==> final(tiles)@ == Seq::new(
            old(tiles)@.len(),
            |i: int|
                if row * width <= i < row * width + width {
                    tile
                } else {
                    old(tiles)@[i]
                },
        ),
        row * width + width > old(tiles)@.len() ==> final(tiles)@ == old(tiles)@,
{
    let start = (row * width) as usize;
    let end = start + width as usize;
    if end > tiles.len() {
        return;
    }
    let mut all_same = true;
    let mut i = start;
    while i < end
        invariant
            start <= i <= end <= tiles@.len(),
            all_same <==> forall|j: int| start <= j < i ==> tiles@[j] == tile,
        decreases end - i,
    {
        if tiles[i] != tile {
            all_same = false;
        }
        i += 1;
    }
    if all_same {
        assert(tiles@ =~= Seq::new(
            tiles@.len(),
            |j: int|
                if start <= j < end {
                    tile
                } else {
                    tiles@[j]
                },
        ));
        return;
    }
    let ghost before = tiles@;
    let mut k = start;
    while k < end
        invariant
            start <= k <= end <= before.len(),
            tiles@.len() == before.len(),
            forall|j: int| 0 <= j < start ==> tiles@[j] == before[j],
            forall|j: int| start <= j < k ==> tiles@[j] == tile,
            forall|j: int| k <= j < before.len() ==> tiles@[j] == before[j],
        decreases end - k,
    {
        tiles.set(k, tile);
        k += 1;
    }
    assert(tiles@ =~= Seq::new(
        before.len(),
        |j: int|
            if start <= j < end {
                tile
            } else {
                before[j]
            },
    ));
}

/// The cell a clip shows once `reached` of its frames have elapsed, walking
/// its frame list forward or, `reversed`, backward; a clip with no frames
/// shows nothing.
pub open spec fn spec_clip_cell(frames: Seq<u32>, reached: u32, reversed: bool) -> Option<u32> {
    if frames.len() == 0 {
        None
    } else {
        let r = reached % (frames.len() as u32);
        let position = if reversed {
            frames.len() - 1 - r
        } else {
            r as int
        };
        Some(frames[position])
    }
}

pub fn clip_cell(frames: &Vec<u32>, reached: u32, reversed: bool) -> (cell: Option<u32>)
    requires
        frames@.len() <= u32::MAX,
    ensures
        cell == spec_clip_cell(frames@, reached, reversed),
{
    let count = frames.len() as u32;
    if count == 0 {
        return None;
    }
    let r = reached % count;
    let position = if reversed {
        count - 1 - r
    } else {
        r
    };
    Some(frames[position as usize])
}

/// Reversed, a clip walks the same cells the other way: the cell shown at a
/// given step is the forward clip's cell mirrored through the frame list.
pub proof fn lemma_reversed_clip_mirrors(frames: Seq<u32>, reached: u32)
    requires
        0 < frames.len() <= u32::MAX,
    ensures
        spec_clip_cell(frames, reached, true) == Some(
            frames[frames.len() - 1 - (reached % (frames.len() as u32))],
        ),
        spec_clip_cell(frames, reached, false) == Some(frames[(reached % (frames.len() as u32)) as int]),
        spec_clip_cell(frames, reached, false) == spec_clip_cell(
            frames,
            (reached % (frames.len() as u32)) as u32,
            false,
        ),
{
    let n = frames.len() as u32;
    assert((reached % n) % n == reached % n) by (nonlinear_arith)
        requires n > 0;
}

/// The five nests stand three columns apart, from column 1 to column 13,
/// all inside the board and none on its edge columns; a column holds a nest
/// exactly when it is one of those.
pub proof fn lemma_nests_stand_three_apart(index: int, col: u32)
    ensures
        0 <= index < 5 ==> spec_home_col(index) == 1 + 3 * index,
        0 <= index < 5 ==> 0 < spec_home_col(index) < COLS - 1,
        spec_home_col_index(col) is Some <==> (col >= 1 && col <= 13 && (col - 1) % 3 == 0),
{
}

/// Soup covers exactly rows 1 to 5 and the belts exactly rows 7 to 11; the
/// home row, the median and the start row are neither.
pub proof fn lemma_row_kinds(row: u32)
    ensures
        spec_is_water_row(row) <==> 1 <= row <= 5,
        spec_is_road_row(row) <==> 7 <= row <= 11,
        !(spec_is_water_row(row) && spec_is_road_row(row)),
{
}

/// A clip walks its frame list one cell per frame reached and starts over
/// after the last: forward, the first pass shows each cell in turn; reversed,
/// it starts from the last cell; and a whole pass later it shows the same
/// cell again.
pub proof fn lemma_clip_cells_cycle(frames: Seq<u32>, reached: u32)
    requires
        0 < frames.len() <= u32::MAX,
    ensures
        reached < frames.len() ==> spec_clip_cell(frames, reached, false) == Some(
            frames[reached as int],
        ),
        reached < frames.len() ==> spec_clip_cell(frames, reached, true) == Some(
            frames[frames.len() - 1 - reached],
        ),
        spec_clip_cell(frames, 0, true) == Some(frames[frames.len() - 1]),
        reached + frames.len() <= u32::MAX ==> spec_clip_cell(
            frames,
            (reached + frames.len()) as u32,
            false,
        ) == spec_clip_cell(frames, reached, false),
        reached + frames.len() <= u32::MAX ==> spec_clip_cell(
            frames,
            (reached + frames.len()) as u32,
            true,
        ) == spec_clip_cell(frames, reached, true),
        spec_clip_cell(Seq::<u32>::empty(), reached, false) is None,
{
    let n = frames.len() as u32;
    if reached < n {
        vstd::arithmetic::div_mod::lemma_small_mod(reached as nat, n as nat);
    }
    vstd::arithmetic::div_mod::lemma_small_mod(0, n as nat);
    if reached + frames.len() <= u32::MAX {
        vstd::arithmetic::div_mod::lemma_mod_add_multiples_vanish(reached as int, n as int);
    }
}

} // verus!
