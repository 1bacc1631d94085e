//! Where things stand in the world, in whole world pixels. The board is
//! centred on the window's origin with y growing upward; every position the
//! rules place on the grid falls on a whole pixel.

use vstd::prelude::*;

use crate::board::{home_col, spec_home_col, COLS, ROWS};
use crate::game::{GameMode, STARTING_LIVES};

verus! {

/// Edge length of one board tile, world pixels.
pub const TILE: i32 = 48;
/// The window's width: fifteen tiles.
pub const WIN_W: i32 = 720;
/// The world y of the life-icon row, in the bottom band above the timer bars.
pub const LIFE_ICON_Y: i32 = -327;
/// Distance between two life icons of one player.
pub const LIFE_ICON_PITCH: i32 = 40;
/// The world y a nest stands at: its canvas's bottom edge on the home row's
/// bottom edge.
pub const NEST_Y: i32 = 303;

/// World position of the centre of board tile (`col`, `row`): row 0 is the
/// top row and the board is centred on the origin.
pub open spec fn spec_tile_center(col: u32, row: u32) -> (int, int) {
    ((col - (COLS - 1) / 2) * TILE, ((ROWS - 1) / 2 - row) * TILE)
}

pub fn tile_center(col: u32, row: u32) -> (center: (i32, i32))
    requires
        spec_tile_center(col, row).0 <= i32::MAX,
        spec_tile_center(col, row).1 >= i32::MIN,
    ensures
        center.0 == spec_tile_center(col, row).0,
        center.1 == spec_tile_center(col, row).1,
{
    let x = (col as i64 - 7) * (TILE as i64);
    let y = (6 - row as i64) * (TILE as i64);
    (x as i32, y as i32)
}

/// The board is laid out row by row: the middle tile sits on the origin, a
/// step right is a tile's width further right, a step down a tile lower, and
/// the home row is the top of the board.
pub proof fn lemma_tile_centers_span_the_board(col: u32, row: u32)
    requires
        col < COLS,
        row < ROWS,
    ensures
        spec_tile_center(7, 6) == (0int, 0int),
        spec_tile_center((col + 1) as u32, row).0 == spec_tile_center(col, row).0 + TILE,
        row > 0 ==> spec_tile_center(col, row).1 == spec_tile_center(col, (row - 1) as u32).1 - TILE,
        -(7 * TILE) <= spec_tile_center(col, row).0 <= 7 * TILE,
        -(6 * TILE) <= spec_tile_center(col, row).1 <= 6 * TILE,
{
}

/// Where nest `slot` stands: over its home column, at the nests' height.
pub fn nest_center(slot: usize) -> (center: (i32, i32))
    requires
        slot < 5,
    ensures
        center.0 == spec_tile_center(spec_home_col(slot as int), 0).0,
        center.1 == NEST_Y,
{
    let (x, _) = tile_center(home_col(slot), 0);
    (x, NEST_Y)
}

/// Where life `life` of `player` sits: the row centred over that player's
/// share of the band, one life per pitch.
pub open spec fn spec_life_icon_x(count: int, player: int, life: int) -> int {
    let slot_width = (WIN_W as int) / count;
    -((WIN_W as int) / 2) + slot_width * player + slot_width / 2 + (life - (STARTING_LIVES - 1)
        / 2) * LIFE_ICON_PITCH
}

pub fn life_icon_position(mode: GameMode, player: usize, life: usize) -> (position: (i32, i32))
    requires
        player < mode.spec_player_count(),
        life < STARTING_LIVES,
    ensures
        position.0 == spec_life_icon_x(mode.spec_player_count() as int, player as int, life as int),
        position.1 == LIFE_ICON_Y,
{
    let count = mode.player_count() as i32;
    let slot_width = WIN_W / count;
    let x = -(WIN_W / 2) + slot_width * (player as i32) + slot_width / 2 + (life as i32 - 1)
        * LIFE_ICON_PITCH;
    (x, LIFE_ICON_Y)
}

/// Solo's row of icons is centred on the window, one pitch apart; co-op
/// splits the band, player one's row left of centre and player two's right,
/// half the window apart.
pub proof fn lemma_life_icon_rows_are_centred()
    ensures
        spec_life_icon_x(1, 0, 0) + spec_life_icon_x(1, 0, 2) == 0,
        spec_life_icon_x(1, 0, 1) - spec_life_icon_x(1, 0, 0) == LIFE_ICON_PITCH,
        spec_life_icon_x(2, 0, 0) < 0 && spec_life_icon_x(2, 1, 0) > 0,
        spec_life_icon_x(2, 1, 0) - spec_life_icon_x(2, 0, 0) == WIN_W / 2,
{
}

} // verus!
