use insiculous_frogger::board::{home_col, COLS, HOME_ROW, ROWS, START_ROW};
use insiculous_frogger::game::{GameMode, STARTING_LIVES};
use insiculous_frogger::layout::{
    life_icon_position, nest_center, tile_center, LIFE_ICON_PITCH, NEST_Y, TILE, WIN_W,
};

#[test]
fn test_tile_center_spans_the_centered_board() {
    // Middle tile of the middle row sits on the origin.
    assert_eq!(tile_center(7, 6), (0, 0));
    // Top-left tile: half the board left and up from center.
    let top_left = tile_center(0, 0);
    assert_eq!(top_left.0, -((COLS as i32 - 1) / 2) * TILE);
    assert_eq!(top_left.1, ((ROWS as i32 - 1) / 2) * TILE);
    // Row 0 is the TOP row: larger y than the start row.
    assert!(tile_center(0, HOME_ROW).1 > tile_center(0, START_ROW).1);
}

#[test]
fn test_nests_stand_on_the_home_row_from_the_first_frame() {
    for slot in 0..5 {
        let center = nest_center(slot);
        assert_eq!(center.0, tile_center(home_col(slot), HOME_ROW).0);
        assert_eq!(center.1, NEST_Y);
    }
}

#[test]
fn test_the_life_icon_row_is_centred_over_each_players_slot() {
    let solo = GameMode::SinglePlayer;
    let row: Vec<i32> = (0..STARTING_LIVES as usize)
        .map(|life| life_icon_position(solo, 0, life).0)
        .collect();
    assert_eq!(row.len(), 3);
    assert_eq!(row[1] - row[0], LIFE_ICON_PITCH);
    assert_eq!(row[0] + row[2], 0, "solo's row is centred on the window");

    let coop = GameMode::TwoPlayerCoop;
    let p1 = life_icon_position(coop, 0, 0).0;
    let p2 = life_icon_position(coop, 1, 0).0;
    assert!(p1 < 0 && p2 > 0, "co-op splits the band between the players");
    assert_eq!(p2 - p1, WIN_W / 2);
}
