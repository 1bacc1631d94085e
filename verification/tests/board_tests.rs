use insiculous_frogger::board::{
    build_tiles, clip_cell, home_col, home_col_index, set_row, terrain_at, Terrain, COLS,
    FIRST_ROAD_ROW, FIRST_WATER_ROW, HOME_ROW, LAST_ROAD_ROW, LAST_WATER_ROW, MEDIAN_ROW, ROWS,
    START_ROW,
};

fn is_home_col(col: u32) -> bool {
    home_col_index(col).is_some()
}

#[test]
fn test_a_map_holds_only_its_own_terrain() {
    for terrain in Terrain::all() {
        let tiles = build_tiles(terrain, 1);
        assert_eq!(tiles.len(), (COLS * ROWS) as usize);
        for row in 0..ROWS {
            for col in 0..COLS {
                let owned = terrain_at(col, row) == terrain;
                let value = tiles[(row * COLS + col) as usize];
                assert_eq!(
                    value != 0,
                    owned,
                    "{terrain:?} at ({col}, {row}) should be {}",
                    if owned { "set" } else { "empty" }
                );
            }
        }
    }
}

#[test]
fn test_every_board_cell_is_owned_by_exactly_one_map() {
    let maps: Vec<Vec<u32>> = Terrain::all().into_iter().map(|terrain| build_tiles(terrain, 1)).collect();
    for row in 0..ROWS {
        for col in 0..COLS {
            let owners = maps
                .iter()
                .filter(|tiles| tiles[(row * COLS + col) as usize] != 0)
                .count();
            assert_eq!(owners, 1, "({col}, {row}) has {owners} owners");
        }
    }
}

#[test]
fn test_the_row_map_is_the_one_the_rules_name() {
    for col in 0..COLS {
        for row in FIRST_WATER_ROW..=LAST_WATER_ROW {
            assert_eq!(terrain_at(col, row), Terrain::Soup, "row {row} is soup");
        }
        for row in FIRST_ROAD_ROW..=LAST_ROAD_ROW {
            assert_eq!(terrain_at(col, row), Terrain::Belt, "row {row} is belt");
        }
        assert_eq!(terrain_at(col, MEDIAN_ROW), Terrain::Floor);
        assert_eq!(terrain_at(col, START_ROW), Terrain::Floor);
        let expected = if is_home_col(col) { Terrain::Floor } else { Terrain::Wall };
        assert_eq!(terrain_at(col, HOME_ROW), expected, "home row col {col}");
    }
}

#[test]
fn test_the_nests_stand_on_their_columns() {
    let cols: Vec<u32> = (0..5).map(home_col).collect();
    assert_eq!(cols, vec![1, 4, 7, 10, 13]);
    for (slot, &col) in cols.iter().enumerate() {
        assert_eq!(home_col_index(col), Some(slot));
    }
    assert_eq!(home_col_index(0), None);
    assert_eq!(home_col_index(2), None);
    assert_eq!(home_col_index(14), None);
}

#[test]
fn test_a_belt_row_plays_its_frames_the_way_its_carts_run() {
    // The clip's own cells, read at the clip's own rate: four cells at
    // 6.667 fps is 150 ms a cell, so a frame boundary lands on 0.15 s.
    let frames = vec![0u32, 1, 2, 3];
    let fps: f32 = 6.667;
    let reached = |elapsed: f32| (elapsed.max(0.0) * fps) as u32;
    assert_eq!(clip_cell(&frames, reached(0.0), false), Some(0));
    assert_eq!(clip_cell(&frames, reached(0.15), false), Some(1));
    assert_eq!(clip_cell(&frames, reached(0.45), false), Some(3));
    assert_eq!(clip_cell(&frames, reached(0.60), false), Some(0), "it loops");
    // Reversed it walks the same cells the other way.
    assert_eq!(clip_cell(&frames, reached(0.0), true), Some(3));
    assert_eq!(clip_cell(&frames, reached(0.15), true), Some(2));
}

#[test]
fn test_a_row_is_rewritten_only_when_its_frame_turns() {
    let mut tiles = vec![0u32; (COLS * ROWS) as usize];
    set_row(&mut tiles, COLS, MEDIAN_ROW, 3);
    let start = (MEDIAN_ROW * COLS) as usize;
    assert!(tiles[start..start + COLS as usize].iter().all(|&value| value == 3));
    // A second write of the same value is a no-op, and other rows are
    // never touched.
    set_row(&mut tiles, COLS, MEDIAN_ROW, 3);
    assert!(tiles[..start].iter().all(|&value| value == 0));
    assert!(tiles[start + COLS as usize..].iter().all(|&value| value == 0));
    // A row past the end of the map is left alone.
    let before = tiles.clone();
    set_row(&mut tiles, COLS, ROWS, 5);
    assert_eq!(tiles, before);
}

#[test]
fn test_a_clip_with_no_frames_draws_nothing_rather_than_dividing_by_zero() {
    let empty: Vec<u32> = Vec::new();
    assert_eq!(clip_cell(&empty, 6, false), None);
}

#[test]
fn test_terrain_clips_and_labels() {
    assert_eq!(Terrain::Soup.clip(), "idle");
    assert_eq!(Terrain::Belt.clip(), "run");
    assert_eq!(Terrain::Floor.label(), "floor");
    assert_eq!(Terrain::Wall.label(), "wall");
    assert_eq!(
        Terrain::all(),
        vec![Terrain::Floor, Terrain::Wall, Terrain::Soup, Terrain::Belt]
    );
}
