use insiculous_frogger::board::{home_col, HOME_ROW, START_ROW};
use insiculous_frogger::lanes::{
    lane_direction, lane_index_for_row, lanes, segment_length, LaneDef, LaneKind, LaneSprite,
    LANE_PERIOD,
};
use insiculous_frogger::rules::{
    apply_hop_row, bun_nest, bun_slot, frame_index, hazard, home_slot, landing, resolve_hop,
    ChaosMode, DeathCause, Facing, Hop, Landing, SlotOutcome,
};
use insiculous_frogger::board::{is_road_row, is_water_row};

fn lane(row: u32) -> LaneDef {
    let defs = lanes();
    let index = lane_index_for_row(&defs, row).unwrap_or_else(|| panic!("no lane covers row {row}"));
    defs[index]
}

#[test]
fn test_resolve_hop_priority_on_conflicting_inputs() {
    assert_eq!(resolve_hop(true, true, true, true), Some(Hop::Up));
    assert_eq!(resolve_hop(false, true, true, true), Some(Hop::Down));
    assert_eq!(resolve_hop(false, false, true, true), Some(Hop::Left));
    assert_eq!(resolve_hop(false, false, false, true), Some(Hop::Right));
    assert_eq!(resolve_hop(false, false, false, false), None);
}

#[test]
fn test_every_hop_turns_the_chicken_that_way() {
    assert_eq!(Hop::Up.facing(), Facing::North);
    assert_eq!(Hop::Down.facing(), Facing::South);
    assert_eq!(Hop::Left.facing(), Facing::West);
    assert_eq!(Hop::Right.facing(), Facing::East);
}

#[test]
fn test_apply_hop_row_moves_one_row_and_clamps_at_edges() {
    assert_eq!(apply_hop_row(6, Hop::Up), 5);
    assert_eq!(apply_hop_row(0, Hop::Up), 0, "the home row is the top");
    assert_eq!(apply_hop_row(12, Hop::Down), 12, "the start row is the bottom");
    assert_eq!(apply_hop_row(6, Hop::Down), 7);
    assert_eq!(apply_hop_row(6, Hop::Left), 6);
    assert_eq!(apply_hop_row(6, Hop::Right), 6);
}

#[test]
fn test_home_slot_outcomes() {
    let mut homes = [false; 5];
    let nest_col = home_col(1);
    // An open nest fills (Normal: no bun at all).
    assert_eq!(home_slot(nest_col, &homes, None, false), SlotOutcome::Fill(1));
    // A filled nest is a miss.
    homes[1] = true;
    assert_eq!(home_slot(nest_col, &homes, None, false), SlotOutcome::Miss);
    // The coop wall between nests is a miss.
    assert_eq!(home_slot(2, &homes, None, false), SlotOutcome::Miss);
}

#[test]
fn test_bun_nest_kills_only_while_open() {
    let homes = [false; 5];
    for nest in 0..5 {
        let col = home_col(nest);
        assert_eq!(home_slot(col, &homes, Some(nest), true), SlotOutcome::Bun);
        assert_eq!(home_slot(col, &homes, Some(nest), false), SlotOutcome::Fill(nest));
        // The bun guards one nest: every other still fills while it is open.
        let other = (nest + 1) % 5;
        assert_eq!(home_slot(home_col(other), &homes, Some(nest), true), SlotOutcome::Fill(other));
    }
}

#[test]
fn test_ridiculous_round_is_winnable_every_nest_fillable() {
    // With the bun away, every empty nest fills whichever nest it guards.
    let homes = [false; 5];
    for guarded in 0..5 {
        for slot in 0..5 {
            assert_eq!(
                home_slot(home_col(slot), &homes, Some(guarded), false),
                SlotOutcome::Fill(slot),
                "nest {slot} can never be filled"
            );
        }
    }
}

#[test]
fn test_bun_only_in_the_ridiculous_family_and_nest_in_range() {
    assert_eq!(bun_nest(ChaosMode::Normal, 1), None);
    assert_eq!(bun_nest(ChaosMode::Insane, 1), None);
    for hash in [0u32, 1, 4, 5, 97, 12345, u32::MAX] {
        for mode in [ChaosMode::Ridiculous, ChaosMode::Insiculous] {
            let nest = bun_nest(mode, hash).expect("the ridiculous family has a bun");
            assert!(nest < 5);
            assert_eq!(nest, (hash % 5) as usize);
        }
    }
}

#[test]
fn test_bun_slot_guards_its_nest_or_stands_on_the_first() {
    let homes = [false, false, true, false, false];
    assert_eq!(bun_slot(Some(2), &homes), (2, true));
    assert_eq!(bun_slot(Some(3), &homes), (3, false));
    assert_eq!(bun_slot(None, &homes), (0, false));
}

#[test]
fn test_chaos_families() {
    assert!(!ChaosMode::Normal.is_insane() && !ChaosMode::Normal.is_ridiculous());
    assert!(ChaosMode::Insane.is_insane() && !ChaosMode::Insane.is_ridiculous());
    assert!(!ChaosMode::Ridiculous.is_insane() && ChaosMode::Ridiculous.is_ridiculous());
    assert!(ChaosMode::Insiculous.is_insane() && ChaosMode::Insiculous.is_ridiculous());
    assert_eq!(
        ChaosMode::all(),
        vec![ChaosMode::Normal, ChaosMode::Insane, ChaosMode::Ridiculous, ChaosMode::Insiculous]
    );
}

#[test]
fn test_hazards_in_order() {
    // The timer takes a chicken wherever it stands.
    assert_eq!(hazard(true, START_ROW, false, false, false), Some(DeathCause::Timeout));
    // Soup: off a platform it drowns, carried off the edge it is swept.
    assert_eq!(hazard(false, 3, false, false, false), Some(DeathCause::Drown));
    assert_eq!(hazard(false, 3, true, true, false), Some(DeathCause::Swept));
    assert_eq!(hazard(false, 3, true, false, false), None);
    // Belts: a cart it overlaps.
    assert_eq!(hazard(false, 9, false, false, true), Some(DeathCause::Cart));
    assert_eq!(hazard(false, 9, false, false, false), None);
    // The median and the start row are safe.
    assert_eq!(hazard(false, 6, false, false, true), None);
    assert_eq!(hazard(false, START_ROW, false, false, true), None);
}

#[test]
fn test_landing_resolves_without_grace() {
    let homes = [false; 5];
    assert_eq!(landing(HOME_ROW, home_col(0), &homes, None, false, false, false), Landing::Fill(0));
    assert_eq!(
        landing(HOME_ROW, 0, &homes, None, false, false, false),
        Landing::Death(DeathCause::HomeMiss)
    );
    assert_eq!(
        landing(HOME_ROW, home_col(3), &homes, Some(3), true, false, false),
        Landing::Death(DeathCause::Bun)
    );
    assert_eq!(landing(8, 4, &homes, None, false, true, false), Landing::Death(DeathCause::Cart));
    assert_eq!(landing(8, 4, &homes, None, false, false, false), Landing::Safe);
    assert_eq!(landing(2, 4, &homes, None, false, false, false), Landing::Death(DeathCause::Drown));
    assert_eq!(landing(2, 4, &homes, None, false, false, true), Landing::Safe);
    assert_eq!(landing(6, 4, &homes, None, false, true, false), Landing::Safe);
}

#[test]
fn test_death_causes_in_the_soup_splash() {
    assert!(DeathCause::Drown.is_soup());
    assert!(DeathCause::Swept.is_soup());
    for cause in [DeathCause::Cart, DeathCause::Timeout, DeathCause::HomeMiss, DeathCause::Bun] {
        assert!(!cause.is_soup());
    }
}

#[test]
fn test_pose_frames_loop_or_hold() {
    // A looping clip wraps through its frames.
    assert_eq!(frame_index(0, 4, true), 0);
    assert_eq!(frame_index(5, 4, true), 1);
    // A one-shot holds its last.
    assert_eq!(frame_index(1, 3, false), 1);
    assert_eq!(frame_index(2, 3, false), 2);
    assert_eq!(frame_index(9, 3, false), 2);
}

#[test]
fn test_lane_table_covers_every_water_and_road_row_once() {
    let mut rows: Vec<u32> = lanes().iter().map(|def| def.row).collect();
    rows.sort_unstable();
    let mut expected: Vec<u32> = (1..=5).chain(7..=11).collect();
    expected.sort_unstable();
    assert_eq!(rows, expected, "exactly one lane per soup/belt row");
}

#[test]
fn test_lane_kinds_match_their_rows() {
    for def in lanes() {
        let soup_kind = matches!(def.kind, LaneKind::Log | LaneKind::Crackers);
        assert_eq!(is_water_row(def.row), soup_kind, "row {} carries {:?}", def.row, def.kind);
        assert_eq!(is_road_row(def.row), !soup_kind);
        assert!(def.dir == 1 || def.dir == -1);
        assert!(def.count > 0 && def.speed > 0 && def.segment.sprites > 0);
        match def.kind {
            LaneKind::Car | LaneKind::Truck => assert_eq!(def.segment.sprites, 1),
            LaneKind::Log | LaneKind::Crackers => assert!(def.segment.sprites > 1),
        }
    }
}

#[test]
fn test_lane_rows_and_speeds() {
    assert_eq!(lane(11).speed, 70);
    assert_eq!(lane(8).speed, 120);
    assert_eq!(lane(3).count, 2);
    assert_eq!(lane(5).segment.sprites, 3);
    assert!(lane_index_for_row(&lanes(), 6).is_none());
    assert!(lane_index_for_row(&lanes(), 0).is_none());
    assert!(lane_index_for_row(&lanes(), 12).is_none());
    assert!(lane_direction(10) < 0, "row 10's carts run leftward");
    assert!(lane_direction(9) > 0, "row 9's run rightward");
    assert_eq!(lane_direction(6), 1);
}

#[test]
fn test_lane_sprites_name_their_clips() {
    assert_eq!(LaneSprite::SushiCart.travelling_clip(), "roll");
    assert_eq!(LaneSprite::CeleryRaft.travelling_clip(), "idle");
    assert_eq!(LaneSprite::Cracker.travelling_clip(), "idle");
    assert!(LaneSprite::Cracker.is_posed());
    assert!(!LaneSprite::BaguetteRaft.is_posed());
    assert_eq!(LaneSprite::HotDogCart.label(), "Cart");
    assert_eq!(LaneSprite::BaguetteRaft.label(), "Raft");
    assert_eq!(LaneSprite::Cracker.label(), "Cracker");
    assert_eq!(Facing::North.suffix(), "north");
    assert_eq!(Facing::West.suffix(), "west");
    assert_eq!(Facing::start(), Facing::North);
}

#[test]
fn test_every_segment_extent_is_the_measured_art() {
    // Each number is the segment's drawn length: the first sprite's opaque
    // left to the last sprite's opaque right, off the synced sheets.
    let expected: [(u32, u32); 10] = [
        (11, 55), // one sushi cart: 55 px of art in a 64 px cell
        (10, 55), // one donut cart
        (9, 87),  // one hot dog cart: 87 in a 96 px cell
        (8, 55),
        (7, 87),
        (5, 138), // three crackers: 3 x 48 px cells, 138 px of art
        (4, 124), // two celery rafts: 2 x 64 px cells, 124 px of art
        (3, 185), // two baguette rafts: 2 x 96 px cells, 185 px of art
        (2, 90),  // two crackers
        (1, 124),
    ];
    for (row, length) in expected {
        assert_eq!(segment_length(lane(row).segment), length, "row {row}");
    }
}

#[test]
fn test_no_lane_s_segments_touch_the_next() {
    for def in lanes() {
        let length = segment_length(def.segment);
        assert!(length * (def.count as u32) < LANE_PERIOD, "row {} segments overlap at spawn", def.row);
    }
}
