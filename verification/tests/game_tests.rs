use insiculous_frogger::board::{home_col, START_ROW};
use insiculous_frogger::game::{
    display_sections, life_icon_clip, start_col, steers, Achievement, ChickenState, FroggerGame,
    GameMode, GameState, Revive, StateInput, COOP_START_COL_LEFT, SCORE_HOME,
    SCORE_PER_SEC_LEFT, SCORE_ROUND_CLEAR, SOLO_START_COL, STARTING_LIVES,
};
use insiculous_frogger::menu::{
    chaos_label_key, mode_hint_key, title_index, title_items, ModeAction, TitleAction, TitleItem,
};
use insiculous_frogger::rules::{ChaosMode, DeathCause, Facing, Hop, Landing};

/// A game mid-match with its chickens on their start tiles.
fn playing_game(mode: GameMode, chaos: ChaosMode) -> FroggerGame {
    let mut game = FroggerGame::new();
    game.mode = mode;
    game.chaos_mode = chaos;
    game.start_game();
    game
}

fn fill_nest(game: &mut FroggerGame, slot: usize) -> u32 {
    let before = game.score;
    game.fill_home(0, slot, 20);
    game.score - before
}

fn arm_beat(game: &mut FroggerGame) {
    for slot in 0..5 {
        fill_nest(game, slot);
    }
}

#[test]
fn fifth_fill_pays_the_round_and_arms_the_beat_with_the_nests_filled() {
    let mut game = playing_game(GameMode::SinglePlayer, ChaosMode::Normal);
    let round = game.round;
    let mut fourth_delta = 0;
    for slot in 0..4 {
        fourth_delta = fill_nest(&mut game, slot);
    }
    let unlocks = game.fill_home(0, 4, 20);
    let fifth_delta = game.score - 4 * fourth_delta;
    assert_eq!(
        fifth_delta,
        fourth_delta + SCORE_ROUND_CLEAR,
        "the fifth fill pays what the fourth did plus the round's reward, once"
    );
    assert!(unlocks.contains(&Achievement::RoundClear), "the fifth fill unlocks the round clear");
    assert!(game.round_clear_armed, "the fifth fill arms the full beat");
    assert!(game.homes.iter().all(|&home| home), "the fifth fill leaves all five nests filled");
    assert_eq!(game.round, round, "the round advances when the beat ends, not at the fill");
}

#[test]
fn hop_input_does_nothing_and_lanes_advance_during_the_beat() {
    let mut game = playing_game(GameMode::SinglePlayer, ChaosMode::Normal);
    arm_beat(&mut game);
    let plan = game.frame_plan();
    assert!(plan.advance_lanes, "the lanes run on through the beat");
    assert!(plan.step_round_clear);
    assert!(!plan.step_chickens, "an Up during the beat moves no chicken");
    assert!(!game.chickens_continue(), "nor does any chicken's logic run behind the beat");
}

#[test]
fn the_beat_ends_with_one_reset_and_no_double_pay() {
    let mut game = playing_game(GameMode::SinglePlayer, ChaosMode::Normal);
    arm_beat(&mut game);
    let (score, round) = (game.score, game.round);
    game.end_round_clear();
    assert!(!game.round_clear_armed);
    assert!(game.homes.iter().all(|&home| !home), "the beat's end empties every nest");
    assert_eq!(game.round, round + 1, "the beat's end advances the round once");
    assert_eq!(game.score, score, "the beat's end pays nothing more");
}

#[test]
fn restart_and_quit_inside_the_beat_keep_unlocks_and_leave_no_entity() {
    let mut game = playing_game(GameMode::SinglePlayer, ChaosMode::Normal);
    arm_beat(&mut game);
    game.start_game();
    assert!(!game.round_clear_armed, "a Restart inside the beat ends it");
    assert_eq!(game.chickens.len(), 1);
    arm_beat(&mut game);
    game.reset_to_title();
    assert!(!game.round_clear_armed);
    assert!(game.chickens.is_empty());
    assert_eq!(game.state, GameState::TitleScreen { selection: 0 });
}

#[test]
fn the_fill_that_arms_the_beat_ends_the_frame_before_the_partner_hops() {
    let mut game = playing_game(GameMode::TwoPlayerCoop, ChaosMode::Normal);
    game.homes = [true, true, true, true, false];
    game.chickens[0].row = 1;
    game.chickens[0].furthest_row = 1;
    // Player one hops into the last open nest.
    let (landed, _) = game.try_hop(0, Hop::Up, home_col(4), None, false, false, false, 30);
    assert_eq!(landed, Landing::Fill(4));
    assert!(game.round_clear_armed, "player one's hop filled the fifth nest and armed the beat this frame");
    assert!(game.homes.iter().all(|&home| home), "all five nests are filled");
    assert!(!game.chickens_continue(), "player two's Up in the arming frame does not hop it");
    for chicken in game.chickens.iter().filter(|chicken| chicken.active()) {
        assert_eq!(chicken.row, START_ROW, "the beat strands no chicken in traffic");
    }
    assert!(!game.frame_plan().step_chickens, "a fresh Up during the beat does not hop player two either");
}

#[test]
fn a_partner_waiting_to_respawn_stands_up_when_the_beat_ends() {
    let mut game = playing_game(GameMode::TwoPlayerCoop, ChaosMode::Normal);
    game.chickens[1].waiting = true;
    game.chickens[1].row = 7;
    game.homes = [true, true, true, true, false];
    game.fill_home(0, 4, 10);
    assert!(game.round_clear_armed);
    assert!(!game.chickens[1].active(), "a partner waiting to respawn stays gone during the beat");
    assert_eq!(game.chickens[1].row, 7);
    game.end_round_clear();
    let partner = game.chickens[1];
    assert!(partner.active() && partner.row == START_ROW, "the beat's end stands the partner up on its start tile");
}

#[test]
fn test_coop_chickens_spawn_on_distinct_columns() {
    let game = playing_game(GameMode::TwoPlayerCoop, ChaosMode::Normal);
    assert_eq!(game.chickens.len(), 2);
    assert_ne!(game.chickens[0].start_col, game.chickens[1].start_col);
    let solo = playing_game(GameMode::SinglePlayer, ChaosMode::Normal);
    assert_eq!(solo.chickens.len(), 1);
    assert_eq!(solo.chickens[0].start_col, SOLO_START_COL);
    assert_eq!(start_col(GameMode::TwoPlayerCoop, 0), 5);
    assert_eq!(start_col(GameMode::TwoPlayerCoop, 1), 9);
    assert_eq!(start_col(GameMode::TwoPlayerCoop, 7), 9);
}

#[test]
fn test_chicken_active_state_transitions() {
    let mut chicken = ChickenState::new(7);
    assert!(chicken.active());
    chicken.waiting = true;
    assert!(!chicken.active());
    chicken.waiting = false;
    chicken.retired = true;
    assert!(!chicken.active());
}

#[test]
fn test_a_fresh_match_owns_nothing_yet() {
    let game = FroggerGame::new();
    assert!(game.chickens.is_empty());
    assert!(!game.round_clear_armed);
    assert_eq!(game.state, GameState::TitleScreen { selection: 0 });
    assert_eq!(game.homes, [false; 5]);
    assert_eq!((game.score, game.round), (0, 1));
}

#[test]
fn test_a_round_clear_stands_every_live_chicken_back_alive() {
    let mut game = playing_game(GameMode::TwoPlayerCoop, ChaosMode::Normal);
    game.chickens[0].waiting = true;
    game.chickens[0].row = 4;
    game.chickens[0].facing = Facing::East;
    game.chickens[1].retired = true;
    game.chickens[1].row = 3;

    for index in 0..game.chickens.len() {
        game.stand_chicken_at_start(index, Revive::Waiting);
    }

    let first = game.chickens[0];
    assert!(!first.waiting, "out of the respawn wait");
    assert!(first.active(), "alive and taking input again");
    assert_eq!(first.row, START_ROW);
    assert_eq!(first.start_col, COOP_START_COL_LEFT);
    assert_eq!(first.facing, Facing::North, "facing north");
    assert_eq!(first.furthest_row, START_ROW);

    let partner = game.chickens[1];
    assert!(partner.retired, "a retired chicken stays retired");
    assert_eq!(partner.row, 3, "and is left exactly where it was");
}

#[test]
fn test_the_beats_opening_leaves_a_waiting_partner_gone_until_the_round_ends() {
    let mut game = playing_game(GameMode::TwoPlayerCoop, ChaosMode::Normal);
    game.chickens[1].waiting = true;
    game.chickens[1].row = 5;

    assert!(!game.stand_chicken_at_start(1, Revive::Never), "the beat's opening skips it");
    assert!(game.chickens[1].waiting, "still waiting");
    assert_eq!(game.chickens[1].row, 5, "and left where it died");

    assert!(game.stand_chicken_at_start(1, Revive::Waiting), "the round's end revives it");
    let revived = game.chickens[1];
    assert!(!revived.waiting);
    assert!(revived.active());
    assert_eq!(revived.row, START_ROW);
}

#[test]
fn test_a_death_costs_a_life_and_the_last_retires() {
    let mut game = playing_game(GameMode::SinglePlayer, ChaosMode::Normal);
    for lives_left in (0..STARTING_LIVES).rev() {
        assert!(!game.finish_if_all_retired());
        game.kill_chicken(0);
        assert_eq!(game.chickens[0].lives, lives_left);
        assert!(!game.chickens[0].active());
        assert_eq!(game.chickens[0].retired, lives_left == 0);
        if lives_left > 0 {
            assert!(game.respawn_chicken(0));
            assert!(game.chickens[0].active());
        }
    }
    assert!(!game.respawn_chicken(0), "a retired chicken never comes back");
    assert_eq!(game.deaths_this_round, STARTING_LIVES);
    assert!(game.finish_if_all_retired(), "the match ends once every chicken is out");
    assert_eq!(game.state, GameState::GameOver);
    assert_eq!(game.score_list(), "single");
    assert!(!game.finish_if_all_retired(), "and only once");
}

#[test]
fn test_a_hop_scores_each_new_row_once() {
    let mut game = playing_game(GameMode::SinglePlayer, ChaosMode::Normal);
    // A clear belt: nothing in the way of any of these hops.
    let step = |game: &mut FroggerGame, hop: Hop| {
        let (landed, unlocks) = game.try_hop(0, hop, SOLO_START_COL, None, false, false, false, 30);
        assert_eq!(landed, Landing::Safe);
        assert!(unlocks.is_empty());
        game.chickens[0].row
    };
    assert_eq!(step(&mut game, Hop::Up), 11);
    assert_eq!(game.score, 10);
    assert_eq!(game.chickens[0].facing, Facing::North);
    assert_eq!(step(&mut game, Hop::Down), 12);
    assert_eq!(game.chickens[0].facing, Facing::South);
    assert_eq!(step(&mut game, Hop::Up), 11);
    assert_eq!(game.score, 10, "a row already reached this attempt pays nothing");
    assert_eq!(step(&mut game, Hop::Left), 11);
    assert_eq!(game.chickens[0].facing, Facing::West);
    assert_eq!(step(&mut game, Hop::Up), 10);
    assert_eq!(game.score, 20);
}

#[test]
fn test_landings_kill_or_fill() {
    let mut game = playing_game(GameMode::SinglePlayer, ChaosMode::Ridiculous);
    // Every hop here goes from the soup's top row into the home row.
    game.chickens[0].row = 1;
    game.chickens[0].furthest_row = 1;
    let (landed, unlocks) = game.try_hop(0, Hop::Up, 2, Some(1), false, false, false, 30);
    assert_eq!(landed, Landing::Death(DeathCause::HomeMiss));
    assert!(unlocks.is_empty());
    assert_eq!(game.chickens[0].lives, STARTING_LIVES - 1);
    assert_eq!(game.chickens[0].row, 0, "the miss is resolved where the hop landed");
    game.respawn_chicken(0);
    game.chickens[0].row = 1;
    game.chickens[0].furthest_row = 1;
    let (landed, _) = game.try_hop(0, Hop::Up, home_col(1), Some(1), true, false, false, 30);
    assert_eq!(landed, Landing::Death(DeathCause::Bun));
    game.respawn_chicken(0);
    game.chickens[0].row = 1;
    game.chickens[0].furthest_row = 1;
    let before = game.score;
    let (landed, unlocks) = game.try_hop(0, Hop::Up, home_col(1), Some(1), false, false, false, 16);
    assert_eq!(landed, Landing::Fill(1));
    assert_eq!(game.score - before, 10 + SCORE_HOME + SCORE_PER_SEC_LEFT * 16, "the row and the nest");
    assert_eq!(unlocks, vec![Achievement::FirstHome, Achievement::Speedy]);
    assert_eq!(game.chickens[0].row, START_ROW, "straight back to the start");
}

#[test]
fn test_a_hop_onto_a_covered_belt_or_open_soup_dies_in_the_same_step() {
    let mut game = playing_game(GameMode::SinglePlayer, ChaosMode::Normal);
    let (landed, _) = game.try_hop(0, Hop::Up, SOLO_START_COL, None, false, true, false, 30);
    assert_eq!(landed, Landing::Death(DeathCause::Cart), "no grace frame under a cart");
    assert_eq!(game.chickens[0].lives, STARTING_LIVES - 1);
    assert_eq!(game.deaths_this_round, 1);
    assert_eq!(game.score, 10, "the row was reached before the cart hit");
    game.respawn_chicken(0);
    game.chickens[0].row = 6;
    game.chickens[0].furthest_row = 6;
    let (landed, _) = game.try_hop(0, Hop::Up, SOLO_START_COL, None, false, false, false, 30);
    assert_eq!(landed, Landing::Death(DeathCause::Drown), "open soup kills at once");
    game.respawn_chicken(0);
    game.chickens[0].row = 6;
    game.chickens[0].furthest_row = 6;
    let (landed, _) = game.try_hop(0, Hop::Up, SOLO_START_COL, None, false, false, true, 30);
    assert_eq!(landed, Landing::Safe, "a platform carries it");
    assert_eq!(game.chickens[0].row, 5);
}

#[test]
fn test_hazards_kill_before_the_hop() {
    let mut game = playing_game(GameMode::SinglePlayer, ChaosMode::Normal);
    assert_eq!(game.step_hazards(0, false, false, false, true), None, "the start row is safe");
    game.chickens[0].row = 3;
    assert_eq!(game.step_hazards(0, false, false, false, false), Some(DeathCause::Drown));
    assert_eq!(game.deaths_this_round, 1);
}

#[test]
fn test_game_over_input() {
    let mut game = playing_game(GameMode::TwoPlayerCoop, ChaosMode::Normal);
    assert_eq!(game.handle_state_input(true, true), StateInput::Stay, "play ignores these keys");
    game.state = GameState::GameOver;
    assert_eq!(game.handle_state_input(true, false), StateInput::Restart);
    assert_eq!(game.state, GameState::Playing);
    assert_eq!(game.chickens.len(), 2);
    game.state = GameState::GameOver;
    assert_eq!(game.handle_state_input(false, true), StateInput::Title);
    assert_eq!(game.state, GameState::TitleScreen { selection: 0 });
}

#[test]
fn test_coop_round_clear_unlocks() {
    let mut game = playing_game(GameMode::TwoPlayerCoop, ChaosMode::Insiculous);
    game.score = 3_000;
    for slot in 0..4 {
        game.fill_home(slot % 2, slot, 0);
    }
    let unlocks = game.fill_home(1, 4, 0);
    assert_eq!(game.score, 3_000 + 5 * SCORE_HOME + SCORE_ROUND_CLEAR);
    assert_eq!(
        unlocks,
        vec![
            Achievement::FirstHome,
            Achievement::Score5k,
            Achievement::RoundClear,
            Achievement::DeathlessRound,
            Achievement::InsiculousClear,
            Achievement::CoopRound,
        ]
    );
    assert_eq!(game.fills_this_round, [2, 3]);
    assert_eq!(game.total_homes, 5);
}

#[test]
fn test_the_life_icons_are_the_count() {
    let mut game = playing_game(GameMode::TwoPlayerCoop, ChaosMode::Normal);
    game.chickens[1].lives = 1;
    let shown: Vec<bool> = (0..6).map(|icon| game.life_icon_visible(icon)).collect();
    assert_eq!(shown, vec![true, true, true, true, false, false]);
    assert!(!game.life_icon_visible(6));
    assert_eq!(life_icon_clip(0), "round");
    assert_eq!(life_icon_clip(1), "tall");
}

#[test]
fn register_all_adds_eight() {
    assert_eq!(Achievement::all().len(), 8);
}

#[test]
fn display_sections_cover_every_registered_achievement() {
    let sections = display_sections();
    let shown: Vec<Achievement> = sections.iter().flat_map(|(_, ids)| ids.iter().copied()).collect();
    for achievement in Achievement::all() {
        assert_eq!(
            shown.iter().filter(|&&a| a == achievement).count(),
            1,
            "{} registered but not in the sections exactly once",
            achievement.id()
        );
    }
    assert_eq!(shown.len(), Achievement::all().len(), "the sections have duplicates or extras");
    assert_eq!(sections[0].0, "ach.section.crossings");
}

#[test]
fn test_menus() {
    let items = title_items(true);
    assert_eq!(items.len(), 5);
    assert_eq!(title_index(&items, TitleItem::Achievements), 2);
    let web = title_items(false);
    assert_eq!(title_index(&web, TitleItem::Achievements), 0);
    assert_eq!(title_index(&web, TitleItem::Exit), 3);

    let mut game = FroggerGame::new();
    assert_eq!(game.select_title(&items, 1, false), TitleAction::Stay);
    assert_eq!(game.state, GameState::TitleScreen { selection: 1 });
    assert_eq!(game.select_title(&items, 1, true), TitleAction::Stay);
    assert_eq!(game.mode, GameMode::TwoPlayerCoop);
    assert_eq!(game.state, GameState::ModeSelect { selection: 0 });
    assert_eq!(game.select_mode(2, false, false), ModeAction::Stay);
    assert_eq!(game.select_mode(2, false, true), ModeAction::Start);
    assert_eq!(game.chaos_mode, ChaosMode::Ridiculous);
    assert_eq!(game.state, GameState::Playing);
    assert_eq!(game.chickens.len(), 2);

    let mut game = FroggerGame::new();
    assert_eq!(game.select_title(&items, 3, true), TitleAction::CycleLocale);
    assert_eq!(game.select_title(&items, 4, true), TitleAction::Exit);
    game.select_title(&items, 2, true);
    assert_eq!(game.state, GameState::Achievements);
    game.leave_achievements(&items, true);
    assert_eq!(game.state, GameState::TitleScreen { selection: 2 });
    game.select_title(&items, 0, true);
    assert_eq!(game.select_mode(0, true, true), ModeAction::Back);
    assert_eq!(game.state, GameState::TitleScreen { selection: 0 });

    assert_eq!(chaos_label_key(ChaosMode::Insane), "chaos.insane");
    assert_eq!(mode_hint_key(ChaosMode::Insiculous), "chaos.insiculous.desc");
}

#[test]
fn test_counts_that_would_overflow_are_caught_before_the_rules_run() {
    let mut game = playing_game(GameMode::SinglePlayer, ChaosMode::Normal);
    let fits = |game: &FroggerGame, hop: Hop, col: u32, secs: u32| {
        game.hop_fits(0, hop, col, None, false, false, false, secs)
    };
    assert!(fits(&game, Hop::Up, SOLO_START_COL, 0), "a fresh match has room for the first row's points");
    game.score = u32::MAX - 5;
    assert!(!fits(&game, Hop::Up, SOLO_START_COL, 0), "ten more points would not fit");
    assert!(fits(&game, Hop::Down, SOLO_START_COL, 0), "a hop that gains no row pays nothing");

    // Into nest 2 on column 7 from the soup's top row: ten for the row, then
    // 200 + 5 per second left.
    game.chickens[0].row = 1;
    game.chickens[0].furthest_row = 1;
    game.score = u32::MAX - 260;
    assert!(fits(&game, Hop::Up, 7, 10), "260 points fit exactly");
    assert!(!fits(&game, Hop::Up, 7, 11), "265 do not");
    assert!(fits(&game, Hop::Up, 0, 11), "the wall pays only the row");
    game.deaths_this_round = u32::MAX;
    assert!(!fits(&game, Hop::Up, 0, 0), "a death's count is full");
    assert!(fits(&game, Hop::Up, 7, 10));
}

#[test]
fn test_which_keys_steer_which_chicken() {
    assert!(steers(GameMode::SinglePlayer, 0, 0) && steers(GameMode::SinglePlayer, 0, 1));
    assert!(steers(GameMode::TwoPlayerCoop, 0, 0) && !steers(GameMode::TwoPlayerCoop, 0, 1));
    assert!(!steers(GameMode::TwoPlayerCoop, 1, 0) && steers(GameMode::TwoPlayerCoop, 1, 1));
}
