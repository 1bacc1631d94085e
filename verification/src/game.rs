//! The match: its screens, the chickens' lives, the five nests, the pooled
//! score and the round-clear beat.
//!
//! Everything a frame decides about the match happens here: what a death
//! costs, what a fill pays and unlocks, when the fifth fill arms the beat and
//! what the beat's end resets, who stands back on a start tile, and when the
//! match is over. The continuous parts of a frame (positions, timers, the
//! beat's countdown) are measured by the caller and arrive as plain values.

use vstd::prelude::*;

use crate::board::{COLS, START_ROW};
use crate::rules::{
    apply_hop_row, hazard, landing, lemma_home_slot_outcomes, lemma_hop_stays_on_board,
    lemma_landing_by_row, spec_hazard, spec_hop_row, spec_landing, ChaosMode, DeathCause, Facing,
    Hop, Landing,
};

verus! {

pub const STARTING_LIVES: u32 = 3;
/// Solo spawns in the centre column; co-op splits left and right of it.
pub const SOLO_START_COL: u32 = 7;
pub const COOP_START_COL_LEFT: u32 = 5;
pub const COOP_START_COL_RIGHT: u32 = 9;

pub const SCORE_PER_ROW: u32 = 10;
pub const SCORE_HOME: u32 = 200;
/// Points per whole second left on the attempt timer at a fill.
pub const SCORE_PER_SEC_LEFT: u32 = 5;
pub const SCORE_ROUND_CLEAR: u32 = 1000;

/// A fill with at least this many whole seconds left is speedy.
pub const SPEEDY_SECS_LEFT: u32 = 15;
pub const HOMES_MILESTONE: u32 = 25;
pub const SCORE_TIER: u32 = 5000;

/// Which screen the game is on.
#[derive(Debug, Clone, Copy, PartialEq, Eq, Structural)]
pub enum GameState {
    TitleScreen { selection: u8 },
    ModeSelect { selection: u8 },
    Achievements,
    Playing,
    /// Endless rounds: the only ending is every chicken running out of lives.
    GameOver,
}

/// How many chickens cross. Co-op shares the board, the nests and the score
/// but keeps per-chicken lives.
#[derive(Debug, Clone, Copy, PartialEq, Eq, Structural)]
pub enum GameMode {
    SinglePlayer,
    TwoPlayerCoop,
}

impl GameMode {
    pub open spec fn spec_player_count(self) -> usize {
        match self {
            GameMode::SinglePlayer => 1,
            GameMode::TwoPlayerCoop => 2,
        }
    }

    /// The number of chickens this mode puts on the board.
    #[verifier::when_used_as_spec(spec_player_count)]
    pub fn player_count(self) -> (count: usize)
        ensures
            count == self.spec_player_count(),
    {
        match self {
            GameMode::SinglePlayer => 1,
            GameMode::TwoPlayerCoop => 2,
        }
    }
}

/// The column chicken `index` respawns at: solo in the centre, co-op player
/// one left of it and every later player right of it.
pub open spec fn spec_start_col(mode: GameMode, index: usize) -> u32 {
    match mode {
        GameMode::SinglePlayer => SOLO_START_COL,
        GameMode::TwoPlayerCoop => if index == 0 {
            COOP_START_COL_LEFT
        } else {
            COOP_START_COL_RIGHT
        },
    }
}

pub fn start_col(mode: GameMode, index: usize) -> (col: u32)
    ensures
        col == spec_start_col(mode, index),
{
    match mode {
        GameMode::SinglePlayer => SOLO_START_COL,
        GameMode::TwoPlayerCoop => {
            if index == 0 {
                COOP_START_COL_LEFT
            } else {
                COOP_START_COL_RIGHT
            }
        },
    }
}

/// Whether player `player`'s keys (0 for player one, 1 for player two) steer
/// chicken `index`: in single player both players' keys steer the one
/// chicken; in co-op player one steers the first chicken and player two every
/// other.
pub open spec fn spec_steers(mode: GameMode, index: usize, player: usize) -> bool {
    match mode {
        GameMode::SinglePlayer => player < 2,
        GameMode::TwoPlayerCoop => if index == 0 {
            player == 0
        } else {
            player == 1
        },
    }
}

pub fn steers(mode: GameMode, index: usize, player: usize) -> (steers: bool)
    ensures
        steers == spec_steers(mode, index, player),
{
    match mode {
        GameMode::SinglePlayer => player < 2,
        GameMode::TwoPlayerCoop => {
            if index == 0 {
                player == 0
            } else {
                player == 1
            }
        },
    }
}

/// Whether standing the chickens back on their start tiles also brings back
/// one still waiting to respawn: a round's end does, the beat's opening does
/// not.
#[derive(Debug, Clone, Copy, PartialEq, Eq, Structural)]
pub enum Revive {
    Waiting,
    Never,
}

/// One player's chicken, as the rules see it: where it stands on the board,
/// how it faces, its lives, whether it is dead and waiting to respawn, the
/// nearest-to-home row it reached this attempt, its start column, and whether
/// it is out of lives for good.
#[derive(Debug, Clone, Copy, PartialEq, Eq, Structural)]
pub struct ChickenState {
    pub row: u32,
    pub facing: Facing,
    pub lives: u32,
    /// Dead and waiting to respawn (hidden meanwhile).
    pub waiting: bool,
    pub furthest_row: u32,
    pub start_col: u32,
    /// Out of lives: hidden, no input, the partner plays on.
    pub retired: bool,
}

impl ChickenState {
    pub open spec fn spec_new(start_col: u32) -> ChickenState {
        ChickenState {
            row: START_ROW,
            facing: Facing::North,
            lives: STARTING_LIVES,
            waiting: false,
            furthest_row: START_ROW,
            start_col,
            retired: false,
        }
    }

    /// A fresh chicken on the start row, facing north, with every life.
    pub fn new(start_col: u32) -> (chicken: ChickenState)
        ensures
            chicken == ChickenState::spec_new(start_col),
    {
        ChickenState {
            row: START_ROW,
            facing: Facing::North,
            lives: STARTING_LIVES,
            waiting: false,
            furthest_row: START_ROW,
            start_col,
            retired: false,
        }
    }

    pub open spec fn spec_active(&self) -> bool {
        !self.retired && !self.waiting
    }

    /// Alive and accepting input this frame.
    #[verifier::when_used_as_spec(spec_active)]
    pub fn active(&self) -> (active: bool)
        ensures
            active == self.spec_active(),
    {
        !self.retired && !self.waiting
    }
}

/// The chicken stood back on its start tile: start row, facing north, out of
/// any respawn wait, its furthest row reset.
pub open spec fn spec_stood(c: ChickenState) -> ChickenState {
    ChickenState { row: START_ROW, facing: Facing::North, waiting: false, furthest_row: START_ROW, ..c }
}

/// Whether standing a chicken back applies to it: never to a retired one,
/// and to one waiting to respawn only when `revive` says so.
pub open spec fn spec_stands(c: ChickenState, revive: Revive) -> bool {
    !(c.retired || (c.waiting && revive is Never))
}

pub open spec fn spec_stand(c: ChickenState, revive: Revive) -> ChickenState {
    if spec_stands(c, revive) {
        spec_stood(c)
    } else {
        c
    }
}

/// A death: one life gone (never below zero), the respawn wait begun, and
/// retirement on the last life.
pub open spec fn spec_killed(c: ChickenState) -> ChickenState {
    let lives = if c.lives == 0 {
        0u32
    } else {
        (c.lives - 1) as u32
    };
    ChickenState { lives, waiting: true, retired: c.retired || lives == 0, ..c }
}

/// The end of a respawn wait: a waiting chicken that is not retired comes
/// back on its start tile; any other is left as it is.
pub open spec fn spec_respawned(c: ChickenState) -> ChickenState {
    if c.waiting && !c.retired {
        spec_stood(c)
    } else {
        c
    }
}

/// The achievements a match can unlock.
#[derive(Debug, Clone, Copy, PartialEq, Eq, Structural)]
pub enum Achievement {
    FirstHome,
    RoundClear,
    Homes25,
    DeathlessRound,
    Speedy,
    Score5k,
    InsiculousClear,
    CoopRound,
}

impl Achievement {
    /// The id the achievement is registered and unlocked under.
    pub fn id(self) -> (id: &'static str)
        ensures
            id@ == (match self {
                Achievement::FirstHome => "first_home"@,
                Achievement::RoundClear => "round_clear"@,
                Achievement::Homes25 => "homes_25"@,
                Achievement::DeathlessRound => "deathless_round"@,
                Achievement::Speedy => "speedy"@,
                Achievement::Score5k => "score_5k"@,
                Achievement::InsiculousClear => "insiculous_clear"@,
                Achievement::CoopRound => "coop_round"@,
            }),
    {
        match self {
            Achievement::FirstHome => "first_home",
            Achievement::RoundClear => "round_clear",
            Achievement::Homes25 => "homes_25",
            Achievement::DeathlessRound => "deathless_round",
            Achievement::Speedy => "speedy",
            Achievement::Score5k => "score_5k",
            Achievement::InsiculousClear => "insiculous_clear",
            Achievement::CoopRound => "coop_round",
        }
    }
}

/// The match's rules-side state.
pub struct FroggerGame {
    pub state: GameState,
    pub mode: GameMode,
    pub chaos_mode: ChaosMode,
    pub chickens: Vec<ChickenState>,
    /// Nests left to right; true = filled.
    pub homes: [bool; 5],
    /// Pooled score (both co-op players feed it).
    pub score: u32,
    /// 1-based round number.
    pub round: u32,
    /// Whether the round-clear beat is running: the match is still playing
    /// but no chicken is simulated.
    pub round_clear_armed: bool,
    /// Deaths this round.
    pub deaths_this_round: u32,
    /// Nest fills per player this round.
    pub fills_this_round: [u32; 2],
    /// Nest fills this session.
    pub total_homes: u32,
}

impl ChickenState {
    /// A chicken as the rules keep it: on the board, its furthest row this
    /// attempt no further from home than where it stands, no more lives than
    /// it started with, retired exactly when it has none left (and then out
    /// of play for good), on one of the board's columns.
    pub open spec fn spec_wf(self) -> bool {
        &&& self.row <= START_ROW
        &&& self.furthest_row <= self.row
        &&& self.lives <= STARTING_LIVES
        &&& self.retired <==> self.lives == 0
        &&& self.retired ==> self.waiting
        &&& self.start_col < COLS
    }
}

impl FroggerGame {
    /// The match as the rules keep it: every chicken well formed, one
    /// chicken per player while a match is on screen, and a round number
    /// counted from one.
    pub open spec fn wf(&self) -> bool {
        &&& forall|i: int| 0 <= i < self.chickens@.len() ==> #[trigger] self.chickens@[i].spec_wf()
        &&& (self.state == GameState::Playing || self.state == GameState::GameOver)
            ==> self.chickens@.len() == self.mode.spec_player_count()
        &&& self.round >= 1
    }
}

/// Replacing one well-formed chicken with another keeps every chicken well
/// formed.
proof fn lemma_update_keeps_chickens_wf(chickens: Seq<ChickenState>, index: int, c: ChickenState)
    requires
        0 <= index < chickens.len(),
        forall|i: int| 0 <= i < chickens.len() ==> #[trigger] chickens[i].spec_wf(),
        c.spec_wf(),
    ensures
        forall|i: int|
            0 <= i < chickens.len() ==> #[trigger] chickens.update(index, c)[i].spec_wf(),
{
    assert forall|i: int| 0 <= i < chickens.len() implies #[trigger] chickens.update(
        index,
        c,
    )[i].spec_wf() by {
        if i != index {
            assert(chickens.update(index, c)[i] == chickens[i]);
        }
    }
}

pub open spec fn spec_all_filled(homes: Seq<bool>) -> bool {
    forall|i: int| 0 <= i < homes.len() ==> #[trigger] homes[i]
}

fn all_filled(homes: &[bool; 5]) -> (all: bool)
    ensures
        all == spec_all_filled(homes@),
{
    let mut i: usize = 0;
    while i < 5
        invariant
            i <= 5,
            homes@.len() == 5,
            forall|j: int| 0 <= j < i ==> homes@[j],
        decreases 5 - i,
    {
        if !homes[i] {
            return false;
        }
        i += 1;
    }
    true
}

/// A match started from `before`: playing, in the same mode and chaos mode,
/// one fresh chicken per player on its start column, the nests empty, every
/// counter of the match reset and no beat running; the session's fill count
/// is kept.
pub open spec fn spec_started(before: FroggerGame, after: FroggerGame) -> bool {
    &&& after.state == GameState::Playing
    &&& after.mode == before.mode
    &&& after.chaos_mode == before.chaos_mode
    &&& after.chickens@.len() == before.mode.spec_player_count()
    &&& forall|i: int|
        0 <= i < after.chickens@.len() ==> #[trigger] after.chickens@[i] == ChickenState::spec_new(
            spec_start_col(before.mode, i as usize),
        )
    &&& after.homes@ == seq![false, false, false, false, false]
    &&& after.score == 0
    &&& after.round == 1
    &&& !after.round_clear_armed
    &&& after.deaths_this_round == 0
    &&& after.fills_this_round@ == seq![0u32, 0u32]
    &&& after.total_homes == before.total_homes
}

/// The match left for the title screen: the cursor on the first row, no
/// chickens and no beat; everything else is kept for the next match to reset.
pub open spec fn spec_left_for_title(before: FroggerGame, after: FroggerGame) -> bool {
    &&& after.state == (GameState::TitleScreen { selection: 0 })
    &&& after.chickens@.len() == 0
    &&& !after.round_clear_armed
    &&& after == (FroggerGame {
        state: after.state,
        chickens: after.chickens,
        round_clear_armed: after.round_clear_armed,
        ..before
    })
}

impl FroggerGame {
    /// The game as the engine builds it: on the title screen, single player,
    /// normal mode, no match running.
    pub fn new() -> (game: FroggerGame)
        ensures
            game.wf(),
            game.state == (GameState::TitleScreen { selection: 0 }),
            game.mode == GameMode::SinglePlayer,
            game.chaos_mode == ChaosMode::Normal,
            game.chickens@ == Seq::<ChickenState>::empty(),
            game.homes@ == seq![false, false, false, false, false],
            game.score == 0,
            game.round == 1,
            !game.round_clear_armed,
            game.deaths_this_round == 0,
            game.fills_this_round@ == seq![0u32, 0u32],
            game.total_homes == 0,
    {
        let game = FroggerGame {
            state: GameState::TitleScreen { selection: 0 },
            mode: GameMode::SinglePlayer,
            chaos_mode: ChaosMode::Normal,
            chickens: Vec::new(),
            homes: [false; 5],
            score: 0,
            round: 1,
            round_clear_armed: false,
            deaths_this_round: 0,
            fills_this_round: [0; 2],
            total_homes: 0,
        };
        assert(game.homes@ =~= seq![false, false, false, false, false]);
        assert(game.fills_this_round@ =~= seq![0u32, 0u32]);
        game
    }

    /// Start a match in the current mode: every counter reset, the nests
    /// empty, no beat running, one fresh chicken per player on its start
    /// column, and the match playing. The session's fill count is kept.
    pub fn start_game(&mut self)
        ensures
            old(self).wf() ==> final(self).wf(),
            spec_started(*old(self), *final(self)),
    {
        self.round_clear_armed = false;
        self.score = 0;
        self.round = 1;
        self.deaths_this_round = 0;
        self.fills_this_round = [0; 2];
        self.homes = [false; 5];
        let count = self.mode.player_count();
        let mut chickens: Vec<ChickenState> = Vec::new();
        let mut i: usize = 0;
        while i < count
            invariant
                i <= count,
                count == self.mode.spec_player_count(),
                chickens@.len() == i,
                forall|j: int|
                    0 <= j < i ==> #[trigger] chickens@[j] == ChickenState::spec_new(
                        spec_start_col(self.mode, j as usize),
                    ),
            decreases count - i,
        {
            chickens.push(ChickenState::new(start_col(self.mode, i)));
            i += 1;
        }
        self.chickens = chickens;
        self.state = GameState::Playing;
        assert(self.homes@ =~= seq![false, false, false, false, false]);
        assert(self.fills_this_round@ =~= seq![0u32, 0u32]);
    }

    /// Chicken `index` dies: a death counted this round, a life lost, the
    /// respawn wait begun, retirement on its last life.
    pub fn kill_chicken(&mut self, index: usize)
        requires
            index < old(self).chickens@.len(),
            old(self).deaths_this_round < u32::MAX,
        ensures
            old(self).wf() ==> final(self).wf(),
            spec_kill_result(*old(self), *final(self), index),
    {
        self.deaths_this_round += 1;
        let mut chicken = self.chickens[index];
        chicken.lives = chicken.lives.saturating_sub(1);
        chicken.waiting = true;
        if chicken.lives == 0 {
            chicken.retired = true;
        }
        proof {
            if old(self).wf() {
                assert(old(self).chickens@[index as int].spec_wf());
                lemma_update_keeps_chickens_wf(old(self).chickens@, index as int, chicken);
            }
        }
        self.chickens.set(index, chicken);
    }

    /// Stand chicken `index` back on its start tile alive, facing north, out
    /// of any respawn wait. A retired chicken stays retired and where it was;
    /// one still waiting to respawn is stood only when `revive` says so.
    /// Returns whether the chicken was stood.
    pub fn stand_chicken_at_start(&mut self, index: usize, revive: Revive) -> (stood: bool)
        requires
            index < old(self).chickens@.len(),
        ensures
            old(self).wf() ==> final(self).wf(),
            stood == spec_stands(old(self).chickens@[index as int], revive),
            final(self).chickens@ == old(self).chickens@.update(
                index as int,
                spec_stand(old(self).chickens@[index as int], revive),
            ),
            final(self).state == old(self).state,
            final(self).mode == old(self).mode,
            final(self).chaos_mode == old(self).chaos_mode,
            final(self).homes == old(self).homes,
            final(self).score == old(self).score,
            final(self).round == old(self).round,
            final(self).round_clear_armed == old(self).round_clear_armed,
            final(self).deaths_this_round == old(self).deaths_this_round,
            final(self).fills_this_round == old(self).fills_this_round,
            final(self).total_homes == old(self).total_homes,
    {
        let chicken = self.chickens[index];
        if chicken.retired || (chicken.waiting && revive == Revive::Never) {
            proof {
                assert(self.chickens@ =~= old(self).chickens@.update(index as int, chicken));
            }
            return false;
        }
        let mut stood = chicken;
        stood.row = START_ROW;
        stood.facing = Facing::start();
        stood.waiting = false;
        stood.furthest_row = START_ROW;
        proof {
            if old(self).wf() {
                assert(old(self).chickens@[index as int].spec_wf());
                lemma_update_keeps_chickens_wf(old(self).chickens@, index as int, stood);
            }
        }
        self.chickens.set(index, stood);
        true
    }

    /// Stand every chicken back on its start tile, as `stand_chicken_at_start`
    /// does for one.
    pub fn place_chickens_at_start(&mut self, revive: Revive)
        ensures
            old(self).wf() ==> final(self).wf(),
            final(self).chickens@.len() == old(self).chickens@.len(),
            forall|i: int|
                0 <= i < final(self).chickens@.len() ==> #[trigger] final(self).chickens@[i]
                    == spec_stand(old(self).chickens@[i], revive),
            final(self).state == old(self).state,
            final(self).mode == old(self).mode,
            final(self).chaos_mode == old(self).chaos_mode,
            final(self).homes == old(self).homes,
            final(self).score == old(self).score,
            final(self).round == old(self).round,
            final(self).round_clear_armed == old(self).round_clear_armed,
            final(self).deaths_this_round == old(self).deaths_this_round,
            final(self).fills_this_round == old(self).fills_this_round,
            final(self).total_homes == old(self).total_homes,
    {
        let mut i: usize = 0;
        while i < self.chickens.len()
            invariant
                i <= self.chickens@.len(),
                self.chickens@.len() == old(self).chickens@.len(),
                forall|j: int|
                    0 <= j < i ==> #[trigger] self.chickens@[j] == spec_stand(
                        old(self).chickens@[j],
                        revive,
                    ),
                forall|j: int|
                    i <= j < self.chickens@.len() ==> #[trigger] self.chickens@[j]
                        == old(self).chickens@[j],
                self.state == old(self).state,
                self.mode == old(self).mode,
                self.chaos_mode == old(self).chaos_mode,
                self.homes == old(self).homes,
                self.score == old(self).score,
                self.round == old(self).round,
                self.round_clear_armed == old(self).round_clear_armed,
                self.deaths_this_round == old(self).deaths_this_round,
                self.fills_this_round == old(self).fills_this_round,
                self.total_homes == old(self).total_homes,
                old(self).wf() ==> self.wf(),
            decreases self.chickens@.len() - i,
        {
            self.stand_chicken_at_start(i, revive);
            i += 1;
        }
    }

    /// Chicken `index`'s respawn wait has run out: a waiting chicken that is
    /// not retired comes back on its start tile, facing north. Returns
    /// whether it came back.
    pub fn respawn_chicken(&mut self, index: usize) -> (returned: bool)
        requires
            index < old(self).chickens@.len(),
        ensures
            old(self).wf() ==> final(self).wf(),
            returned == (old(self).chickens@[index as int].waiting
                && !old(self).chickens@[index as int].retired),
            final(self).chickens@ == old(self).chickens@.update(
                index as int,
                spec_respawned(old(self).chickens@[index as int]),
            ),
            *final(self) == (FroggerGame { chickens: final(self).chickens, ..*old(self) }),
    {
        let chicken = self.chickens[index];
        if chicken.retired || !chicken.waiting {
            proof {
                assert(self.chickens@ =~= old(self).chickens@.update(index as int, chicken));
            }
            return false;
        }
        self.stand_chicken_at_start(index, Revive::Waiting)
    }

    /// Every chicken is out of lives.
    pub open spec fn spec_all_retired(&self) -> bool {
        forall|i: int| 0 <= i < self.chickens@.len() ==> #[trigger] self.chickens@[i].retired
    }

    /// End a playing match once every chicken is retired; this is the only
    /// way into the game-over screen. Returns whether it ended.
    pub fn finish_if_all_retired(&mut self) -> (finished: bool)
        ensures
            old(self).wf() ==> final(self).wf(),
            finished == (old(self).state == GameState::Playing && old(self).spec_all_retired()),
            *final(self) == (FroggerGame {
                state: if finished {
                    GameState::GameOver
                } else {
                    old(self).state
                },
                ..*old(self)
            }),
    {
        let mut i: usize = 0;
        while i < self.chickens.len()
            invariant
                i <= self.chickens@.len(),
                forall|j: int| 0 <= j < i ==> #[trigger] self.chickens@[j].retired,
            decreases self.chickens@.len() - i,
        {
            if !self.chickens[i].retired {
                return false;
            }
            i += 1;
        }
        if self.state == GameState::Playing {
            self.state = GameState::GameOver;
            true
        } else {
            false
        }
    }

    /// The high-score list a finished match is submitted under.
    pub fn score_list(&self) -> (list: &'static str)
        ensures
            list@ == (match self.mode {
                GameMode::SinglePlayer => "single"@,
                GameMode::TwoPlayerCoop => "coop"@,
            }),
    {
        match self.mode {
            GameMode::SinglePlayer => "single",
            GameMode::TwoPlayerCoop => "coop",
        }
    }
}

/// What a fill pays: the nest, five points per whole second left, and the
/// round's reward when it is the fill that completes the row of nests.
pub open spec fn spec_fill_pay(secs_left: u32, clears: bool) -> int {
    SCORE_HOME + SCORE_PER_SEC_LEFT * secs_left + if clears {
        SCORE_ROUND_CLEAR as int
    } else {
        0
    }
}

pub open spec fn spec_if(cond: bool, achievement: Achievement) -> Seq<Achievement> {
    if cond {
        seq![achievement]
    } else {
        Seq::empty()
    }
}

/// What a fill unlocks, in order: the first home always, a speedy fill, the
/// session's 25th fill, the score tier; and, on the fill that completes the
/// nests, the score tier again, the round clear, a deathless round, an
/// insiculous clear and a co-op round where each player filled a nest.
pub open spec fn spec_fill_unlocks(
    secs_left: u32,
    total_after: u32,
    score_after_home: int,
    clears: bool,
    deaths: u32,
    chaos: ChaosMode,
    mode: GameMode,
    fills_after: Seq<u32>,
) -> Seq<Achievement> {
    let home = seq![Achievement::FirstHome] + spec_if(secs_left >= SPEEDY_SECS_LEFT, Achievement::Speedy)
        + spec_if(total_after >= HOMES_MILESTONE, Achievement::Homes25) + spec_if(
        score_after_home >= SCORE_TIER,
        Achievement::Score5k,
    );
    if clears {
        home + spec_if(score_after_home + SCORE_ROUND_CLEAR >= SCORE_TIER, Achievement::Score5k)
            + seq![Achievement::RoundClear] + spec_if(deaths == 0, Achievement::DeathlessRound)
            + spec_if(chaos == ChaosMode::Insiculous, Achievement::InsiculousClear) + spec_if(
            mode == GameMode::TwoPlayerCoop && fills_after[0] > 0 && fills_after[1] > 0,
            Achievement::CoopRound,
        )
    } else {
        home
    }
}

/// The chickens after a fill: the filler stood back on its start tile, and
/// when the fill completes the nests, every chicken not waiting to respawn
/// with it.
pub open spec fn spec_fill_chickens(chickens: Seq<ChickenState>, index: int, clears: bool) -> Seq<ChickenState> {
    let filler_back = chickens.update(index, spec_stand(chickens[index], Revive::Waiting));
    if clears {
        Seq::new(filler_back.len(), |i: int| spec_stand(filler_back[i], Revive::Never))
    } else {
        filler_back
    }
}

/// The nests once nest `slot` fills.
pub open spec fn spec_homes_after_fill(homes: Seq<bool>, slot: int) -> Seq<bool> {
    homes.update(slot, true)
}

/// Which player's tally a fill counts in: player one's, or player two's for
/// every later chicken.
pub open spec fn spec_filler(index: usize) -> int {
    if index < 1 {
        index as int
    } else {
        1
    }
}

/// What a fill of nest `slot` by chicken `index`, with `secs_left` whole
/// seconds on its timer, does to a match that is `before` but for its
/// chickens and its score, which are `chickens` and `score`, and what it
/// unlocks: the nest
/// fills, the session and the filler's round tallies count it, it is paid,
/// the chickens are stood back, the beat arms on the fill that completes the
/// nests, and nothing else changes.
pub open spec fn spec_fill_from(
    before: FroggerGame,
    chickens: Seq<ChickenState>,
    score: int,
    after: FroggerGame,
    index: usize,
    slot: usize,
    secs_left: u32,
    unlocks: Seq<Achievement>,
) -> bool {
    let homes = spec_homes_after_fill(before.homes@, slot as int);
    let clears = spec_all_filled(homes);
    let fills = before.fills_this_round@.update(
        spec_filler(index),
        (before.fills_this_round@[spec_filler(index)] + 1) as u32,
    );
    &&& after.homes@ == homes
    &&& after.total_homes == before.total_homes + 1
    &&& after.fills_this_round@ == fills
    &&& after.score == score + spec_fill_pay(secs_left, clears)
    &&& after.round_clear_armed == (before.round_clear_armed || clears)
    &&& after.chickens@ == spec_fill_chickens(chickens, index as int, clears)
    &&& unlocks == spec_fill_unlocks(
        secs_left,
        (before.total_homes + 1) as u32,
        score + spec_fill_pay(secs_left, false),
        clears,
        before.deaths_this_round,
        before.chaos_mode,
        before.mode,
        fills,
    )
    &&& after.round == before.round
    &&& after.state == before.state
    &&& after.mode == before.mode
    &&& after.chaos_mode == before.chaos_mode
    &&& after.deaths_this_round == before.deaths_this_round
}

/// A fill from `before` itself.
pub open spec fn spec_fill_result(
    before: FroggerGame,
    after: FroggerGame,
    index: usize,
    slot: usize,
    secs_left: u32,
    unlocks: Seq<Achievement>,
) -> bool {
    spec_fill_from(before, before.chickens@, before.score as int, after, index, slot, secs_left, unlocks)
}

/// What a death of chicken `index` does to a match that is `before` but for
/// its chickens and its score, which are `chickens` and `score`: its life and
/// its respawn wait, one more death this round, and nothing else.
pub open spec fn spec_kill_from(
    before: FroggerGame,
    chickens: Seq<ChickenState>,
    score: int,
    after: FroggerGame,
    index: usize,
) -> bool {
    &&& after.chickens@ == chickens.update(index as int, spec_killed(chickens[index as int]))
    &&& after.deaths_this_round == before.deaths_this_round + 1
    &&& after.state == before.state
    &&& after.mode == before.mode
    &&& after.chaos_mode == before.chaos_mode
    &&& after.homes == before.homes
    &&& after.score == score
    &&& after.round == before.round
    &&& after.round_clear_armed == before.round_clear_armed
    &&& after.fills_this_round == before.fills_this_round
    &&& after.total_homes == before.total_homes
}

/// A death in `before` itself.
pub open spec fn spec_kill_result(before: FroggerGame, after: FroggerGame, index: usize) -> bool {
    spec_kill_from(before, before.chickens@, before.score as int, after, index)
}

impl FroggerGame {
    /// Chicken `index` reaches empty nest `slot` with `secs_left` whole
    /// seconds on its attempt timer: the nest fills, the fill is counted and
    /// paid, the chicken goes straight back to its start tile, and the fifth
    /// fill pays the round's reward, stands every chicken not waiting to
    /// respawn back on its start tile and arms the round-clear beat. The round
    /// itself advances only when the beat ends. Returns the achievements to
    /// unlock, in order.
    pub fn fill_home(&mut self, index: usize, slot: usize, secs_left: u32) -> (unlocks: Vec<Achievement>)
        requires
            index < old(self).chickens@.len(),
            slot < 5,
            old(self).total_homes < u32::MAX,
            old(self).fills_this_round@[spec_filler(index)] < u32::MAX,
            old(self).score + spec_fill_pay(
                secs_left,
                spec_all_filled(spec_homes_after_fill(old(self).homes@, slot as int)),
            ) <= u32::MAX,
        ensures
            old(self).wf() ==> final(self).wf(),
            spec_fill_result(*old(self), *final(self), index, slot, secs_left, unlocks@),
    {
        self.homes[slot] = true;
        self.total_homes += 1;
        let filler: usize = if index < 1 {
            index
        } else {
            1
        };
        self.fills_this_round[filler] = self.fills_this_round[filler] + 1;
        self.score = self.score + SCORE_HOME + SCORE_PER_SEC_LEFT * secs_left;

        let mut unlocks: Vec<Achievement> = Vec::new();
        unlocks.push(Achievement::FirstHome);
        if secs_left >= SPEEDY_SECS_LEFT {
            unlocks.push(Achievement::Speedy);
        }
        if self.total_homes >= HOMES_MILESTONE {
            unlocks.push(Achievement::Homes25);
        }
        if self.score >= SCORE_TIER {
            unlocks.push(Achievement::Score5k);
        }
        let ghost home_unlocks = unlocks@;
        assert(home_unlocks =~= seq![Achievement::FirstHome] + spec_if(
            secs_left >= SPEEDY_SECS_LEFT,
            Achievement::Speedy,
        ) + spec_if(self.total_homes >= HOMES_MILESTONE, Achievement::Homes25) + spec_if(
            self.score >= SCORE_TIER,
            Achievement::Score5k,
        ));
        assert(self.homes@ =~= spec_homes_after_fill(old(self).homes@, slot as int));
        assert(self.fills_this_round@ =~= old(self).fills_this_round@.update(
            spec_filler(index),
            (old(self).fills_this_round@[spec_filler(index)] + 1) as u32,
        ));

        self.stand_chicken_at_start(index, Revive::Waiting);
        let ghost filler_back = self.chickens@;

        if all_filled(&self.homes) {
            self.award_round_clear(&mut unlocks);
            assert(self.chickens@ =~= Seq::new(
                filler_back.len(),
                |i: int| spec_stand(filler_back[i], Revive::Never),
            ));
        }
        unlocks
    }

    /// The fifth fill's rewards, read while it is still the last thing that
    /// happened: the round's score, its achievements, every chicken not
    /// waiting to respawn back on its start tile, and the beat armed.
    fn award_round_clear(&mut self, unlocks: &mut Vec<Achievement>)
        requires
            old(self).score + SCORE_ROUND_CLEAR <= u32::MAX,
        ensures
            final(unlocks)@ == old(unlocks)@ + spec_if(
                old(self).score + SCORE_ROUND_CLEAR >= SCORE_TIER,
                Achievement::Score5k,
            ) + seq![Achievement::RoundClear] + spec_if(
                old(self).deaths_this_round == 0,
                Achievement::DeathlessRound,
            ) + spec_if(old(self).chaos_mode == ChaosMode::Insiculous, Achievement::InsiculousClear)
                + spec_if(
                old(self).mode == GameMode::TwoPlayerCoop && old(self).fills_this_round@[0] > 0
                    && old(self).fills_this_round@[1] > 0,
                Achievement::CoopRound,
            ),
            old(self).wf() ==> final(self).wf(),
            final(self).score == old(self).score + SCORE_ROUND_CLEAR,
            final(self).round_clear_armed,
            final(self).chickens@.len() == old(self).chickens@.len(),
            forall|i: int|
                0 <= i < final(self).chickens@.len() ==> #[trigger] final(self).chickens@[i]
                    == spec_stand(old(self).chickens@[i], Revive::Never),
            final(self).state == old(self).state,
            final(self).mode == old(self).mode,
            final(self).chaos_mode == old(self).chaos_mode,
            final(self).homes == old(self).homes,
            final(self).round == old(self).round,
            final(self).deaths_this_round == old(self).deaths_this_round,
            final(self).fills_this_round == old(self).fills_this_round,
            final(self).total_homes == old(self).total_homes,
    {
        let ghost before = unlocks@;
        self.score = self.score + SCORE_ROUND_CLEAR;
        if self.score >= SCORE_TIER {
            unlocks.push(Achievement::Score5k);
        }
        unlocks.push(Achievement::RoundClear);
        if self.deaths_this_round == 0 {
            unlocks.push(Achievement::DeathlessRound);
        }
        if self.chaos_mode == ChaosMode::Insiculous {
            unlocks.push(Achievement::InsiculousClear);
        }
        if self.mode == GameMode::TwoPlayerCoop && self.fills_this_round[0] > 0
            && self.fills_this_round[1] > 0 {
            unlocks.push(Achievement::CoopRound);
        }
        assert(unlocks@ =~= before + spec_if(
            old(self).score + SCORE_ROUND_CLEAR >= SCORE_TIER,
            Achievement::Score5k,
        ) + seq![Achievement::RoundClear] + spec_if(
            old(self).deaths_this_round == 0,
            Achievement::DeathlessRound,
        ) + spec_if(old(self).chaos_mode == ChaosMode::Insiculous, Achievement::InsiculousClear)
            + spec_if(
            old(self).mode == GameMode::TwoPlayerCoop && old(self).fills_this_round@[0] > 0
                && old(self).fills_this_round@[1] > 0,
            Achievement::CoopRound,
        ));
        self.place_chickens_at_start(Revive::Never);
        self.round_clear_armed = true;
    }
}

/// What the game-over screen's input asks for.
#[derive(Debug, Clone, Copy, PartialEq, Eq, Structural)]
pub enum StateInput {
    /// Nothing: not on the game-over screen, or no key.
    Stay,
    /// Action1: a fresh match in the same mode.
    Restart,
    /// Menu: back to the title screen.
    Title,
}

/// Which parts of a gameplay frame run: the lanes scroll while playing and
/// behind the game-over screen; while playing, the beat counts down when it is
/// armed and the chickens are simulated when it is not.
#[derive(Debug, Clone, Copy, PartialEq, Eq, Structural)]
pub struct FramePlan {
    pub advance_lanes: bool,
    pub step_round_clear: bool,
    pub step_chickens: bool,
}

/// Whether chicken `index`'s hop keeps the match's counts in range: its row
/// can move, and the points for the rows it gains fit the score.
pub open spec fn spec_hop_fits(game: FroggerGame, index: usize, hop: Hop) -> bool {
    let c = game.chickens@[index as int];
    let row = spec_hop_row(c.row, hop);
    &&& c.row < u32::MAX
    &&& row < c.furthest_row ==> game.score + SCORE_PER_ROW * (c.furthest_row - row) <= u32::MAX
}

/// Whether resolving chicken `index`'s landing keeps the match's counts in
/// range: a death's count, or a fill's tallies and its pay, in a match that is
/// `game` but for its chickens and its score.
pub open spec fn spec_landing_fits_from(
    game: FroggerGame,
    chickens: Seq<ChickenState>,
    score: int,
    index: usize,
    col: u32,
    bun_nest: Option<usize>,
    bun_open: bool,
    road_hit: bool,
    on_platform: bool,
    secs_left: u32,
) -> bool {
    let landed = spec_landing(
        chickens[index as int].row,
        col,
        game.homes@,
        bun_nest,
        bun_open,
        road_hit,
        on_platform,
    );
    &&& landed is Death ==> game.deaths_this_round < u32::MAX
    &&& landed matches Landing::Fill(slot) ==> {
        &&& game.total_homes < u32::MAX
        &&& game.fills_this_round@[spec_filler(index)] < u32::MAX
        &&& score + spec_fill_pay(
            secs_left,
            spec_all_filled(spec_homes_after_fill(game.homes@, slot as int)),
        ) <= u32::MAX
    }
}

pub open spec fn spec_landing_fits(
    game: FroggerGame,
    index: usize,
    col: u32,
    bun_nest: Option<usize>,
    bun_open: bool,
    road_hit: bool,
    on_platform: bool,
    secs_left: u32,
) -> bool {
    spec_landing_fits_from(
        game,
        game.chickens@,
        game.score as int,
        index,
        col,
        bun_nest,
        bun_open,
        road_hit,
        on_platform,
        secs_left,
    )
}

/// The chicken after a hop, before its landing is resolved: on the hop's
/// row, facing the way it hopped, its furthest row this attempt updated.
pub open spec fn spec_hopped(c: ChickenState, hop: Hop) -> ChickenState {
    let row = spec_hop_row(c.row, hop);
    ChickenState {
        row,
        facing: hop.spec_facing(),
        furthest_row: if row < c.furthest_row {
            row
        } else {
            c.furthest_row
        },
        ..c
    }
}

/// What a hop pays: ten points for each row nearer home than any the chicken
/// reached before this attempt.
pub open spec fn spec_hop_gain(c: ChickenState, hop: Hop) -> int {
    let row = spec_hop_row(c.row, hop);
    if row < c.furthest_row {
        SCORE_PER_ROW * (c.furthest_row - row)
    } else {
        0
    }
}

/// Whether chicken `index`'s hop and its landing keep every count in range.
pub open spec fn spec_try_hop_fits(
    game: FroggerGame,
    index: usize,
    hop: Hop,
    col: u32,
    bun_nest: Option<usize>,
    bun_open: bool,
    road_hit: bool,
    on_platform: bool,
    secs_left: u32,
) -> bool {
    let c = game.chickens@[index as int];
    &&& spec_hop_fits(game, index, hop)
    &&& spec_landing_fits_from(
        game,
        game.chickens@.update(index as int, spec_hopped(c, hop)),
        game.score + spec_hop_gain(c, hop),
        index,
        col,
        bun_nest,
        bun_open,
        road_hit,
        on_platform,
        secs_left,
    )
}

/// What chicken `index`'s hop does to the match, landing included: the
/// chicken moves and turns and the new rows are paid, then where it landed is
/// resolved at once against the landing square's measurements — nothing
/// happens, it dies of what it landed in, or it fills a nest — and a fill's
/// unlocks are returned.
pub open spec fn spec_try_hop_result(
    before: FroggerGame,
    after: FroggerGame,
    index: usize,
    hop: Hop,
    col: u32,
    bun_nest: Option<usize>,
    bun_open: bool,
    road_hit: bool,
    on_platform: bool,
    secs_left: u32,
    landed: Landing,
    unlocks: Seq<Achievement>,
) -> bool {
    let c = before.chickens@[index as int];
    let h = spec_hopped(c, hop);
    let chickens = before.chickens@.update(index as int, h);
    let score = before.score + spec_hop_gain(c, hop);
    &&& landed == spec_landing(h.row, col, before.homes@, bun_nest, bun_open, road_hit, on_platform)
    &&& landed is Safe ==> unlocks.len() == 0 && after.chickens@ == chickens && after.score == score
        && after == (FroggerGame { chickens: after.chickens, score: after.score, ..before })
    &&& landed is Death ==> unlocks.len() == 0 && spec_kill_from(before, chickens, score, after, index)
    &&& landed matches Landing::Fill(slot) ==> slot < 5 && !before.homes@[slot as int]
        && spec_fill_from(before, chickens, score, after, index, slot, secs_left, unlocks)
}

impl FroggerGame {
    /// Whether `try_hop` can take chicken `index`'s hop, with these landing
    /// measurements, without a count running out of range.
    pub fn hop_fits(
        &self,
        index: usize,
        hop: Hop,
        col: u32,
        bun_nest: Option<usize>,
        bun_open: bool,
        road_hit: bool,
        on_platform: bool,
        secs_left: u32,
    ) -> (fits: bool)
        requires
            index < self.chickens@.len(),
        ensures
            fits == spec_try_hop_fits(
                *self,
                index,
                hop,
                col,
                bun_nest,
                bun_open,
                road_hit,
                on_platform,
                secs_left,
            ),
    {
        let c = self.chickens[index];
        if c.row == u32::MAX {
            return false;
        }
        let row = apply_hop_row(c.row, hop);
        let gained: u64 = if row < c.furthest_row {
            (SCORE_PER_ROW as u64) * ((c.furthest_row - row) as u64)
        } else {
            0
        };
        let score = (self.score as u64) + gained;
        if score > u32::MAX as u64 {
            return false;
        }
        let ghost chickens = self.chickens@.update(index as int, spec_hopped(c, hop));
        assert(chickens[index as int].row == row);
        match landing(row, col, &self.homes, bun_nest, bun_open, road_hit, on_platform) {
            Landing::Safe => true,
            Landing::Death(_) => self.deaths_this_round < u32::MAX,
            Landing::Fill(slot) => {
                proof {
                    crate::rules::lemma_home_slot_outcomes(col, self.homes@, bun_nest, bun_open);
                }
                let filler: usize = if index < 1 {
                    index
                } else {
                    1
                };
                let mut homes = self.homes;
                homes[slot] = true;
                assert(homes@ =~= spec_homes_after_fill(self.homes@, slot as int));
                let clears = all_filled(&homes);
                let reward: u64 = if clears {
                    SCORE_ROUND_CLEAR as u64
                } else {
                    0
                };
                let pay = (SCORE_HOME as u64) + (SCORE_PER_SEC_LEFT as u64) * (secs_left as u64)
                    + reward;
                self.total_homes < u32::MAX && self.fills_this_round[filler] < u32::MAX && score
                    + pay <= u32::MAX as u64
            },
        }
    }
}

impl FroggerGame {
    /// The beat's end: the round number moves on, the nests empty, the
    /// round's counters reset and every chicken that is not retired stands
    /// back on its start tile, one still waiting to respawn included. The
    /// score does not change.
    pub fn advance_round(&mut self)
        requires
            old(self).round < u32::MAX,
        ensures
            old(self).wf() ==> final(self).wf(),
            final(self).round == old(self).round + 1,
            final(self).homes@ == seq![false, false, false, false, false],
            final(self).deaths_this_round == 0,
            final(self).fills_this_round@ == seq![0u32, 0u32],
            final(self).chickens@.len() == old(self).chickens@.len(),
            forall|i: int|
                0 <= i < final(self).chickens@.len() ==> #[trigger] final(self).chickens@[i]
                    == spec_stand(old(self).chickens@[i], Revive::Waiting),
            final(self).score == old(self).score,
            final(self).state == old(self).state,
            final(self).mode == old(self).mode,
            final(self).chaos_mode == old(self).chaos_mode,
            final(self).round_clear_armed == old(self).round_clear_armed,
            final(self).total_homes == old(self).total_homes,
    {
        self.round += 1;
        self.homes = [false; 5];
        self.deaths_this_round = 0;
        self.fills_this_round = [0; 2];
        self.place_chickens_at_start(Revive::Waiting);
        assert(self.homes@ =~= seq![false, false, false, false, false]);
        assert(self.fills_this_round@ =~= seq![0u32, 0u32]);
    }

    /// The round-clear beat has run out: it disarms and the round advances
    /// in this same frame.
    pub fn end_round_clear(&mut self)
        requires
            old(self).round < u32::MAX,
        ensures
            old(self).wf() ==> final(self).wf(),
            !final(self).round_clear_armed,
            final(self).round == old(self).round + 1,
            final(self).homes@ == seq![false, false, false, false, false],
            final(self).deaths_this_round == 0,
            final(self).fills_this_round@ == seq![0u32, 0u32],
            final(self).chickens@.len() == old(self).chickens@.len(),
            forall|i: int|
                0 <= i < final(self).chickens@.len() ==> #[trigger] final(self).chickens@[i]
                    == spec_stand(old(self).chickens@[i], Revive::Waiting),
            final(self).score == old(self).score,
            final(self).state == old(self).state,
            final(self).mode == old(self).mode,
            final(self).chaos_mode == old(self).chaos_mode,
            final(self).total_homes == old(self).total_homes,
    {
        self.round_clear_armed = false;
        self.advance_round();
    }

    /// The move half of a hop: the chicken moves a row (or stays, hopping
    /// sideways or against the board's edge), turns the way it hopped, and
    /// each row it reaches nearer home than any before this attempt scores ten
    /// points. Returns its new row.
    fn hop_chicken(&mut self, index: usize, hop: Hop) -> (new_row: u32)
        requires
            index < old(self).chickens@.len(),
            spec_hop_fits(*old(self), index, hop),
        ensures
            old(self).wf() ==> final(self).wf(),
            ({
                let c = old(self).chickens@[index as int];
                let gained = new_row < c.furthest_row;
                &&& new_row == spec_hop_row(c.row, hop)
                &&& final(self).chickens@ == old(self).chickens@.update(
                    index as int,
                    ChickenState {
                        row: new_row,
                        facing: hop.spec_facing(),
                        furthest_row: if gained {
                            new_row
                        } else {
                            c.furthest_row
                        },
                        ..c
                    },
                )
                &&& final(self).score == old(self).score + if gained {
                    SCORE_PER_ROW * (c.furthest_row - new_row)
                } else {
                    0
                }
            }),
            *final(self) == (FroggerGame {
                chickens: final(self).chickens,
                score: final(self).score,
                ..*old(self)
            }),
    {
        let mut chicken = self.chickens[index];
        let new_row = apply_hop_row(chicken.row, hop);
        chicken.row = new_row;
        chicken.facing = hop.facing();
        if new_row < chicken.furthest_row {
            let rows_gained = chicken.furthest_row - new_row;
            chicken.furthest_row = new_row;
            self.score = self.score + SCORE_PER_ROW * rows_gained;
        }
        proof {
            if old(self).wf() {
                assert(old(self).chickens@[index as int].spec_wf());
                lemma_update_keeps_chickens_wf(old(self).chickens@, index as int, chicken);
            }
        }
        self.chickens.set(index, chicken);
        new_row
    }

    /// The landing half of a hop: on the home row at board column `col` a
    /// nest fills or the chicken dies of the miss or the bun; on a belt it
    /// dies under a cart; on the soup it drowns off a platform. `secs_left` is
    /// what a fill is paid for. Returns the landing and the achievements a
    /// fill unlocks.
    fn resolve_landing(
        &mut self,
        index: usize,
        col: u32,
        bun_nest: Option<usize>,
        bun_open: bool,
        road_hit: bool,
        on_platform: bool,
        secs_left: u32,
    ) -> (result: (Landing, Vec<Achievement>))
        requires
            index < old(self).chickens@.len(),
            spec_landing_fits(
                *old(self),
                index,
                col,
                bun_nest,
                bun_open,
                road_hit,
                on_platform,
                secs_left,
            ),
        ensures
            old(self).wf() ==> final(self).wf(),
            result.0 == spec_landing(
                old(self).chickens@[index as int].row,
                col,
                old(self).homes@,
                bun_nest,
                bun_open,
                road_hit,
                on_platform,
            ),
            result.0 is Safe ==> result.1@.len() == 0 && *final(self) == *old(self),
            result.0 matches Landing::Death(_) ==> result.1@.len() == 0 && spec_kill_result(
                *old(self),
                *final(self),
                index,
            ),
            result.0 matches Landing::Fill(slot) ==> slot < 5 && !old(self).homes@[slot as int]
                && spec_fill_result(*old(self), *final(self), index, slot, secs_left, result.1@),
            final(self).round == old(self).round,
            final(self).state == old(self).state,
    {
        let row = self.chickens[index].row;
        let landed = landing(row, col, &self.homes, bun_nest, bun_open, road_hit, on_platform);
        proof {
            crate::rules::lemma_home_slot_outcomes(col, self.homes@, bun_nest, bun_open);
        }
        match landed {
            Landing::Safe => (landed, Vec::new()),
            Landing::Fill(slot) => {
                let unlocks = self.fill_home(index, slot, secs_left);
                (landed, unlocks)
            },
            Landing::Death(_) => {
                self.kill_chicken(index);
                (landed, Vec::new())
            },
        }
    }

    /// Chicken `index` hops and lands, in one step with no grace frame: it
    /// moves a row (or stays, hopping sideways or against the board's edge),
    /// turns the way it hopped, and each row it reaches nearer home than any
    /// before this attempt scores ten points; then the square it landed on is
    /// resolved at once. The caller measures the landing square where the hop
    /// puts the chicken: the board column `col` nearest its landing x, the
    /// bun's nest and whether the bun is open, whether a cart covers it on a
    /// belt and whether a platform carries it on the soup, and the whole
    /// seconds left on its timer. On the home row a nest fills or the chicken
    /// dies of the miss or the bun; on a belt it dies under a cart; on the
    /// soup it drowns off a platform. Returns the landing and the
    /// achievements a fill unlocks.
    pub fn try_hop(
        &mut self,
        index: usize,
        hop: Hop,
        col: u32,
        bun_nest: Option<usize>,
        bun_open: bool,
        road_hit: bool,
        on_platform: bool,
        secs_left: u32,
    ) -> (result: (Landing, Vec<Achievement>))
        requires
            index < old(self).chickens@.len(),
            spec_try_hop_fits(
                *old(self),
                index,
                hop,
                col,
                bun_nest,
                bun_open,
                road_hit,
                on_platform,
                secs_left,
            ),
        ensures
            old(self).wf() ==> final(self).wf(),
            spec_try_hop_result(
                *old(self),
                *final(self),
                index,
                hop,
                col,
                bun_nest,
                bun_open,
                road_hit,
                on_platform,
                secs_left,
                result.0,
                result.1@,
            ),
    {
        self.hop_chicken(index, hop);
        let ghost mid: FroggerGame = *self;
        assert(mid.chickens@ == old(self).chickens@.update(
            index as int,
            spec_hopped(old(self).chickens@[index as int], hop),
        ));
        let result = self.resolve_landing(
            index,
            col,
            bun_nest,
            bun_open,
            road_hit,
            on_platform,
            secs_left,
        );
        result
    }

    /// The game-over screen's keys: Action1 starts a fresh match in the same
    /// mode, Menu goes back to the title. Elsewhere the keys do nothing here.
    pub fn handle_state_input(&mut self, primary: bool, menu: bool) -> (action: StateInput)
        ensures
            old(self).wf() ==> final(self).wf(),
            action == (if old(self).state == GameState::GameOver {
                if primary {
                    StateInput::Restart
                } else if menu {
                    StateInput::Title
                } else {
                    StateInput::Stay
                }
            } else {
                StateInput::Stay
            }),
            action is Stay ==> *final(self) == *old(self),
            action is Restart ==> spec_started(*old(self), *final(self)),
            action is Title ==> spec_left_for_title(*old(self), *final(self)),
    {
        if self.state == GameState::GameOver {
            if primary {
                self.start_game();
                return StateInput::Restart;
            } else if menu {
                self.reset_to_title();
                return StateInput::Title;
            }
        }
        StateInput::Stay
    }

    /// Leave the match for the title screen: no chickens, no beat.
    pub fn reset_to_title(&mut self)
        ensures
            old(self).wf() ==> final(self).wf(),
            spec_left_for_title(*old(self), *final(self)),
    {
        self.chickens = Vec::new();
        self.round_clear_armed = false;
        self.state = GameState::TitleScreen { selection: 0 };
    }

    /// Which parts of this gameplay frame run.
    pub fn frame_plan(&self) -> (plan: FramePlan)
        ensures
            plan == spec_frame_plan(self.state, self.round_clear_armed),
    {
        let playing = self.state == GameState::Playing;
        FramePlan {
            advance_lanes: playing || self.state == GameState::GameOver,
            step_round_clear: playing && self.round_clear_armed,
            step_chickens: playing && !self.round_clear_armed,
        }
    }

    /// Whether the chickens still run this frame after chicken logic: not
    /// once a fill has armed the beat, so no hop and no respawn runs behind
    /// it.
    pub fn chickens_continue(&self) -> (go_on: bool)
        ensures
            go_on == !self.round_clear_armed,
    {
        !self.round_clear_armed
    }

    /// Whether life icon `icon` is shown: icons come `STARTING_LIVES` to a
    /// player, and one is shown per life that player has left.
    pub fn life_icon_visible(&self, icon: usize) -> (visible: bool)
        ensures
            visible == ({
                let player = icon / (STARTING_LIVES as usize);
                let life = icon % (STARTING_LIVES as usize);
                player < self.chickens@.len() && life < self.chickens@[player as int].lives
            }),
    {
        let per_player = STARTING_LIVES as usize;
        let player = icon / per_player;
        let life = icon % per_player;
        if player < self.chickens.len() {
            (life as u32) < self.chickens[player].lives
        } else {
            false
        }
    }
}

impl FroggerGame {
    /// The hazards a live chicken `index` meets before it hops this frame,
    /// measured by the caller: whether its attempt timer ran out, whether a
    /// platform carries it on a soup row and whether that ride swept it off
    /// the board, whether a cart overlaps it on a belt row. The first that
    /// applies kills it. Returns the cause of death, if any.
    pub fn step_hazards(
        &mut self,
        index: usize,
        timer_expired: bool,
        on_platform: bool,
        swept: bool,
        road_hit: bool,
    ) -> (cause: Option<DeathCause>)
        requires
            index < old(self).chickens@.len(),
            old(self).deaths_this_round < u32::MAX,
        ensures
            old(self).wf() ==> final(self).wf(),
            cause == spec_hazard(
                timer_expired,
                old(self).chickens@[index as int].row,
                on_platform,
                swept,
                road_hit,
            ),
            cause is Some ==> spec_kill_result(*old(self), *final(self), index),
            cause is None ==> *final(self) == *old(self),
    {
        let cause = hazard(timer_expired, self.chickens[index].row, on_platform, swept, road_hit);
        if cause.is_some() {
            self.kill_chicken(index);
        }
        cause
    }
}

/// The locale-table section an achievement is listed under on the
/// achievements page: crossings, skill, or chaos and co-op.
pub open spec fn spec_section_of(a: Achievement) -> int {
    match a {
        Achievement::FirstHome | Achievement::RoundClear | Achievement::Homes25 => 0,
        Achievement::DeathlessRound | Achievement::Speedy | Achievement::Score5k => 1,
        Achievement::InsiculousClear | Achievement::CoopRound => 2,
    }
}

impl Achievement {
    pub open spec fn spec_all() -> Seq<Achievement> {
        seq![
            Achievement::FirstHome,
            Achievement::RoundClear,
            Achievement::Homes25,
            Achievement::DeathlessRound,
            Achievement::Speedy,
            Achievement::Score5k,
            Achievement::InsiculousClear,
            Achievement::CoopRound,
        ]
    }

    /// Every achievement, in registration order.
    pub fn all() -> (all: Vec<Achievement>)
        ensures
            all@ == Achievement::spec_all(),
    {
        let all = vec![
            Achievement::FirstHome,
            Achievement::RoundClear,
            Achievement::Homes25,
            Achievement::DeathlessRound,
            Achievement::Speedy,
            Achievement::Score5k,
            Achievement::InsiculousClear,
            Achievement::CoopRound,
        ];
        assert(all@ =~= Achievement::spec_all());
        all
    }
}

pub open spec fn spec_section_ids(section: int) -> Seq<Achievement> {
    if section == 0 {
        seq![Achievement::FirstHome, Achievement::RoundClear, Achievement::Homes25]
    } else if section == 1 {
        seq![Achievement::DeathlessRound, Achievement::Speedy, Achievement::Score5k]
    } else {
        seq![Achievement::InsiculousClear, Achievement::CoopRound]
    }
}

pub open spec fn spec_section_key(section: int) -> Seq<char> {
    if section == 0 {
        "ach.section.crossings"@
    } else if section == 1 {
        "ach.section.skill"@
    } else {
        "ach.section.chaos_coop"@
    }
}

/// The achievements page's grouping: each section's header key and the
/// achievements listed under it, in display order.
pub fn display_sections() -> (sections: Vec<(&'static str, Vec<Achievement>)>)
    ensures
        sections@.len() == 3,
        forall|k: int|
            0 <= k < 3 ==> #[trigger] sections@[k].0@ == spec_section_key(k) && sections@[k].1@
                == spec_section_ids(k),
{
    let mut sections: Vec<(&'static str, Vec<Achievement>)> = Vec::new();
    let crossings = vec![Achievement::FirstHome, Achievement::RoundClear, Achievement::Homes25];
    assert(crossings@ =~= spec_section_ids(0));
    sections.push(("ach.section.crossings", crossings));
    let skill = vec![Achievement::DeathlessRound, Achievement::Speedy, Achievement::Score5k];
    assert(skill@ =~= spec_section_ids(1));
    sections.push(("ach.section.skill", skill));
    let chaos_coop = vec![Achievement::InsiculousClear, Achievement::CoopRound];
    assert(chaos_coop@ =~= spec_section_ids(2));
    sections.push(("ach.section.chaos_coop", chaos_coop));
    sections
}

/// The achievements page lists every registered achievement exactly once:
/// each appears in its own section once and in no other, and the sections
/// hold no more than the eight registered.
pub proof fn lemma_sections_cover_every_achievement(a: Achievement)
    ensures
        Achievement::spec_all().contains(a),
        0 <= spec_section_of(a) < 3,
        spec_section_ids(spec_section_of(a)).contains(a),
        forall|k: int| 0 <= k < 3 && k != spec_section_of(a) ==> !spec_section_ids(k).contains(a),
        forall|k: int, i: int, j: int|
            0 <= k < 3 && 0 <= i < j < spec_section_ids(k).len() ==> spec_section_ids(k)[i]
                != spec_section_ids(k)[j],
        spec_section_ids(0).len() + spec_section_ids(1).len() + spec_section_ids(2).len()
            == Achievement::spec_all().len(),
{
    let all = Achievement::spec_all();
    match a {
        Achievement::FirstHome => assert(all[0] == a && spec_section_ids(0)[0] == a),
        Achievement::RoundClear => assert(all[1] == a && spec_section_ids(0)[1] == a),
        Achievement::Homes25 => assert(all[2] == a && spec_section_ids(0)[2] == a),
        Achievement::DeathlessRound => assert(all[3] == a && spec_section_ids(1)[0] == a),
        Achievement::Speedy => assert(all[4] == a && spec_section_ids(1)[1] == a),
        Achievement::Score5k => assert(all[5] == a && spec_section_ids(1)[2] == a),
        Achievement::InsiculousClear => assert(all[6] == a && spec_section_ids(2)[0] == a),
        Achievement::CoopRound => assert(all[7] == a && spec_section_ids(2)[1] == a),
    }
    assert forall|k: int| 0 <= k < 3 && k != spec_section_of(a) implies !spec_section_ids(
        k,
    ).contains(a) by {
        if spec_section_ids(k).contains(a) {
            let i = choose|i: int| 0 <= i < spec_section_ids(k).len() && spec_section_ids(k)[i] == a;
            assert(spec_section_ids(k)[i] == a);
        }
    }
}

/// The life-icon clip a player's icons play: player one's round head, every
/// later player's tall one.
pub fn life_icon_clip(player: usize) -> (clip: &'static str)
    ensures
        clip@ == (if player == 0 {
            "round"@
        } else {
            "tall"@
        }),
{
    if player == 0 {
        "round"
    } else {
        "tall"
    }
}

/// A fill that completes the nests pays what any other fill with the same
/// time left pays, plus the round's reward, once.
pub proof fn lemma_round_clear_pays_once(secs_left: u32)
    ensures
        spec_fill_pay(secs_left, true) == spec_fill_pay(secs_left, false) + SCORE_ROUND_CLEAR,
        spec_fill_pay(secs_left, false) == SCORE_HOME + SCORE_PER_SEC_LEFT * secs_left,
{
}

/// A death costs one life, never below zero, takes the chicken out of play
/// until its respawn, and retires it exactly when that was its last life; a
/// retired chicken stays retired through every later death, stand and
/// respawn, and no transition gives a life back.
pub proof fn lemma_lives_and_retirement(c: ChickenState, revive: Revive)
    requires
        c.retired <==> c.lives == 0,
    ensures
        !spec_killed(c).spec_active(),
        spec_killed(c).lives == (if c.lives == 0 {
            0
        } else {
            c.lives - 1
        }),
        spec_killed(c).retired <==> spec_killed(c).lives == 0,
        spec_killed(c).retired == (c.lives <= 1),
        c.retired ==> spec_stand(c, revive) == c && spec_respawned(c) == c && spec_killed(
            c,
        ).retired,
        spec_stand(c, revive).lives == c.lives && spec_respawned(c).lives == c.lives,
        spec_stand(c, revive).retired == c.retired && spec_respawned(c).retired == c.retired,
{
}

/// Standing the chickens back: one that stands is on its start row, alive,
/// facing north, with its furthest row reset; the beat's opening leaves a
/// chicken waiting to respawn exactly as it was, and the round's end stands
/// every chicken that is not retired.
pub proof fn lemma_stand_back(c: ChickenState)
    ensures
        spec_stands(c, Revive::Waiting) <==> !c.retired,
        spec_stands(c, Revive::Waiting) ==> {
            let s = spec_stand(c, Revive::Waiting);
            &&& s.spec_active()
            &&& s.row == START_ROW
            &&& s.facing == Facing::North
            &&& s.furthest_row == START_ROW
            &&& s.start_col == c.start_col
        },
        c.waiting ==> spec_stand(c, Revive::Never) == c,
        !c.waiting && !c.retired ==> spec_stand(c, Revive::Never) == spec_stand(
            c,
            Revive::Waiting,
        ),
{
}

/// After a fill, the chickens that were stood back on their start tiles are
/// exactly the active ones among the filler and, when the fill completes the
/// nests, every chicken: each of those is its old self stood back, and every
/// other chicken is untouched.
pub proof fn lemma_fill_stands_exactly_the_active(
    chickens: Seq<ChickenState>,
    index: int,
    clears: bool,
    i: int,
)
    requires
        0 <= index < chickens.len(),
        chickens[index].spec_active(),
        0 <= i < chickens.len(),
    ensures
        ({
            let after = spec_fill_chickens(chickens, index, clears);
            let moved = (i == index || clears) && after[i].spec_active();
            &&& moved ==> after[i] == spec_stood(chickens[i])
            &&& !moved ==> after[i] == chickens[i]
        }),
{
}

/// Whether life icon `icon` is shown for these chickens.
pub open spec fn spec_life_icon_visible(chickens: Seq<ChickenState>, icon: int) -> bool {
    let player = icon / (STARTING_LIVES as int);
    let life = icon % (STARTING_LIVES as int);
    player < chickens.len() && life < chickens[player].lives
}

/// The life icons are the count: of a player's icons, exactly the first as
/// many as that player has lives are shown.
pub proof fn lemma_life_icons_are_the_count(chickens: Seq<ChickenState>, player: int, life: int)
    requires
        0 <= player < chickens.len(),
        0 <= life < STARTING_LIVES,
    ensures
        spec_life_icon_visible(chickens, player * (STARTING_LIVES as int) + life) <==> life
            < chickens[player].lives,
{
    let icon = player * (STARTING_LIVES as int) + life;
    assert(icon / 3 == player && icon % 3 == life) by (nonlinear_arith)
        requires
            icon == player * 3 + life,
            0 <= life < 3,
            0 <= player,
    ;
}

/// The parts of a gameplay frame that run in a state.
pub open spec fn spec_frame_plan(state: GameState, armed: bool) -> FramePlan {
    FramePlan {
        advance_lanes: state == GameState::Playing || state == GameState::GameOver,
        step_round_clear: state == GameState::Playing && armed,
        step_chickens: state == GameState::Playing && !armed,
    }
}

/// The fill that completes the nests arms the beat, and while the beat runs
/// the lanes keep scrolling but no chicken is simulated, so no hop input
/// moves one; a fill that leaves a nest empty arms nothing.
pub proof fn lemma_beat_freezes_the_chickens(homes: Seq<bool>, slot: int, armed: bool)
    requires
        homes.len() == 5,
        0 <= slot < 5,
    ensures
        ({
            let after = spec_homes_after_fill(homes, slot);
            let now_armed = armed || spec_all_filled(after);
            &&& spec_all_filled(after) ==> !spec_frame_plan(GameState::Playing, now_armed).step_chickens
                && spec_frame_plan(GameState::Playing, now_armed).advance_lanes
                && spec_frame_plan(GameState::Playing, now_armed).step_round_clear
            &&& !armed && (exists|i: int| 0 <= i < 5 && i != slot && !homes[i])
                ==> !spec_all_filled(after)
        }),
{
    let after = spec_homes_after_fill(homes, slot);
    if !armed && (exists|i: int| 0 <= i < 5 && i != slot && !homes[i]) {
        let i = choose|i: int| 0 <= i < 5 && i != slot && !homes[i];
        assert(!after[i]);
    }
}

/// Which achievements are in a fill's unlock list, one by one.
proof fn lemma_fill_unlock_contents(
    secs_left: u32,
    total_after: u32,
    score_after_home: int,
    clears: bool,
    deaths: u32,
    chaos: ChaosMode,
    mode: GameMode,
    fills_after: Seq<u32>,
)
    ensures
        ({
            let u = spec_fill_unlocks(
                secs_left,
                total_after,
                score_after_home,
                clears,
                deaths,
                chaos,
                mode,
                fills_after,
            );
            &&& u.contains(Achievement::FirstHome)
            &&& u.contains(Achievement::Speedy) <==> secs_left >= 15
            &&& u.contains(Achievement::Homes25) <==> total_after >= 25
            &&& u.contains(Achievement::Score5k) <==> (score_after_home >= 5000 || (clears
                && score_after_home + 1000 >= 5000))
            &&& u.contains(Achievement::RoundClear) <==> clears
            &&& u.contains(Achievement::DeathlessRound) <==> clears && deaths == 0
            &&& u.contains(Achievement::InsiculousClear) <==> clears && chaos
                == ChaosMode::Insiculous
            &&& u.contains(Achievement::CoopRound) <==> clears && mode == GameMode::TwoPlayerCoop
                && fills_after[0] > 0 && fills_after[1] > 0
        }),
{
    broadcast use vstd::seq_lib::lemma_seq_concat_contains_all_elements;
    broadcast use vstd::seq_lib::lemma_seq_contains_after_push;
    broadcast use vstd::seq_lib::lemma_seq_empty_contains_nothing;

    assert(seq![Achievement::FirstHome] == Seq::<Achievement>::empty().push(Achievement::FirstHome));
    assert(seq![Achievement::RoundClear] == Seq::<Achievement>::empty().push(
        Achievement::RoundClear,
    ));
    assert forall|cond: bool, a: Achievement, x: Achievement|
        #[trigger] spec_if(cond, a).contains(x) <==> cond && x == a by {
        if cond {
            assert(spec_if(cond, a) == Seq::<Achievement>::empty().push(a));
        }
    }
}

/// What every fill pays and unlocks, whatever else the match holds: the nest
/// it names is filled and no other nest changes; the session's fills and the
/// filler's round tally each grow by one; it pays 200 points plus five per
/// whole second left, and 1000 more exactly when it leaves all five nests
/// filled, which is also exactly when it arms the beat. It always unlocks the
/// first home; the speedy fill exactly at 15 or more seconds left; the 25th
/// fill exactly once the session has 25; the score tier exactly when the
/// score it leaves is 5000 or more; and the round's achievements only on the
/// fill that fills the fifth nest: the round clear always, the deathless
/// round when nobody died this round, the insiculous clear in that mode, the
/// co-op round when both players filled a nest this round.
pub proof fn lemma_what_a_fill_pays_and_unlocks(
    before: FroggerGame,
    after: FroggerGame,
    index: usize,
    slot: usize,
    secs_left: u32,
    unlocks: Seq<Achievement>,
)
    requires
        before.homes@.len() == 5,
        before.fills_this_round@.len() == 2,
        before.fills_this_round@[if index == 0 {
            0int
        } else {
            1
        }] < u32::MAX,
        slot < 5,
        spec_fill_result(before, after, index, slot, secs_left, unlocks),
    ensures
        ({
            let filler: int = if index == 0 {
                0
            } else {
                1
            };
            let clears = forall|i: int| 0 <= i < 5 ==> #[trigger] after.homes@[i];
            &&& after.homes@.len() == 5
            &&& after.homes@[slot as int]
            &&& forall|i: int| 0 <= i < 5 && i != slot ==> after.homes@[i] == before.homes@[i]
            &&& clears <==> forall|i: int| 0 <= i < 5 && i != slot ==> #[trigger] before.homes@[i]
            &&& after.total_homes == before.total_homes + 1
            &&& after.fills_this_round@[filler] == before.fills_this_round@[filler] + 1
            &&& after.fills_this_round@[1 - filler] == before.fills_this_round@[1 - filler]
            &&& after.score == before.score + 200 + 5 * secs_left + if clears {
                1000int
            } else {
                0
            }
            &&& after.round_clear_armed == (before.round_clear_armed || clears)
            &&& after.round == before.round
            &&& unlocks.contains(Achievement::FirstHome)
            &&& unlocks.contains(Achievement::Speedy) <==> secs_left >= 15
            &&& unlocks.contains(Achievement::Homes25) <==> after.total_homes >= 25
            &&& unlocks.contains(Achievement::Score5k) <==> after.score >= 5000
            &&& unlocks.contains(Achievement::RoundClear) <==> clears
            &&& unlocks.contains(Achievement::DeathlessRound) <==> clears
                && before.deaths_this_round == 0
            &&& unlocks.contains(Achievement::InsiculousClear) <==> clears && before.chaos_mode
                == ChaosMode::Insiculous
            &&& unlocks.contains(Achievement::CoopRound) <==> clears && before.mode
                == GameMode::TwoPlayerCoop && after.fills_this_round@[0] > 0
                && after.fills_this_round@[1] > 0
        }),
{
    let homes = spec_homes_after_fill(before.homes@, slot as int);
    let clears = spec_all_filled(homes);
    assert(clears <==> forall|i: int| 0 <= i < 5 && i != slot ==> #[trigger] before.homes@[i]) by {
        if forall|i: int| 0 <= i < 5 && i != slot ==> #[trigger] before.homes@[i] {
            assert forall|i: int| 0 <= i < homes.len() implies #[trigger] homes[i] by {
                if i != slot {
                    assert(before.homes@[i]);
                }
            }
        }
        if clears {
            assert forall|i: int| 0 <= i < 5 && i != slot implies #[trigger] before.homes@[i] by {
                assert(homes[i]);
            }
        }
    }
    let fills = before.fills_this_round@.update(
        spec_filler(index),
        (before.fills_this_round@[spec_filler(index)] + 1) as u32,
    );
    lemma_fill_unlock_contents(
        secs_left,
        (before.total_homes + 1) as u32,
        before.score + spec_fill_pay(secs_left, false),
        clears,
        before.deaths_this_round,
        before.chaos_mode,
        before.mode,
        fills,
    );
}

/// A death costs exactly one life (none below zero), takes the chicken out of
/// play to wait for its respawn, retires it when no life is left, counts one
/// more death this round, and changes nothing else: it stays where it died.
pub proof fn lemma_what_a_death_costs(before: FroggerGame, after: FroggerGame, index: usize)
    requires
        index < before.chickens@.len(),
        spec_kill_result(before, after, index),
    ensures
        ({
            let c = before.chickens@[index as int];
            let d = after.chickens@[index as int];
            &&& after.chickens@.len() == before.chickens@.len()
            &&& forall|i: int|
                0 <= i < before.chickens@.len() && i != index ==> after.chickens@[i]
                    == before.chickens@[i]
            &&& d.lives == (if c.lives > 0 {
                c.lives - 1
            } else {
                0
            })
            &&& d.waiting
            &&& d.retired == (c.retired || d.lives == 0)
            &&& d.row == c.row && d.start_col == c.start_col && d.furthest_row == c.furthest_row
            &&& after.deaths_this_round == before.deaths_this_round + 1
            &&& after.score == before.score && after.homes == before.homes && after.round
                == before.round && after.state == before.state
        }),
{
}

/// A respawn brings back exactly a chicken that is waiting and not retired,
/// for a fresh attempt: on the start row, facing north, in play, its furthest
/// row reset to the start row so the next row up pays again, with its lives,
/// its column and its retirement untouched. Any other chicken is left as it
/// is.
pub proof fn lemma_a_respawn_is_a_fresh_attempt(c: ChickenState)
    ensures
        c.waiting && !c.retired ==> {
            let r = spec_respawned(c);
            &&& r.row == 12
            &&& r.facing == Facing::North
            &&& !r.waiting
            &&& r.furthest_row == 12
            &&& r.lives == c.lives && r.start_col == c.start_col && r.retired == c.retired
            &&& spec_hop_gain(r, Hop::Up) == 10
        },
        !(c.waiting && !c.retired) ==> spec_respawned(c) == c,
{
}

/// Standing a chicken back: one that stands is on the start row, facing
/// north, in play, its furthest row reset, its lives, column and retirement
/// kept; a retired chicken never stands, one waiting to respawn stands only
/// when the stand revives the waiting, and every other chicken stands.
pub proof fn lemma_standing_back(c: ChickenState, revive: Revive)
    ensures
        spec_stands(c, revive) <==> !c.retired && (!c.waiting || revive is Waiting),
        spec_stands(c, revive) ==> {
            let s = spec_stand(c, revive);
            &&& s.row == 12 && s.facing == Facing::North && !s.waiting && s.furthest_row == 12
            &&& s.lives == c.lives && s.start_col == c.start_col && s.retired == c.retired
        },
        !spec_stands(c, revive) ==> spec_stand(c, revive) == c,
{
}

/// A started match: playing, a chicken per player — three lives each, on the
/// start row facing north and in play, solo in column 7 and co-op in 5 and 9
/// — with empty nests, a zero score and every count of the match reset to
/// its first round.
pub proof fn lemma_a_match_starts_fresh(before: FroggerGame, after: FroggerGame)
    requires
        spec_started(before, after),
    ensures
        after.state == GameState::Playing,
        after.chickens@.len() == (if before.mode == GameMode::SinglePlayer {
            1int
        } else {
            2
        }),
        forall|i: int|
            0 <= i < after.chickens@.len() ==> {
                let c = #[trigger] after.chickens@[i];
                &&& c.lives == 3 && c.row == 12 && c.furthest_row == 12 && c.facing
                    == Facing::North
                &&& !c.waiting && !c.retired
                &&& c.start_col == (if before.mode == GameMode::SinglePlayer {
                    7u32
                } else if i == 0 {
                    5
                } else {
                    9
                })
            },
        forall|i: int| 0 <= i < 5 ==> !after.homes@[i],
        after.homes@.len() == 5,
        after.score == 0,
        after.round == 1,
        !after.round_clear_armed,
        after.deaths_this_round == 0,
        after.fills_this_round@[0] == 0 && after.fills_this_round@[1] == 0,
{
}

/// Which parts of a gameplay frame run: while playing with no beat, the lanes
/// scroll and the chickens are simulated; while the beat runs, the lanes
/// scroll and the beat counts down but no chicken is simulated; behind the
/// game-over screen only the lanes scroll; on any menu screen nothing runs.
/// The chickens are simulated on no other screen than play.
pub proof fn lemma_what_a_frame_runs(state: GameState, armed: bool)
    ensures
        state == GameState::Playing && !armed ==> spec_frame_plan(state, armed) == (FramePlan {
            advance_lanes: true,
            step_round_clear: false,
            step_chickens: true,
        }),
        state == GameState::Playing && armed ==> spec_frame_plan(state, armed) == (FramePlan {
            advance_lanes: true,
            step_round_clear: true,
            step_chickens: false,
        }),
        state == GameState::GameOver ==> spec_frame_plan(state, armed) == (FramePlan {
            advance_lanes: true,
            step_round_clear: false,
            step_chickens: false,
        }),
        state != GameState::Playing && state != GameState::GameOver ==> spec_frame_plan(
            state,
            armed,
        ) == (FramePlan { advance_lanes: false, step_round_clear: false, step_chickens: false }),
        spec_frame_plan(state, armed).step_chickens ==> state == GameState::Playing,
{
}

/// A hop, landing included: the chicken ends on the hop's row (one row up or
/// down within the board, or the same row sideways) facing the way it hopped,
/// unless the landing fills a nest (then it is back on the start row) or
/// kills it (then it stays where it landed, a life down); each row it reaches
/// nearer home than any before this attempt pays ten points; a belt landing
/// under a cart and a soup landing off any platform kill it at once.
pub proof fn lemma_a_hop_moves_pays_and_lands(
    before: FroggerGame,
    after: FroggerGame,
    index: usize,
    hop: Hop,
    col: u32,
    bun_nest: Option<usize>,
    bun_open: bool,
    road_hit: bool,
    on_platform: bool,
    secs_left: u32,
    landed: Landing,
    unlocks: Seq<Achievement>,
)
    requires
        index < before.chickens@.len(),
        before.chickens@[index as int].row <= 12,
        before.chickens@[index as int].spec_active(),
        before.homes@.len() == 5,
        spec_try_hop_result(
            before,
            after,
            index,
            hop,
            col,
            bun_nest,
            bun_open,
            road_hit,
            on_platform,
            secs_left,
            landed,
            unlocks,
        ),
    ensures
        ({
            let c = before.chickens@[index as int];
            let row: int = if hop is Up {
                if c.row > 0 {
                    c.row - 1
                } else {
                    0
                }
            } else if hop is Down {
                if c.row < 12 {
                    c.row + 1
                } else {
                    12
                }
            } else {
                c.row as int
            };
            let paid: int = if row < c.furthest_row {
                10 * (c.furthest_row - row)
            } else {
                0
            };
            let d = after.chickens@[index as int];
            &&& 7 <= row <= 11 && road_hit ==> landed == Landing::Death(DeathCause::Cart)
            &&& 1 <= row <= 5 && !on_platform ==> landed == Landing::Death(DeathCause::Drown)
            &&& landed is Safe ==> d.row == row && d.lives == c.lives && after.score
                == before.score + paid
            &&& landed is Death ==> d.row == row && d.lives == (if c.lives > 0 {
                c.lives - 1
            } else {
                0
            }) && d.waiting && after.score == before.score + paid && after.deaths_this_round
                == before.deaths_this_round + 1
            &&& landed is Fill ==> row == 0 && d.row == 12 && after.score >= before.score + paid
                + 200
            &&& landed is Fill ==> after.homes@[landed->Fill_0 as int]
            &&& !(landed is Fill) ==> d.facing == (match hop {
                Hop::Up => Facing::North,
                Hop::Down => Facing::South,
                Hop::Left => Facing::West,
                Hop::Right => Facing::East,
            })
        }),
{
    let c = before.chickens@[index as int];
    let h = spec_hopped(c, hop);
    lemma_hop_stays_on_board(c.row, hop);
    lemma_landing_by_row(h.row, col, before.homes@, bun_nest, bun_open, road_hit, on_platform);
    match landed {
        Landing::Fill(slot) => {
            let chickens = before.chickens@.update(index as int, h);
            assert(chickens[index as int] == h);
            lemma_home_slot_outcomes(col, before.homes@, bun_nest, bun_open);
        },
        _ => {},
    }
}

/// Whose keys steer a chicken: in single player both players steer the one
/// chicken; in co-op each of the two players steers exactly one chicken,
/// player one the first and player two the second, and no other player
/// steers anything.
pub proof fn lemma_who_steers(index: usize, player: usize)
    ensures
        spec_steers(GameMode::SinglePlayer, 0, player) <==> player == 0 || player == 1,
        spec_steers(GameMode::TwoPlayerCoop, 0, player) <==> player == 0,
        spec_steers(GameMode::TwoPlayerCoop, 1, player) <==> player == 1,
        player >= 2 ==> !spec_steers(GameMode::SinglePlayer, index, player) && !spec_steers(
            GameMode::TwoPlayerCoop,
            index,
            player,
        ),
{
}

} // verus!
