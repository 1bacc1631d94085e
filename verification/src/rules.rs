//! The discrete lane and chicken rules: how a hop is chosen and where it
//! lands, what entering the home row resolves to, which hazard takes a
//! chicken, and which frame of a clip a pose shows. Every function here is
//! data in, data out.

use vstd::prelude::*;

use crate::board::{
    home_col_index, is_road_row, is_water_row, lemma_home_col_index, spec_home_col,
    spec_home_col_index, spec_is_road_row, spec_is_water_row, HOME_ROW, START_ROW,
};

verus! {

/// The four chaos modes. Insane and Insiculous speed the traffic up and cut
/// the attempt timer; Ridiculous and Insiculous sink the crackers and add
/// the bun.
#[derive(Debug, Clone, Copy, PartialEq, Eq, Structural)]
pub enum ChaosMode {
    Normal,
    Insane,
    Ridiculous,
    Insiculous,
}

impl ChaosMode {
    /// Whether this mode belongs to the insane family (faster traffic,
    /// shorter timer).
    pub open spec fn spec_is_insane(self) -> bool {
        self is Insane || self is Insiculous
    }

    /// Whether this mode belongs to the ridiculous family (sinking crackers,
    /// the bun).
    pub open spec fn spec_is_ridiculous(self) -> bool {
        self is Ridiculous || self is Insiculous
    }

    #[verifier::when_used_as_spec(spec_is_insane)]
    pub fn is_insane(self) -> (r: bool)
        ensures
            r == self.spec_is_insane(),
    {
        match self {
            ChaosMode::Insane | ChaosMode::Insiculous => true,
            _ => false,
        }
    }

    #[verifier::when_used_as_spec(spec_is_ridiculous)]
    pub fn is_ridiculous(self) -> (r: bool)
        ensures
            r == self.spec_is_ridiculous(),
    {
        match self {
            ChaosMode::Ridiculous | ChaosMode::Insiculous => true,
            _ => false,
        }
    }

    /// The mode in row `index` of the mode menu.
    pub open spec fn spec_at(index: int) -> ChaosMode {
        if index == 0 {
            ChaosMode::Normal
        } else if index == 1 {
            ChaosMode::Insane
        } else if index == 2 {
            ChaosMode::Ridiculous
        } else {
            ChaosMode::Insiculous
        }
    }

    /// Every mode, in the order the mode menu lists them.
    pub fn all() -> (modes: Vec<ChaosMode>)
        ensures
            modes@.len() == 4,
            forall|i: int| 0 <= i < 4 ==> #[trigger] modes@[i] == ChaosMode::spec_at(i),
    {
        vec![ChaosMode::Normal, ChaosMode::Insane, ChaosMode::Ridiculous, ChaosMode::Insiculous]
    }
}

/// The four facings a chicken is drawn in.
#[derive(Debug, Clone, Copy, PartialEq, Eq, Structural)]
pub enum Facing {
    North,
    East,
    South,
    West,
}

impl Facing {
    /// The facing a chicken wears when a life starts.
    pub open spec fn spec_start() -> Facing {
        Facing::North
    }

    #[verifier::when_used_as_spec(spec_start)]
    pub fn start() -> (facing: Facing)
        ensures
            facing == Facing::spec_start(),
    {
        Facing::North
    }

    /// The suffix the sheets name this facing with.
    pub fn suffix(self) -> (suffix: &'static str)
        ensures
            suffix@ == (match self {
                Facing::North => "north"@,
                Facing::East => "east"@,
                Facing::South => "south"@,
                Facing::West => "west"@,
            }),
    {
        match self {
            Facing::North => "north",
            Facing::East => "east",
            Facing::South => "south",
            Facing::West => "west",
        }
    }
}

/// One hop direction, resolved from same-frame inputs with the fixed
/// priority Up > Down > Left > Right.
#[derive(Debug, Clone, Copy, PartialEq, Eq, Structural)]
pub enum Hop {
    Up,
    Down,
    Left,
    Right,
}

impl Hop {
    pub open spec fn spec_facing(self) -> Facing {
        match self {
            Hop::Up => Facing::North,
            Hop::Down => Facing::South,
            Hop::Left => Facing::West,
            Hop::Right => Facing::East,
        }
    }

    /// The facing a chicken wears after this hop.
    #[verifier::when_used_as_spec(spec_facing)]
    pub fn facing(self) -> (facing: Facing)
        ensures
            facing == self.spec_facing(),
    {
        match self {
            Hop::Up => Facing::North,
            Hop::Down => Facing::South,
            Hop::Left => Facing::West,
            Hop::Right => Facing::East,
        }
    }
}

/// The hop a frame's inputs ask for: at most one, Up first, then Down, Left
/// and Right.
pub open spec fn spec_resolve_hop(up: bool, down: bool, left: bool, right: bool) -> Option<Hop> {
    if up {
        Some(Hop::Up)
    } else if down {
        Some(Hop::Down)
    } else if left {
        Some(Hop::Left)
    } else if right {
        Some(Hop::Right)
    } else {
        None
    }
}

pub fn resolve_hop(up: bool, down: bool, left: bool, right: bool) -> (hop: Option<Hop>)
    ensures
        hop == spec_resolve_hop(up, down, left, right),
{
    if up {
        Some(Hop::Up)
    } else if down {
        Some(Hop::Down)
    } else if left {
        Some(Hop::Left)
    } else if right {
        Some(Hop::Right)
    } else {
        None
    }
}

/// The row a hop lands on: up one row (the home row is the top), down one
/// row (the start row is the bottom), or the same row for a sideways hop.
pub open spec fn spec_hop_row(row: u32, hop: Hop) -> u32 {
    match hop {
        Hop::Up => if row == 0 { 0 } else { (row - 1) as u32 },
        Hop::Down => if row + 1 < START_ROW { (row + 1) as u32 } else { START_ROW },
        Hop::Left | Hop::Right => row,
    }
}

pub fn apply_hop_row(row: u32, hop: Hop) -> (new_row: u32)
    requires
        row < u32::MAX,
    ensures
        new_row == spec_hop_row(row, hop),
{
    match hop {
        Hop::Up => row.saturating_sub(1),
        Hop::Down => {
            let next = row + 1;
            if next < START_ROW {
                next
            } else {
                START_ROW
            }
        },
        Hop::Left | Hop::Right => row,
    }
}

/// A hop from any board row stays on the board, moves at most one row, and
/// only an up-hop brings the chicken nearer home.
pub proof fn lemma_hop_stays_on_board(row: u32, hop: Hop)
    requires
        row <= START_ROW,
    ensures
        spec_hop_row(row, hop) <= START_ROW,
        spec_hop_row(row, hop) < row ==> hop is Up,
        row - 1 <= spec_hop_row(row, hop) <= row + 1,
        hop is Up && row > 0 ==> spec_hop_row(row, hop) == row - 1,
        hop is Up && row == 0 ==> spec_hop_row(row, hop) == 0,
        hop is Down && row < START_ROW ==> spec_hop_row(row, hop) == row + 1,
        hop is Down && row == START_ROW ==> spec_hop_row(row, hop) == START_ROW,
        (hop is Left || hop is Right) ==> spec_hop_row(row, hop) == row,
{
}

/// What happens when a chicken enters the home row.
#[derive(Debug, Clone, Copy, PartialEq, Eq, Structural)]
pub enum SlotOutcome {
    /// Nest `index` (0..5) fills.
    Fill(usize),
    /// Wall, or an already-filled nest.
    Miss,
    /// The bun's nest while the bun is open.
    Bun,
}

/// Resolve a home-row entry at board column `col`: a nest that is empty fills
/// unless it is the bun's and the bun is open; a filled nest and the wall are
/// misses.
pub open spec fn spec_home_slot(col: u32, homes: Seq<bool>, bun_nest: Option<usize>, bun_open: bool) -> SlotOutcome {
    match spec_home_col_index(col) {
        None => SlotOutcome::Miss,
        Some(index) => if homes[index as int] {
            SlotOutcome::Miss
        } else if bun_nest == Some(index) && bun_open {
            SlotOutcome::Bun
        } else {
            SlotOutcome::Fill(index)
        },
    }
}

pub fn home_slot(col: u32, homes: &[bool; 5], bun_nest: Option<usize>, bun_open: bool) -> (outcome: SlotOutcome)
    ensures
        outcome == spec_home_slot(col, homes@, bun_nest, bun_open),
{
    match home_col_index(col) {
        None => SlotOutcome::Miss,
        Some(index) => {
            if homes[index] {
                SlotOutcome::Miss
            } else if bun_nest == Some(index) && bun_open {
                SlotOutcome::Bun
            } else {
                SlotOutcome::Fill(index)
            }
        },
    }
}

/// A home-row entry fills only an empty nest, at the column that nest stands
/// on; the bun kills only at its own nest while it is open; and while the bun
/// is not open every empty nest fills, which is what keeps each round
/// winnable.
pub proof fn lemma_home_slot_outcomes(col: u32, homes: Seq<bool>, bun_nest: Option<usize>, bun_open: bool)
    requires
        homes.len() == 5,
    ensures
        spec_home_slot(col, homes, bun_nest, bun_open) matches SlotOutcome::Fill(i) ==> {
            &&& i < 5
            &&& spec_home_col(i as int) == col
            &&& !homes[i as int]
            &&& !(bun_open && bun_nest == Some(i))
        },
        spec_home_slot(col, homes, bun_nest, bun_open) is Bun ==> {
            &&& bun_open
            &&& bun_nest matches Some(i) && i < 5 && spec_home_col(i as int) == col && !homes[i as int]
        },
        forall|i: int|
            #![trigger spec_home_col(i), homes[i]]
            0 <= i < 5 && !homes[i] && !bun_open && col == spec_home_col(i) ==> spec_home_slot(
                col,
                homes,
                bun_nest,
                bun_open,
            ) == SlotOutcome::Fill(i as usize),
{
    lemma_home_col_index(col);
}

/// The nest the bun guards this round, from the round's hash: only the
/// ridiculous family has a bun.
pub open spec fn spec_bun_nest(mode: ChaosMode, round_hash: u32) -> Option<usize> {
    if mode.spec_is_ridiculous() {
        Some((round_hash % 5) as usize)
    } else {
        None
    }
}

pub fn bun_nest(mode: ChaosMode, round_hash: u32) -> (nest: Option<usize>)
    ensures
        nest == spec_bun_nest(mode, round_hash),
        nest matches Some(i) ==> i < 5,
{
    if mode.is_ridiculous() {
        Some((round_hash % 5) as usize)
    } else {
        None
    }
}

/// Why a chicken died.
#[derive(Debug, Clone, Copy, PartialEq, Eq, Structural)]
pub enum DeathCause {
    Cart,
    Drown,
    /// Ridden a platform past the board edge.
    Swept,
    Timeout,
    /// Jumped into the home row outside an open nest.
    HomeMiss,
    /// Jumped into the bun's nest while the bun is open.
    Bun,
}

impl DeathCause {
    /// Whether this death happened in the soup, and so leaves a splash.
    pub fn is_soup(self) -> (soup: bool)
        ensures
            soup == (self is Drown || self is Swept),
    {
        match self {
            DeathCause::Drown | DeathCause::Swept => true,
            _ => false,
        }
    }
}

/// What takes a live chicken before it hops this frame: its attempt timer
/// first; then on a soup row the soup unless a platform carries it, and the
/// board edge if the ride carried it off; on a belt row a cart it overlaps.
pub open spec fn spec_hazard(timer_expired: bool, row: u32, on_platform: bool, swept: bool, road_hit: bool) -> Option<DeathCause> {
    if timer_expired {
        Some(DeathCause::Timeout)
    } else if spec_is_water_row(row) {
        if !on_platform {
            Some(DeathCause::Drown)
        } else if swept {
            Some(DeathCause::Swept)
        } else {
            None
        }
    } else if spec_is_road_row(row) && road_hit {
        Some(DeathCause::Cart)
    } else {
        None
    }
}

pub fn hazard(timer_expired: bool, row: u32, on_platform: bool, swept: bool, road_hit: bool) -> (cause: Option<DeathCause>)
    ensures
        cause == spec_hazard(timer_expired, row, on_platform, swept, road_hit),
{
    if timer_expired {
        Some(DeathCause::Timeout)
    } else if is_water_row(row) {
        if !on_platform {
            Some(DeathCause::Drown)
        } else if swept {
            Some(DeathCause::Swept)
        } else {
            None
        }
    } else if is_road_row(row) && road_hit {
        Some(DeathCause::Cart)
    } else {
        None
    }
}

/// What a hop's landing square resolves to, with no grace frame.
#[derive(Debug, Clone, Copy, PartialEq, Eq, Structural)]
pub enum Landing {
    /// Nothing happens: a land row, a ridden platform, a clear belt.
    Safe,
    /// Nest `index` fills.
    Fill(usize),
    /// The chicken dies of this.
    Death(DeathCause),
}

/// The landing on `row`: the home row resolves through the nests, a belt row
/// kills under a cart, a soup row drowns off a platform.
pub open spec fn spec_landing(
    row: u32,
    col: u32,
    homes: Seq<bool>,
    bun_nest: Option<usize>,
    bun_open: bool,
    road_hit: bool,
    on_platform: bool,
) -> Landing {
    if row == HOME_ROW {
        match spec_home_slot(col, homes, bun_nest, bun_open) {
            SlotOutcome::Fill(slot) => Landing::Fill(slot),
            SlotOutcome::Miss => Landing::Death(DeathCause::HomeMiss),
            SlotOutcome::Bun => Landing::Death(DeathCause::Bun),
        }
    } else if spec_is_road_row(row) {
        if road_hit {
            Landing::Death(DeathCause::Cart)
        } else {
            Landing::Safe
        }
    } else if spec_is_water_row(row) {
        if on_platform {
            Landing::Safe
        } else {
            Landing::Death(DeathCause::Drown)
        }
    } else {
        Landing::Safe
    }
}

pub fn landing(
    row: u32,
    col: u32,
    homes: &[bool; 5],
    bun_nest: Option<usize>,
    bun_open: bool,
    road_hit: bool,
    on_platform: bool,
) -> (landed: Landing)
    ensures
        landed == spec_landing(row, col, homes@, bun_nest, bun_open, road_hit, on_platform),
{
    if row == HOME_ROW {
        match home_slot(col, homes, bun_nest, bun_open) {
            SlotOutcome::Fill(slot) => Landing::Fill(slot),
            SlotOutcome::Miss => Landing::Death(DeathCause::HomeMiss),
            SlotOutcome::Bun => Landing::Death(DeathCause::Bun),
        }
    } else if is_road_row(row) {
        if road_hit {
            Landing::Death(DeathCause::Cart)
        } else {
            Landing::Safe
        }
    } else if is_water_row(row) {
        if on_platform {
            Landing::Safe
        } else {
            Landing::Death(DeathCause::Drown)
        }
    } else {
        Landing::Safe
    }
}

/// Which frame of a `frames`-frame clip shows once `reached` frames' worth of
/// time has passed: a looping clip wraps, a one-shot holds its last frame.
pub open spec fn spec_frame_index(reached: usize, frames: usize, looping: bool) -> usize {
    if looping {
        (reached % frames) as usize
    } else if reached < frames - 1 {
        reached
    } else {
        (frames - 1) as usize
    }
}

pub fn frame_index(reached: usize, frames: usize, looping: bool) -> (frame: usize)
    requires
        frames > 0,
    ensures
        frame == spec_frame_index(reached, frames, looping),
        frame < frames,
        !looping && reached >= frames ==> frame == frames - 1,
{
    if looping {
        reached % frames
    } else if reached < frames - 1 {
        reached
    } else {
        frames - 1
    }
}

/// Where the bun stands and whether it has anything to guard: the nest it
/// guards, or nest 0 (where it is never drawn) when it guards none, and
/// whether the nest it guards is already filled.
pub fn bun_slot(nest: Option<usize>, homes: &[bool; 5]) -> (placement: (usize, bool))
    requires
        nest matches Some(i) ==> i < 5,
    ensures
        placement.0 == (match nest {
            Some(i) => i,
            None => 0,
        }),
        placement.1 == (nest matches Some(i) && homes@[i as int]),
{
    match nest {
        Some(slot) => (slot, homes[slot]),
        None => (0, false),
    }
}

/// A frame's hop comes from its keys: there is a hop exactly when some
/// direction is pressed, the hop is always in a pressed direction, and the
/// pressed direction that wins is the first of Up, Down, Left, Right. In
/// particular a lone press of any one direction hops that way.
pub proof fn lemma_resolve_hop_obeys_the_keys(up: bool, down: bool, left: bool, right: bool)
    ensures
        spec_resolve_hop(up, down, left, right) is None <==> !(up || down || left || right),
        spec_resolve_hop(up, down, left, right) == Some(Hop::Up) ==> up,
        spec_resolve_hop(up, down, left, right) == Some(Hop::Down) ==> down && !up,
        spec_resolve_hop(up, down, left, right) == Some(Hop::Left) ==> left && !up && !down,
        spec_resolve_hop(up, down, left, right) == Some(Hop::Right) ==> right && !up && !down
            && !left,
        up ==> spec_resolve_hop(up, down, left, right) == Some(Hop::Up),
        down && !up ==> spec_resolve_hop(up, down, left, right) == Some(Hop::Down),
        left && !up && !down ==> spec_resolve_hop(up, down, left, right) == Some(Hop::Left),
        right && !up && !down && !left ==> spec_resolve_hop(up, down, left, right) == Some(
            Hop::Right,
        ),
        spec_resolve_hop(false, false, false, false) is None,
        spec_resolve_hop(true, false, false, false) == Some(Hop::Up),
        spec_resolve_hop(false, true, false, false) == Some(Hop::Down),
        spec_resolve_hop(false, false, true, false) == Some(Hop::Left),
        spec_resolve_hop(false, false, false, true) == Some(Hop::Right),
{
}

/// The hazards before a hop, row by row: a run-out timer kills anywhere; on
/// any of the five soup rows (1 to 5) the chicken drowns unless a platform
/// carries it, and dies if the ride carried it off the board; on any of the
/// five belt rows (7 to 11) it dies exactly when a cart overlaps it; the home
/// row, the median and the start row are safe.
pub proof fn lemma_hazards_by_row(
    timer_expired: bool,
    row: u32,
    on_platform: bool,
    swept: bool,
    road_hit: bool,
)
    ensures
        timer_expired ==> spec_hazard(timer_expired, row, on_platform, swept, road_hit) == Some(
            DeathCause::Timeout,
        ),
        !timer_expired && 1 <= row <= 5 && !on_platform ==> spec_hazard(
            timer_expired,
            row,
            on_platform,
            swept,
            road_hit,
        ) == Some(DeathCause::Drown),
        !timer_expired && 1 <= row <= 5 && on_platform && swept ==> spec_hazard(
            timer_expired,
            row,
            on_platform,
            swept,
            road_hit,
        ) == Some(DeathCause::Swept),
        !timer_expired && 1 <= row <= 5 && on_platform && !swept ==> spec_hazard(
            timer_expired,
            row,
            on_platform,
            swept,
            road_hit,
        ) is None,
        !timer_expired && 7 <= row <= 11 && road_hit ==> spec_hazard(
            timer_expired,
            row,
            on_platform,
            swept,
            road_hit,
        ) == Some(DeathCause::Cart),
        !timer_expired && 7 <= row <= 11 && !road_hit ==> spec_hazard(
            timer_expired,
            row,
            on_platform,
            swept,
            road_hit,
        ) is None,
        !timer_expired && (row == 0 || row == 6 || row >= 12) ==> spec_hazard(
            timer_expired,
            row,
            on_platform,
            swept,
            road_hit,
        ) is None,
{
}

/// Where a hop lands, row by row: on the home row it fills the empty nest on
/// that column unless that nest is the bun's and the bun is open (then the
/// bun kills), and anywhere else on the home row it dies of the miss; on any
/// belt row (7 to 11) it dies exactly when a cart covers it; on any soup row
/// (1 to 5) it drowns exactly when no platform carries it; the median and the
/// start row are safe.
pub proof fn lemma_landing_by_row(
    row: u32,
    col: u32,
    homes: Seq<bool>,
    bun_nest: Option<usize>,
    bun_open: bool,
    road_hit: bool,
    on_platform: bool,
)
    requires
        homes.len() == 5,
    ensures
        ({
            let landed = spec_landing(row, col, homes, bun_nest, bun_open, road_hit, on_platform);
            &&& 7 <= row <= 11 ==> (landed == Landing::Death(DeathCause::Cart) <==> road_hit)
            &&& 7 <= row <= 11 && !road_hit ==> landed is Safe
            &&& 1 <= row <= 5 ==> (landed == Landing::Death(DeathCause::Drown) <==> !on_platform)
            &&& 1 <= row <= 5 && on_platform ==> landed is Safe
            &&& (row == 6 || row == 12) ==> landed is Safe
            &&& row == 0 ==> !(landed is Safe)
            &&& row == 0 ==> forall|i: int|
                #![trigger spec_home_col(i), homes[i]]
                0 <= i < 5 && col == spec_home_col(i) && !homes[i] ==> (if bun_open
                    && bun_nest == Some(i as usize) {
                    landed == Landing::Death(DeathCause::Bun)
                } else {
                    landed == Landing::Fill(i as usize)
                })
            &&& row == 0 && (forall|i: int| 0 <= i < 5 ==> col != spec_home_col(i))
                ==> landed == Landing::Death(DeathCause::HomeMiss)
            &&& row == 0 ==> forall|i: int|
                #![trigger spec_home_col(i), homes[i]]
                0 <= i < 5 && col == spec_home_col(i) && homes[i] ==> landed == Landing::Death(
                    DeathCause::HomeMiss,
                )
            &&& landed matches Landing::Fill(i) ==> row == 0 && i < 5 && col == spec_home_col(
                i as int,
            ) && !homes[i as int]
        }),
{
    lemma_home_col_index(col);
    lemma_home_slot_outcomes(col, homes, bun_nest, bun_open);
}

/// The bun only ever guards a nest in the ridiculous family, always one of
/// the five, chosen by the round's hash alone; outside the family there is
/// none.
pub proof fn lemma_bun_nest_in_range(mode: ChaosMode, round_hash: u32)
    ensures
        (mode is Ridiculous || mode is Insiculous) ==> spec_bun_nest(mode, round_hash) == Some(
            (round_hash % 5) as usize,
        ),
        (mode is Normal || mode is Insane) ==> spec_bun_nest(mode, round_hash) is None,
        spec_bun_nest(mode, round_hash) matches Some(i) ==> i < 5,
{
}

/// A clip's frame always exists, a looping clip shows the frame `reached`
/// wraps onto, and a clip that plays once counts up to its last frame and
/// holds there.
pub proof fn lemma_frame_index_plays_the_clip(reached: usize, frames: usize, looping: bool)
    requires
        frames > 0,
    ensures
        spec_frame_index(reached, frames, looping) < frames,
        looping ==> spec_frame_index(reached, frames, looping) == reached % frames,
        looping && reached < frames ==> spec_frame_index(reached, frames, looping) == reached,
        !looping && reached < frames ==> spec_frame_index(reached, frames, looping) == reached,
        !looping && reached >= frames ==> spec_frame_index(reached, frames, looping) == frames
            - 1,
{
    if reached < frames {
        vstd::arithmetic::div_mod::lemma_small_mod(reached as nat, frames as nat);
    }
}

/// The chaos families: Normal is in neither, Insane only in the insane
/// family, Ridiculous only in the ridiculous one, and Insiculous in both; the
/// mode menu lists all four once, in that order.
pub proof fn lemma_chaos_families(mode: ChaosMode)
    ensures
        mode.spec_is_insane() <==> (mode == ChaosMode::Insane || mode == ChaosMode::Insiculous),
        mode.spec_is_ridiculous() <==> (mode == ChaosMode::Ridiculous || mode
            == ChaosMode::Insiculous),
        ChaosMode::spec_at(0) == ChaosMode::Normal,
        ChaosMode::spec_at(1) == ChaosMode::Insane,
        ChaosMode::spec_at(2) == ChaosMode::Ridiculous,
        ChaosMode::spec_at(3) == ChaosMode::Insiculous,
{
}

} // verus!
