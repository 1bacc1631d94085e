//! The lane table: one lane per soup row and per belt row, each with the
//! kind of obstacle it carries, the way it runs, its base speed, how many
//! segments share its torus and what one segment is drawn as.

use vstd::prelude::*;

use crate::board::{spec_is_road_row, spec_is_water_row, ROWS};

verus! {

/// What kind of obstacle a lane carries. Road kinds kill on touch; soup
/// kinds are the walkable platforms.
#[derive(Debug, Clone, Copy, PartialEq, Eq, Structural)]
pub enum LaneKind {
    Car,
    Truck,
    Log,
    /// A group of crackers moving as one segment; the ridiculous family makes
    /// them sink.
    Crackers,
}

/// Which sheet a lane segment draws its sprites from.
#[derive(Debug, Clone, Copy, PartialEq, Eq, Structural)]
pub enum LaneSprite {
    SushiCart,
    DonutCart,
    HotDogCart,
    CeleryRaft,
    BaguetteRaft,
    Cracker,
}

impl LaneSprite {
    /// Whether this sprite is a cart (one of the belt obstacles).
    pub open spec fn spec_is_cart(self) -> bool {
        self is SushiCart || self is DonutCart || self is HotDogCart
    }

    /// The clip one of this sprite's sprites plays while its lane carries it.
    pub fn travelling_clip(self) -> (clip: &'static str)
        ensures
            clip@ == (if self.spec_is_cart() {
                "roll"@
            } else {
                "idle"@
            }),
    {
        match self {
            LaneSprite::SushiCart | LaneSprite::DonutCart | LaneSprite::HotDogCart => "roll",
            LaneSprite::CeleryRaft | LaneSprite::BaguetteRaft => "idle",
            LaneSprite::Cracker => "idle",
        }
    }

    /// Whether the rules pose this sprite frame by frame (the cracker's sink
    /// and rise) rather than the sheet's own clip carrying it.
    pub fn is_posed(self) -> (posed: bool)
        ensures
            posed == (self is Cracker),
    {
        match self {
            LaneSprite::Cracker => true,
            _ => false,
        }
    }

    /// What the editor hierarchy calls one of these.
    pub fn label(self) -> (label: &'static str)
        ensures
            label@ == (if self.spec_is_cart() {
                "Cart"@
            } else if self is Cracker {
                "Cracker"@
            } else {
                "Raft"@
            }),
    {
        match self {
            LaneSprite::SushiCart | LaneSprite::DonutCart | LaneSprite::HotDogCart => "Cart",
            LaneSprite::CeleryRaft | LaneSprite::BaguetteRaft => "Raft",
            LaneSprite::Cracker => "Cracker",
        }
    }
}

/// One lane's obstacle as drawn: the sheet and how many of its cells.
#[derive(Debug, Clone, Copy, PartialEq, Eq, Structural)]
pub struct Segment {
    pub sprite: LaneSprite,
    pub sprites: usize,
}

/// One lane of the table. `dir` is +1 for a lane running right and -1 for
/// one running left; `speed` is the normal-mode base speed in px/s.
#[derive(Debug, Clone, Copy, PartialEq, Eq, Structural)]
pub struct LaneDef {
    pub row: u32,
    pub kind: LaneKind,
    pub dir: i8,
    pub speed: u32,
    pub count: usize,
    pub segment: Segment,
}

/// Number of lanes in the table.
pub const LANE_COUNT: usize = 10;

pub open spec fn lane_def(
    row: u32,
    kind: LaneKind,
    dir: i8,
    speed: u32,
    count: usize,
    sprite: LaneSprite,
    sprites: usize,
) -> LaneDef {
    LaneDef { row, kind, dir, speed, count, segment: Segment { sprite, sprites } }
}

/// The ten lanes, bottom of the board first: five belts above the start
/// row, then five soup rows above the median.
pub open spec fn spec_lane(index: int) -> LaneDef {
    if index == 0 {
        lane_def(11, LaneKind::Car, 1i8, 70, 3, LaneSprite::SushiCart, 1)
    } else if index == 1 {
        lane_def(10, LaneKind::Car, -1i8, 90, 3, LaneSprite::DonutCart, 1)
    } else if index == 2 {
        lane_def(9, LaneKind::Truck, 1i8, 60, 2, LaneSprite::HotDogCart, 1)
    } else if index == 3 {
        lane_def(8, LaneKind::Car, -1i8, 120, 3, LaneSprite::SushiCart, 1)
    } else if index == 4 {
        lane_def(7, LaneKind::Truck, 1i8, 80, 2, LaneSprite::HotDogCart, 1)
    } else if index == 5 {
        lane_def(5, LaneKind::Crackers, -1i8, 70, 3, LaneSprite::Cracker, 3)
    } else if index == 6 {
        lane_def(4, LaneKind::Log, 1i8, 80, 3, LaneSprite::CeleryRaft, 2)
    } else if index == 7 {
        lane_def(3, LaneKind::Log, 1i8, 110, 2, LaneSprite::BaguetteRaft, 2)
    } else if index == 8 {
        lane_def(2, LaneKind::Crackers, -1i8, 90, 3, LaneSprite::Cracker, 2)
    } else {
        lane_def(1, LaneKind::Log, 1i8, 65, 3, LaneSprite::CeleryRaft, 2)
    }
}

fn make_lane(
    row: u32,
    kind: LaneKind,
    dir: i8,
    speed: u32,
    count: usize,
    sprite: LaneSprite,
    sprites: usize,
) -> (def: LaneDef)
    ensures
        def == lane_def(row, kind, dir, speed, count, sprite, sprites),
{
    LaneDef { row, kind, dir, speed, count, segment: Segment { sprite, sprites } }
}

/// The lane table.
pub fn lanes() -> (defs: Vec<LaneDef>)
    ensures
        defs@.len() == LANE_COUNT,
        forall|i: int| 0 <= i < LANE_COUNT ==> #[trigger] defs@[i] == spec_lane(i),
{
    let mut defs: Vec<LaneDef> = Vec::new();
    defs.push(make_lane(11, LaneKind::Car, 1, 70, 3, LaneSprite::SushiCart, 1));
    defs.push(make_lane(10, LaneKind::Car, -1, 90, 3, LaneSprite::DonutCart, 1));
    defs.push(make_lane(9, LaneKind::Truck, 1, 60, 2, LaneSprite::HotDogCart, 1));
    defs.push(make_lane(8, LaneKind::Car, -1, 120, 3, LaneSprite::SushiCart, 1));
    defs.push(make_lane(7, LaneKind::Truck, 1, 80, 2, LaneSprite::HotDogCart, 1));
    defs.push(make_lane(5, LaneKind::Crackers, -1, 70, 3, LaneSprite::Cracker, 3));
    defs.push(make_lane(4, LaneKind::Log, 1, 80, 3, LaneSprite::CeleryRaft, 2));
    defs.push(make_lane(3, LaneKind::Log, 1, 110, 2, LaneSprite::BaguetteRaft, 2));
    defs.push(make_lane(2, LaneKind::Crackers, -1, 90, 3, LaneSprite::Cracker, 2));
    defs.push(make_lane(1, LaneKind::Log, 1, 65, 3, LaneSprite::CeleryRaft, 2));
    defs
}

/// The table index of the lane covering `row`: the first one, if any.
pub open spec fn spec_lane_index_for_row(row: u32) -> Option<usize> {
    if 7 <= row <= 11 {
        Some((11 - row) as usize)
    } else if 1 <= row <= 5 {
        Some((10 - row) as usize)
    } else {
        None
    }
}

/// Each soup and belt row has exactly one lane, no other row has one, and
/// a lane's kind matches its row: platforms on the soup, carts and trucks on
/// the belts; a cart lane is one sprite, a raft or a cracker group more than
/// one, every lane runs one way at a positive speed.
pub proof fn lemma_lane_table_covers_each_row_once()
    ensures
        forall|i: int, j: int|
            0 <= i < LANE_COUNT && 0 <= j < LANE_COUNT && i != j ==> #[trigger] spec_lane(i).row
                != #[trigger] spec_lane(j).row,
        forall|row: u32|
            (exists|i: int| 0 <= i < LANE_COUNT && #[trigger] spec_lane(i).row == row) <==> (
            spec_is_water_row(row) || spec_is_road_row(row)),
        forall|row: u32|
            #![trigger spec_lane_index_for_row(row)]
            (spec_is_water_row(row) || spec_is_road_row(row)) ==> (spec_lane_index_for_row(row) matches Some(i) && i < LANE_COUNT && spec_lane(i as int).row == row),
        forall|i: int|
            #![trigger spec_lane(i)]
            0 <= i < LANE_COUNT ==> {
                let def = spec_lane(i);
                &&& def.row < ROWS
                &&& spec_is_water_row(def.row) <==> (def.kind is Log || def.kind is Crackers)
                &&& def.dir == 1 || def.dir == -1
                &&& def.count > 0 && def.speed > 0 && def.segment.sprites > 0
                &&& (def.kind is Car || def.kind is Truck) ==> def.segment.sprites == 1
                &&& (def.kind is Log || def.kind is Crackers) ==> def.segment.sprites > 1
            },
{
    assert forall|row: u32|
        (spec_is_water_row(row) || spec_is_road_row(row)) implies (exists|i: int|
            0 <= i < LANE_COUNT && #[trigger] spec_lane(i).row == row) by {
        let i = spec_lane_index_for_row(row).unwrap() as int;
        assert(spec_lane(i).row == row);
    }
}

/// The first lane of `defs` on `row`.
pub fn lane_index_for_row(defs: &Vec<LaneDef>, row: u32) -> (index: Option<usize>)
    ensures
        index matches Some(i) ==> i < defs@.len() && defs@[i as int].row == row && forall|j: int|
            0 <= j < i ==> defs@[j].row != row,
        index is None ==> forall|j: int| 0 <= j < defs@.len() ==> defs@[j].row != row,
{
    let mut i: usize = 0;
    while i < defs.len()
        invariant
            i <= defs@.len(),
            forall|j: int| 0 <= j < i ==> defs@[j].row != row,
        decreases defs@.len() - i,
    {
        if defs[i].row == row {
            return Some(i);
        }
        i += 1;
    }
    None
}

/// Which way the lane on `row` runs: its own direction, or rightward for a
/// row no lane covers.
pub fn lane_direction(row: u32) -> (dir: i8)
    ensures
        dir == (match spec_lane_index_for_row(row) {
            Some(i) => spec_lane(i as int).dir,
            None => 1i8,
        }),
{
    let defs = lanes();
    proof {
        lemma_lane_table_covers_each_row_once();
    }
    match lane_index_for_row(&defs, row) {
        Some(i) => {
            proof {
                if spec_lane_index_for_row(row) is None {
                    assert(spec_lane(i as int).row == row);
                }
                let k = spec_lane_index_for_row(row);
                if k is Some && k.unwrap() != i {
                    assert(spec_lane(k.unwrap() as int).row == row);
                }
            }
            defs[i].dir
        },
        None => {
            proof {
                if let Some(k) = spec_lane_index_for_row(row) {
                    assert(defs@[k as int].row == row);
                }
            }
            1
        },
    }
}

/// The torus every lane position lives on, in world pixels: the window's
/// 720 px plus two tiles of offstage margin.
pub const LANE_PERIOD: u32 = 816;

impl LaneSprite {
    pub open spec fn spec_cell_width(self) -> u32 {
        match self {
            LaneSprite::SushiCart => 64,
            LaneSprite::DonutCart => 64,
            LaneSprite::HotDogCart => 96,
            LaneSprite::CeleryRaft => 64,
            LaneSprite::BaguetteRaft => 96,
            LaneSprite::Cracker => 48,
        }
    }

    pub open spec fn spec_opaque_width(self) -> u32 {
        match self {
            LaneSprite::SushiCart => 55,
            LaneSprite::DonutCart => 55,
            LaneSprite::HotDogCart => 87,
            LaneSprite::CeleryRaft => 60,
            LaneSprite::BaguetteRaft => 89,
            LaneSprite::Cracker => 42,
        }
    }

    /// The width of one cell of this sprite's sheet, world pixels.
    pub fn cell_width(self) -> (width: u32)
        ensures
            width == self.spec_cell_width(),
    {
        match self {
            LaneSprite::SushiCart | LaneSprite::DonutCart | LaneSprite::CeleryRaft => 64,
            LaneSprite::HotDogCart | LaneSprite::BaguetteRaft => 96,
            LaneSprite::Cracker => 48,
        }
    }

    /// The width of the art inside one cell, as measured on the sheet.
    pub fn opaque_width(self) -> (width: u32)
        ensures
            width == self.spec_opaque_width(),
    {
        match self {
            LaneSprite::SushiCart | LaneSprite::DonutCart => 55,
            LaneSprite::HotDogCart => 87,
            LaneSprite::CeleryRaft => 60,
            LaneSprite::BaguetteRaft => 89,
            LaneSprite::Cracker => 42,
        }
    }
}

/// A segment's drawn length: its sprites stand one cell apart, so it reaches
/// from the first sprite's opaque left to the last one's opaque right. Twice
/// the collision half-extent.
pub open spec fn spec_segment_length(segment: Segment) -> int {
    (segment.sprites - 1) * segment.sprite.spec_cell_width() + segment.sprite.spec_opaque_width()
}

pub fn segment_length(segment: Segment) -> (length: u32)
    requires
        0 <= spec_segment_length(segment) <= u32::MAX,
    ensures
        length == spec_segment_length(segment),
{
    assert(segment.sprites >= 1) by {
        if segment.sprites == 0 {
            assert(spec_segment_length(segment) == segment.sprite.spec_opaque_width() - segment.sprite.spec_cell_width());
        }
    }
    let extra = (segment.sprites - 1) as u64;
    let cell = segment.sprite.cell_width() as u64;
    let opaque = segment.sprite.opaque_width() as u64;
    assert(extra * cell <= u32::MAX) by (nonlinear_arith)
        requires
            extra * cell + opaque <= u32::MAX,
            opaque >= 0,
    ;
    (extra * cell + opaque) as u32
}

/// No lane spawns overlapping traffic: its segments are spread evenly round
/// the torus, and each is shorter than the spacing between them.
pub proof fn lemma_no_lane_s_segments_touch_the_next(i: int)
    requires
        0 <= i < LANE_COUNT,
    ensures
        spec_segment_length(spec_lane(i).segment) * spec_lane(i).count < LANE_PERIOD,
{
    let seg = spec_lane(i).segment;
    let sprites = seg.sprites as int;
    let cell = seg.sprite.spec_cell_width() as int;
    let opaque = seg.sprite.spec_opaque_width() as int;
    let count = spec_lane(i).count as int;
    assert(spec_segment_length(seg) == (sprites - 1) * cell + opaque);
    assert(1 <= sprites <= 3 && 48 <= cell <= 96 && opaque <= 89 && 2 <= count <= 3);
    assert(((sprites - 1) * cell + opaque) * count < 816) by (nonlinear_arith)
        requires
            1 <= sprites <= 3,
            48 <= cell <= 96,
            0 <= opaque <= 89,
            2 <= count <= 3,
            sprites == 1 ==> opaque <= 89 && (count == 3 ==> opaque <= 55),
            sprites == 2 ==> cell + opaque <= 185 && (count == 3 ==> cell + opaque <= 124),
            sprites == 3 ==> cell == 48 && opaque == 42 && count == 3,
    ;
}

} // verus!
