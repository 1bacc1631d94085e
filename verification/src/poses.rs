//! The cracker's and the bun's drawn poses, and which platform carries a
//! chicken.
//!
//! A pose is a pure function of the cycle the rules run on. The caller
//! measures the cycle: whether the rules' own predicate has the cracker
//! submerged or the bun open, and which lead window the cycle time is in.
//! From that the window a pose is drawn in is chosen here; the caller then
//! measures how many frames of that window have run, and the frame is chosen
//! here too. The lethal window is never restated: a pose that could kill is
//! chosen by the rules' predicate alone, so the drawn danger always covers
//! the real one.

use vstd::prelude::*;

use crate::lanes::LaneKind;
use crate::rules::{frame_index, spec_frame_index};

verus! {

pub const CRACKER_RISE_FRAMES: usize = 3;
pub const CRACKER_IDLE_FRAMES: usize = 4;
pub const CRACKER_WARNING_FRAMES: usize = 4;
pub const CRACKER_SINK_FRAMES: usize = 3;
pub const CRACKER_SUBMERGED_FRAMES: usize = 2;
pub const BUN_WARNING_FRAMES: usize = 2;
pub const BUN_OPENING_FRAMES: usize = 3;
pub const BUN_OPEN_FRAMES: usize = 2;
pub const BUN_CLOSING_FRAMES: usize = 3;

/// A drawn pose: which clip, and which frame of that clip's frame list.
#[derive(Debug, Clone, Copy, PartialEq, Eq)]
pub struct Pose {
    pub clip: &'static str,
    pub frame: usize,
}

/// Where a cracker's cycle time sits among the lead windows that tile its
/// cycle up to the flip: the rise out of it, the idle, the warning beat, and
/// the sink into it.
#[derive(Debug, Clone, Copy, PartialEq, Eq, Structural)]
pub enum CrackerLead {
    Rise,
    Idle,
    Warning,
    Sink,
}

/// The window a cracker is drawn in. `Resting` is the idle bob outside the
/// ridiculous family, timed from the cycle's start.
#[derive(Debug, Clone, Copy, PartialEq, Eq, Structural)]
pub enum CrackerWindow {
    Resting,
    Submerged,
    Rise,
    Idle,
    Warning,
    Sink,
}

/// The window a cracker group is drawn in: outside the ridiculous family it
/// only rests; inside it, it is drawn under exactly while the rules hold it
/// submerged, and otherwise in the lead window its cycle time is in.
pub open spec fn spec_cracker_window(ridiculous: bool, submerged: bool, lead: CrackerLead) -> CrackerWindow {
    if !ridiculous {
        CrackerWindow::Resting
    } else if submerged {
        CrackerWindow::Submerged
    } else {
        match lead {
            CrackerLead::Rise => CrackerWindow::Rise,
            CrackerLead::Idle => CrackerWindow::Idle,
            CrackerLead::Warning => CrackerWindow::Warning,
            CrackerLead::Sink => CrackerWindow::Sink,
        }
    }
}

pub fn cracker_window(ridiculous: bool, submerged: bool, lead: CrackerLead) -> (window: CrackerWindow)
    ensures
        window == spec_cracker_window(ridiculous, submerged, lead),
{
    if !ridiculous {
        CrackerWindow::Resting
    } else if submerged {
        CrackerWindow::Submerged
    } else {
        match lead {
            CrackerLead::Rise => CrackerWindow::Rise,
            CrackerLead::Idle => CrackerWindow::Idle,
            CrackerLead::Warning => CrackerWindow::Warning,
            CrackerLead::Sink => CrackerWindow::Sink,
        }
    }
}

/// The clip a cracker window shows.
pub open spec fn spec_cracker_clip(window: CrackerWindow) -> Seq<char> {
    match window {
        CrackerWindow::Resting | CrackerWindow::Idle => "idle"@,
        CrackerWindow::Submerged => "submerged"@,
        CrackerWindow::Rise => "rise"@,
        CrackerWindow::Warning => "warning"@,
        CrackerWindow::Sink => "sink"@,
    }
}

/// The frames a cracker window's clip has, and whether it loops: the rise and
/// the sink play once and hold their last frame.
pub open spec fn spec_cracker_frames(window: CrackerWindow) -> (usize, bool) {
    match window {
        CrackerWindow::Resting | CrackerWindow::Idle => (CRACKER_IDLE_FRAMES, true),
        CrackerWindow::Submerged => (CRACKER_SUBMERGED_FRAMES, true),
        CrackerWindow::Rise => (CRACKER_RISE_FRAMES, false),
        CrackerWindow::Warning => (CRACKER_WARNING_FRAMES, true),
        CrackerWindow::Sink => (CRACKER_SINK_FRAMES, false),
    }
}

/// The cracker's pose once `reached` frames of its window have run.
pub fn cracker_pose(window: CrackerWindow, reached: usize) -> (pose: Pose)
    ensures
        pose.clip@ == spec_cracker_clip(window),
        pose.frame == spec_frame_index(
            reached,
            spec_cracker_frames(window).0,
            spec_cracker_frames(window).1,
        ),
        pose.frame < spec_cracker_frames(window).0,
{
    match window {
        CrackerWindow::Resting | CrackerWindow::Idle => Pose {
            clip: "idle",
            frame: frame_index(reached, CRACKER_IDLE_FRAMES, true),
        },
        CrackerWindow::Submerged => Pose {
            clip: "submerged",
            frame: frame_index(reached, CRACKER_SUBMERGED_FRAMES, true),
        },
        CrackerWindow::Rise => Pose {
            clip: "rise",
            frame: frame_index(reached, CRACKER_RISE_FRAMES, false),
        },
        CrackerWindow::Warning => Pose {
            clip: "warning",
            frame: frame_index(reached, CRACKER_WARNING_FRAMES, true),
        },
        CrackerWindow::Sink => Pose {
            clip: "sink",
            frame: frame_index(reached, CRACKER_SINK_FRAMES, false),
        },
    }
}

/// Where the bun's cycle time sits among the windows that tile its cycle up
/// to the flip: the closing out of it, the hidden stretch, the warning beat,
/// and the opening into it.
#[derive(Debug, Clone, Copy, PartialEq, Eq, Structural)]
pub enum BunLead {
    Closing,
    Hidden,
    Warning,
    Opening,
}

/// The window the bun is drawn in, when it is drawn at all.
#[derive(Debug, Clone, Copy, PartialEq, Eq, Structural)]
pub enum BunWindow {
    Open,
    Closing,
    Warning,
    Opening,
}

/// The bun's window: nothing outside the ridiculous family or once its nest
/// is filled; open exactly while the rules hold it open; otherwise its lead
/// window, and nothing in the hidden stretch.
pub open spec fn spec_bun_window(ridiculous: bool, slot_filled: bool, open: bool, lead: BunLead) -> Option<BunWindow> {
    if !ridiculous || slot_filled {
        None
    } else if open {
        Some(BunWindow::Open)
    } else {
        match lead {
            BunLead::Closing => Some(BunWindow::Closing),
            BunLead::Hidden => None,
            BunLead::Warning => Some(BunWindow::Warning),
            BunLead::Opening => Some(BunWindow::Opening),
        }
    }
}

pub fn bun_window(ridiculous: bool, slot_filled: bool, open: bool, lead: BunLead) -> (window: Option<BunWindow>)
    ensures
        window == spec_bun_window(ridiculous, slot_filled, open, lead),
{
    if !ridiculous || slot_filled {
        None
    } else if open {
        Some(BunWindow::Open)
    } else {
        match lead {
            BunLead::Closing => Some(BunWindow::Closing),
            BunLead::Hidden => None,
            BunLead::Warning => Some(BunWindow::Warning),
            BunLead::Opening => Some(BunWindow::Opening),
        }
    }
}

pub open spec fn spec_bun_clip(window: BunWindow) -> Seq<char> {
    match window {
        BunWindow::Open => "open"@,
        BunWindow::Closing => "closing"@,
        BunWindow::Warning => "warning"@,
        BunWindow::Opening => "opening"@,
    }
}

/// The frames a bun window's clip has, and whether it loops: the closing and
/// the opening play once and hold their last frame.
pub open spec fn spec_bun_frames(window: BunWindow) -> (usize, bool) {
    match window {
        BunWindow::Open => (BUN_OPEN_FRAMES, true),
        BunWindow::Closing => (BUN_CLOSING_FRAMES, false),
        BunWindow::Warning => (BUN_WARNING_FRAMES, true),
        BunWindow::Opening => (BUN_OPENING_FRAMES, false),
    }
}

/// The bun's pose once `reached` frames of its window have run.
pub fn bun_pose(window: BunWindow, reached: usize) -> (pose: Pose)
    ensures
        pose.clip@ == spec_bun_clip(window),
        pose.frame == spec_frame_index(reached, spec_bun_frames(window).0, spec_bun_frames(window).1),
        pose.frame < spec_bun_frames(window).0,
{
    match window {
        BunWindow::Open => Pose { clip: "open", frame: frame_index(reached, BUN_OPEN_FRAMES, true) },
        BunWindow::Closing => Pose {
            clip: "closing",
            frame: frame_index(reached, BUN_CLOSING_FRAMES, false),
        },
        BunWindow::Warning => Pose {
            clip: "warning",
            frame: frame_index(reached, BUN_WARNING_FRAMES, true),
        },
        BunWindow::Opening => Pose {
            clip: "opening",
            frame: frame_index(reached, BUN_OPENING_FRAMES, false),
        },
    }
}

/// The segment of a soup lane that carries a chicken: the first whose body
/// is under the chicken's centre and which is not a submerged cracker group.
/// `under[i]` and `submerged[i]` are measured for segment `i`.
pub open spec fn spec_carries(kind: LaneKind, under: Seq<bool>, submerged: Seq<bool>, i: int) -> bool {
    under[i] && !(kind == LaneKind::Crackers && submerged[i])
}

pub fn platform_index(kind: LaneKind, under: &Vec<bool>, submerged: &Vec<bool>) -> (index: Option<usize>)
    requires
        under@.len() == submerged@.len(),
    ensures
        index matches Some(i) ==> i < under@.len() && spec_carries(kind, under@, submerged@, i as int)
            && forall|j: int| 0 <= j < i ==> !spec_carries(kind, under@, submerged@, j),
        index is None ==> forall|j: int|
            0 <= j < under@.len() ==> !spec_carries(kind, under@, submerged@, j),
{
    let mut i: usize = 0;
    while i < under.len()
        invariant
            i <= under@.len() == submerged@.len(),
            forall|j: int| 0 <= j < i ==> !spec_carries(kind, under@, submerged@, j),
        decreases under@.len() - i,
    {
        if under[i] && !(kind == LaneKind::Crackers && submerged[i]) {
            return Some(i);
        }
        i += 1;
    }
    None
}

/// Whether any segment of a belt lane overlaps the chicken.
pub fn any_hit(overlaps: &Vec<bool>) -> (hit: bool)
    ensures
        hit == overlaps@.contains(true),
{
    let mut i: usize = 0;
    while i < overlaps.len()
        invariant
            i <= overlaps@.len(),
            forall|j: int| 0 <= j < i ==> !overlaps@[j],
        decreases overlaps@.len() - i,
    {
        if overlaps[i] {
            assert(overlaps@[i as int] == true);
            return true;
        }
        i += 1;
    }
    false
}

/// The drawn danger always covers the real one. A cracker group is drawn
/// under exactly while the rules hold it submerged, which is exactly while
/// it carries no chicken standing on it; outside the ridiculous family it
/// only ever rests. The bun is drawn open exactly while the rules hold it
/// open; a bun drawn nothing, or drawn anything but open, is harmless; a
/// filled nest, or a mode outside the ridiculous family, draws no bun.
pub proof fn lemma_drawn_danger_covers_the_real_one(
    ridiculous: bool,
    submerged: bool,
    lead: CrackerLead,
    slot_filled: bool,
    open: bool,
    bun_lead: BunLead,
)
    ensures
        ridiculous ==> ((spec_cracker_clip(spec_cracker_window(ridiculous, submerged, lead))
            == "submerged"@) <==> submerged),
        ridiculous ==> ((spec_cracker_clip(spec_cracker_window(ridiculous, submerged, lead))
            == "submerged"@) <==> !spec_carries(LaneKind::Crackers, seq![true], seq![submerged], 0)),
        !ridiculous ==> spec_cracker_clip(spec_cracker_window(ridiculous, submerged, lead))
            == "idle"@,
        ridiculous && !slot_filled ==> (spec_bun_window(ridiculous, slot_filled, open, bun_lead)
            == Some(BunWindow::Open) <==> open),
        ridiculous && !slot_filled && open ==> spec_bun_window(
            ridiculous,
            slot_filled,
            open,
            bun_lead,
        ) is Some,
        slot_filled || !ridiculous ==> spec_bun_window(ridiculous, slot_filled, open, bun_lead)
            is None,
{
    reveal_strlit("submerged");
    reveal_strlit("idle");
    reveal_strlit("rise");
    reveal_strlit("warning");
    reveal_strlit("sink");
    assert("idle"@.len() != "submerged"@.len());
    assert("rise"@.len() != "submerged"@.len());
    assert("warning"@.len() != "submerged"@.len());
    assert("sink"@.len() != "submerged"@.len());
}

/// The lead-ins and lead-outs around a flip play once and hold their last
/// frame (the cracker's rise and sink, the bun's opening and closing); every
/// other window loops (the idle, the warning beats, the cracker under, the
/// bun open). Every clip has a frame to show, and a pose always shows one of
/// its clip's frames.
pub proof fn lemma_pose_clips_play_once_or_loop(w: CrackerWindow, b: BunWindow, reached: usize)
    ensures
        spec_cracker_frames(w).1 <==> !(w is Rise || w is Sink),
        spec_bun_frames(b).1 <==> (b is Open || b is Warning),
        spec_cracker_frames(w).0 > 0 && spec_bun_frames(b).0 > 0,
        spec_frame_index(reached, spec_cracker_frames(w).0, spec_cracker_frames(w).1)
            < spec_cracker_frames(w).0,
        spec_frame_index(reached, spec_bun_frames(b).0, spec_bun_frames(b).1)
            < spec_bun_frames(b).0,
{
    crate::rules::lemma_frame_index_plays_the_clip(
        reached,
        spec_cracker_frames(w).0,
        spec_cracker_frames(w).1,
    );
    crate::rules::lemma_frame_index_plays_the_clip(reached, spec_bun_frames(b).0, spec_bun_frames(b).1);
}

} // verus!
