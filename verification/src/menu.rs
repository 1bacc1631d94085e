//! The menu screens' choices: the title rows, the mode menu, and the
//! achievements page. Where the cursor is and whether a key or a click
//! confirmed it is read by the caller; what a confirmed row does is decided
//! here. Every player-facing string is a locale key.

use vstd::prelude::*;

use crate::game::{spec_started, FroggerGame, GameMode, GameState};
use crate::rules::ChaosMode;

verus! {

/// A row on the title screen.
#[derive(Debug, Clone, Copy, PartialEq, Eq, Structural)]
pub enum TitleItem {
    Single,
    Coop,
    Achievements,
    Language,
    Exit,
}

/// The title rows of a build that shows the achievements page: single, co-op,
/// achievements, language, exit.
pub open spec fn spec_title_items() -> Seq<TitleItem> {
    seq![
        TitleItem::Single,
        TitleItem::Coop,
        TitleItem::Achievements,
        TitleItem::Language,
        TitleItem::Exit,
    ]
}

/// The title rows of a build whose site shows the achievements board instead:
/// the same without the achievements row.
pub open spec fn spec_title_items_without_achievements() -> Seq<TitleItem> {
    seq![TitleItem::Single, TitleItem::Coop, TitleItem::Language, TitleItem::Exit]
}

pub fn title_items(with_achievements: bool) -> (items: Vec<TitleItem>)
    ensures
        items@ == (if with_achievements {
            spec_title_items()
        } else {
            spec_title_items_without_achievements()
        }),
{
    let items = if with_achievements {
        vec![
            TitleItem::Single,
            TitleItem::Coop,
            TitleItem::Achievements,
            TitleItem::Language,
            TitleItem::Exit,
        ]
    } else {
        vec![TitleItem::Single, TitleItem::Coop, TitleItem::Language, TitleItem::Exit]
    };
    assert(items@ =~= (if with_achievements {
        spec_title_items()
    } else {
        spec_title_items_without_achievements()
    }));
    items
}

/// The selection index of `item` on a title menu (0 for a row the menu does
/// not show).
pub fn title_index(items: &Vec<TitleItem>, item: TitleItem) -> (index: u8)
    requires
        items@.len() <= 256,
    ensures
        items@.contains(item) ==> index < items@.len() && items@[index as int] == item && forall|
            j: int,
        |
            0 <= j < index ==> items@[j] != item,
        !items@.contains(item) ==> index == 0,
{
    let mut i: usize = 0;
    while i < items.len()
        invariant
            i <= items@.len() <= 256,
            forall|j: int| 0 <= j < i ==> items@[j] != item,
        decreases items@.len() - i,
    {
        if items[i] == item {
            return i as u8;
        }
        i += 1;
    }
    0
}

/// What a confirmed title row asks of the caller beyond the screen change.
#[derive(Debug, Clone, Copy, PartialEq, Eq, Structural)]
pub enum TitleAction {
    /// Nothing: no row confirmed, or the row only changed the screen.
    Stay,
    /// Cycle the locale and re-register the achievements under it.
    CycleLocale,
    /// Close the game.
    Exit,
}

/// Locale key for a chaos mode's menu label.
pub fn chaos_label_key(mode: ChaosMode) -> (key: &'static str)
    ensures
        key@ == (match mode {
            ChaosMode::Normal => "chaos.normal"@,
            ChaosMode::Insane => "chaos.insane"@,
            ChaosMode::Ridiculous => "chaos.ridiculous"@,
            ChaosMode::Insiculous => "chaos.insiculous"@,
        }),
{
    match mode {
        ChaosMode::Normal => "chaos.normal",
        ChaosMode::Insane => "chaos.insane",
        ChaosMode::Ridiculous => "chaos.ridiculous",
        ChaosMode::Insiculous => "chaos.insiculous",
    }
}

/// Locale key for the one-line description of each chaos mode.
pub fn mode_hint_key(mode: ChaosMode) -> (key: &'static str)
    ensures
        key@ == (match mode {
            ChaosMode::Normal => "chaos.normal.desc"@,
            ChaosMode::Insane => "chaos.insane.desc"@,
            ChaosMode::Ridiculous => "chaos.ridiculous.desc"@,
            ChaosMode::Insiculous => "chaos.insiculous.desc"@,
        }),
{
    match mode {
        ChaosMode::Normal => "chaos.normal.desc",
        ChaosMode::Insane => "chaos.insane.desc",
        ChaosMode::Ridiculous => "chaos.ridiculous.desc",
        ChaosMode::Insiculous => "chaos.insiculous.desc",
    }
}

/// What a mode-menu frame asks of the caller.
#[derive(Debug, Clone, Copy, PartialEq, Eq, Structural)]
pub enum ModeAction {
    /// Still choosing.
    Stay,
    /// Back to the title screen.
    Back,
    /// A match started in the chosen mode.
    Start,
}

impl FroggerGame {
    /// The title screen this frame, the cursor on row `selection`: single and
    /// co-op pick the player count and open the mode menu, achievements opens
    /// the achievements page, language asks for the next locale, exit asks to
    /// close. Without a confirm the cursor just moves.
    pub fn select_title(&mut self, items: &Vec<TitleItem>, selection: u8, confirm: bool) -> (action: TitleAction)
        requires
            items@.len() > 0,
        ensures
            old(self).wf() ==> final(self).wf(),
            ({
                let item = items@[(selection as int) % (items@.len() as int)];
                let stay = FroggerGame { state: GameState::TitleScreen { selection }, ..*old(self) };
                &&& !confirm ==> action == TitleAction::Stay && *final(self) == stay
                &&& confirm && item == TitleItem::Single ==> action == TitleAction::Stay
                    && *final(self) == (FroggerGame {
                    state: GameState::ModeSelect { selection: 0 },
                    mode: GameMode::SinglePlayer,
                    ..*old(self)
                })
                &&& confirm && item == TitleItem::Coop ==> action == TitleAction::Stay
                    && *final(self) == (FroggerGame {
                    state: GameState::ModeSelect { selection: 0 },
                    mode: GameMode::TwoPlayerCoop,
                    ..*old(self)
                })
                &&& confirm && item == TitleItem::Achievements ==> action == TitleAction::Stay
                    && *final(self) == (FroggerGame { state: GameState::Achievements, ..*old(self) })
                &&& confirm && item == TitleItem::Language ==> action == TitleAction::CycleLocale
                    && *final(self) == stay
                &&& confirm && item == TitleItem::Exit ==> action == TitleAction::Exit
                    && *final(self) == stay
            }),
    {
        self.state = GameState::TitleScreen { selection };
        if !confirm {
            return TitleAction::Stay;
        }
        let item = items[(selection as usize) % items.len()];
        match item {
            TitleItem::Single => {
                self.mode = GameMode::SinglePlayer;
                self.state = GameState::ModeSelect { selection: 0 };
                TitleAction::Stay
            },
            TitleItem::Coop => {
                self.mode = GameMode::TwoPlayerCoop;
                self.state = GameState::ModeSelect { selection: 0 };
                TitleAction::Stay
            },
            TitleItem::Achievements => {
                self.state = GameState::Achievements;
                TitleAction::Stay
            },
            TitleItem::Language => TitleAction::CycleLocale,
            TitleItem::Exit => TitleAction::Exit,
        }
    }

    /// The achievements page: a back, a confirm or a click dismisses it to
    /// the title screen with the cursor on the achievements row.
    pub fn leave_achievements(&mut self, items: &Vec<TitleItem>, dismiss: bool)
        requires
            items@.len() <= 256,
        ensures
            old(self).wf() ==> final(self).wf(),
            dismiss ==> (final(self).state matches GameState::TitleScreen { selection } && (
            items@.contains(TitleItem::Achievements) ==> selection < items@.len()
                && items@[selection as int] == TitleItem::Achievements && forall|j: int|
                0 <= j < selection ==> items@[j] != TitleItem::Achievements) && (!items@.contains(
                TitleItem::Achievements,
            ) ==> selection == 0)),
            !dismiss ==> *final(self) == *old(self),
            *final(self) == (FroggerGame { state: final(self).state, ..*old(self) }),
    {
        if dismiss {
            let selection = title_index(items, TitleItem::Achievements);
            self.state = GameState::TitleScreen { selection };
        }
    }

    /// The mode menu this frame, the cursor on row `selection`: back returns
    /// to the title screen; a confirm takes the mode on that row and starts
    /// the match in it.
    pub fn select_mode(&mut self, selection: u8, back: bool, confirm: bool) -> (action: ModeAction)
        requires
            !back && confirm ==> selection < 4,
        ensures
            old(self).wf() ==> final(self).wf(),
            back ==> action == ModeAction::Back && *final(self) == (FroggerGame {
                state: GameState::TitleScreen { selection: 0 },
                ..*old(self)
            }),
            !back && confirm ==> action == ModeAction::Start && final(self).chaos_mode
                == ChaosMode::spec_at(selection as int) && spec_started(
                FroggerGame { chaos_mode: ChaosMode::spec_at(selection as int), ..*old(self) },
                *final(self),
            ),
            !back && !confirm ==> action == ModeAction::Stay && *final(self) == (FroggerGame {
                state: GameState::ModeSelect { selection },
                ..*old(self)
            }),
    {
        self.state = GameState::ModeSelect { selection };
        if back {
            self.state = GameState::TitleScreen { selection: 0 };
            ModeAction::Back
        } else if confirm {
            let modes = ChaosMode::all();
            self.chaos_mode = modes[selection as usize];
            self.start_game();
            ModeAction::Start
        } else {
            ModeAction::Stay
        }
    }
}

} // verus!
