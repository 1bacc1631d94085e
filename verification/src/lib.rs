//! Chicken Coop's rules: the board's row map and tile maps, the lane table,
//! the hop, home-row and hazard rules, and the match's state machine.

pub mod board;
pub mod rules;
pub mod lanes;
pub mod game;
pub mod menu;
pub mod poses;
pub mod layout;
