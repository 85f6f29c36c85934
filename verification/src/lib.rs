//! Verified editing and board-annotation logic of the Ryusei Go shell.
use vstd::prelude::*;

pub mod text;
pub mod text_input;
pub mod board;
pub mod properties;
pub mod markup;
pub mod layout;
pub mod icons;
pub mod shell;
pub mod move_numbers;
pub mod ownership;
pub mod preview;
pub mod tab_title;
pub mod engine;

verus! {

} // verus!
