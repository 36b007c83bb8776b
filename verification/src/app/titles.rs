//! The title screens' state.

pub mod menu;
pub mod title_selected;
