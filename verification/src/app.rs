//! State of the application's screens that does not depend on how they are
//! drawn.

pub mod cloud;
pub mod list_display_status;
pub mod list_wrap_display_status;
pub mod titles;
