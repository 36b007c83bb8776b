//! Rendering and event-dispatch engine for a two-screen handheld console UI,
//! with the state of the save manager built on it.
//!
//! [`render`] resolves cascading style, keeps layout bindings in step with a
//! flex solver, walks the node arena to produce draw commands (with a
//! stereoscopic second pass), classifies raw input into pointer and keyboard
//! events, caches images, and schedules frames. [`app`], [`fsu`],
//! [`resource`] and [`utils`] hold what the save manager's screens decide:
//! selections, paths, file options, title ids.
//!
//! Lengths, scales and depths are integers counting thousandths. Every
//! executable function carries a contract that Verus proves; the few
//! wrappers whose contracts are taken on trust, around the standard library
//! and the QR code generator, say so.

pub mod app;
pub mod c2d;
pub mod constant;
pub mod fsu;
pub mod render;
pub mod resource;
pub mod text;
pub mod utils;
