//! Per-node state derived from attributes: resolved style and layout binding.

pub mod attribute;
pub mod layout_style;
pub mod node_tree;
pub mod rdom_style;
pub mod taffy_layout;
