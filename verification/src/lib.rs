//! Verified core of a drag-and-drop toolkit: identities, drop-effect
//! negotiation, the pointer gesture machine, board and list models, the
//! drag lifecycle with exactly-once source completion, the zone registry's
//! structure, keyboard navigation, and the announcement phrases.

pub mod activation;
pub mod board;
pub mod collision;
pub mod effects;
pub mod ids;
pub mod keyboard;
pub mod keys;
pub mod lifecycle;
pub mod machine;
pub mod model;
pub mod monitor;
pub mod navigation;
pub mod phrases;
pub mod reading_order;
pub mod registry;
pub mod scroll_clock;
pub mod settle;
pub mod styles;
pub mod targeting;
pub mod text;
pub mod types;
pub mod world;
