//! Chain graph and reaction engine for a tether-and-detonate combo mechanic.
//!
//! The library owns the linkage structure built from player clicks
//! (`chain`), the per-category balance guard (`balance`), the reaction
//! sequencer that destroys linked units on a decaying timer while
//! accumulating a combo score (`sequencer`, `delay`, `engine`), and the
//! procedural placement of visual link markers (`layout`). Presentation,
//! input and timing live outside; they drive the engine through plain
//! values and events.

pub mod balance;
pub mod chain;
pub mod delay;
pub mod enemy;
pub mod engine;
pub mod layout;
pub mod score;
pub mod sequencer;
