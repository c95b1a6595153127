//! Decision and reaction resolution for four-seat riichi mahjong agents: seat-limited views of a
//! round, composite strategies with a fixed priority, the always-legal fallback discard, and the
//! per-turn orchestration decisions that drive a rules authority.

pub mod model;
pub mod fallback;
pub mod observation;
pub mod strategies;
pub mod agent;
pub mod turn;
pub mod utils;
pub mod shorthand;
