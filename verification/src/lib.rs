//! Siege! — the verified core of a 2D artillery duel: the deterministic
//! PCG32 generator, the in-memory WAV encoder, the match phase machine,
//! the defender AI's zeroing and correction rules, the particle layering
//! rule, bounded histories, and the integer hash that lays out the castle
//! decorations.

pub mod ai;
pub mod audio;
pub mod fallers;
pub mod game;
pub mod history;
pub mod particles;
pub mod rng;
pub mod world;
