//! A bridge between a caller and a native client's statistics and
//! leaderboard service: code translation, handle tokens, one-shot
//! completions, and the shaping of each request and its result.

pub mod codes;
pub mod completion;
pub mod facade;
pub mod token;

