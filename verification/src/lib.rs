//! Analysis of recorded Team Fortress 2 matches: a stream of decoded messages
//! is folded into scoreboards, playtime totals and a timeline of highlights.
//!
//! [`analyser::GameDetailsAnalyser`] takes in the records of a recording one
//! by one. What it does to its state is written down in [`state`] as plain
//! functions on values, and each of its methods is proved to do exactly that.
//! [`laws`] holds what follows for every stream. [`demo`] and [`order`] look
//! after lists of recordings.

pub mod analyser;
pub mod damage_flag;
pub mod demo;
pub mod floats;
pub mod game;
pub mod highlight;
pub mod kill;
pub mod laws;
pub mod message;
pub mod order;
pub mod player;
pub mod props;
pub mod roster;
pub mod scoreboard;
pub mod search;
pub mod state;
pub mod steam;
pub mod text;
