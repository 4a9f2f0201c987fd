//! Core rules of a fantasy fitness league: round-robin scheduling, game
//! evaluation, season standings and live score aggregation.
//!
//! Identifiers are the 128-bit values of UUIDs, instants are whole seconds
//! since the Unix epoch (UTC), and calendar days are counted from the epoch.

pub mod admin;
pub mod auth;
pub mod calendar;
pub mod evaluation;
pub mod game_evaluator;
pub mod ids;
pub mod ingestion;
pub mod live;
pub mod model;
pub mod round_robin;
pub mod schedule;
pub mod standings;
pub mod sync;
pub mod teams;
