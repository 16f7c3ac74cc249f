//! Session orchestration for a terminal client of a home-audio control server.
//!
//! The crate holds the decisions of the client as verified functions on plain
//! values: a registry of zones, a play queue built from snapshots and diffs,
//! grouping and presets, browse navigation, queue modes and the state of the
//! user interface. Each handler takes a state and an event and returns the
//! requests and notifications that follow from it; performing them is left to
//! the caller.

pub mod app;
pub mod io;
pub mod queue;
pub mod seqs;
pub mod sort;
pub mod strmap;
pub mod text;
