//! Core library of a terminal client that searches a video platform, browses
//! the results, and launches playback in an external player.
//!
//! The library holds the logic: the result records and how they are built
//! from raw listing entries (`backend`), the `minutes:seconds` duration
//! formatter (`duration`), the interactive state machine that reacts to
//! keyboard events (`state`), and proofs of its invariants (`laws`).
//! Network fetching, the player process, and the terminal rendering live in
//! the surrounding application, which feeds this library plain values.

pub mod backend;
pub mod duration;
pub mod laws;
pub mod state;
pub mod text;
