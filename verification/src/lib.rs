//! Game-logic core for a small wizard-and-hat platformer: fixed-point
//! vectors, tile-grid collision, axis-separated entity motion, the hat
//! throw/recall state machine, and frame-counted music sequencing.
//!
//! Everything here is pure state-to-state logic, verified end to end.
//! The hardware surfaces the game runs against (sprite registers, button
//! polling, the audio mixer, the vertical-blank clock) live outside this
//! crate; they hand plain values in and take plain values back.

pub mod fixed;
pub mod level;
pub mod entity;
pub mod player;
pub mod playing;
pub mod sfx;
