//! A browser rock-paper-scissors game, modelled as a verified state machine.
//!
//! The game rules, the display payloads and the controller's transitions are
//! verified here; the host runtime (DOM queries, event listeners, timers and
//! the random draw) applies the effect lists this library produces.

pub mod controller;
pub mod display;
pub mod effects;
pub mod rules;
