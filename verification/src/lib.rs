//! A media player's decisions, verified: which elements it builds and how it wires them, how
//! video branches come and go, and what it does with each command and each event.
pub mod action;
pub mod message;
pub mod plan;
pub mod procedure;
pub mod text;
pub mod inner;
pub mod player;
pub mod laws;
