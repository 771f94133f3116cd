//! What holds of the operations together.
pub mod branches;
pub mod building;
pub mod events;
pub mod operations;
pub mod playback;
pub mod procedures;
pub mod wiring;
