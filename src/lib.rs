//! Session engine of a two-player real-time pong server: the registry of
//! games, each game's lifecycle and player slots, the decoding of client
//! events and the decisions taken after every simulation step.

pub mod slot;
pub mod game;
pub mod tick;
pub mod store;
pub mod protocol;
pub mod laws;
