//! A handle layer for a transactional key-value storage engine.
//!
//! The layer decides; it never touches the engine itself. Every operation
//! on a handle yields a [`engine::Request`] that says exactly what the engine
//! is to be asked, and the engine's reply is handed back to the layer, which
//! turns it into the caller's result and the handle's next lifecycle state.

pub mod error;
pub mod engine;
pub mod buffer;
pub mod options;
pub mod outcome;
pub mod database;
pub mod transaction;
pub mod iterator;
pub mod visibility;
