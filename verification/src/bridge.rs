//! Between a store and the engine: copying the values of the engine
//! into a store, and making the values of a store in the engine.

pub mod explore;
pub mod materialize;

pub use explore::Explorer;
pub use materialize::{Materializer, Slot};
