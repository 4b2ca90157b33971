//! Interactive to-do list engine: an ordered collection with a selection
//! cursor, the key-driven state machine that mutates it, and the frame
//! description handed to a display sink. Terminal handling, argument parsing
//! and file persistence live outside this crate.

pub mod controller;
pub mod render;
pub mod todo;
pub mod utils;
pub mod workspace;
