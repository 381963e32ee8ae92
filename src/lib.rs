//! Lossless Ogg Vorbis optimisation behind a C-compatible status code.
//!
//! The library holds the decisions of one optimisation call: how the two
//! path arguments are checked and decoded, the order in which the files are
//! opened, the call into the remuxing engine, and how each failure is
//! flattened into the integer status that crosses the foreign boundary.
//! The host performs the file operations that a [`session::Session`] asks
//! for and reports back how they went.
pub mod engine;
pub mod path;
pub mod session;
pub mod status;
