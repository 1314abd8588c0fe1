//! Bridge between an eight-sided orientation tracker and remote
//! time-tracking services.
//!
//! The library holds the pure core of the system: the face table and the
//! orientation state machine that turns raw face-id notifications into
//! completed tracking intervals, the typed configuration document, and the
//! per-vendor request construction and setup logic.  Device I/O, terminal
//! prompts and the HTTP calls themselves live outside the library.

pub mod config;
pub mod handler;
pub mod text;
pub mod tracker;
