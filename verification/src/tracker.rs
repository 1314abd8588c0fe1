//! Orientation tracking: the face table and the state machine that turns
//! raw face-id notifications into completed intervals.

pub mod config;
pub mod reader;
