//! The time controller: how long a search may take, and whether that time
//! is over.

pub mod time_controller;
pub mod time_mode;
