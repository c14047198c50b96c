//! The controller, its navigation modes and the rules it follows.

pub mod app;
pub mod mode;
pub mod rules;
pub mod laws;
