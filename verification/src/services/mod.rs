//! Where configuration files live.

pub mod fs;
