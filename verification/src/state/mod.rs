//! All application state types.

pub mod app_state;
pub mod file_state;
pub mod form_state;
