//! A verified library for authoring DMS configuration files: part-number
//! validation, the JSON schema transformers, the form state and the
//! keyboard-driven controller that decides every screen transition.

pub mod app;
pub mod domain;
pub mod services;
pub mod state;
pub mod ui;
