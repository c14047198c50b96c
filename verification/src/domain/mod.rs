//! Pure logic: text helpers, the JSON value model, validation and the
//! transformers between flat form fields and JSON.

pub mod text;
pub mod validators;
pub mod json_value;
pub mod transformers;
