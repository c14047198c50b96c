//! What each screen shows, worked out from the application state: the text
//! of every line and which line is highlighted. Drawing it on a terminal is
//! left to the front end.

pub mod dashboard;
pub mod file_browser;
pub mod popup;
pub mod stepper;
