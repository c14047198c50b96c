//! Navigation mode (state machine): every screen is a `Mode` variant, and
//! transitions are driven by user input.

use vstd::prelude::*;
use crate::state::app_state::FormStep;

verus! {

/// What the file browser is being used for.
#[derive(Debug, Clone, Copy, PartialEq, Eq, Structural)]
pub enum BrowserPurpose {
    /// Creating new config — shows existing files + "n" to create new.
    Create,
    /// Editing existing config — select a file to load and modify.
    Edit,
}

/// The screen the application is on.
#[derive(Debug, Clone, Copy, PartialEq, Eq, Structural)]
pub enum Mode {
    Dashboard,
    FileBrowser(BrowserPurpose),
    Form(FormStep),
    ConfirmPopup,
    Quit,
}

} // verus!
