//! Application state and the `FormStep` enum.

use vstd::prelude::*;
use crate::app::mode::Mode;
use crate::domain::json_value::{Json, JsonValue};
use crate::domain::text::{join2, owned};
use crate::state::form_state::FormState;

verus! {

/// Tracks which form step the user is on.
#[derive(Debug, Clone, Copy, PartialEq, Eq, Structural)]
pub enum FormStep {
    PartNumber,
    /// UCD, CFPGA, DEDI, T-MAMS, programming, card setup, instruction.
    BasicInfo,
    OfflineStages,
    DiagnosticsStages,
    Cards,
    InteractiveQueries,
    Review,
}

/// The position of a step in the wizard, from 0 to 6.
pub open spec fn step_index(s: FormStep) -> nat {
    match s {
        FormStep::PartNumber => 0,
        FormStep::BasicInfo => 1,
        FormStep::OfflineStages => 2,
        FormStep::DiagnosticsStages => 3,
        FormStep::Cards => 4,
        FormStep::InteractiveQueries => 5,
        FormStep::Review => 6,
    }
}

/// The step at position `i`, for `i` from 0 to 6.
pub open spec fn step_at(i: int) -> Option<FormStep> {
    if i == 0 {
        Some(FormStep::PartNumber)
    } else if i == 1 {
        Some(FormStep::BasicInfo)
    } else if i == 2 {
        Some(FormStep::OfflineStages)
    } else if i == 3 {
        Some(FormStep::DiagnosticsStages)
    } else if i == 4 {
        Some(FormStep::Cards)
    } else if i == 5 {
        Some(FormStep::InteractiveQueries)
    } else if i == 6 {
        Some(FormStep::Review)
    } else {
        None
    }
}

/// The number of steps in the wizard.
pub const STEP_COUNT: usize = 7;

impl FormStep {
    /// All steps, in wizard order.
    pub fn all() -> (r: &'static [FormStep])
        ensures
            r@.len() == STEP_COUNT,
            forall|i: int| 0 <= i < STEP_COUNT ==> step_at(i) == Some(#[trigger] r@[i]),
    {
        &[
            FormStep::PartNumber,
            FormStep::BasicInfo,
            FormStep::OfflineStages,
            FormStep::DiagnosticsStages,
            FormStep::Cards,
            FormStep::InteractiveQueries,
            FormStep::Review,
        ]
    }

    /// The position of this step in `all()`.
    pub fn index(self) -> (r: usize)
        ensures
            r == step_index(self),
            step_at(r as int) == Some(self),
    {
        match self {
            FormStep::PartNumber => 0,
            FormStep::BasicInfo => 1,
            FormStep::OfflineStages => 2,
            FormStep::DiagnosticsStages => 3,
            FormStep::Cards => 4,
            FormStep::InteractiveQueries => 5,
            FormStep::Review => 6,
        }
    }

    /// The step at position `i` of `all()`, if there is one.
    pub fn from_index(i: usize) -> (r: Option<Self>)
        ensures
            r == step_at(i as int),
            r is Some <==> i < STEP_COUNT,
    {
        let all = Self::all();
        if i < all.len() {
            Some(all[i])
        } else {
            None
        }
    }

    /// The heading shown for this step.
    pub fn title(self) -> (r: &'static str)
        ensures
            r@ == step_title(self),
    {
        match self {
            FormStep::PartNumber => "Part Number",
            FormStep::BasicInfo => "Basic Info & Hardware Config",
            FormStep::OfflineStages => "Offline Stages",
            FormStep::DiagnosticsStages => "Diagnostics Stages",
            FormStep::Cards => "Cards",
            FormStep::InteractiveQueries => "Interactive Queries",
            FormStep::Review => "Review & Save",
        }
    }
}

/// The heading of each step.
pub open spec fn step_title(s: FormStep) -> Seq<char> {
    match s {
        FormStep::PartNumber => "Part Number"@,
        FormStep::BasicInfo => "Basic Info & Hardware Config"@,
        FormStep::OfflineStages => "Offline Stages"@,
        FormStep::DiagnosticsStages => "Diagnostics Stages"@,
        FormStep::Cards => "Cards"@,
        FormStep::InteractiveQueries => "Interactive Queries"@,
        FormStep::Review => "Review & Save"@,
    }
}

/// Positions and steps correspond one to one: the step at the position of
/// `s` is `s`, and the position of the step at `i` is `i`.
pub proof fn law_index_round_trip(s: FormStep, i: int)
    ensures
        step_at(step_index(s) as int) == Some(s),
        0 <= i < STEP_COUNT ==> step_at(i) is Some && step_index(step_at(i)->0) == i,
        step_at(i) is Some <==> 0 <= i < STEP_COUNT,
{
}

/// The top-level application state.
pub struct AppState {
    /// Current navigation mode.
    pub mode: Mode,
    /// Form state.
    pub form: FormState,
    /// Working JSON config.
    pub config: JsonValue,
    /// Status/error message.
    pub status_message: Option<String>,
    /// Editing an existing file?
    pub is_editing: bool,
    /// File path being edited.
    pub editing_file_path: Option<String>,
}

/// The status text an error message is shown with.
pub open spec fn error_text(msg: Seq<char>) -> Seq<char> {
    "ERROR: "@ + msg
}

impl AppState {
    /// The status message holds exactly `text`.
    pub open spec fn status_is(self, text: Seq<char>) -> bool {
        self.status_message matches Some(m) && m@ == text
    }

    /// On the dashboard, with a fresh form, a `null` config and no status.
    pub fn new() -> (r: Self)
        ensures
            r.mode == Mode::Dashboard,
            r.form.is_fresh(),
            r.config.model() == Json::Null,
            r.status_message is None,
            !r.is_editing,
            r.editing_file_path is None,
    {
        Self {
            mode: Mode::Dashboard,
            form: FormState::new(),
            config: JsonValue::Null,
            status_message: None,
            is_editing: false,
            editing_file_path: None,
        }
    }

    pub fn clear_status(&mut self)
        ensures
            *final(self) == (AppState { status_message: None, ..*old(self) }),
    {
        self.status_message = None;
    }

    /// Shows `msg` as an error: the status becomes `ERROR: <msg>`.
    pub fn set_error(&mut self, msg: &str)
        ensures
            *final(self) == (AppState { status_message: final(self).status_message, ..*old(self) }),
            final(self).status_is(error_text(msg@)),
    {
        self.status_message = Some(join2("ERROR: ", msg));
    }

    /// Shows `msg` as information.
    pub fn set_info(&mut self, msg: &str)
        ensures
            *final(self) == (AppState { status_message: final(self).status_message, ..*old(self) }),
            final(self).status_is(msg@),
    {
        self.status_message = Some(owned(msg));
    }

    /// Starts a new configuration: fresh form, `null` config, not editing,
    /// no status, on the part-number step.
    pub fn reset_for_new(&mut self)
        ensures
            final(self).form.is_fresh(),
            final(self).config.model() == Json::Null,
            !final(self).is_editing,
            final(self).editing_file_path is None,
            final(self).status_message is None,
            final(self).mode == Mode::Form(FormStep::PartNumber),
    {
        self.form = FormState::new();
        self.config = JsonValue::Null;
        self.is_editing = false;
        self.editing_file_path = None;
        self.status_message = None;
        self.mode = Mode::Form(FormStep::PartNumber);
    }

    /// Starts editing a loaded configuration: the form is read from it, the
    /// file path is kept, no status, on the basic-info step.
    pub fn reset_for_edit(&mut self, config: JsonValue, file_path: String)
        ensures
            final(self).form.loaded_from(config.model()),
            final(self).config == config,
            final(self).is_editing,
            final(self).editing_file_path == Some(file_path),
            final(self).status_message is None,
            final(self).mode == Mode::Form(FormStep::BasicInfo),
    {
        self.form = FormState::from_config(&config);
        self.config = config;
        self.is_editing = true;
        self.editing_file_path = Some(file_path);
        self.status_message = None;
        self.mode = Mode::Form(FormStep::BasicInfo);
    }
}

} // verus!
