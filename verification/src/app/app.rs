//! The controller: owns all state and decides, for every key, the next state
//! and the outside work (listing, loading or saving files) to be done.
//!
//! Flow: key → `handle_key` → state changes and an `Action` → the caller
//! performs the action and reports its outcome back (`files_listed`,
//! `config_loaded`, `config_saved`, `query_value_rendered`).

use vstd::prelude::*;
use crate::app::mode::{BrowserPurpose, Mode};
use crate::app::rules::{
    advanced, basic_field, basic_info_rule, basic_synced, browser_rule, card_field, config_became,
    dashboard_rule, diag_field, form_rule, is_list_step, key_rule, list_of, list_synced,
    next_selection, number_or_zero, offline_committed, offline_field, offline_list_rule,
    offline_popup_rule, part_number_rule, prev_selection, query_field, query_value_text,
    review_rule, selected_of, set_form, diag_list_rule, diag_popup_rule, diag_committed,
    cards_list_rule, card_popup_rule, card_committed, queries_list_rule, query_popup_rule,
    query_committed, confirm_rule, all_synced, set_mode, list_common_rule, with_list_changed,
    synced_then, set_status, set_config, typed_clearing, popped, testcase_committed, testcase_field, testcase_items,
    testcase_label, testcase_popup_rule, went_back, with_message, with_selected,
};
use crate::domain::json_value::{Json, JsonNumber, JsonValue};
use crate::domain::text::{i64_to_text, is_blank_str, owned, parse_u64, u64_to_text};
use crate::domain::transformers::{
    build_card, build_card_setup, build_cfpga, build_dedi, build_diagnostics_stage,
    build_interactive_query, build_offline_stage, build_programming_details, build_testcase,
    build_tmams, build_ucd, default_template, extract_card, extract_diagnostics_stage,
    extract_interactive_query, extract_offline_stage, extract_testcase, steps_to_string,
    string_to_steps,
};
use crate::domain::validators::validate_part_number;
use crate::state::app_state::{error_text, AppState, FormStep};
use crate::state::file_state::FileState;
use crate::state::form_state::{items_model, values_model, FormState, ListItem, TextField};

verus! {

/// Number of dashboard menu items.
pub const DASHBOARD_ITEM_COUNT: usize = 2;

/// Number of Basic Info fields (for Tab cycling).
pub const BASIC_INFO_FIELD_COUNT: usize = 16;

/// A key press, as the controller sees it.
#[derive(Debug, Clone, Copy, PartialEq, Eq, Structural)]
pub enum Key {
    Up,
    Down,
    Enter,
    Esc,
    Tab,
    Backspace,
    Delete,
    Char(char),
    /// Any other key; it is ignored everywhere.
    Other,
}

/// Outside work the controller asks for after a key.
pub enum Action {
    Nothing,
    /// List the configuration files of `info_dir`; report with `files_listed`.
    ListFiles,
    /// Load the configuration file at this path; report with `config_loaded`.
    LoadConfig(String),
    /// Save `config` as the file of `part_number` in `info_dir`; report with
    /// `config_saved`.
    SaveConfig { part_number: String, config: JsonValue },
    /// Render this value as JSON text; report with `query_value_rendered`.
    RenderQueryValue(JsonValue),
}

pub struct App {
    pub state: AppState,
    pub file_state: FileState,
    pub info_dir: String,
    pub dashboard_selected: usize,
    pub should_quit: bool,
}

/// A selection is either absent or points into a list of `len` items.
pub open spec fn selection_ok(sel: Option<usize>, len: nat) -> bool {
    sel matches Some(i) ==> i < len
}

/// The position `min(i, 2)` of the testcase popup.
fn testcase_field_at(i: usize) -> (r: TextField)
    ensures
        r == testcase_field(i),
{
    if i == 0 {
        TextField::TcId
    } else if i == 1 {
        TextField::TcName
    } else {
        TextField::TcPosition
    }
}

fn offline_field_at(i: usize) -> (r: TextField)
    ensures
        r == offline_field(i),
{
    if i == 0 {
        TextField::OsName
    } else if i == 1 {
        TextField::OsStageOrder
    } else if i == 2 {
        TextField::OsTool
    } else {
        TextField::OsSteps
    }
}

fn diag_field_at(i: usize) -> (r: TextField)
    ensures
        r == diag_field(i),
{
    if i == 0 {
        TextField::DsName
    } else if i == 1 {
        TextField::DsJson
    } else if i == 2 {
        TextField::DsSteps
    } else {
        TextField::DsStageOrder
    }
}

fn card_field_at(i: usize) -> (r: TextField)
    ensures
        r == card_field(i),
{
    if i == 0 {
        TextField::CardName
    } else if i == 1 {
        TextField::CardPartNumber
    } else if i == 2 {
        TextField::CardType
    } else if i == 3 {
        TextField::CardParameters
    } else if i == 4 {
        TextField::CardXml
    } else if i == 5 {
        TextField::CardTejDmsXml
    } else {
        TextField::CardEepromReadPos
    }
}

fn query_field_at(i: usize) -> (r: TextField)
    ensures
        r == query_field(i),
{
    if i == 0 {
        TextField::IqKey
    } else if i == 1 {
        TextField::IqValue
    } else if i == 2 {
        TextField::IqMessage
    } else {
        TextField::IqId
    }
}

/// The number a field holds, or 0 (`parse().unwrap_or(0)`).
fn number_or_zero_of(s: &String) -> (r: u64)
    ensures
        r == number_or_zero(s@),
{
    match parse_u64(s.as_str()) {
        Some(n) => n,
        None => 0,
    }
}

/// Copies of the values of a list.
fn list_values(items: &Vec<ListItem>) -> (r: JsonValue)
    ensures
        r.model() == Json::Array(values_model(items@)),
{
    let mut out: Vec<JsonValue> = Vec::new();
    let mut i: usize = 0;
    while i < items.len()
        invariant
            i <= items@.len(),
            out@.len() == i,
            forall|j: int| 0 <= j < i ==> (#[trigger] out@[j]).model() == items@[j].value.model(),
        decreases items.len() - i,
    {
        out.push(items[i].value.deep_copy());
        i = i + 1;
    }
    let r = JsonValue::Array(out);
    assert(r.model()->Array_0 =~= values_model(items@));
    r
}

/// `<position>: <name> (id=<id>)`.
fn testcase_label_text(position: u64, name: &str, id: u64) -> (r: String)
    ensures
        r@ == testcase_label(position, name@, id),
{
    let mut r = u64_to_text(position);
    r.append(": ");
    r.append(name);
    r.append(" (id=");
    let id_text = u64_to_text(id);
    r.append(id_text.as_str());
    r.append(")");
    r
}

/// The testcase rows of a stage's `Testcases` value.
fn testcase_rows(tcs: &JsonValue) -> (r: Vec<ListItem>)
    ensures
        items_model(r@) == testcase_items(tcs.model()),
{
    let mut out: Vec<ListItem> = Vec::new();
    match tcs.as_array() {
        Some(a) => {
            let ghost items = Seq::new(a@.len(), |i: int| a@[i].model());
            let mut i: usize = 0;
            while i < a.len()
                invariant
                    i <= a@.len(),
                    items == Seq::new(a@.len(), |i: int| a@[i].model()),
                    out@.len() == i,
                    forall|j: int|
                        0 <= j < i ==> (#[trigger] out@[j]).name@ == testcase_label(
                            crate::domain::transformers::num_at(items[j], "testcasePosition"@),
                            crate::domain::transformers::text_at(items[j], "testcaseName"@),
                            crate::domain::transformers::num_at(items[j], "testcaseId"@),
                        ) && out@[j].value.model() == items[j],
                decreases a.len() - i,
            {
                let (id, name, pos) = extract_testcase(&a[i]);
                let label = testcase_label_text(pos, name.as_str(), id);
                out.push(ListItem::new(label, a[i].deep_copy()));
                i = i + 1;
            }
            assert(items_model(out@) =~= testcase_items(tcs.model()));
        },
        None => {
            assert(items_model(out@) =~= testcase_items(tcs.model()));
        },
    }
    out
}

/// The text a query value is edited as, when it has one here.
fn value_text(v: &JsonValue) -> (r: Option<String>)
    ensures
        match r {
            Some(t) => query_value_text(v.model()) == Some(t@),
            None => query_value_text(v.model()) is None,
        },
{
    match v {
        JsonValue::Null => Some(String::new()),
        JsonValue::Number(JsonNumber::Unsigned(u)) => Some(u64_to_text(*u)),
        JsonValue::Number(JsonNumber::Negative(i)) => Some(i64_to_text(*i)),
        JsonValue::Number(JsonNumber::Decimal(t)) => Some(t.clone()),
        JsonValue::Str(s) => Some(s.clone()),
        JsonValue::Bool(b) => Some(
            if *b {
                owned("true")
            } else {
                owned("false")
            },
        ),
        _ => None,
    }
}

impl App {
    /// The invariant the controller keeps: every list selection points into
    /// its list, the file selection into the file list, and the focus is
    /// one of the basic-info positions.
    pub open spec fn wf(self) -> bool {
        let f = self.state.form;
        &&& self.file_state.selection_in_list()
        &&& f.focused_field < BASIC_INFO_FIELD_COUNT
        &&& selection_ok(f.offline_stages_selected, f.offline_stages@.len())
        &&& selection_ok(f.os_testcases_selected, f.os_testcases@.len())
        &&& selection_ok(f.diagnostics_stages_selected, f.diagnostics_stages@.len())
        &&& selection_ok(f.cards_selected, f.cards@.len())
        &&& selection_ok(f.queries_selected, f.interactive_queries@.len())
    }

    /// A controller on the dashboard, with no files listed yet; `info_dir`
    /// is the folder of configuration files.
    pub fn new(info_dir: String) -> (r: Self)
        ensures
            r.state.mode == Mode::Dashboard,
            r.state.form.is_fresh(),
            r.state.config.model() == Json::Null,
            r.state.status_message is None,
            !r.state.is_editing,
            r.state.editing_file_path is None,
            r.file_state.files@.len() == 0,
            r.file_state.selected == 0,
            r.info_dir == info_dir,
            r.dashboard_selected == 0,
            !r.should_quit,
            r.wf(),
    {
        Self {
            state: AppState::new(),
            file_state: FileState::new(),
            info_dir,
            dashboard_selected: 0,
            should_quit: false,
        }
    }

    /// Handles one key press.
    pub fn handle_key(&mut self, key: Key) -> (r: Action)
        requires
            old(self).wf(),
        ensures
            key_rule(*old(self), *final(self), key, r),
            final(self).wf(),
    {
        match self.state.mode {
            Mode::Dashboard => self.handle_dashboard_key(key),
            Mode::FileBrowser(purpose) => self.handle_file_browser_key(key, purpose),
            Mode::Form(step) => self.handle_form_key(key, step),
            Mode::ConfirmPopup => self.handle_confirm_popup_key(key),
            Mode::Quit => {
                self.should_quit = true;
                Action::Nothing
            },
        }
    }

    // ============================================================
    //  Dashboard
    // ============================================================

    fn handle_dashboard_key(&mut self, key: Key) -> (r: Action)
        requires
            old(self).wf(),
        ensures
            dashboard_rule(*old(self), *final(self), key, r),
            final(self).wf(),
    {
        match key {
            Key::Up | Key::Char('k') => {
                if self.dashboard_selected > 0 {
                    self.dashboard_selected = self.dashboard_selected - 1;
                }
                Action::Nothing
            },
            Key::Down | Key::Char('j') => {
                if self.dashboard_selected < DASHBOARD_ITEM_COUNT - 1 {
                    self.dashboard_selected = self.dashboard_selected + 1;
                }
                Action::Nothing
            },
            Key::Enter => {
                if self.dashboard_selected == 0 {
                    self.state.mode = Mode::FileBrowser(BrowserPurpose::Create);
                    Action::ListFiles
                } else if self.dashboard_selected == 1 {
                    self.state.mode = Mode::FileBrowser(BrowserPurpose::Edit);
                    Action::ListFiles
                } else {
                    Action::Nothing
                }
            },
            Key::Char('q') | Key::Esc => {
                self.state.mode = Mode::Quit;
                self.should_quit = true;
                Action::Nothing
            },
            _ => Action::Nothing,
        }
    }

    /// Takes the outcome of listing the configuration files: the list
    /// replaces the old one with the first file selected, or the error is
    /// shown.
    pub fn files_listed(&mut self, result: Result<Vec<(String, String)>, String>)
        requires
            old(self).wf(),
        ensures
            match result {
                Ok(files) => *final(self) == App {
                    file_state: FileState { files: files, selected: 0 },
                    state: AppState { status_message: None, ..old(self).state },
                    ..*old(self)
                },
                Err(e) => with_message(*final(self), *old(self), error_text(e@)),
            },
            final(self).wf(),
    {
        match result {
            Ok(files) => {
                self.file_state.files = files;
                self.file_state.selected = 0;
                self.state.clear_status();
            },
            Err(e) => self.state.set_error(e.as_str()),
        }
    }

    // ============================================================
    //  File Browser
    // ============================================================

    fn handle_file_browser_key(&mut self, key: Key, purpose: BrowserPurpose) -> (r: Action)
        requires
            old(self).wf(),
        ensures
            browser_rule(*old(self), *final(self), key, purpose, r),
            final(self).wf(),
    {
        match key {
            Key::Up | Key::Char('k') => {
                self.file_state.select_prev();
                Action::Nothing
            },
            Key::Down | Key::Char('j') => {
                // The length of the list bounds the selection below `usize::MAX`.
                let _ = self.file_state.files.len();
                self.file_state.select_next();
                Action::Nothing
            },
            Key::Enter => {
                // Both purposes open the selected file: to continue or to modify it.
                match self.file_state.selected_file() {
                    Some(entry) => Action::LoadConfig(entry.1.clone()),
                    None => Action::Nothing,
                }
            },
            Key::Char('n') => {
                // Only when creating: start a new config from scratch.
                if purpose == BrowserPurpose::Create {
                    self.state.reset_for_new();
                }
                Action::Nothing
            },
            Key::Esc => {
                self.state.mode = Mode::Dashboard;
                Action::Nothing
            },
            _ => Action::Nothing,
        }
    }

    /// Takes the outcome of loading the configuration at `path`: the form is
    /// read from it and editing starts, or the error is shown.
    pub fn config_loaded(&mut self, result: Result<JsonValue, String>, path: String)
        requires
            old(self).wf(),
        ensures
            match result {
                Ok(config) => {
                    &&& *final(self) == App { state: final(self).state, ..*old(self) }
                    &&& final(self).state.form.loaded_from(config.model())
                    &&& final(self).state.config == config
                    &&& final(self).state.is_editing
                    &&& final(self).state.editing_file_path == Some(path)
                    &&& final(self).state.status_message is None
                    &&& final(self).state.mode == Mode::Form(FormStep::BasicInfo)
                },
                Err(e) => with_message(*final(self), *old(self), error_text(e@)),
            },
            final(self).wf(),
    {
        match result {
            Ok(config) => self.state.reset_for_edit(config, path),
            Err(e) => self.state.set_error(e.as_str()),
        }
    }

    // ============================================================
    //  Form dispatch
    // ============================================================

    fn handle_form_key(&mut self, key: Key, step: FormStep) -> (r: Action)
        requires
            old(self).wf(),
        ensures
            form_rule(*old(self), *final(self), key, step, r),
            final(self).wf(),
    {
        // Testcase popup (nested inside offline-stage editing)
        if self.state.form.os_testcase_editing {
            self.handle_testcase_popup_key(key);
            return Action::Nothing;
        }
        // Offline-stage popup
        if self.state.form.offline_stage_editing {
            self.handle_offline_stage_popup_key(key);
            return Action::Nothing;
        }
        // Diagnostics-stage popup
        if self.state.form.diagnostics_stage_editing {
            self.handle_diag_stage_popup_key(key);
            return Action::Nothing;
        }
        // Card popup
        if self.state.form.card_editing {
            self.handle_card_popup_key(key);
            return Action::Nothing;
        }
        // Query popup
        if self.state.form.query_editing {
            self.handle_query_popup_key(key);
            return Action::Nothing;
        }
        match step {
            FormStep::PartNumber => {
                self.handle_part_number_step(key);
                Action::Nothing
            },
            FormStep::BasicInfo => {
                self.handle_basic_info_step(key);
                Action::Nothing
            },
            FormStep::OfflineStages => self.handle_list_step_offline(key),
            FormStep::DiagnosticsStages => self.handle_list_step_diag(key),
            FormStep::Cards => self.handle_list_step_cards(key),
            FormStep::InteractiveQueries => self.handle_list_step_queries(key),
            FormStep::Review => {
                self.handle_review_step(key);
                Action::Nothing
            },
        }
    }

    // ============================================================
    //  Step 1: Part Number
    // ============================================================

    fn handle_part_number_step(&mut self, key: Key)
        requires
            old(self).wf(),
        ensures
            part_number_rule(*old(self), *final(self), key),
            final(self).wf(),
    {
        match key {
            Key::Enter => {
                match validate_part_number(self.state.form.part_number.as_str()) {
                    Ok(()) => {
                        self.state.config = default_template(self.state.form.part_number.as_str());
                        self.advance(FormStep::PartNumber);
                        self.state.clear_status();
                    },
                    Err(e) => self.state.set_error(e.as_str()),
                }
            },
            Key::Esc => self.state.mode = Mode::Dashboard,
            Key::Backspace => {
                self.state.form.pop_text(TextField::PartNumber);
                self.state.clear_status();
            },
            Key::Char(c) => {
                self.state.form.push_text(TextField::PartNumber, c);
                self.state.clear_status();
            },
            _ => {},
        }
    }

    // ============================================================
    //  Step 2: Basic Info (UCD, CFPGA, DEDI, T-MAMS, etc.)
    // ============================================================

    #[verifier::rlimit(50)]
    fn handle_basic_info_step(&mut self, key: Key)
        requires
            old(self).wf(),
        ensures
            basic_info_rule(*old(self), *final(self), key),
            final(self).wf(),
    {
        let max = BASIC_INFO_FIELD_COUNT;
        let focused = self.state.form.focused_field;
        match key {
            Key::Tab | Key::Down => self.state.form.focused_field = (focused + 1) % max,
            Key::Up => self.state.form.focused_field = if focused == 0 {
                max - 1
            } else {
                focused - 1
            },
            Key::Enter => self.finish_basic_info(),
            Key::Esc => self.go_back(FormStep::BasicInfo),
            // Toggle Programming_Reqd when field 15 is focused
            Key::Char(' ') if focused == 15 => {
                self.state.form.programming_reqd = !self.state.form.programming_reqd;
            },
            Key::Backspace | Key::Char(_) => self.edit_basic_info_field(key),
            _ => {},
        }
    }

    /// Syncs the basic info into the config, moves to the next step and
    /// clears the status.
    fn finish_basic_info(&mut self)
        requires
            old(self).wf(),
        ensures
            ({
                let e = set_status(set_config(*old(self), final(self).state.config), None);
                &&& *final(self) == advanced(e, FormStep::BasicInfo)
                &&& final(self).state.config.model() == basic_synced(
                    old(self).state.config.model(),
                    old(self).state.form,
                )
            }),
            final(self).wf(),
    {
        self.sync_basic_info_to_config();
        self.advance(FormStep::BasicInfo);
        self.state.clear_status();
    }

    /// Types into (or deletes from) the focused Basic Info field, and clears
    /// the status.
    #[verifier::rlimit(50)]
    fn edit_basic_info_field(&mut self, key: Key)
        requires
            old(self).wf(),
            key is Backspace || key is Char,
        ensures
            ({
                let o = *old(self);
                let n = *final(self);
                let f = o.state.form;
                match key {
                    Key::Backspace => match basic_field(f.focused_field) {
                        Some(t) => typed_clearing(o, n, t, popped(f.text(t)@)),
                        None => n == set_status(o, None),
                    },
                    Key::Char(c) => match basic_field(f.focused_field) {
                        Some(t) => typed_clearing(o, n, t, f.text(t)@.push(c)),
                        None => n == set_status(o, None),
                    },
                    _ => true,
                }
            }),
            final(self).wf(),
    {
        match self.focused_basic_field() {
            Some(t) => match key {
                Key::Char(c) => self.state.form.push_text(t, c),
                _ => self.state.form.pop_text(t),
            },
            None => {},
        }
        self.state.clear_status();
    }

    /// The currently focused Basic Info text field; position 15 is the
    /// `Programming_Reqd` toggle and has none.
    fn focused_basic_field(&self) -> (r: Option<TextField>)
        ensures
            r == basic_field(self.state.form.focused_field),
    {
        let i = self.state.form.focused_field;
        if i == 0 {
            Some(TextField::UcdPath)
        } else if i == 1 {
            Some(TextField::UcdAddress)
        } else if i == 2 {
            Some(TextField::UcdTcSeries)
        } else if i == 3 {
            Some(TextField::UcdTestcaseId)
        } else if i == 4 {
            Some(TextField::CfpgaFileName)
        } else if i == 5 {
            Some(TextField::CfpgaTclScript)
        } else if i == 6 {
            Some(TextField::DediLocation)
        } else if i == 7 {
            Some(TextField::DediPath)
        } else if i == 8 {
            Some(TextField::TmamsWorkflowVersion)
        } else if i == 9 {
            Some(TextField::TmamsSchemaVersion)
        } else if i == 10 {
            Some(TextField::ProgName)
        } else if i == 11 {
            Some(TextField::ProgJson)
        } else if i == 12 {
            Some(TextField::ProgStageOrder)
        } else if i == 13 {
            Some(TextField::CardSetupJson)
        } else if i == 14 {
            Some(TextField::InstructionMessage)
        } else {
            None
        }
    }

    /// Writes every basic-info field of the form into `config["Info"]`.
    fn sync_basic_info_to_config(&mut self)
        ensures
            config_became(
                *old(self),
                *final(self),
                basic_synced(old(self).state.config.model(), old(self).state.form),
            ),
    {
        let ucd = build_ucd(
            self.state.form.ucd_path.as_str(),
            self.state.form.ucd_address.as_str(),
            self.state.form.ucd_tc_series.as_str(),
            self.state.form.ucd_testcase_id.as_str(),
        );
        let cfpga = build_cfpga(
            self.state.form.cfpga_file_name.as_str(),
            self.state.form.cfpga_tcl_script.as_str(),
        );
        let dedi = build_dedi(self.state.form.dedi_location.as_str(), self.state.form.dedi_path.as_str());
        let tmams = build_tmams(
            self.state.form.tmams_workflow_version.as_str(),
            self.state.form.tmams_schema_version.as_str(),
        );
        let prog = build_programming_details(
            self.state.form.prog_name.as_str(),
            self.state.form.prog_json.as_str(),
            self.state.form.prog_stage_order.as_str(),
        );
        let card_setup = build_card_setup(self.state.form.card_setup_json.as_str());
        let message = JsonValue::Str(self.state.form.instruction_message.clone());
        let reqd = JsonValue::Bool(self.state.form.programming_reqd);
        self.state.config.insert_in("Info", owned("UCD"), ucd);
        self.state.config.insert_in("Info", owned("CFPGA"), cfpga);
        self.state.config.insert_in("Info", owned("DEDI"), dedi);
        self.state.config.insert_in("Info", owned("T-MAMS"), tmams);
        self.state.config.insert_in("Info", owned("programming_details"), prog);
        self.state.config.insert_in("Info", owned("Programming_Reqd"), reqd);
        self.state.config.insert_in("Info", owned("Card_Setup"), card_setup);
        self.state.config.insert_in("Info", owned("intruction_message"), message);
    }

    // ============================================================
    //  Step 3: Offline Stages (list with nested testcases)
    // ============================================================


    fn handle_offline_stage_popup_key(&mut self, key: Key)
        requires
            old(self).wf(),
            old(self).state.form.offline_stage_editing,
        ensures
            offline_popup_rule(*old(self), *final(self), key),
            final(self).wf(),
    {
        // 4 fields: name, stage_order, tool, steps
        let max_fields: usize = 4;
        let focused = self.state.form.focused_field;
        match key {
            Key::Tab => self.state.form.focused_field = (focused + 1) % max_fields,
            Key::Esc => {
                self.state.form.offline_stage_editing = false;
                self.state.form.focused_field = 0;
                self.state.clear_status();
            },
            Key::Char('t') => {
                // Open testcase sub-popup
                self.state.form.clear_testcase_fields();
                self.state.form.os_testcase_editing = true;
                self.state.form.focused_field = 0;
            },
            Key::Enter => self.commit_offline_stage(),
            Key::Backspace => {
                let f = offline_field_at(if focused < max_fields - 1 { focused } else { max_fields - 1 });
                self.state.form.pop_text(f);
            },
            Key::Char(c) => {
                let f = offline_field_at(if focused < max_fields - 1 { focused } else { max_fields - 1 });
                self.state.form.push_text(f, c);
            },
            _ => {},
        }
    }

    #[verifier::rlimit(50)]
    fn commit_offline_stage(&mut self)
        requires
            old(self).wf(),
        ensures
            offline_committed(*old(self), *final(self)),
            final(self).wf(),
    {
        if is_blank_str(self.state.form.os_name.as_str()) {
            self.state.set_error("Stage name is required");
            return;
        }
        let steps = string_to_steps(self.state.form.os_steps.as_str());
        let tcs = list_values(&self.state.form.os_testcases);
        let value = build_offline_stage(
            self.state.form.os_name.as_str(),
            self.state.form.os_stage_order.as_str(),
            self.state.form.os_tool.as_str(),
            &steps,
            &tcs,
        );
        let item = ListItem::new(self.state.form.os_name.clone(), value);
        let ghost before = self.state.form.offline_stages@;
        match self.state.form.offline_stages_selected {
            Some(idx) => {
                self.state.form.offline_stages.set(idx, item);
                assert(items_model(self.state.form.offline_stages@) =~= items_model(before).update(
                    idx as int,
                    (item.name@, item.value.model()),
                ));
            },
            None => {
                self.state.form.offline_stages.push(item);
                assert(items_model(self.state.form.offline_stages@) =~= items_model(before).push(
                    (item.name@, item.value.model()),
                ));
            },
        }
        self.state.form.offline_stage_editing = false;
        self.state.form.focused_field = 0;
        self.sync_list_to_config(FormStep::OfflineStages);
        self.state.clear_status();
    }

    // ---- Testcase popup (nested inside offline stage) ----

    fn handle_testcase_popup_key(&mut self, key: Key)
        requires
            old(self).wf(),
        ensures
            testcase_popup_rule(*old(self), *final(self), key),
            final(self).wf(),
    {
        let max_fields: usize = 3;
        let focused = self.state.form.focused_field;
        match key {
            Key::Tab => self.state.form.focused_field = (focused + 1) % max_fields,
            Key::Esc => {
                self.state.form.os_testcase_editing = false;
                self.state.form.focused_field = 0;
            },
            Key::Enter => self.commit_testcase(),
            Key::Backspace => {
                let f = testcase_field_at(if focused < max_fields - 1 { focused } else { max_fields - 1 });
                self.state.form.pop_text(f);
            },
            Key::Char(c) => {
                let f = testcase_field_at(if focused < max_fields - 1 { focused } else { max_fields - 1 });
                self.state.form.push_text(f, c);
            },
            _ => {},
        }
    }

    fn commit_testcase(&mut self)
        requires
            old(self).wf(),
        ensures
            testcase_committed(*old(self), *final(self)),
            final(self).wf(),
    {
        let id = number_or_zero_of(&self.state.form.tc_id);
        let pos = number_or_zero_of(&self.state.form.tc_position);
        let tc = build_testcase(id, self.state.form.tc_name.as_str(), pos);
        let label = testcase_label_text(pos, self.state.form.tc_name.as_str(), id);
        let item = ListItem::new(label, tc);
        let ghost before = self.state.form.os_testcases@;
        match self.state.form.os_testcases_selected {
            Some(idx) => {
                self.state.form.os_testcases.set(idx, item);
                assert(items_model(self.state.form.os_testcases@) =~= items_model(before).update(
                    idx as int,
                    (item.name@, item.value.model()),
                ));
            },
            None => {
                self.state.form.os_testcases.push(item);
                assert(items_model(self.state.form.os_testcases@) =~= items_model(before).push(
                    (item.name@, item.value.model()),
                ));
            },
        }
        self.state.form.os_testcase_editing = false;
        self.state.form.clear_testcase_fields();
        self.state.form.focused_field = 0;
    }

    // ============================================================
    //  Shared list helpers
    // ============================================================

    fn list_prev(&mut self, step: FormStep)
        ensures
            *final(self) == set_form(
                *old(self),
                with_selected(
                    old(self).state.form,
                    step,
                    prev_selection(
                        selected_of(old(self).state.form, step),
                        list_of(old(self).state.form, step).len(),
                    ),
                ),
            ),
    {
        match step {
            FormStep::OfflineStages => {
                match self.state.form.offline_stages_selected {
                    Some(s) => {
                        if s > 0 {
                            self.state.form.offline_stages_selected = Some(s - 1);
                        }
                    },
                    None => {
                        if self.state.form.offline_stages.len() > 0 {
                            self.state.form.offline_stages_selected = Some(0);
                        }
                    },
                }
            },
            FormStep::DiagnosticsStages => {
                match self.state.form.diagnostics_stages_selected {
                    Some(s) => {
                        if s > 0 {
                            self.state.form.diagnostics_stages_selected = Some(s - 1);
                        }
                    },
                    None => {
                        if self.state.form.diagnostics_stages.len() > 0 {
                            self.state.form.diagnostics_stages_selected = Some(0);
                        }
                    },
                }
            },
            FormStep::Cards => {
                match self.state.form.cards_selected {
                    Some(s) => {
                        if s > 0 {
                            self.state.form.cards_selected = Some(s - 1);
                        }
                    },
                    None => {
                        if self.state.form.cards.len() > 0 {
                            self.state.form.cards_selected = Some(0);
                        }
                    },
                }
            },
            FormStep::InteractiveQueries => {
                match self.state.form.queries_selected {
                    Some(s) => {
                        if s > 0 {
                            self.state.form.queries_selected = Some(s - 1);
                        }
                    },
                    None => {
                        if self.state.form.interactive_queries.len() > 0 {
                            self.state.form.queries_selected = Some(0);
                        }
                    },
                }
            },
            _ => {},
        }
    }

    #[verifier::rlimit(50)]
    fn list_next(&mut self, step: FormStep, len: usize)
        requires
            len == list_of(old(self).state.form, step).len(),
        ensures
            *final(self) == set_form(
                *old(self),
                with_selected(
                    old(self).state.form,
                    step,
                    if is_list_step(step) {
                        next_selection(selected_of(old(self).state.form, step), len as nat)
                    } else {
                        None
                    },
                ),
            ),
    {
        let max_idx: usize = if len > 0 { len - 1 } else { 0 };
        let current = match step {
            FormStep::OfflineStages => self.state.form.offline_stages_selected,
            FormStep::DiagnosticsStages => self.state.form.diagnostics_stages_selected,
            FormStep::Cards => self.state.form.cards_selected,
            FormStep::InteractiveQueries => self.state.form.queries_selected,
            _ => None,
        };
        let base: usize = match current {
            Some(s) => s,
            None => 0,
        };
        let inc: usize = if base < usize::MAX { base + 1 } else { base };
        let new = if inc < max_idx { inc } else { max_idx };
        match step {
            FormStep::OfflineStages => self.state.form.offline_stages_selected = Some(new),
            FormStep::DiagnosticsStages => self.state.form.diagnostics_stages_selected = Some(new),
            FormStep::Cards => self.state.form.cards_selected = Some(new),
            FormStep::InteractiveQueries => self.state.form.queries_selected = Some(new),
            _ => {},
        }
    }

    /// Sync a list into `config["Info"][key]`.
    fn sync_list_to_config(&mut self, step: FormStep)
        ensures
            config_became(
                *old(self),
                *final(self),
                list_synced(old(self).state.config.model(), old(self).state.form, step),
            ),
    {
        let key = match step {
            FormStep::OfflineStages => "Offline_Stages",
            FormStep::DiagnosticsStages => "Diagnostics_Stages",
            FormStep::Cards => "cards",
            FormStep::InteractiveQueries => "interactive_queries",
            _ => return ,
        };
        let items = match step {
            FormStep::OfflineStages => list_values(&self.state.form.offline_stages),
            FormStep::DiagnosticsStages => list_values(&self.state.form.diagnostics_stages),
            FormStep::Cards => list_values(&self.state.form.cards),
            _ => list_values(&self.state.form.interactive_queries),
        };
        self.state.config.insert_in("Info", owned(key), items);
    }

    fn advance(&mut self, current: FormStep)
        ensures
            *final(self) == advanced(*old(self), current),
    {
        match FormStep::from_index(current.index() + 1) {
            Some(next) => {
                self.state.mode = Mode::Form(next);
                self.state.form.focused_field = 0;
            },
            None => {},
        }
    }

    fn go_back(&mut self, current: FormStep)
        ensures
            *final(self) == went_back(*old(self), current),
    {
        if current.index() == 0 {
            self.state.mode = Mode::Dashboard;
        } else {
            match FormStep::from_index(current.index() - 1) {
                Some(prev) => {
                    self.state.mode = Mode::Form(prev);
                    self.state.form.focused_field = 0;
                },
                None => {},
            }
        }
    }

    // ============================================================
    //  Step 7: Review & Save
    // ============================================================

    fn handle_review_step(&mut self, key: Key)
        requires
            old(self).wf(),
        ensures
            review_rule(*old(self), *final(self), key),
            final(self).wf(),
    {
        match key {
            Key::Enter | Key::Char('s') => self.state.mode = Mode::ConfirmPopup,
            Key::Esc => self.go_back(FormStep::Review),
            _ => {},
        }
    }

    // ============================================================
    //  Step 4: Diagnostics Stages
    // ============================================================


    fn handle_diag_stage_popup_key(&mut self, key: Key)
        requires
            old(self).wf(),
        ensures
            diag_popup_rule(*old(self), *final(self), key),
            final(self).wf(),
    {
        let max_fields: usize = 4;
        let focused = self.state.form.focused_field;
        match key {
            Key::Tab => self.state.form.focused_field = (focused + 1) % max_fields,
            Key::Esc => {
                self.state.form.diagnostics_stage_editing = false;
                self.state.form.focused_field = 0;
            },
            Key::Enter => self.commit_diag_stage(),
            Key::Backspace => {
                let f = diag_field_at(if focused < max_fields - 1 { focused } else { max_fields - 1 });
                self.state.form.pop_text(f);
            },
            Key::Char(c) => {
                let f = diag_field_at(if focused < max_fields - 1 { focused } else { max_fields - 1 });
                self.state.form.push_text(f, c);
            },
            _ => {},
        }
    }

    #[verifier::rlimit(50)]
    fn commit_diag_stage(&mut self)
        requires
            old(self).wf(),
        ensures
            diag_committed(*old(self), *final(self)),
            final(self).wf(),
    {
        if is_blank_str(self.state.form.ds_name.as_str()) {
            self.state.set_error("Stage name is required");
            return;
        }
        let steps = string_to_steps(self.state.form.ds_steps.as_str());
        let value = build_diagnostics_stage(
            self.state.form.ds_name.as_str(),
            self.state.form.ds_json.as_str(),
            &steps,
            self.state.form.ds_stage_order.as_str(),
        );
        let item = ListItem::new(self.state.form.ds_name.clone(), value);
        let ghost before = self.state.form.diagnostics_stages@;
        match self.state.form.diagnostics_stages_selected {
            Some(idx) => {
                self.state.form.diagnostics_stages.set(idx, item);
                assert(items_model(self.state.form.diagnostics_stages@) =~= items_model(before).update(
                    idx as int,
                    (item.name@, item.value.model()),
                ));
            },
            None => {
                self.state.form.diagnostics_stages.push(item);
                assert(items_model(self.state.form.diagnostics_stages@) =~= items_model(before).push(
                    (item.name@, item.value.model()),
                ));
            },
        }
        self.state.form.diagnostics_stage_editing = false;
        self.state.form.focused_field = 0;
        self.sync_list_to_config(FormStep::DiagnosticsStages);
        self.state.clear_status();
    }

    // ============================================================
    //  Step 5: Cards
    // ============================================================


    fn handle_card_popup_key(&mut self, key: Key)
        requires
            old(self).wf(),
        ensures
            card_popup_rule(*old(self), *final(self), key),
            final(self).wf(),
    {
        let max_fields: usize = 7;
        let focused = self.state.form.focused_field;
        match key {
            Key::Tab => self.state.form.focused_field = (focused + 1) % max_fields,
            Key::Esc => {
                self.state.form.card_editing = false;
                self.state.form.focused_field = 0;
            },
            Key::Enter => self.commit_card(),
            Key::Backspace => {
                let f = card_field_at(if focused < max_fields - 1 { focused } else { max_fields - 1 });
                self.state.form.pop_text(f);
            },
            Key::Char(c) => {
                let f = card_field_at(if focused < max_fields - 1 { focused } else { max_fields - 1 });
                self.state.form.push_text(f, c);
            },
            _ => {},
        }
    }

    #[verifier::rlimit(50)]
    fn commit_card(&mut self)
        requires
            old(self).wf(),
        ensures
            card_committed(*old(self), *final(self)),
            final(self).wf(),
    {
        if is_blank_str(self.state.form.card_name.as_str()) {
            self.state.set_error("Card name is required");
            return;
        }
        let eeprom = number_or_zero_of(&self.state.form.card_eeprom_read_pos);
        let value = build_card(
            self.state.form.card_name.as_str(),
            self.state.form.card_part_number.as_str(),
            self.state.form.card_type.as_str(),
            self.state.form.card_parameters.as_str(),
            self.state.form.card_xml.as_str(),
            self.state.form.card_tej_dms_xml.as_str(),
            eeprom,
        );
        let item = ListItem::new(self.state.form.card_name.clone(), value);
        let ghost before = self.state.form.cards@;
        match self.state.form.cards_selected {
            Some(idx) => {
                self.state.form.cards.set(idx, item);
                assert(items_model(self.state.form.cards@) =~= items_model(before).update(
                    idx as int,
                    (item.name@, item.value.model()),
                ));
            },
            None => {
                self.state.form.cards.push(item);
                assert(items_model(self.state.form.cards@) =~= items_model(before).push(
                    (item.name@, item.value.model()),
                ));
            },
        }
        self.state.form.card_editing = false;
        self.state.form.focused_field = 0;
        self.sync_list_to_config(FormStep::Cards);
        self.state.clear_status();
    }

    // ============================================================
    //  Step 6: Interactive Queries
    // ============================================================


    /// Takes the JSON text of the query value being edited.
    pub fn query_value_rendered(&mut self, text: String)
        requires
            old(self).wf(),
        ensures
            *final(self) == set_form(*old(self), FormState { iq_value: text, ..old(self).state.form }),
            final(self).wf(),
    {
        self.state.form.iq_value = text;
    }

    fn handle_query_popup_key(&mut self, key: Key)
        requires
            old(self).wf(),
        ensures
            query_popup_rule(*old(self), *final(self), key),
            final(self).wf(),
    {
        // key, value, message, id; the SFP toggle is position 4
        let max_fields: usize = 4;
        let focused = self.state.form.focused_field;
        match key {
            Key::Tab => self.state.form.focused_field = (focused + 1) % (max_fields + 1),
            Key::Esc => {
                self.state.form.query_editing = false;
                self.state.form.focused_field = 0;
            },
            Key::Char('s') if focused == 4 => {
                self.state.form.iq_is_sfp_test = !self.state.form.iq_is_sfp_test;
            },
            Key::Enter => self.commit_query(),
            Key::Backspace => {
                let f = query_field_at(if focused < max_fields - 1 { focused } else { max_fields - 1 });
                self.state.form.pop_text(f);
            },
            Key::Char(c) => {
                let f = query_field_at(if focused < max_fields - 1 { focused } else { max_fields - 1 });
                self.state.form.push_text(f, c);
            },
            _ => {},
        }
    }

    #[verifier::rlimit(50)]
    fn commit_query(&mut self)
        requires
            old(self).wf(),
        ensures
            query_committed(*old(self), *final(self)),
            final(self).wf(),
    {
        if is_blank_str(self.state.form.iq_key.as_str()) {
            self.state.set_error("Query key is required");
            return;
        }
        let id = number_or_zero_of(&self.state.form.iq_id);
        let val = if self.state.form.iq_value.as_str().unicode_len() == 0 {
            JsonValue::Null
        } else {
            match parse_u64(self.state.form.iq_value.as_str()) {
                Some(n) => JsonValue::Number(JsonNumber::Unsigned(n)),
                None => JsonValue::Str(self.state.form.iq_value.clone()),
            }
        };
        let value = build_interactive_query(
            self.state.form.iq_key.as_str(),
            &val,
            self.state.form.iq_message.as_str(),
            self.state.form.iq_is_sfp_test,
            id,
        );
        let item = ListItem::new(self.state.form.iq_key.clone(), value);
        let ghost before = self.state.form.interactive_queries@;
        match self.state.form.queries_selected {
            Some(idx) => {
                self.state.form.interactive_queries.set(idx, item);
                assert(items_model(self.state.form.interactive_queries@) =~= items_model(before).update(
                    idx as int,
                    (item.name@, item.value.model()),
                ));
            },
            None => {
                self.state.form.interactive_queries.push(item);
                assert(items_model(self.state.form.interactive_queries@) =~= items_model(before).push(
                    (item.name@, item.value.model()),
                ));
            },
        }
        self.state.form.query_editing = false;
        self.state.form.focused_field = 0;
        self.sync_list_to_config(FormStep::InteractiveQueries);
        self.state.clear_status();
    }

    // ============================================================
    //  Saving
    // ============================================================

    fn handle_confirm_popup_key(&mut self, key: Key) -> (r: Action)
        requires
            old(self).wf(),
        ensures
            confirm_rule(*old(self), *final(self), key, r),
            final(self).wf(),
    {
        match key {
            Key::Char('y') | Key::Enter => self.save_config(),
            Key::Char('n') | Key::Esc => {
                self.state.mode = Mode::Form(FormStep::Review);
                Action::Nothing
            },
            _ => Action::Nothing,
        }
    }

    /// Sync everything and ask for the config to be saved.
    fn save_config(&mut self) -> (r: Action)
        ensures
            config_became(
                *old(self),
                *final(self),
                all_synced(old(self).state.config.model(), old(self).state.form),
            ),
            r matches Action::SaveConfig { part_number, config } && part_number@
                == old(self).state.form.part_number@ && config.model()
                == final(self).state.config.model(),
    {
        self.sync_basic_info_to_config();
        self.sync_list_to_config(FormStep::OfflineStages);
        self.sync_list_to_config(FormStep::DiagnosticsStages);
        self.sync_list_to_config(FormStep::Cards);
        self.sync_list_to_config(FormStep::InteractiveQueries);
        let part_number = self.state.form.part_number.clone();
        Action::SaveConfig { part_number, config: self.state.config.deep_copy() }
    }

    /// Takes the outcome of saving: back to the review step with the error,
    /// or to the dashboard with a confirmation.
    pub fn config_saved(&mut self, result: Result<(), String>)
        requires
            old(self).wf(),
        ensures
            match result {
                Ok(()) => with_message(
                    *final(self),
                    set_mode(*old(self), Mode::Dashboard),
                    "Configuration saved successfully!"@,
                ),
                Err(e) => with_message(
                    *final(self),
                    set_mode(*old(self), Mode::Form(FormStep::Review)),
                    error_text(e@),
                ),
            },
            final(self).wf(),
    {
        match result {
            Err(e) => {
                self.state.set_error(e.as_str());
                self.state.mode = Mode::Form(FormStep::Review);
            },
            Ok(()) => {
                self.state.set_info("Configuration saved successfully!");
                self.state.mode = Mode::Dashboard;
            },
        }
    }

    // ============================================================
    //  List steps
    // ============================================================

    /// Up, Down, Delete, Enter and Esc, which every list step handles alike;
    /// other keys are left to the step (`false`, nothing changed).
    #[verifier::rlimit(50)]
    fn handle_list_common(&mut self, key: Key, step: FormStep) -> (handled: bool)
        requires
            old(self).wf(),
            is_list_step(step),
        ensures
            match list_common_rule(*old(self), *final(self), key, step) {
                Some(b) => handled && b,
                None => !handled && *final(self) == *old(self),
            },
            final(self).wf(),
    {
        match key {
            Key::Up | Key::Char('k') => {
                self.move_selection(step, false);
                true
            },
            Key::Down | Key::Char('j') => {
                self.move_selection(step, true);
                true
            },
            Key::Delete | Key::Char('d') => {
                self.delete_selected(step);
                true
            },
            Key::Enter => {
                self.leave_list_step(step, true);
                true
            },
            Key::Esc => {
                self.leave_list_step(step, false);
                true
            },
            _ => false,
        }
    }

    /// Moves the selection of a step's list one down (or up), when the list
    /// is not empty.
    #[verifier::rlimit(50)]
    fn move_selection(&mut self, step: FormStep, down: bool)
        requires
            old(self).wf(),
            is_list_step(step),
        ensures
            ({
                let f = old(self).state.form;
                let len = list_of(f, step).len();
                let sel = selected_of(f, step);
                if len > 0 {
                    *final(self) == set_form(
                        *old(self),
                        with_selected(f, step, if down {
                            next_selection(sel, len)
                        } else {
                            prev_selection(sel, len)
                        }),
                    )
                } else {
                    *final(self) == *old(self)
                }
            }),
            final(self).wf(),
    {
        let len = match step {
            FormStep::OfflineStages => self.state.form.offline_stages.len(),
            FormStep::DiagnosticsStages => self.state.form.diagnostics_stages.len(),
            FormStep::Cards => self.state.form.cards.len(),
            _ => self.state.form.interactive_queries.len(),
        };
        if len > 0 {
            if down {
                self.list_next(step, len);
            } else {
                self.list_prev(step);
            }
        }
    }

    /// Syncs a step's list into the config, then moves to the next step
    /// (`forward`) or the previous one.
    fn leave_list_step(&mut self, step: FormStep, forward: bool)
        requires
            old(self).wf(),
        ensures
            synced_then(*old(self), *final(self), step, forward),
            final(self).wf(),
    {
        self.sync_list_to_config(step);
        if forward {
            self.advance(step);
        } else {
            self.go_back(step);
        }
    }

    /// Removes the selected item of a step's list, clears the selection and
    /// syncs the list; nothing happens when nothing is selected.
    #[verifier::rlimit(50)]
    fn delete_selected(&mut self, step: FormStep)
        requires
            old(self).wf(),
            is_list_step(step),
        ensures
            match selected_of(old(self).state.form, step) {
                Some(idx) => {
                    &&& items_model(list_of(final(self).state.form, step)) == items_model(
                        list_of(old(self).state.form, step),
                    ).remove(idx as int)
                    &&& final(self).state.form == with_list_changed(old(self).state.form, step, final(self).state.form)
                    &&& config_became(
                        set_form(*old(self), final(self).state.form),
                        *final(self),
                        list_synced(old(self).state.config.model(), final(self).state.form, step),
                    )
                },
                None => *final(self) == *old(self),
            },
            final(self).wf(),
    {
        match step {
            FormStep::OfflineStages => match self.state.form.offline_stages_selected {
                Some(idx) => {
                    let ghost before = self.state.form.offline_stages@;
                    self.state.form.offline_stages.remove(idx);
                    assert(items_model(self.state.form.offline_stages@) =~= items_model(before).remove(idx as int));
                    self.state.form.offline_stages_selected = None;
                    self.sync_list_to_config(step);
                },
                None => {},
            },
            FormStep::DiagnosticsStages => match self.state.form.diagnostics_stages_selected {
                Some(idx) => {
                    let ghost before = self.state.form.diagnostics_stages@;
                    self.state.form.diagnostics_stages.remove(idx);
                    assert(items_model(self.state.form.diagnostics_stages@) =~= items_model(before).remove(idx as int));
                    self.state.form.diagnostics_stages_selected = None;
                    self.sync_list_to_config(step);
                },
                None => {},
            },
            FormStep::Cards => match self.state.form.cards_selected {
                Some(idx) => {
                    let ghost before = self.state.form.cards@;
                    self.state.form.cards.remove(idx);
                    assert(items_model(self.state.form.cards@) =~= items_model(before).remove(idx as int));
                    self.state.form.cards_selected = None;
                    self.sync_list_to_config(step);
                },
                None => {},
            },
            _ => match self.state.form.queries_selected {
                Some(idx) => {
                    let ghost before = self.state.form.interactive_queries@;
                    self.state.form.interactive_queries.remove(idx);
                    assert(items_model(self.state.form.interactive_queries@) =~= items_model(before).remove(idx as int));
                    self.state.form.queries_selected = None;
                    self.sync_list_to_config(step);
                },
                None => {},
            },
        }
    }

    // ---- Step 3: Offline Stages (list with nested testcases) ----

    fn handle_list_step_offline(&mut self, key: Key) -> (r: Action)
        requires
            old(self).wf(),
        ensures
            offline_list_rule(*old(self), *final(self), key, r),
            final(self).wf(),
    {
        if self.handle_list_common(key, FormStep::OfflineStages) {
            return Action::Nothing;
        }
        match key {
            Key::Char('a') => self.add_offline_stage(),
            Key::Char('e') => self.edit_offline_stage(),
            _ => {},
        }
        Action::Nothing
    }

    /// Opens the offline-stage popup on empty fields, in add mode.
    fn add_offline_stage(&mut self)
        requires
            old(self).wf(),
        ensures
            offline_list_rule(*old(self), *final(self), Key::Char('a'), Action::Nothing),
            final(self).wf(),
    {
        self.state.form.clear_offline_stage_fields();
        // Add mode, not edit
        self.state.form.offline_stages_selected = None;
        self.state.form.offline_stage_editing = true;
        self.state.form.focused_field = 0;
        self.state.set_info("Add Offline Stage — fill fields, Enter to commit, Esc to cancel");
    }

    /// Opens the offline-stage popup on the selected stage.
    #[verifier::rlimit(50)]
    fn edit_offline_stage(&mut self)
        requires
            old(self).wf(),
        ensures
            offline_list_rule(*old(self), *final(self), Key::Char('e'), Action::Nothing),
            final(self).wf(),
    {
        match self.state.form.offline_stages_selected {
            Some(idx) => {
                let data = extract_offline_stage(&self.state.form.offline_stages[idx].value);
                self.state.form.os_name = data.name;
                self.state.form.os_stage_order = data.stage_order;
                self.state.form.os_tool = data.tool;
                self.state.form.os_steps = steps_to_string(&data.steps);
                // Load testcases into sub-list
                self.state.form.os_testcases = testcase_rows(&data.testcases);
                self.state.form.os_testcases_selected = None;
                self.state.form.offline_stage_editing = true;
                self.state.form.focused_field = 0;
                self.state.set_info("Edit Offline Stage — modify fields, Enter to commit, Esc to cancel");
            },
            None => {},
        }
    }

    // ---- Step 4: Diagnostics Stages ----

    fn handle_list_step_diag(&mut self, key: Key) -> (r: Action)
        requires
            old(self).wf(),
        ensures
            diag_list_rule(*old(self), *final(self), key, r),
            final(self).wf(),
    {
        if self.handle_list_common(key, FormStep::DiagnosticsStages) {
            return Action::Nothing;
        }
        match key {
            Key::Char('a') => {
                self.state.form.clear_diagnostics_stage_fields();
                self.state.form.diagnostics_stage_editing = true;
                self.state.form.focused_field = 0;
                self.state.set_info("Add Diagnostics Stage — fill fields, Enter to commit");
            },
            Key::Char('e') => self.edit_diag_stage(),
            _ => {},
        }
        Action::Nothing
    }

    /// Opens the diagnostics-stage popup on the selected stage.
    #[verifier::rlimit(50)]
    fn edit_diag_stage(&mut self)
        requires
            old(self).wf(),
        ensures
            diag_list_rule(*old(self), *final(self), Key::Char('e'), Action::Nothing),
            final(self).wf(),
    {
        match self.state.form.diagnostics_stages_selected {
            Some(idx) => {
                let data = extract_diagnostics_stage(&self.state.form.diagnostics_stages[idx].value);
                self.state.form.ds_name = data.name;
                self.state.form.ds_json = data.json_file;
                self.state.form.ds_steps = steps_to_string(&data.steps);
                self.state.form.ds_stage_order = data.stage_order;
                self.state.form.diagnostics_stage_editing = true;
                self.state.form.focused_field = 0;
            },
            None => {},
        }
    }

    // ---- Step 5: Cards ----

    fn handle_list_step_cards(&mut self, key: Key) -> (r: Action)
        requires
            old(self).wf(),
        ensures
            cards_list_rule(*old(self), *final(self), key, r),
            final(self).wf(),
    {
        if self.handle_list_common(key, FormStep::Cards) {
            return Action::Nothing;
        }
        match key {
            Key::Char('a') => self.add_card(),
            Key::Char('e') => self.edit_card(),
            _ => {},
        }
        Action::Nothing
    }

    /// Opens the card popup on empty fields, the part number prefilled.
    #[verifier::rlimit(50)]
    fn add_card(&mut self)
        requires
            old(self).wf(),
        ensures
            cards_list_rule(*old(self), *final(self), Key::Char('a'), Action::Nothing),
            final(self).wf(),
    {
        self.state.form.clear_card_fields();
        self.state.form.card_part_number = self.state.form.part_number.clone();
        self.state.form.card_editing = true;
        self.state.form.focused_field = 0;
    }

    /// Opens the card popup on the selected card.
    #[verifier::rlimit(50)]
    fn edit_card(&mut self)
        requires
            old(self).wf(),
        ensures
            cards_list_rule(*old(self), *final(self), Key::Char('e'), Action::Nothing),
            final(self).wf(),
    {
        match self.state.form.cards_selected {
            Some(idx) => {
                let data = extract_card(&self.state.form.cards[idx].value);
                self.state.form.card_name = data.card_name;
                self.state.form.card_part_number = data.part_number;
                self.state.form.card_type = data.card_type;
                self.state.form.card_parameters = data.parameters;
                self.state.form.card_xml = data.card_xml;
                self.state.form.card_tej_dms_xml = data.tej_dms_xml;
                self.state.form.card_eeprom_read_pos = u64_to_text(data.eeprom_read_pos);
                self.state.form.card_editing = true;
                self.state.form.focused_field = 0;
            },
            None => {},
        }
    }

    // ---- Step 6: Interactive Queries ----

    fn handle_list_step_queries(&mut self, key: Key) -> (r: Action)
        requires
            old(self).wf(),
        ensures
            queries_list_rule(*old(self), *final(self), key, r),
            final(self).wf(),
    {
        if self.handle_list_common(key, FormStep::InteractiveQueries) {
            return Action::Nothing;
        }
        match key {
            Key::Char('a') => {
                self.add_query();
                Action::Nothing
            },
            Key::Char('e') => self.edit_query(),
            _ => Action::Nothing,
        }
    }

    /// Opens the query popup on empty fields.
    #[verifier::rlimit(50)]
    fn add_query(&mut self)
        requires
            old(self).wf(),
        ensures
            queries_list_rule(*old(self), *final(self), Key::Char('a'), Action::Nothing),
            final(self).wf(),
    {
        self.state.form.clear_query_fields();
        self.state.form.query_editing = true;
        self.state.form.focused_field = 0;
    }

    /// Opens the query popup on the selected query; a value without a text
    /// form here is asked to be rendered.
    #[verifier::rlimit(50)]
    fn edit_query(&mut self) -> (r: Action)
        requires
            old(self).wf(),
        ensures
            queries_list_rule(*old(self), *final(self), Key::Char('e'), r),
            final(self).wf(),
    {
        match self.state.form.queries_selected {
            Some(idx) => {
                let data = extract_interactive_query(&self.state.form.interactive_queries[idx].value);
                self.state.form.iq_key = data.key;
                let action = match value_text(&data.value) {
                    Some(t) => {
                        self.state.form.iq_value = t;
                        Action::Nothing
                    },
                    None => {
                        self.state.form.iq_value = String::new();
                        Action::RenderQueryValue(data.value)
                    },
                };
                self.state.form.iq_message = data.message;
                self.state.form.iq_is_sfp_test = data.is_sfp_test;
                self.state.form.iq_id = u64_to_text(data.id);
                self.state.form.query_editing = true;
                self.state.form.focused_field = 0;
                action
            },
            None => Action::Nothing,
        }
    }

} // impl App

} // verus!
