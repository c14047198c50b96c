//! The rules of the controller: for every screen and key, what the next
//! application state is and which outside work is asked for.
//!
//! Each rule relates the state before a key (`o`) to the state after it
//! (`n`) and to the action handed back (`r`). Parts of the state that a rule
//! does not mention keep their values.

use vstd::prelude::*;
use crate::app::app::{Action, App, Key};
use crate::app::mode::{BrowserPurpose, Mode};
use crate::domain::json_value::{lemma_object_lookups, Json, NumModel};
use crate::domain::text::{decimal, is_blank, parse_u64_spec, signed_decimal};
use crate::domain::transformers::{
    card_json, card_setup_json, cfpga_json, dedi_json, diagnostics_stage_json,
    interactive_query_json, law_card_setup_round_trip, law_cfpga_round_trip,
    law_dedi_round_trip, law_programming_details_round_trip, law_tmams_round_trip,
    law_ucd_round_trip, num_at, offline_stage_json, programming_details_json, section,
    steps_json, steps_text, template_json, testcase_json, text_at, flag_at, tmams_json,
    ucd_json, value_or,
};
use crate::domain::validators::{is_part_number, part_number_error};
use crate::state::app_state::{error_text, step_at, step_index, AppState, FormStep};
use crate::state::file_state::FileState;
use crate::state::form_state::{
    item_label, items_model, listed_items, values_model, FormState, ListItem, TextField,
};

verus! {

// ---- Building blocks ----

pub open spec fn set_form(a: App, f: FormState) -> App {
    App { state: AppState { form: f, ..a.state }, ..a }
}

pub open spec fn set_mode(a: App, m: Mode) -> App {
    App { state: AppState { mode: m, ..a.state }, ..a }
}

pub open spec fn set_status(a: App, s: Option<String>) -> App {
    App { state: AppState { status_message: s, ..a.state }, ..a }
}

pub open spec fn set_config(a: App, c: crate::domain::json_value::JsonValue) -> App {
    App { state: AppState { config: c, ..a.state }, ..a }
}

pub open spec fn focus(f: FormState, i: usize) -> FormState {
    FormState { focused_field: i, ..f }
}

/// `n` is `e` except that the status message holds `text`.
pub open spec fn with_message(n: App, e: App, text: Seq<char>) -> bool {
    n == set_status(e, n.state.status_message) && n.state.status_is(text)
}

/// `s` without its last character, when it has one (Backspace).
pub open spec fn popped(s: Seq<char>) -> Seq<char> {
    if s.len() > 0 {
        s.drop_last()
    } else {
        s
    }
}

/// `n` is `o` with field `f` of the form holding `text` (status unchanged).
pub open spec fn typed(o: App, n: App, f: TextField, text: Seq<char>) -> bool {
    n == set_form(o, o.state.form.with_text(f, n.state.form.text(f))) && n.state.form.text(f)@ == text
}

/// `n` is `o` with field `f` holding `text` and the status cleared.
pub open spec fn typed_clearing(o: App, n: App, f: TextField, text: Seq<char>) -> bool {
    n == set_status(set_form(o, o.state.form.with_text(f, n.state.form.text(f))), None)
        && n.state.form.text(f)@ == text
}

/// Backspace edits `f`, a typed character `c` is appended to it, and every
/// other key leaves the state as it is.
pub open spec fn edit_rule(o: App, n: App, key: Key, f: TextField) -> bool {
    match key {
        Key::Backspace => typed(o, n, f, popped(o.state.form.text(f)@)),
        Key::Char(c) => typed(o, n, f, o.state.form.text(f)@.push(c)),
        _ => n == o,
    }
}

/// The value a number field holds: its parse as `u64`, or 0.
pub open spec fn number_or_zero(s: Seq<char>) -> u64 {
    match parse_u64_spec(s) {
        Some(n) => n,
        None => 0,
    }
}

/// `s` with entry `sel` replaced by `x`, or `x` appended when nothing is
/// selected.
pub open spec fn placed<T>(s: Seq<T>, sel: Option<usize>, x: T) -> Seq<T> {
    match sel {
        Some(i) => s.update(i as int, x),
        None => s.push(x),
    }
}

/// The selection after moving up: one up, staying at the top; the top when
/// nothing was selected and the list is not empty.
pub open spec fn prev_selection(sel: Option<usize>, len: nat) -> Option<usize> {
    match sel {
        Some(s) => Some(if s > 0 { (s - 1) as usize } else { s }),
        None => if len > 0 { Some(0) } else { None },
    }
}

/// The selection after moving down: one below the current one (or the
/// second row when nothing was selected), staying at the bottom.
pub open spec fn next_selection(sel: Option<usize>, len: nat) -> Option<usize> {
    let base: int = match sel {
        Some(s) => s as int,
        None => 0,
    };
    let inc = if base < usize::MAX { base + 1 } else { base };
    let last = if len > 0 { len - 1 } else { 0 };
    Some((if inc < last { inc } else { last }) as usize)
}

// ---- The four lists ----

/// The list a step edits.
pub open spec fn list_of(f: FormState, step: FormStep) -> Seq<ListItem> {
    match step {
        FormStep::OfflineStages => f.offline_stages@,
        FormStep::DiagnosticsStages => f.diagnostics_stages@,
        FormStep::Cards => f.cards@,
        FormStep::InteractiveQueries => f.interactive_queries@,
        _ => Seq::empty(),
    }
}

/// The selection in the list a step edits.
pub open spec fn selected_of(f: FormState, step: FormStep) -> Option<usize> {
    match step {
        FormStep::OfflineStages => f.offline_stages_selected,
        FormStep::DiagnosticsStages => f.diagnostics_stages_selected,
        FormStep::Cards => f.cards_selected,
        FormStep::InteractiveQueries => f.queries_selected,
        _ => None,
    }
}

/// The form with the selection of a step's list set to `sel`.
pub open spec fn with_selected(f: FormState, step: FormStep, sel: Option<usize>) -> FormState {
    match step {
        FormStep::OfflineStages => FormState { offline_stages_selected: sel, ..f },
        FormStep::DiagnosticsStages => FormState { diagnostics_stages_selected: sel, ..f },
        FormStep::Cards => FormState { cards_selected: sel, ..f },
        FormStep::InteractiveQueries => FormState { queries_selected: sel, ..f },
        _ => f,
    }
}

/// The key under `Info` that holds a step's list.
pub open spec fn list_key(step: FormStep) -> Seq<char> {
    match step {
        FormStep::OfflineStages => "Offline_Stages"@,
        FormStep::DiagnosticsStages => "Diagnostics_Stages"@,
        FormStep::Cards => "cards"@,
        FormStep::InteractiveQueries => "interactive_queries"@,
        _ => Seq::empty(),
    }
}

pub open spec fn is_list_step(step: FormStep) -> bool {
    step == FormStep::OfflineStages || step == FormStep::DiagnosticsStages || step
        == FormStep::Cards || step == FormStep::InteractiveQueries
}

/// The config with a step's list written under `Info`; other steps leave it
/// as it is.
pub open spec fn list_synced(c: Json, f: FormState, step: FormStep) -> Json {
    if is_list_step(step) {
        c.with_in("Info"@, list_key(step), Json::Array(values_model(list_of(f, step))))
    } else {
        c
    }
}

/// The config with every basic-info field of the form written under `Info`.
pub open spec fn basic_synced(c: Json, f: FormState) -> Json {
    let i = "Info"@;
    c.with_in(i, "UCD"@, ucd_json(f.ucd_path@, f.ucd_address@, f.ucd_tc_series@, f.ucd_testcase_id@))
        .with_in(i, "CFPGA"@, cfpga_json(f.cfpga_file_name@, f.cfpga_tcl_script@))
        .with_in(i, "DEDI"@, dedi_json(f.dedi_location@, f.dedi_path@))
        .with_in(i, "T-MAMS"@, tmams_json(f.tmams_workflow_version@, f.tmams_schema_version@))
        .with_in(i, "programming_details"@, programming_details_json(f.prog_name@, f.prog_json@, f.prog_stage_order@))
        .with_in(i, "Programming_Reqd"@, Json::Bool(f.programming_reqd))
        .with_in(i, "Card_Setup"@, card_setup_json(f.card_setup_json@))
        .with_in(i, "intruction_message"@, Json::Str(f.instruction_message@))
}

/// The config with the basic info and all four lists written.
pub open spec fn all_synced(c: Json, f: FormState) -> Json {
    list_synced(
        list_synced(
            list_synced(list_synced(basic_synced(c, f), f, FormStep::OfflineStages), f, FormStep::DiagnosticsStages),
            f,
            FormStep::Cards,
        ),
        f,
        FormStep::InteractiveQueries,
    )
}

/// `n` is `o` with a new config whose model is `j`.
pub open spec fn config_became(o: App, n: App, j: Json) -> bool {
    n == set_config(o, n.state.config) && n.state.config.model() == j
}

// ---- Moving between steps ----

/// The next step, with the first field focused; the last step stays.
pub open spec fn advanced(a: App, cur: FormStep) -> App {
    match step_at(step_index(cur) + 1int) {
        Some(next) => set_form(set_mode(a, Mode::Form(next)), focus(a.state.form, 0)),
        None => a,
    }
}

/// The previous step with the first field focused; the dashboard before the
/// first step.
pub open spec fn went_back(a: App, cur: FormStep) -> App {
    if step_index(cur) == 0 {
        set_mode(a, Mode::Dashboard)
    } else {
        match step_at(step_index(cur) - 1int) {
            Some(prev) => set_form(set_mode(a, Mode::Form(prev)), focus(a.state.form, 0)),
            None => a,
        }
    }
}

/// The list is synced into the config, then the step is left forward or
/// backward.
pub open spec fn synced_then(o: App, n: App, step: FormStep, forward: bool) -> bool {
    let e = set_config(o, n.state.config);
    &&& n.state.config.model() == list_synced(o.state.config.model(), o.state.form, step)
    &&& n == if forward { advanced(e, step) } else { went_back(e, step) }
}

// ---- Dashboard ----

pub open spec fn dashboard_rule(o: App, n: App, key: Key, r: Action) -> bool {
    if key == Key::Up || key == Key::Char('k') {
        &&& n == App {
            dashboard_selected: if o.dashboard_selected > 0 {
                (o.dashboard_selected - 1) as usize
            } else {
                o.dashboard_selected
            },
            ..o
        }
        &&& r == Action::Nothing
    } else if key == Key::Down || key == Key::Char('j') {
        &&& n == App {
            dashboard_selected: if o.dashboard_selected < 1 {
                (o.dashboard_selected + 1) as usize
            } else {
                o.dashboard_selected
            },
            ..o
        }
        &&& r == Action::Nothing
    } else if key == Key::Enter {
        if o.dashboard_selected == 0 {
            n == set_mode(o, Mode::FileBrowser(BrowserPurpose::Create)) && r == Action::ListFiles
        } else if o.dashboard_selected == 1 {
            n == set_mode(o, Mode::FileBrowser(BrowserPurpose::Edit)) && r == Action::ListFiles
        } else {
            n == o && r == Action::Nothing
        }
    } else if key == Key::Char('q') || key == Key::Esc {
        n == App { should_quit: true, ..set_mode(o, Mode::Quit) } && r == Action::Nothing
    } else {
        n == o && r == Action::Nothing
    }
}

// ---- File browser ----

/// A fresh application state on the part-number step.
pub open spec fn started_new(o: App, n: App) -> bool {
    &&& n == App { state: n.state, ..o }
    &&& n.state.form.is_fresh()
    &&& n.state.config.model() == Json::Null
    &&& !n.state.is_editing
    &&& n.state.editing_file_path is None
    &&& n.state.status_message is None
    &&& n.state.mode == Mode::Form(FormStep::PartNumber)
}

pub open spec fn browser_rule(o: App, n: App, key: Key, purpose: BrowserPurpose, r: Action) -> bool {
    let fs = o.file_state;
    if key == Key::Up || key == Key::Char('k') {
        n == App {
            file_state: FileState {
                selected: if fs.selected > 0 { (fs.selected - 1) as usize } else { 0 },
                ..fs
            },
            ..o
        } && r == Action::Nothing
    } else if key == Key::Down || key == Key::Char('j') {
        n == App {
            file_state: FileState {
                selected: if fs.files@.len() == 0 {
                    fs.selected
                } else if fs.selected + 1 < fs.files@.len() {
                    (fs.selected + 1) as usize
                } else {
                    (fs.files@.len() - 1) as usize
                },
                ..fs
            },
            ..o
        } && r == Action::Nothing
    } else if key == Key::Enter {
        &&& n == o
        &&& if fs.selected < fs.files@.len() {
            r == Action::LoadConfig(fs.files@[fs.selected as int].1)
        } else {
            r == Action::Nothing
        }
    } else if key == Key::Char('n') {
        &&& if purpose == BrowserPurpose::Create {
            started_new(o, n)
        } else {
            n == o
        }
        &&& r == Action::Nothing
    } else if key == Key::Esc {
        n == set_mode(o, Mode::Dashboard) && r == Action::Nothing
    } else {
        n == o && r == Action::Nothing
    }
}

// ---- Part number and basic info ----

pub open spec fn part_number_rule(o: App, n: App, key: Key) -> bool {
    let pn = o.state.form.part_number@;
    match key {
        Key::Enter => if is_part_number(pn) {
            let e = set_status(set_config(o, n.state.config), None);
            n == advanced(e, FormStep::PartNumber) && n.state.config.model() == template_json(pn)
        } else {
            with_message(n, o, error_text(part_number_error(pn)))
        },
        Key::Esc => n == set_mode(o, Mode::Dashboard),
        Key::Backspace => typed_clearing(o, n, TextField::PartNumber, popped(pn)),
        Key::Char(c) => typed_clearing(o, n, TextField::PartNumber, pn.push(c)),
        _ => n == o,
    }
}

/// The text field at each focus position of the basic-info step; position
/// 15 is the `Programming_Reqd` toggle.
pub open spec fn basic_field(i: usize) -> Option<TextField> {
    if i == 0 { Some(TextField::UcdPath) }
    else if i == 1 { Some(TextField::UcdAddress) }
    else if i == 2 { Some(TextField::UcdTcSeries) }
    else if i == 3 { Some(TextField::UcdTestcaseId) }
    else if i == 4 { Some(TextField::CfpgaFileName) }
    else if i == 5 { Some(TextField::CfpgaTclScript) }
    else if i == 6 { Some(TextField::DediLocation) }
    else if i == 7 { Some(TextField::DediPath) }
    else if i == 8 { Some(TextField::TmamsWorkflowVersion) }
    else if i == 9 { Some(TextField::TmamsSchemaVersion) }
    else if i == 10 { Some(TextField::ProgName) }
    else if i == 11 { Some(TextField::ProgJson) }
    else if i == 12 { Some(TextField::ProgStageOrder) }
    else if i == 13 { Some(TextField::CardSetupJson) }
    else if i == 14 { Some(TextField::InstructionMessage) }
    else { None }
}

pub open spec fn basic_info_rule(o: App, n: App, key: Key) -> bool {
    let f = o.state.form;
    let i = f.focused_field;
    if key == Key::Tab || key == Key::Down {
        n == set_form(o, focus(f, ((i + 1) % 16) as usize))
    } else if key == Key::Up {
        n == set_form(o, focus(f, if i == 0 { 15 } else { (i - 1) as usize }))
    } else if key == Key::Enter {
        let e = set_status(set_config(o, n.state.config), None);
        n == advanced(e, FormStep::BasicInfo) && n.state.config.model() == basic_synced(o.state.config.model(), f)
    } else if key == Key::Esc {
        n == went_back(o, FormStep::BasicInfo)
    } else if key == Key::Char(' ') && i == 15 {
        n == set_form(o, FormState { programming_reqd: !f.programming_reqd, ..f })
    } else {
        match key {
            Key::Backspace => match basic_field(i) {
                Some(t) => typed_clearing(o, n, t, popped(f.text(t)@)),
                None => n == set_status(o, None),
            },
            Key::Char(c) => match basic_field(i) {
                Some(t) => typed_clearing(o, n, t, f.text(t)@.push(c)),
                None => n == set_status(o, None),
            },
            _ => n == o,
        }
    }
}

// ---- Committing sub-forms ----

/// A committed sub-form: the item is placed in the step's list at the
/// selection (or appended), the popup closes with the first field focused,
/// the list is synced into the config and the status is cleared.
pub open spec fn committed(o: App, n: App, step: FormStep, item: (Seq<char>, Json), closed: FormState) -> bool {
    let items = placed(items_model(list_of(o.state.form, step)), selected_of(o.state.form, step), item);
    &&& items_model(list_of(n.state.form, step)) == items
    &&& n.state.config.model() == list_synced(o.state.config.model(), n.state.form, step)
    &&& n == App {
        state: AppState {
            form: closed,
            config: n.state.config,
            status_message: None,
            ..o.state
        },
        ..o
    }
}

pub open spec fn offline_committed(o: App, n: App) -> bool {
    let f = o.state.form;
    if is_blank(f.os_name@) {
        with_message(n, o, error_text("Stage name is required"@))
    } else {
        let value = offline_stage_json(
            f.os_name@,
            f.os_stage_order@,
            f.os_tool@,
            steps_json(f.os_steps@),
            Json::Array(values_model(f.os_testcases@)),
        );
        committed(o, n, FormStep::OfflineStages, (f.os_name@, value), FormState {
            offline_stages: n.state.form.offline_stages,
            offline_stage_editing: false,
            focused_field: 0,
            ..f
        })
    }
}

pub open spec fn diag_committed(o: App, n: App) -> bool {
    let f = o.state.form;
    if is_blank(f.ds_name@) {
        with_message(n, o, error_text("Stage name is required"@))
    } else {
        let value = diagnostics_stage_json(f.ds_name@, f.ds_json@, steps_json(f.ds_steps@), f.ds_stage_order@);
        committed(o, n, FormStep::DiagnosticsStages, (f.ds_name@, value), FormState {
            diagnostics_stages: n.state.form.diagnostics_stages,
            diagnostics_stage_editing: false,
            focused_field: 0,
            ..f
        })
    }
}

pub open spec fn card_committed(o: App, n: App) -> bool {
    let f = o.state.form;
    if is_blank(f.card_name@) {
        with_message(n, o, error_text("Card name is required"@))
    } else {
        let value = card_json(
            f.card_name@,
            f.card_part_number@,
            f.card_type@,
            f.card_parameters@,
            f.card_xml@,
            f.card_tej_dms_xml@,
            number_or_zero(f.card_eeprom_read_pos@),
        );
        committed(o, n, FormStep::Cards, (f.card_name@, value), FormState {
            cards: n.state.form.cards,
            card_editing: false,
            focused_field: 0,
            ..f
        })
    }
}

/// The value a query's text is stored as: `null` when empty, a number when
/// it parses as `u64`, a string otherwise.
pub open spec fn query_value_json(s: Seq<char>) -> Json {
    if s.len() == 0 {
        Json::Null
    } else {
        match parse_u64_spec(s) {
            Some(u) => Json::Number(NumModel::Unsigned(u)),
            None => Json::Str(s),
        }
    }
}

pub open spec fn query_committed(o: App, n: App) -> bool {
    let f = o.state.form;
    if is_blank(f.iq_key@) {
        with_message(n, o, error_text("Query key is required"@))
    } else {
        let value = interactive_query_json(
            f.iq_key@,
            query_value_json(f.iq_value@),
            f.iq_message@,
            f.iq_is_sfp_test,
            number_or_zero(f.iq_id@),
        );
        committed(o, n, FormStep::InteractiveQueries, (f.iq_key@, value), FormState {
            interactive_queries: n.state.form.interactive_queries,
            query_editing: false,
            focused_field: 0,
            ..f
        })
    }
}

/// The label of a testcase in the stage editor: `<position>: <name> (id=<id>)`.
pub open spec fn testcase_label(position: u64, name: Seq<char>, id: u64) -> Seq<char> {
    decimal(position as nat) + ": "@ + name + " (id="@ + decimal(id as nat) + ")"@
}

/// A committed testcase is placed at the testcase selection (or appended),
/// its popup closes and its fields are cleared.
pub open spec fn testcase_committed(o: App, n: App) -> bool {
    let f = o.state.form;
    let id = number_or_zero(f.tc_id@);
    let pos = number_or_zero(f.tc_position@);
    let item = (testcase_label(pos, f.tc_name@, id), testcase_json(id, f.tc_name@, pos));
    let g = n.state.form;
    &&& items_model(g.os_testcases@) == placed(items_model(f.os_testcases@), f.os_testcases_selected, item)
    &&& g.tc_id@.len() == 0 && g.tc_name@.len() == 0 && g.tc_position@.len() == 0
    &&& n == set_form(o, FormState {
        os_testcases: g.os_testcases,
        os_testcase_editing: false,
        tc_id: g.tc_id,
        tc_name: g.tc_name,
        tc_position: g.tc_position,
        focused_field: 0,
        ..f
    })
}

// ---- Popups ----

pub open spec fn testcase_field(i: usize) -> TextField {
    if i == 0 { TextField::TcId } else if i == 1 { TextField::TcName } else { TextField::TcPosition }
}

pub open spec fn offline_field(i: usize) -> TextField {
    if i == 0 { TextField::OsName } else if i == 1 { TextField::OsStageOrder } else if i == 2 {
        TextField::OsTool
    } else { TextField::OsSteps }
}

pub open spec fn diag_field(i: usize) -> TextField {
    if i == 0 { TextField::DsName } else if i == 1 { TextField::DsJson } else if i == 2 {
        TextField::DsSteps
    } else { TextField::DsStageOrder }
}

pub open spec fn card_field(i: usize) -> TextField {
    if i == 0 { TextField::CardName } else if i == 1 { TextField::CardPartNumber } else if i == 2 {
        TextField::CardType
    } else if i == 3 { TextField::CardParameters } else if i == 4 { TextField::CardXml } else if i
        == 5 { TextField::CardTejDmsXml } else { TextField::CardEepromReadPos }
}

pub open spec fn query_field(i: usize) -> TextField {
    if i == 0 { TextField::IqKey } else if i == 1 { TextField::IqValue } else if i == 2 {
        TextField::IqMessage
    } else { TextField::IqId }
}

pub open spec fn testcase_popup_rule(o: App, n: App, key: Key) -> bool {
    let f = o.state.form;
    match key {
        Key::Tab => n == set_form(o, focus(f, ((f.focused_field + 1) % 3) as usize)),
        Key::Esc => n == set_form(o, FormState { os_testcase_editing: false, focused_field: 0, ..f }),
        Key::Enter => testcase_committed(o, n),
        _ => edit_rule(o, n, key, testcase_field(f.focused_field)),
    }
}

pub open spec fn offline_popup_rule(o: App, n: App, key: Key) -> bool {
    let f = o.state.form;
    let g = n.state.form;
    match key {
        Key::Tab => n == set_form(o, focus(f, ((f.focused_field + 1) % 4) as usize)),
        Key::Esc => n == set_status(
            set_form(o, FormState { offline_stage_editing: false, focused_field: 0, ..f }),
            None,
        ),
        Key::Char('t') => {
            &&& n == set_form(o, FormState {
                tc_id: g.tc_id,
                tc_name: g.tc_name,
                tc_position: g.tc_position,
                os_testcase_editing: true,
                focused_field: 0,
                ..f
            })
            &&& g.tc_id@.len() == 0 && g.tc_name@.len() == 0 && g.tc_position@.len() == 0
        },
        Key::Enter => offline_committed(o, n),
        _ => edit_rule(o, n, key, offline_field(f.focused_field)),
    }
}

pub open spec fn diag_popup_rule(o: App, n: App, key: Key) -> bool {
    let f = o.state.form;
    match key {
        Key::Tab => n == set_form(o, focus(f, ((f.focused_field + 1) % 4) as usize)),
        Key::Esc => n == set_form(o, FormState { diagnostics_stage_editing: false, focused_field: 0, ..f }),
        Key::Enter => diag_committed(o, n),
        _ => edit_rule(o, n, key, diag_field(f.focused_field)),
    }
}

pub open spec fn card_popup_rule(o: App, n: App, key: Key) -> bool {
    let f = o.state.form;
    match key {
        Key::Tab => n == set_form(o, focus(f, ((f.focused_field + 1) % 7) as usize)),
        Key::Esc => n == set_form(o, FormState { card_editing: false, focused_field: 0, ..f }),
        Key::Enter => card_committed(o, n),
        _ => edit_rule(o, n, key, card_field(f.focused_field)),
    }
}

pub open spec fn query_popup_rule(o: App, n: App, key: Key) -> bool {
    let f = o.state.form;
    if key == Key::Tab {
        n == set_form(o, focus(f, ((f.focused_field + 1) % 5) as usize))
    } else if key == Key::Esc {
        n == set_form(o, FormState { query_editing: false, focused_field: 0, ..f })
    } else if key == Key::Char('s') && f.focused_field == 4 {
        n == set_form(o, FormState { iq_is_sfp_test: !f.iq_is_sfp_test, ..f })
    } else if key == Key::Enter {
        query_committed(o, n)
    } else {
        edit_rule(o, n, key, query_field(f.focused_field))
    }
}

// ---- List steps ----

/// Up, Down, Delete, Enter and Esc on a list step, which all list steps
/// share; `None` for the keys a step handles itself.
pub open spec fn list_common_rule(o: App, n: App, key: Key, step: FormStep) -> Option<bool> {
    let f = o.state.form;
    let len = list_of(f, step).len();
    let sel = selected_of(f, step);
    if key == Key::Up || key == Key::Char('k') {
        Some(if len > 0 { n == set_form(o, with_selected(f, step, prev_selection(sel, len))) } else { n == o })
    } else if key == Key::Down || key == Key::Char('j') {
        Some(if len > 0 { n == set_form(o, with_selected(f, step, next_selection(sel, len))) } else { n == o })
    } else if key == Key::Delete || key == Key::Char('d') {
        Some(match sel {
            Some(idx) => {
                &&& items_model(list_of(n.state.form, step)) == items_model(list_of(f, step)).remove(idx as int)
                &&& n.state.form == with_list_changed(f, step, n.state.form)
                &&& config_became(set_form(o, n.state.form), n, list_synced(o.state.config.model(), n.state.form, step))
            },
            None => n == o,
        })
    } else if key == Key::Enter {
        Some(synced_then(o, n, step, true))
    } else if key == Key::Esc {
        Some(synced_then(o, n, step, false))
    } else {
        None
    }
}

/// `f` with the list of `step` taken from `g` and its selection cleared.
pub open spec fn with_list_changed(f: FormState, step: FormStep, g: FormState) -> FormState {
    match step {
        FormStep::OfflineStages => FormState { offline_stages: g.offline_stages, offline_stages_selected: None, ..f },
        FormStep::DiagnosticsStages => FormState { diagnostics_stages: g.diagnostics_stages, diagnostics_stages_selected: None, ..f },
        FormStep::Cards => FormState { cards: g.cards, cards_selected: None, ..f },
        FormStep::InteractiveQueries => FormState { interactive_queries: g.interactive_queries, queries_selected: None, ..f },
        _ => f,
    }
}

/// The testcase rows of a stage's `Testcases` value, each labelled.
pub open spec fn testcase_items(tcs: Json) -> Seq<(Seq<char>, Json)> {
    match tcs {
        Json::Array(a) => a.map_values(|tc: Json| (
            testcase_label(num_at(tc, "testcasePosition"@), text_at(tc, "testcaseName"@), num_at(tc, "testcaseId"@)),
            tc,
        )),
        _ => Seq::empty(),
    }
}

pub open spec fn offline_list_rule(o: App, n: App, key: Key, r: Action) -> bool {
    let f = o.state.form;
    let g = n.state.form;
    &&& r == Action::Nothing
    &&& match list_common_rule(o, n, key, FormStep::OfflineStages) {
        Some(b) => b,
        None => if key == Key::Char('a') {
            &&& with_message(n, set_form(o, FormState {
                os_name: g.os_name,
                os_stage_order: g.os_stage_order,
                os_tool: g.os_tool,
                os_steps: g.os_steps,
                os_testcases: g.os_testcases,
                os_testcases_selected: None,
                os_testcase_editing: false,
                offline_stages_selected: None,
                offline_stage_editing: true,
                focused_field: 0,
                ..f
            }), "Add Offline Stage — fill fields, Enter to commit, Esc to cancel"@)
            &&& g.os_name@.len() == 0 && g.os_stage_order@.len() == 0 && g.os_tool@.len() == 0
            &&& g.os_steps@.len() == 0 && g.os_testcases@.len() == 0
        } else if key == Key::Char('e') {
            match f.offline_stages_selected {
                Some(idx) => {
                    let v = f.offline_stages@[idx as int].value.model();
                    &&& with_message(n, set_form(o, FormState {
                        os_name: g.os_name,
                        os_stage_order: g.os_stage_order,
                        os_tool: g.os_tool,
                        os_steps: g.os_steps,
                        os_testcases: g.os_testcases,
                        os_testcases_selected: None,
                        offline_stage_editing: true,
                        focused_field: 0,
                        ..f
                    }), "Edit Offline Stage — modify fields, Enter to commit, Esc to cancel"@)
                    &&& g.os_name@ == text_at(v, "Name"@)
                    &&& g.os_stage_order@ == text_at(v, "stageOrder"@)
                    &&& g.os_tool@ == text_at(v, "Tool"@)
                    &&& g.os_steps@ == steps_text(value_or(v.field("steps"@), Json::Array(Seq::empty())))
                    &&& items_model(g.os_testcases@) == testcase_items(value_or(v.field("Testcases"@), Json::Array(Seq::empty())))
                },
                None => n == o,
            }
        } else {
            n == o
        },
    }
}

pub open spec fn diag_list_rule(o: App, n: App, key: Key, r: Action) -> bool {
    let f = o.state.form;
    let g = n.state.form;
    &&& r == Action::Nothing
    &&& match list_common_rule(o, n, key, FormStep::DiagnosticsStages) {
        Some(b) => b,
        None => if key == Key::Char('a') {
            &&& with_message(n, set_form(o, FormState {
                ds_name: g.ds_name,
                ds_json: g.ds_json,
                ds_steps: g.ds_steps,
                ds_stage_order: g.ds_stage_order,
                diagnostics_stage_editing: true,
                focused_field: 0,
                ..f
            }), "Add Diagnostics Stage — fill fields, Enter to commit"@)
            &&& g.ds_name@.len() == 0 && g.ds_json@.len() == 0 && g.ds_steps@.len() == 0
            &&& g.ds_stage_order@.len() == 0
        } else if key == Key::Char('e') {
            match f.diagnostics_stages_selected {
                Some(idx) => {
                    let v = f.diagnostics_stages@[idx as int].value.model();
                    &&& n == set_form(o, FormState {
                        ds_name: g.ds_name,
                        ds_json: g.ds_json,
                        ds_steps: g.ds_steps,
                        ds_stage_order: g.ds_stage_order,
                        diagnostics_stage_editing: true,
                        focused_field: 0,
                        ..f
                    })
                    &&& g.ds_name@ == text_at(v, "Name"@)
                    &&& g.ds_json@ == text_at(v, "Json"@)
                    &&& g.ds_steps@ == steps_text(value_or(v.field("steps"@), Json::Array(Seq::empty())))
                    &&& g.ds_stage_order@ == text_at(v, "stageOrder"@)
                },
                None => n == o,
            }
        } else {
            n == o
        },
    }
}

pub open spec fn cards_list_rule(o: App, n: App, key: Key, r: Action) -> bool {
    let f = o.state.form;
    let g = n.state.form;
    &&& r == Action::Nothing
    &&& match list_common_rule(o, n, key, FormStep::Cards) {
        Some(b) => b,
        None => if key == Key::Char('a') {
            &&& n == set_form(o, FormState {
                card_name: g.card_name,
                card_part_number: g.card_part_number,
                card_type: g.card_type,
                card_parameters: g.card_parameters,
                card_xml: g.card_xml,
                card_tej_dms_xml: g.card_tej_dms_xml,
                card_eeprom_read_pos: g.card_eeprom_read_pos,
                card_editing: true,
                focused_field: 0,
                ..f
            })
            &&& g.card_part_number@ == f.part_number@
            &&& g.card_name@.len() == 0 && g.card_type@.len() == 0 && g.card_parameters@.len() == 0
            &&& g.card_xml@.len() == 0 && g.card_tej_dms_xml@.len() == 0 && g.card_eeprom_read_pos@.len() == 0
        } else if key == Key::Char('e') {
            match f.cards_selected {
                Some(idx) => {
                    let v = f.cards@[idx as int].value.model();
                    &&& n == set_form(o, FormState {
                        card_name: g.card_name,
                        card_part_number: g.card_part_number,
                        card_type: g.card_type,
                        card_parameters: g.card_parameters,
                        card_xml: g.card_xml,
                        card_tej_dms_xml: g.card_tej_dms_xml,
                        card_eeprom_read_pos: g.card_eeprom_read_pos,
                        card_editing: true,
                        focused_field: 0,
                        ..f
                    })
                    &&& g.card_name@ == text_at(v, "cardName"@)
                    &&& g.card_part_number@ == text_at(v, "partNumber"@)
                    &&& g.card_type@ == text_at(v, "cardType"@)
                    &&& g.card_parameters@ == text_at(v, "Parameters"@)
                    &&& g.card_xml@ == text_at(v, "cardXml"@)
                    &&& g.card_tej_dms_xml@ == text_at(v, "tejDMSxml"@)
                    &&& g.card_eeprom_read_pos@ == decimal(num_at(v, "eeprom_read_pos"@) as nat)
                },
                None => n == o,
            }
        } else {
            n == o
        },
    }
}

/// The text a query value is edited as: nothing for `null`, the digits of a
/// number, the text of a string, `true`/`false`; arrays and objects have no
/// text here (their JSON text is asked for).
pub open spec fn query_value_text(v: Json) -> Option<Seq<char>> {
    match v {
        Json::Null => Some(Seq::empty()),
        Json::Number(NumModel::Unsigned(u)) => Some(decimal(u as nat)),
        Json::Number(NumModel::Negative(i)) => Some(signed_decimal(i as int)),
        Json::Number(NumModel::Decimal(t)) => Some(t),
        Json::Str(s) => Some(s),
        Json::Bool(b) => Some(if b { "true"@ } else { "false"@ }),
        _ => None,
    }
}

pub open spec fn queries_list_rule(o: App, n: App, key: Key, r: Action) -> bool {
    let f = o.state.form;
    let g = n.state.form;
    match list_common_rule(o, n, key, FormStep::InteractiveQueries) {
        Some(b) => b && r == Action::Nothing,
        None => if key == Key::Char('a') {
            &&& n == set_form(o, FormState {
                iq_key: g.iq_key,
                iq_value: g.iq_value,
                iq_message: g.iq_message,
                iq_is_sfp_test: false,
                iq_id: g.iq_id,
                query_editing: true,
                focused_field: 0,
                ..f
            })
            &&& g.iq_key@.len() == 0 && g.iq_value@.len() == 0 && g.iq_message@.len() == 0
            &&& g.iq_id@.len() == 0
            &&& r == Action::Nothing
        } else if key == Key::Char('e') {
            match f.queries_selected {
                Some(idx) => {
                    let v = f.interactive_queries@[idx as int].value.model();
                    let value = value_or(v.field("value"@), Json::Null);
                    &&& n == set_form(o, FormState {
                        iq_key: g.iq_key,
                        iq_value: g.iq_value,
                        iq_message: g.iq_message,
                        iq_is_sfp_test: flag_at(v, "isSfpTest"@),
                        iq_id: g.iq_id,
                        query_editing: true,
                        focused_field: 0,
                        ..f
                    })
                    &&& g.iq_key@ == text_at(v, "key"@)
                    &&& g.iq_message@ == text_at(v, "message"@)
                    &&& g.iq_id@ == decimal(num_at(v, "id"@) as nat)
                    &&& match query_value_text(value) {
                        Some(t) => g.iq_value@ == t && r == Action::Nothing,
                        None => g.iq_value@.len() == 0 && (r matches Action::RenderQueryValue(x) && x.model() == value),
                    }
                },
                None => n == o && r == Action::Nothing,
            }
        } else {
            n == o && r == Action::Nothing
        },
    }
}

pub open spec fn review_rule(o: App, n: App, key: Key) -> bool {
    if key == Key::Enter || key == Key::Char('s') {
        n == set_mode(o, Mode::ConfirmPopup)
    } else if key == Key::Esc {
        n == went_back(o, FormStep::Review)
    } else {
        n == o
    }
}

// ---- The form ----

pub open spec fn form_rule(o: App, n: App, key: Key, step: FormStep, r: Action) -> bool {
    let f = o.state.form;
    if f.os_testcase_editing {
        testcase_popup_rule(o, n, key) && r == Action::Nothing
    } else if f.offline_stage_editing {
        offline_popup_rule(o, n, key) && r == Action::Nothing
    } else if f.diagnostics_stage_editing {
        diag_popup_rule(o, n, key) && r == Action::Nothing
    } else if f.card_editing {
        card_popup_rule(o, n, key) && r == Action::Nothing
    } else if f.query_editing {
        query_popup_rule(o, n, key) && r == Action::Nothing
    } else {
        match step {
            FormStep::PartNumber => part_number_rule(o, n, key) && r == Action::Nothing,
            FormStep::BasicInfo => basic_info_rule(o, n, key) && r == Action::Nothing,
            FormStep::OfflineStages => offline_list_rule(o, n, key, r),
            FormStep::DiagnosticsStages => diag_list_rule(o, n, key, r),
            FormStep::Cards => cards_list_rule(o, n, key, r),
            FormStep::InteractiveQueries => queries_list_rule(o, n, key, r),
            FormStep::Review => review_rule(o, n, key) && r == Action::Nothing,
        }
    }
}

// ---- Saving ----

pub open spec fn confirm_rule(o: App, n: App, key: Key, r: Action) -> bool {
    if key == Key::Char('y') || key == Key::Enter {
        &&& config_became(o, n, all_synced(o.state.config.model(), o.state.form))
        &&& r matches Action::SaveConfig { part_number, config }
        &&& part_number@ == o.state.form.part_number@
        &&& config.model() == n.state.config.model()
    } else if key == Key::Char('n') || key == Key::Esc {
        n == set_mode(o, Mode::Form(FormStep::Review)) && r == Action::Nothing
    } else {
        n == o && r == Action::Nothing
    }
}

// ---- What is saved loads back ----

/// The `Info` object after saving writes the form `f` into `info`.
pub open spec fn info_synced(info: Json, f: FormState) -> Json {
    info.with_field("UCD"@, ucd_json(f.ucd_path@, f.ucd_address@, f.ucd_tc_series@, f.ucd_testcase_id@))
        .with_field("CFPGA"@, cfpga_json(f.cfpga_file_name@, f.cfpga_tcl_script@))
        .with_field("DEDI"@, dedi_json(f.dedi_location@, f.dedi_path@))
        .with_field("T-MAMS"@, tmams_json(f.tmams_workflow_version@, f.tmams_schema_version@))
        .with_field("programming_details"@, programming_details_json(f.prog_name@, f.prog_json@, f.prog_stage_order@))
        .with_field("Programming_Reqd"@, Json::Bool(f.programming_reqd))
        .with_field("Card_Setup"@, card_setup_json(f.card_setup_json@))
        .with_field("intruction_message"@, Json::Str(f.instruction_message@))
        .with_field("Offline_Stages"@, Json::Array(values_model(f.offline_stages@)))
        .with_field("Diagnostics_Stages"@, Json::Array(values_model(f.diagnostics_stages@)))
        .with_field("cards"@, Json::Array(values_model(f.cards@)))
        .with_field("interactive_queries"@, Json::Array(values_model(f.interactive_queries@)))
}

/// Saving writes every field of the form into the `Info` object of the
/// configuration, when it has one.
pub proof fn lemma_saved_info(c: Json, f: FormState)
    requires
        c.field("Info"@) matches Some(info) && info is Object,
    ensures
        all_synced(c, f).field("Info"@) == Some(info_synced(c.field("Info"@)->0, f)),
{
    lemma_object_lookups();
    reveal_strlit("Info");
    assert("Info"@.len() == 4);
}

/// What is saved loads back: when the configuration has an `Info` object, a
/// form loaded from the configuration that saving writes holds every
/// basic-info text, the programming flag and the items of all four lists of
/// the form that was saved. Its part number is the one in the first saved
/// card, or empty when there is no card.
pub proof fn law_saved_config_reloads(c: Json, f: FormState, g: FormState)
    requires
        c.field("Info"@) matches Some(info) && info is Object,
        g.loaded_from(all_synced(c, f)),
    ensures
        g.ucd_path@ == f.ucd_path@,
        g.ucd_address@ == f.ucd_address@,
        g.ucd_tc_series@ == f.ucd_tc_series@,
        g.ucd_testcase_id@ == f.ucd_testcase_id@,
        g.cfpga_file_name@ == f.cfpga_file_name@,
        g.cfpga_tcl_script@ == f.cfpga_tcl_script@,
        g.dedi_location@ == f.dedi_location@,
        g.dedi_path@ == f.dedi_path@,
        g.tmams_workflow_version@ == f.tmams_workflow_version@,
        g.tmams_schema_version@ == f.tmams_schema_version@,
        g.prog_name@ == f.prog_name@,
        g.prog_json@ == f.prog_json@,
        g.prog_stage_order@ == f.prog_stage_order@,
        g.programming_reqd == f.programming_reqd,
        g.card_setup_json@ == f.card_setup_json@,
        g.instruction_message@ == f.instruction_message@,
        values_model(g.offline_stages@) == values_model(f.offline_stages@),
        values_model(g.diagnostics_stages@) == values_model(f.diagnostics_stages@),
        values_model(g.cards@) == values_model(f.cards@),
        values_model(g.interactive_queries@) == values_model(f.interactive_queries@),
        g.part_number@ == if f.cards@.len() > 0 {
            text_at(f.cards@[0].value.model(), "partNumber"@)
        } else {
            Seq::<char>::empty()
        },
{
    lemma_saved_info(c, f);
    lemma_object_lookups();
    let info0 = c.field("Info"@)->0;
    let info = info_synced(info0, f);
    reveal_strlit("UCD");
    reveal_strlit("CFPGA");
    reveal_strlit("DEDI");
    reveal_strlit("T-MAMS");
    reveal_strlit("programming_details");
    reveal_strlit("Programming_Reqd");
    reveal_strlit("Card_Setup");
    reveal_strlit("intruction_message");
    reveal_strlit("Offline_Stages");
    reveal_strlit("Diagnostics_Stages");
    reveal_strlit("cards");
    reveal_strlit("interactive_queries");
    assert("UCD"@.len() == 3 && "CFPGA"@.len() == 5 && "DEDI"@.len() == 4 && "T-MAMS"@.len() == 6);
    assert("programming_details"@.len() == 19 && "Programming_Reqd"@.len() == 16);
    assert("Card_Setup"@.len() == 10 && "intruction_message"@.len() == 18);
    assert("Offline_Stages"@.len() == 14 && "Diagnostics_Stages"@.len() == 18);
    assert("cards"@.len() == 5 && "interactive_queries"@.len() == 19);
    assert("CFPGA"@[0] == 'C' && "cards"@[0] == 'c');
    assert("intruction_message"@[0] == 'i' && "Diagnostics_Stages"@[0] == 'D');
    assert("programming_details"@[0] == 'p' && "interactive_queries"@[0] == 'i');
    assert(section(all_synced(c, f), "Info"@) == info);
    law_ucd_round_trip(f.ucd_path@, f.ucd_address@, f.ucd_tc_series@, f.ucd_testcase_id@);
    law_cfpga_round_trip(f.cfpga_file_name@, f.cfpga_tcl_script@);
    law_dedi_round_trip(f.dedi_location@, f.dedi_path@);
    law_tmams_round_trip(f.tmams_workflow_version@, f.tmams_schema_version@);
    law_programming_details_round_trip(f.prog_name@, f.prog_json@, f.prog_stage_order@);
    law_card_setup_round_trip(f.card_setup_json@);
    assert(info.field("UCD"@) == Some(ucd_json(f.ucd_path@, f.ucd_address@, f.ucd_tc_series@, f.ucd_testcase_id@)));
    assert(info.field("CFPGA"@) == Some(cfpga_json(f.cfpga_file_name@, f.cfpga_tcl_script@)));
    assert(info.field("DEDI"@) == Some(dedi_json(f.dedi_location@, f.dedi_path@)));
    assert(info.field("T-MAMS"@) == Some(tmams_json(f.tmams_workflow_version@, f.tmams_schema_version@)));
    assert(info.field("programming_details"@) == Some(programming_details_json(f.prog_name@, f.prog_json@, f.prog_stage_order@)));
    assert(info.field("Programming_Reqd"@) == Some(Json::Bool(f.programming_reqd)));
    assert(info.field("Card_Setup"@) == Some(card_setup_json(f.card_setup_json@)));
    assert(info.field("intruction_message"@) == Some(Json::Str(f.instruction_message@)));
    assert(info.field("Offline_Stages"@) == Some(Json::Array(values_model(f.offline_stages@))));
    assert(info.field("Diagnostics_Stages"@) == Some(Json::Array(values_model(f.diagnostics_stages@))));
    assert(info.field("cards"@) == Some(Json::Array(values_model(f.cards@))));
    assert(info.field("interactive_queries"@) == Some(Json::Array(values_model(f.interactive_queries@))));
    lemma_reloaded_values(g.offline_stages@, f.offline_stages@, info, "Offline_Stages"@, "Name"@);
    lemma_reloaded_values(g.diagnostics_stages@, f.diagnostics_stages@, info, "Diagnostics_Stages"@, "Name"@);
    lemma_reloaded_values(g.cards@, f.cards@, info, "cards"@, "cardName"@);
    lemma_reloaded_values(g.interactive_queries@, f.interactive_queries@, info, "interactive_queries"@, "key"@);
}

/// A list read back from an array that holds the values of another list
/// holds those values.
proof fn lemma_reloaded_values(g: Seq<ListItem>, f: Seq<ListItem>, info: Json, field: Seq<char>, name_key: Seq<char>)
    requires
        info.field(field) == Some(Json::Array(values_model(f))),
        items_model(g) == listed_items(info, field, name_key),
    ensures
        values_model(g) == values_model(f),
{
    assert(g.len() == items_model(g).len());
    assert forall|i: int| 0 <= i < g.len() implies #[trigger] values_model(g)[i] == values_model(f)[i] by {
        assert(items_model(g)[i] == (item_label(values_model(f)[i], name_key), values_model(f)[i]));
    }
    assert(values_model(g) =~= values_model(f));
}

// ---- Every key ----

pub open spec fn key_rule(o: App, n: App, key: Key, r: Action) -> bool {
    match o.state.mode {
        Mode::Dashboard => dashboard_rule(o, n, key, r),
        Mode::FileBrowser(p) => browser_rule(o, n, key, p, r),
        Mode::Form(step) => form_rule(o, n, key, step, r),
        Mode::ConfirmPopup => confirm_rule(o, n, key, r),
        Mode::Quit => n == App { should_quit: true, ..o } && r == Action::Nothing,
    }
}

} // verus!
