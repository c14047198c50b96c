use dms_config::app::app::{Action, App, Key};
use dms_config::app::mode::{BrowserPurpose, Mode};
use dms_config::domain::json_value::JsonValue;
use dms_config::state::app_state::FormStep;
use dms_config::state::form_state::FormState;

fn press(app: &mut App, key: Key) -> Action {
    app.handle_key(key)
}

fn type_text(app: &mut App, s: &str) {
    for c in s.chars() {
        assert!(matches!(press(app, Key::Char(c)), Action::Nothing));
    }
}

fn status(app: &App) -> Option<&str> {
    app.state.status_message.as_deref()
}

/// A controller on the part-number step of a new configuration.
fn new_config() -> App {
    let mut app = App::new("INFO_JSON".to_string());
    assert!(matches!(press(&mut app, Key::Enter), Action::ListFiles));
    assert_eq!(app.state.mode, Mode::FileBrowser(BrowserPurpose::Create));
    app.files_listed(Ok(vec![]));
    press(&mut app, Key::Char('n'));
    assert_eq!(app.state.mode, Mode::Form(FormStep::PartNumber));
    app
}

#[test]
fn dashboard_navigation_and_quit() {
    let mut app = App::new("INFO_JSON".to_string());
    assert_eq!(app.dashboard_selected, 0);
    press(&mut app, Key::Up);
    assert_eq!(app.dashboard_selected, 0);
    press(&mut app, Key::Char('j'));
    assert_eq!(app.dashboard_selected, 1);
    press(&mut app, Key::Down);
    assert_eq!(app.dashboard_selected, 1);
    assert!(matches!(press(&mut app, Key::Enter), Action::ListFiles));
    assert_eq!(app.state.mode, Mode::FileBrowser(BrowserPurpose::Edit));
    press(&mut app, Key::Esc);
    assert_eq!(app.state.mode, Mode::Dashboard);
    press(&mut app, Key::Char('q'));
    assert!(app.should_quit);
    assert_eq!(app.state.mode, Mode::Quit);
}

#[test]
fn browser_opens_the_selected_file() {
    let mut app = App::new("INFO_JSON".to_string());
    press(&mut app, Key::Down);
    press(&mut app, Key::Enter);
    app.files_listed(Ok(vec![
        ("a".to_string(), "INFO_JSON/a.json".to_string()),
        ("b".to_string(), "INFO_JSON/b.json".to_string()),
    ]));
    press(&mut app, Key::Down);
    press(&mut app, Key::Down);
    assert_eq!(app.file_state.selected, 1);
    match press(&mut app, Key::Enter) {
        Action::LoadConfig(p) => assert_eq!(p, "INFO_JSON/b.json"),
        _ => panic!("expected a load"),
    }
    // 'n' starts nothing when editing.
    press(&mut app, Key::Char('n'));
    assert_eq!(app.state.mode, Mode::FileBrowser(BrowserPurpose::Edit));
    app.config_loaded(Err("Failed to read file: gone".to_string()), "INFO_JSON/b.json".to_string());
    assert_eq!(status(&app), Some("ERROR: Failed to read file: gone"));
}

#[test]
fn listing_error_is_shown() {
    let mut app = App::new("INFO_JSON".to_string());
    press(&mut app, Key::Enter);
    app.files_listed(Err("Failed to read directory: denied".to_string()));
    assert_eq!(status(&app), Some("ERROR: Failed to read directory: denied"));
}

#[test]
fn invalid_part_number_is_refused() {
    let mut app = new_config();
    type_text(&mut app, "12-PCA");
    press(&mut app, Key::Enter);
    assert_eq!(app.state.mode, Mode::Form(FormStep::PartNumber));
    assert_eq!(
        status(&app),
        Some("ERROR: Part number must be 15 characters (got 6). Format: ###-PCA######-X")
    );
    press(&mut app, Key::Backspace);
    assert_eq!(app.state.form.part_number, "12-PC");
    assert_eq!(status(&app), None);
}

#[test]
fn basic_info_fields_cycle_and_toggle() {
    let mut app = new_config();
    type_text(&mut app, "127-PCA000097-E");
    press(&mut app, Key::Enter);
    assert_eq!(app.state.mode, Mode::Form(FormStep::BasicInfo));
    type_text(&mut app, "/ucd");
    assert_eq!(app.state.form.ucd_path, "/ucd");
    press(&mut app, Key::Up);
    assert_eq!(app.state.form.focused_field, 15);
    press(&mut app, Key::Char(' '));
    assert!(app.state.form.programming_reqd);
    press(&mut app, Key::Tab);
    assert_eq!(app.state.form.focused_field, 0);
    for _ in 0..13 {
        press(&mut app, Key::Tab);
    }
    type_text(&mut app, "setup.json");
    assert_eq!(app.state.form.card_setup_json, "setup.json");
    press(&mut app, Key::Esc);
    assert_eq!(app.state.mode, Mode::Form(FormStep::PartNumber));
}

#[test]
fn whole_configuration_is_saved_and_loads_back() {
    let mut app = new_config();
    type_text(&mut app, "127-PCA000097-E");
    press(&mut app, Key::Enter);
    type_text(&mut app, "/ucd/path");
    press(&mut app, Key::Down);
    press(&mut app, Key::Down);
    type_text(&mut app, "S1");
    press(&mut app, Key::Enter);
    assert_eq!(app.state.mode, Mode::Form(FormStep::OfflineStages));

    // An offline stage with one testcase.
    press(&mut app, Key::Char('a'));
    assert!(app.state.form.offline_stage_editing);
    type_text(&mut app, "Warmup");
    press(&mut app, Key::Tab);
    type_text(&mut app, "1");
    press(&mut app, Key::Tab);
    type_text(&mut app, "dms");
    press(&mut app, Key::Tab);
    type_text(&mut app, "a, b");
    press(&mut app, Key::Char('t'));
    assert!(app.state.form.os_testcase_editing);
    type_text(&mut app, "5");
    press(&mut app, Key::Tab);
    type_text(&mut app, "power");
    press(&mut app, Key::Tab);
    type_text(&mut app, "2");
    press(&mut app, Key::Enter);
    assert!(!app.state.form.os_testcase_editing);
    assert_eq!(app.state.form.os_testcases.len(), 1);
    press(&mut app, Key::Enter);
    assert!(!app.state.form.offline_stage_editing);
    assert_eq!(app.state.form.offline_stages.len(), 1);
    assert_eq!(app.state.form.offline_stages[0].name, "Warmup");
    press(&mut app, Key::Enter);
    assert_eq!(app.state.mode, Mode::Form(FormStep::DiagnosticsStages));

    // A diagnostics stage without a name is refused.
    press(&mut app, Key::Char('a'));
    press(&mut app, Key::Enter);
    assert_eq!(status(&app), Some("ERROR: Stage name is required"));
    press(&mut app, Key::Esc);
    press(&mut app, Key::Enter);
    assert_eq!(app.state.mode, Mode::Form(FormStep::Cards));

    // A card; its part number starts as the configuration's.
    press(&mut app, Key::Char('a'));
    assert_eq!(app.state.form.card_part_number, "127-PCA000097-E");
    type_text(&mut app, "Main");
    press(&mut app, Key::Enter);
    assert_eq!(app.state.form.cards.len(), 1);
    press(&mut app, Key::Enter);
    assert_eq!(app.state.mode, Mode::Form(FormStep::InteractiveQueries));
    press(&mut app, Key::Enter);
    assert_eq!(app.state.mode, Mode::Form(FormStep::Review));
    press(&mut app, Key::Char('s'));
    assert_eq!(app.state.mode, Mode::ConfirmPopup);

    let (pn, config) = match press(&mut app, Key::Char('y')) {
        Action::SaveConfig { part_number, config } => (part_number, config),
        _ => panic!("expected a save"),
    };
    assert_eq!(pn, "127-PCA000097-E");
    app.config_saved(Ok(()));
    assert_eq!(app.state.mode, Mode::Dashboard);
    assert_eq!(status(&app), Some("Configuration saved successfully!"));

    // Loading what was saved gives the same form contents back.
    let info = config.get("Info").expect("Info");
    assert_eq!(
        info.get("UCD").and_then(|u| u.get("tcSeries")).and_then(|s| s.as_str()),
        Some("S1")
    );
    let g = FormState::from_config(&config);
    assert_eq!(g.ucd_path, "/ucd/path");
    assert_eq!(g.ucd_tc_series, "S1");
    assert_eq!(g.part_number, "127-PCA000097-E");
    assert_eq!(g.offline_stages.len(), 1);
    assert_eq!(g.offline_stages[0].name, "Warmup");
    let tcs = g.offline_stages[0].value.get("Testcases").and_then(|t| t.as_array()).expect("testcases");
    assert_eq!(tcs[0].get("testcaseName").and_then(|n| n.as_str()), Some("power"));
    assert_eq!(g.cards[0].name, "Main");
    assert_eq!(g.diagnostics_stages.len(), 0);
}

#[test]
fn loaded_configuration_opens_on_basic_info() {
    let mut app = App::new("INFO_JSON".to_string());
    let config = JsonValue::Object(vec![(
        "Info".to_string(),
        JsonValue::Object(vec![
            ("intruction_message".to_string(), JsonValue::Str("hello".to_string())),
            ("Programming_Reqd".to_string(), JsonValue::Bool(true)),
        ]),
    )]);
    app.config_loaded(Ok(config), "INFO_JSON/x.json".to_string());
    assert_eq!(app.state.mode, Mode::Form(FormStep::BasicInfo));
    assert!(app.state.is_editing);
    assert_eq!(app.state.editing_file_path.as_deref(), Some("INFO_JSON/x.json"));
    assert_eq!(app.state.form.instruction_message, "hello");
    assert!(app.state.form.programming_reqd);
    // No card: the part number reads as empty.
    assert_eq!(app.state.form.part_number, "");
}

#[test]
fn list_selection_and_delete() {
    let mut app = new_config();
    type_text(&mut app, "127-PCA000097-E");
    press(&mut app, Key::Enter);
    press(&mut app, Key::Enter);
    press(&mut app, Key::Enter);
    press(&mut app, Key::Enter);
    assert_eq!(app.state.mode, Mode::Form(FormStep::Cards));
    for name in ["A", "B"] {
        press(&mut app, Key::Char('a'));
        type_text(&mut app, name);
        press(&mut app, Key::Enter);
    }
    assert_eq!(app.state.form.cards.len(), 2);
    assert_eq!(app.state.form.cards_selected, None);
    press(&mut app, Key::Down);
    assert_eq!(app.state.form.cards_selected, Some(1));
    press(&mut app, Key::Up);
    assert_eq!(app.state.form.cards_selected, Some(0));
    press(&mut app, Key::Char('d'));
    assert_eq!(app.state.form.cards.len(), 1);
    assert_eq!(app.state.form.cards[0].name, "B");
    assert_eq!(app.state.form.cards_selected, None);
}
