use dms_config::app::mode::Mode;
use dms_config::domain::json_value::JsonValue;
use dms_config::domain::transformers::default_template;
use dms_config::state::app_state::{AppState, FormStep};
use dms_config::state::file_state::FileState;
use dms_config::state::form_state::{FormState, ListItem};

#[test]
fn steps_are_in_wizard_order() {
    let all = FormStep::all();
    assert_eq!(all.len(), 7);
    for (i, s) in all.iter().enumerate() {
        assert_eq!(s.index(), i);
        assert_eq!(FormStep::from_index(i), Some(*s));
    }
    assert_eq!(FormStep::from_index(7), None);
    assert_eq!(FormStep::Cards.index(), 4);
    assert_eq!(FormStep::PartNumber.title(), "Part Number");
    assert_eq!(FormStep::BasicInfo.title(), "Basic Info & Hardware Config");
    assert_eq!(FormStep::Review.title(), "Review & Save");
}

#[test]
fn file_selection_stays_in_the_list() {
    let mut fs = FileState::new();
    assert!(fs.selected_file().is_none());
    fs.select_next();
    assert_eq!(fs.selected, 0);
    fs.select_prev();
    assert_eq!(fs.selected, 0);
    fs.files = vec![
        ("a".to_string(), "p/a.json".to_string()),
        ("b".to_string(), "p/b.json".to_string()),
    ];
    fs.select_next();
    assert_eq!(fs.selected, 1);
    fs.select_next();
    assert_eq!(fs.selected, 1);
    assert_eq!(fs.selected_file().map(|e| e.1.as_str()), Some("p/b.json"));
    fs.select_prev();
    fs.select_prev();
    assert_eq!(fs.selected, 0);
}

#[test]
fn status_messages() {
    let mut s = AppState::new();
    assert_eq!(s.mode, Mode::Dashboard);
    s.set_error("boom");
    assert_eq!(s.status_message.as_deref(), Some("ERROR: boom"));
    s.set_info("saved");
    assert_eq!(s.status_message.as_deref(), Some("saved"));
    s.clear_status();
    assert_eq!(s.status_message, None);
}

#[test]
fn reset_for_new_and_edit() {
    let mut s = AppState::new();
    s.form.part_number = "x".to_string();
    s.reset_for_new();
    assert_eq!(s.mode, Mode::Form(FormStep::PartNumber));
    assert_eq!(s.form.part_number, "");
    assert!(matches!(s.config, JsonValue::Null));
    assert!(!s.is_editing);
    s.reset_for_edit(JsonValue::Object(vec![]), "p/x.json".to_string());
    assert_eq!(s.mode, Mode::Form(FormStep::BasicInfo));
    assert!(s.is_editing);
    assert_eq!(s.editing_file_path.as_deref(), Some("p/x.json"));
}

#[test]
fn clearing_sub_forms() {
    let mut f = FormState::new();
    f.os_name = "n".to_string();
    f.os_testcases.push(ListItem::new("t".to_string(), JsonValue::Null));
    f.clear_offline_stage_fields();
    assert_eq!(f.os_name, "");
    assert!(f.os_testcases.is_empty());
    f.card_name = "c".to_string();
    f.card_eeprom_read_pos = "3".to_string();
    f.clear_card_fields();
    assert_eq!(f.card_name, "");
    assert_eq!(f.card_eeprom_read_pos, "");
    f.iq_is_sfp_test = true;
    f.iq_key = "k".to_string();
    f.clear_query_fields();
    assert!(!f.iq_is_sfp_test);
    assert_eq!(f.iq_key, "");
    f.tc_name = "x".to_string();
    f.clear_testcase_fields();
    assert_eq!(f.tc_name, "");
    f.ds_steps = "a".to_string();
    f.clear_diagnostics_stage_fields();
    assert_eq!(f.ds_steps, "");
}

#[test]
fn template_loads_back_with_its_part_number() {
    let config = default_template("127-PCA000097-E");
    let f = FormState::from_config(&config);
    assert_eq!(f.part_number, "127-PCA000097-E");
    assert_eq!(f.cards.len(), 1);
    assert_eq!(f.cards[0].name, "");
    assert_eq!(f.cards[0].value.get("partNumber").and_then(|v| v.as_str()), Some("127-PCA000097-E"));
    assert!(f.offline_stages.is_empty());
    assert!(f.diagnostics_stages.is_empty());
    assert!(f.interactive_queries.is_empty());
    assert!(!f.programming_reqd);
    assert_eq!(f.ucd_path, "");
    assert_eq!(f.card_setup_json, "");
    assert_eq!(f.instruction_message, "");
}
