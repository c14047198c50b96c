use dms_config::app::mode::BrowserPurpose;
use dms_config::domain::json_value::{JsonNumber, JsonValue};
use dms_config::domain::transformers::{build_card, build_interactive_query, build_offline_stage, build_testcase, string_to_steps, empty_array};
use dms_config::state::app_state::FormStep;
use dms_config::state::file_state::FileState;
use dms_config::state::form_state::{FormState, ListItem};
use dms_config::ui::dashboard::{menu_entries, separator_dashes};
use dms_config::ui::file_browser::{browser_list_title_text, empty_browser_text, file_rows};
use dms_config::ui::popup::{form_popup_height, form_popup_text};
use dms_config::ui::stepper::{
    basic_info_lines, footer_keys_text, list_row_text, list_rows, list_title_text, offline_details_text,
    part_number_text, status_is_error, step_bar_text, step_counter_text,
};

#[test]
fn header_counts_steps_from_one() {
    assert_eq!(step_counter_text(FormStep::PartNumber), "STEP 1/7 ");
    assert_eq!(step_counter_text(FormStep::Cards), "STEP 5/7 ");
}

#[test]
fn step_bar_marks_done_current_and_later_steps() {
    assert_eq!(
        step_bar_text(FormStep::OfflineStages),
        "✓Part Number──✓Basic Info & Hardware Config──▸Offline Stages◂── Diagnostics Stages ── Cards ── Interactive Queries ── Review & Save "
    );
}

#[test]
fn footer_and_status() {
    assert_eq!(footer_keys_text(FormStep::Review), "Enter/s Save | Esc Back");
    assert_eq!(footer_keys_text(FormStep::Cards), "↑↓ Select | a Add | e Edit | d Delete | Enter Next | Esc Back");
    assert!(status_is_error("ERROR: x"));
    assert!(!status_is_error("ERRO"));
    assert!(!status_is_error("Saved"));
}

#[test]
fn part_number_screen() {
    assert!(part_number_text("127").starts_with("\n  Part Number: 127█\n\n  Format: ###-PCA######-X"));
}

#[test]
fn basic_info_marks_the_focused_line() {
    let mut f = FormState::new();
    f.ucd_address = "0x10".to_string();
    f.focused_field = 1;
    let lines = basic_info_lines(&f);
    assert_eq!(lines.len(), 15);
    assert_eq!(lines[1].marker, " ▸ ");
    assert_eq!(lines[1].label, "◈ UCD Address: ");
    assert_eq!(lines[1].value, "0x10█");
    assert!(lines[1].focused);
    assert_eq!(lines[0].marker, "   ");
    assert_eq!(lines[0].value, "");
    assert_eq!(lines[14].label, "◈ Instruction Message: ");
}

#[test]
fn list_rows_show_each_kind() {
    let tcs = JsonValue::Array(vec![build_testcase(1, "a", 1), build_testcase(2, "b", 2)]);
    let stage = ListItem::new("Boot".to_string(), build_offline_stage("Boot", "3", "dms", &string_to_steps("x"), &tcs));
    assert_eq!(list_row_text(FormStep::OfflineStages, &stage, true), "  ▸ #3 Boot │ tool:dms │ 2 testcases");
    let bare = ListItem::new("Bare".to_string(), JsonValue::Object(vec![]));
    assert_eq!(list_row_text(FormStep::OfflineStages, &bare, false), "  ◇ #? Bare │ tool:? │ 0 testcases");
    assert_eq!(list_row_text(FormStep::DiagnosticsStages, &bare, false), "  ◇ #? Bare");
    let card = ListItem::new("Main".to_string(), build_card("Main", "PN", "io", "", "", "", 0));
    assert_eq!(list_row_text(FormStep::Cards, &card, false), "  ◇ Main [PN] type=io");
    let q = ListItem::new("k".to_string(), build_interactive_query("k", &JsonValue::Null, "hi", true, 4));
    assert_eq!(list_row_text(FormStep::InteractiveQueries, &q, true), "  ▸ k (id=4) [SFP] hi");
    let q2 = ListItem::new("k2".to_string(), build_interactive_query("k2", &JsonValue::Number(JsonNumber::Unsigned(1)), "", false, 0));
    assert_eq!(list_row_text(FormStep::InteractiveQueries, &q2, false), "  ◇ k2 (id=0) ");
    let rows = list_rows(FormStep::Cards, &vec![card, bare], Some(1));
    assert_eq!(rows[0].0, false);
    assert_eq!(rows[1], (true, "  ▸ Bare [?] type=?".to_string()));
    assert_eq!(list_title_text(FormStep::Cards, 2), "CARDS (2)");
}

#[test]
fn offline_stage_details() {
    let mut f = FormState::new();
    f.os_name = "Boot".to_string();
    assert_eq!(
        offline_details_text(&f),
        "Name: Boot\nStage Order: \nTool: \nSteps (comma-sep): \n\nTestcases (0):\n    (none)\n\n[Press 't' to add testcase]"
    );
    f.os_testcases.push(ListItem::new("1: a (id=1)".to_string(), empty_array()));
    f.os_testcases.push(ListItem::new("2: b (id=2)".to_string(), empty_array()));
    assert!(offline_details_text(&f).contains("Testcases (2):\n    1: a (id=1)\n    2: b (id=2)\n\n"));
}

#[test]
fn popup_text_and_height() {
    let fields = vec![("Key".to_string(), "k".to_string()), ("Value".to_string(), "".to_string())];
    assert_eq!(form_popup_text(&fields, 1), "  Key: k\n\n▸ Value: █\n");
    assert_eq!(form_popup_text(&vec![], 0), "");
    assert_eq!(form_popup_height(2, 40), 12);
    assert_eq!(form_popup_height(7, 20), 16);
    assert_eq!(form_popup_height(1, 2), 0);
}

#[test]
fn browser_texts() {
    let mut fs = FileState::new();
    fs.files = vec![("a".to_string(), "p".to_string()), ("b".to_string(), "q".to_string())];
    fs.selected = 1;
    let rows = file_rows(&fs);
    assert_eq!(rows, vec![(false, "  ◇ a  ".to_string()), (true, "  ▸ b  ".to_string())]);
    assert_eq!(browser_list_title_text(BrowserPurpose::Create, 2), "SCAN & LIST / CREATE (2 found)");
    assert!(empty_browser_text(BrowserPurpose::Create).contains("press 'n' to create new"));
    assert_eq!(
        empty_browser_text(BrowserPurpose::Edit),
        "\n  No JSON files found in INFO_JSON/\n\n  Nothing to edit.\n  Press Esc to go back."
    );
}

#[test]
fn dashboard_texts() {
    let entries = menu_entries(1);
    assert_eq!(entries[0].text, "    Info Creator    ");
    assert!(entries[0].underline.is_none());
    assert_eq!(entries[1].text, "▓▓▓  Edit Existing Config  ▓▓▓");
    assert_eq!(entries[1].underline.as_deref(), Some("     ────────────────────     "));
    assert_eq!(separator_dashes(5), "───");
    assert_eq!(separator_dashes(1), "");
}
