//! The form screens: header, step bar, the lines of each step and the footer.

use vstd::prelude::*;
use crate::app::rules::basic_field;
use crate::domain::json_value::{Json, JsonValue};
use crate::domain::text::{cat, decimal, owned, u64_to_text};
use crate::domain::transformers::{flag_at, join_with, num_at, u64_field, bool_field};
use crate::state::app_state::{step_at, step_index, step_title, FormStep, STEP_COUNT};
use crate::state::form_state::{FormState, ListItem};

verus! {

// ---- Header and step bar ----

/// The step counter of the header: `STEP i/n `, counting steps from one.
pub open spec fn step_counter(step: FormStep) -> Seq<char> {
    "STEP "@ + decimal(step_index(step) + 1) + "/"@ + decimal(STEP_COUNT as nat) + " "@
}

/// The step counter of the header for `step`.
pub fn step_counter_text(step: FormStep) -> (r: String)
    ensures
        r@ == step_counter(step),
{
    let idx = step.index();
    proof {
        crate::state::app_state::law_index_round_trip(step, idx as int);
    }
    let mut r = cat(owned("STEP "), u64_to_text((idx + 1) as u64).as_str());
    r = cat(r, "/");
    r = cat(r, u64_to_text(STEP_COUNT as u64).as_str());
    cat(r, " ")
}

/// How the step bar shows the step at position `i` while `cur` is the
/// current step: marked on both sides, ticked when done, padded otherwise.
pub open spec fn bar_piece(i: int, cur: FormStep) -> Seq<char> {
    let t = step_title(step_at(i)->0);
    if i == step_index(cur) {
        "▸"@ + t + "◂"@
    } else if i < step_index(cur) {
        "✓"@ + t
    } else {
        " "@ + t + " "@
    }
}

/// The first `k` pieces of the step bar, joined by `──`.
pub open spec fn step_bar(k: nat, cur: FormStep) -> Seq<char>
    decreases k,
{
    if k == 0 {
        Seq::empty()
    } else if k == 1 {
        bar_piece(0, cur)
    } else {
        step_bar((k - 1) as nat, cur) + "──"@ + bar_piece(k - 1, cur)
    }
}

/// The step bar for the current step `step`.
pub fn step_bar_text(step: FormStep) -> (r: String)
    ensures
        r@ == step_bar(STEP_COUNT as nat, step),
{
    let all = FormStep::all();
    let cur = step.index();
    let mut r = String::new();
    let mut i: usize = 0;
    while i < all.len()
        invariant
            i <= all@.len() == STEP_COUNT,
            cur == step_index(step),
            forall|j: int| 0 <= j < STEP_COUNT ==> step_at(j) == Some(#[trigger] all@[j]),
            r@ == step_bar(i as nat, step),
        decreases all.len() - i,
    {
        if i > 0 {
            r = cat(r, "──");
        }
        let title = all[i].title();
        assert(step_at(i as int) == Some(all@[i as int]));
        if i == cur {
            r = cat(r, "▸");
            r = cat(r, title);
            r = cat(r, "◂");
        } else if i < cur {
            r = cat(r, "✓");
            r = cat(r, title);
        } else {
            r = cat(r, " ");
            r = cat(r, title);
            r = cat(r, " ");
        }
        i = i + 1;
    }
    r
}

// ---- Footer ----

/// The key hints of a step's footer.
pub open spec fn footer_keys(step: FormStep) -> Seq<char> {
    match step {
        FormStep::PartNumber => "Enter Next | Esc Back"@,
        FormStep::BasicInfo => "Tab/↑↓ Fields | Enter Next | Esc Back"@,
        FormStep::Review => "Enter/s Save | Esc Back"@,
        _ => "↑↓ Select | a Add | e Edit | d Delete | Enter Next | Esc Back"@,
    }
}

/// The key hints of a step's footer.
pub fn footer_keys_text(step: FormStep) -> (r: &'static str)
    ensures
        r@ == footer_keys(step),
{
    match step {
        FormStep::PartNumber => "Enter Next | Esc Back",
        FormStep::BasicInfo => "Tab/↑↓ Fields | Enter Next | Esc Back",
        FormStep::Review => "Enter/s Save | Esc Back",
        _ => "↑↓ Select | a Add | e Edit | d Delete | Enter Next | Esc Back",
    }
}

/// Whether a status message reports an error: it starts with `ERROR`.
pub open spec fn is_error_status(msg: Seq<char>) -> bool {
    msg.len() >= 5 && msg.take(5) == "ERROR"@
}

/// Whether a status message reports an error (`str::starts_with("ERROR")`).
pub fn status_is_error(msg: &str) -> (b: bool)
    ensures
        b == is_error_status(msg@),
{
    let cs = crate::domain::text::chars_of(msg);
    proof {
        reveal_strlit("ERROR");
    }
    if cs.len() < 5 {
        return false;
    }
    let b = cs[0] == 'E' && cs[1] == 'R' && cs[2] == 'R' && cs[3] == 'O' && cs[4] == 'R';
    proof {
        if b {
            assert(msg@.take(5) =~= "ERROR"@);
        } else {
            if msg@.take(5) == "ERROR"@ {
                assert(msg@.take(5)[0] == 'E');
                assert(msg@.take(5)[1] == 'R');
                assert(msg@.take(5)[2] == 'R');
                assert(msg@.take(5)[3] == 'O');
                assert(msg@.take(5)[4] == 'R');
            }
        }
    }
    b
}

// ---- Part number and basic info ----

/// The text of the part-number step, with the cursor after the input.
pub open spec fn part_number_screen(pn: Seq<char>) -> Seq<char> {
    "\n  Part Number: "@ + pn
        + "█\n\n  Format: ###-PCA######-X\n  Example: 127-PCA000097-E\n\n  Type the part number and press Enter to continue."@
}

/// The text of the part-number step.
pub fn part_number_text(pn: &str) -> (r: String)
    ensures
        r@ == part_number_screen(pn@),
{
    let r = cat(owned("\n  Part Number: "), pn);
    cat(
        r,
        "█\n\n  Format: ###-PCA######-X\n  Example: 127-PCA000097-E\n\n  Type the part number and press Enter to continue.",
    )
}

/// The label of each text line of the basic-info step.
pub open spec fn basic_label(i: usize) -> Seq<char> {
    if i == 0 { "◈ UCD Path"@ }
    else if i == 1 { "◈ UCD Address"@ }
    else if i == 2 { "◈ UCD TC Series"@ }
    else if i == 3 { "◈ UCD Testcase ID"@ }
    else if i == 4 { "◈ CFPGA File Name"@ }
    else if i == 5 { "◈ CFPGA TCL Script"@ }
    else if i == 6 { "◈ DEDI Location"@ }
    else if i == 7 { "◈ DEDI Path"@ }
    else if i == 8 { "◈ T-MAMS Workflow Ver"@ }
    else if i == 9 { "◈ T-MAMS Schema Ver"@ }
    else if i == 10 { "◈ Prog Name"@ }
    else if i == 11 { "◈ Prog JSON"@ }
    else if i == 12 { "◈ Prog Stage Order"@ }
    else if i == 13 { "◈ Card Setup JSON"@ }
    else { "◈ Instruction Message"@ }
}

/// The marker in front of a line: an arrow on the focused one.
pub open spec fn focus_marker(focused: bool) -> Seq<char> {
    if focused { " ▸ "@ } else { "   "@ }
}

/// One line of the basic-info step: its marker, its label and its value,
/// the value followed by a cursor on the focused line.
pub struct FieldLine {
    pub focused: bool,
    pub marker: String,
    pub label: String,
    pub value: String,
}

/// The text field shown on line `i` of the basic-info step.
fn basic_value(f: &FormState, i: usize) -> (r: &String)
    requires
        i < 15,
    ensures
        basic_field(i) matches Some(t) && *r == f.text(t),
{
    if i == 0 { &f.ucd_path }
    else if i == 1 { &f.ucd_address }
    else if i == 2 { &f.ucd_tc_series }
    else if i == 3 { &f.ucd_testcase_id }
    else if i == 4 { &f.cfpga_file_name }
    else if i == 5 { &f.cfpga_tcl_script }
    else if i == 6 { &f.dedi_location }
    else if i == 7 { &f.dedi_path }
    else if i == 8 { &f.tmams_workflow_version }
    else if i == 9 { &f.tmams_schema_version }
    else if i == 10 { &f.prog_name }
    else if i == 11 { &f.prog_json }
    else if i == 12 { &f.prog_stage_order }
    else if i == 13 { &f.card_setup_json }
    else { &f.instruction_message }
}

fn basic_label_text(i: usize) -> (r: &'static str)
    ensures
        r@ == basic_label(i),
{
    if i == 0 { "◈ UCD Path" }
    else if i == 1 { "◈ UCD Address" }
    else if i == 2 { "◈ UCD TC Series" }
    else if i == 3 { "◈ UCD Testcase ID" }
    else if i == 4 { "◈ CFPGA File Name" }
    else if i == 5 { "◈ CFPGA TCL Script" }
    else if i == 6 { "◈ DEDI Location" }
    else if i == 7 { "◈ DEDI Path" }
    else if i == 8 { "◈ T-MAMS Workflow Ver" }
    else if i == 9 { "◈ T-MAMS Schema Ver" }
    else if i == 10 { "◈ Prog Name" }
    else if i == 11 { "◈ Prog JSON" }
    else if i == 12 { "◈ Prog Stage Order" }
    else if i == 13 { "◈ Card Setup JSON" }
    else { "◈ Instruction Message" }
}

/// Line `i` of the basic-info step shows field `i` of the form: the marker
/// and the cursor only when it is focused.
pub open spec fn is_basic_line(f: FormState, l: FieldLine, i: int) -> bool {
    let focused = f.focused_field == i;
    &&& l.focused == focused
    &&& l.marker@ == focus_marker(focused)
    &&& l.label@ == basic_label(i as usize) + ": "@
    &&& l.value@ == f.text(basic_field(i as usize)->0)@ + if focused {
        "█"@
    } else {
        Seq::empty()
    }
}

/// The lines of the basic-info step: one per text field, in focus order.
pub fn basic_info_lines(f: &FormState) -> (r: Vec<FieldLine>)
    ensures
        r@.len() == 15,
        forall|i: int| 0 <= i < 15 ==> is_basic_line(*f, #[trigger] r@[i], i),
{
    let mut r: Vec<FieldLine> = Vec::new();
    let mut i: usize = 0;
    while i < 15
        invariant
            i <= 15,
            r@.len() == i,
            forall|j: int| 0 <= j < i ==> is_basic_line(*f, #[trigger] r@[j], j),
        decreases 15 - i,
    {
        let focused = f.focused_field == i;
        let marker = if focused { owned(" ▸ ") } else { owned("   ") };
        let label = cat(owned(basic_label_text(i)), ": ");
        let v = basic_value(f, i);
        let value = if focused {
            cat(v.clone(), "█")
        } else {
            proof {
                assert(v@ + Seq::<char>::empty() =~= v@);
            }
            v.clone()
        };
        r.push(FieldLine { focused, marker, label, value });
        i = i + 1;
    }
    r
}

/// The line of the `Programming_Reqd` toggle, focused at position 15.
pub open spec fn programming_toggle(on: bool) -> Seq<char> {
    if on { "[●] Programming Required"@ } else { "[○] Programming Required"@ }
}

/// The marker and label of the `Programming_Reqd` toggle line.
pub fn programming_line(f: &FormState) -> (r: (String, &'static str))
    ensures
        r.0@ == focus_marker(f.focused_field == 15),
        r.1@ == programming_toggle(f.programming_reqd),
{
    let marker = if f.focused_field == 15 { owned(" ▸ ") } else { owned("   ") };
    let label = if f.programming_reqd { "[●] Programming Required" } else { "[○] Programming Required" };
    (marker, label)
}

// ---- The four lists ----

/// The text under key `k` of `v`, or `d` when it is missing or not a string.
pub open spec fn text_or(v: Json, k: Seq<char>, d: Seq<char>) -> Seq<char> {
    match v.field(k) {
        Some(Json::Str(t)) => t,
        _ => d,
    }
}

/// The text under key `k` of `v`, or `d`.
fn str_or(v: &JsonValue, k: &str, d: &str) -> (r: String)
    ensures
        r@ == text_or(v.model(), k@, d@),
{
    match v.get(k) {
        Some(x) => match x.as_str() {
            Some(t) => owned(t),
            None => owned(d),
        },
        None => owned(d),
    }
}

/// How many testcases an offline stage holds: the length of its
/// `Testcases` array, or 0.
pub open spec fn testcase_count(v: Json) -> nat {
    match v.field("Testcases"@) {
        Some(Json::Array(a)) => a.len(),
        _ => 0,
    }
}

/// The start of a list row: an arrow on the selected row, a diamond on the
/// others.
pub open spec fn row_mark(selected: bool) -> Seq<char> {
    if selected { "  ▸ "@ } else { "  ◇ "@ }
}

/// A row of the list of a step, for an item labelled `name` holding `v`.
pub open spec fn list_row(step: FormStep, name: Seq<char>, v: Json, selected: bool) -> Seq<char> {
    match step {
        FormStep::OfflineStages => row_mark(selected) + "#"@ + text_or(v, "stageOrder"@, "?"@) + " "@ + name
            + " │ tool:"@ + text_or(v, "Tool"@, "?"@) + " │ "@ + decimal(testcase_count(v)) + " testcases"@,
        FormStep::DiagnosticsStages => row_mark(selected) + "#"@ + text_or(v, "stageOrder"@, "?"@) + " "@ + name,
        FormStep::Cards => row_mark(selected) + name + " ["@ + text_or(v, "partNumber"@, "?"@) + "] type="@
            + text_or(v, "cardType"@, "?"@),
        FormStep::InteractiveQueries => row_mark(selected) + name + " (id="@ + decimal(num_at(v, "id"@) as nat)
            + ")"@ + (if flag_at(v, "isSfpTest"@) { " [SFP]"@ } else { Seq::empty() }) + " "@ + text_or(
            v,
            "message"@,
            Seq::empty(),
        ),
        _ => Seq::empty(),
    }
}

/// A row of the list of a step.
pub fn list_row_text(step: FormStep, item: &ListItem, selected: bool) -> (r: String)
    ensures
        r@ == list_row(step, item.name@, item.value.model(), selected),
{
    proof {
        reveal_strlit("");
    }
    let mark = if selected { owned("  ▸ ") } else { owned("  ◇ ") };
    let v = &item.value;
    match step {
        FormStep::OfflineStages => {
            let count: usize = match v.get("Testcases") {
                Some(t) => match t.as_array() {
                    Some(a) => a.len(),
                    None => 0,
                },
                None => 0,
            };
            let mut r = cat(mark, "#");
            r = cat(r, str_or(v, "stageOrder", "?").as_str());
            r = cat(r, " ");
            r = cat(r, item.name.as_str());
            r = cat(r, " │ tool:");
            r = cat(r, str_or(v, "Tool", "?").as_str());
            r = cat(r, " │ ");
            r = cat(r, u64_to_text(count as u64).as_str());
            cat(r, " testcases")
        },
        FormStep::DiagnosticsStages => {
            let mut r = cat(mark, "#");
            r = cat(r, str_or(v, "stageOrder", "?").as_str());
            r = cat(r, " ");
            cat(r, item.name.as_str())
        },
        FormStep::Cards => {
            let mut r = cat(mark, item.name.as_str());
            r = cat(r, " [");
            r = cat(r, str_or(v, "partNumber", "?").as_str());
            r = cat(r, "] type=");
            cat(r, str_or(v, "cardType", "?").as_str())
        },
        FormStep::InteractiveQueries => {
            let mut r = cat(mark, item.name.as_str());
            r = cat(r, " (id=");
            r = cat(r, u64_to_text(u64_field(v, "id")).as_str());
            r = cat(r, ")");
            if bool_field(v, "isSfpTest") {
                r = cat(r, " [SFP]");
            } else {
                proof {
                    assert(r@ + Seq::<char>::empty() =~= r@);
                }
            }
            r = cat(r, " ");
            cat(r, str_or(v, "message", "").as_str())
        },
        _ => String::new(),
    }
}

/// The rows of a list whose selection is `selected`, each with whether it
/// is the selected one.
pub fn list_rows(step: FormStep, items: &Vec<ListItem>, selected: Option<usize>) -> (r: Vec<(bool, String)>)
    ensures
        r@.len() == items@.len(),
        forall|i: int|
            0 <= i < r@.len() ==> (#[trigger] r@[i]).0 == (selected == Some(i as usize)) && r@[i].1@
                == list_row(step, items@[i].name@, items@[i].value.model(), r@[i].0),
{
    let mut r: Vec<(bool, String)> = Vec::new();
    let mut i: usize = 0;
    while i < items.len()
        invariant
            i <= items@.len(),
            r@.len() == i,
            forall|j: int|
                0 <= j < i ==> (#[trigger] r@[j]).0 == (selected == Some(j as usize)) && r@[j].1@
                    == list_row(step, items@[j].name@, items@[j].value.model(), r@[j].0),
        decreases items.len() - i,
    {
        let sel = match selected {
            Some(s) => s == i,
            None => false,
        };
        r.push((sel, list_row_text(step, &items[i], sel)));
        i = i + 1;
    }
    r
}

/// The heading of a step's list.
pub open spec fn list_heading(step: FormStep) -> Seq<char> {
    match step {
        FormStep::OfflineStages => "OFFLINE STAGES"@,
        FormStep::DiagnosticsStages => "DIAGNOSTICS STAGES"@,
        FormStep::Cards => "CARDS"@,
        FormStep::InteractiveQueries => "INTERACTIVE QUERIES"@,
        _ => Seq::empty(),
    }
}

/// The heading of a step's list.
pub fn list_heading_text(step: FormStep) -> (r: &'static str)
    ensures
        r@ == list_heading(step),
{
    proof {
        reveal_strlit("");
    }
    match step {
        FormStep::OfflineStages => "OFFLINE STAGES",
        FormStep::DiagnosticsStages => "DIAGNOSTICS STAGES",
        FormStep::Cards => "CARDS",
        FormStep::InteractiveQueries => "INTERACTIVE QUERIES",
        _ => "",
    }
}

/// The title over a list that is not empty: its heading and length.
pub fn list_title_text(step: FormStep, n: usize) -> (r: String)
    ensures
        r@ == list_heading(step) + " ("@ + decimal(n as nat) + ")"@,
{
    let r = cat(owned(list_heading_text(step)), " (");
    let r = cat(r, u64_to_text(n as u64).as_str());
    cat(r, ")")
}

/// What a step shows in place of an empty list.
pub open spec fn empty_list(step: FormStep) -> Seq<char> {
    match step {
        FormStep::OfflineStages => "\n  No offline stages configured.\n\n  Press 'a' to add a new stage."@,
        FormStep::DiagnosticsStages => "\n  No diagnostics stages configured.\n\n  Press 'a' to add a new stage."@,
        FormStep::Cards => "\n  No cards configured.\n\n  Press 'a' to add a card."@,
        FormStep::InteractiveQueries => "\n  No interactive queries configured.\n\n  Press 'a' to add a query."@,
        _ => Seq::empty(),
    }
}

/// What a step shows in place of an empty list.
pub fn empty_list_text(step: FormStep) -> (r: &'static str)
    ensures
        r@ == empty_list(step),
{
    proof {
        reveal_strlit("");
    }
    match step {
        FormStep::OfflineStages => "\n  No offline stages configured.\n\n  Press 'a' to add a new stage.",
        FormStep::DiagnosticsStages => "\n  No diagnostics stages configured.\n\n  Press 'a' to add a new stage.",
        FormStep::Cards => "\n  No cards configured.\n\n  Press 'a' to add a card.",
        FormStep::InteractiveQueries => "\n  No interactive queries configured.\n\n  Press 'a' to add a query.",
        _ => "",
    }
}

// ---- The offline-stage popup ----

/// The names of the testcases of the stage being edited.
pub open spec fn testcase_names(items: Seq<ListItem>) -> Seq<Seq<char>> {
    Seq::new(items.len(), |i: int| items[i].name@)
}

/// The details of the offline stage being edited, with its testcases one
/// per line, or `(none)` when their names join to nothing.
pub open spec fn offline_details(f: FormState) -> Seq<char> {
    let summary = join_with(testcase_names(f.os_testcases@), "\n    "@);
    "Name: "@ + f.os_name@ + "\nStage Order: "@ + f.os_stage_order@ + "\nTool: "@ + f.os_tool@
        + "\nSteps (comma-sep): "@ + f.os_steps@ + "\n\nTestcases ("@ + decimal(f.os_testcases@.len())
        + "):\n    "@ + (if summary.len() == 0 { "(none)"@ } else { summary })
        + "\n\n[Press 't' to add testcase]"@
}

/// The details of the offline stage being edited.
pub fn offline_details_text(f: &FormState) -> (r: String)
    ensures
        r@ == offline_details(*f),
{
    let ghost names = testcase_names(f.os_testcases@);
    let mut summary = String::new();
    let mut i: usize = 0;
    while i < f.os_testcases.len()
        invariant
            i <= f.os_testcases@.len(),
            names == testcase_names(f.os_testcases@),
            summary@ == join_with(names.take(i as int), "\n    "@),
        decreases f.os_testcases.len() - i,
    {
        proof {
            assert(names.take(i + 1).drop_last() =~= names.take(i as int));
            assert(names.take(i + 1).last() == f.os_testcases@[i as int].name@);
        }
        if i > 0 {
            summary = cat(summary, "\n    ");
        } else {
            proof {
                assert(names.take(1)[0] == names[0]);
            }
        }
        summary = cat(summary, f.os_testcases[i].name.as_str());
        proof {
            if i == 0 {
                assert(summary@ =~= names.take(1)[0]);
            }
        }
        i = i + 1;
    }
    proof {
        assert(names.take(f.os_testcases@.len() as int) =~= names);
    }
    let mut r = cat(owned("Name: "), f.os_name.as_str());
    r = cat(r, "\nStage Order: ");
    r = cat(r, f.os_stage_order.as_str());
    r = cat(r, "\nTool: ");
    r = cat(r, f.os_tool.as_str());
    r = cat(r, "\nSteps (comma-sep): ");
    r = cat(r, f.os_steps.as_str());
    r = cat(r, "\n\nTestcases (");
    r = cat(r, u64_to_text(f.os_testcases.len() as u64).as_str());
    r = cat(r, "):\n    ");
    if summary.as_str().unicode_len() == 0 {
        r = cat(r, "(none)");
    } else {
        r = cat(r, summary.as_str());
    }
    cat(r, "\n\n[Press 't' to add testcase]")
}

/// The label of the SFP toggle of the query popup.
pub fn sfp_label(on: bool) -> (r: &'static str)
    ensures
        r@ == if on { "[●] SFP Test"@ } else { "[○] SFP Test"@ },
{
    if on { "[●] SFP Test" } else { "[○] SFP Test" }
}

} // verus!
