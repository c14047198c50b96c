//! What committing a popup saves, stated field by field: each saved value
//! reads back, under its own key, what was typed in the popup.

use vstd::prelude::*;
use crate::app::app::{Action, App, Key};
use crate::app::mode::Mode;
use crate::app::rules::{key_rule, testcase_items};
use crate::domain::json_value::{Json, NumModel};
use crate::domain::text::{is_blank, parse_u64_spec};
use crate::domain::transformers::{
    flag_at, is_plain_step, law_card_round_trip, law_diagnostics_stage_round_trip,
    law_interactive_query_round_trip, law_offline_stage_round_trip, law_steps_round_trip,
    law_testcase_round_trip, num_at, steps_json, text_at, value_or,
};
use crate::state::app_state::FormStep;
use crate::state::form_state::{items_model, values_model, ListItem};

verus! {

/// The number typed in a field: its value when it reads as a `u64`, else 0.
pub open spec fn typed_number(s: Seq<char>) -> u64 {
    match parse_u64_spec(s) {
        Some(k) => k,
        None => 0,
    }
}

/// The value typed in the query popup: nothing (`null`) when empty, a
/// number when it reads as a `u64`, else the text.
pub open spec fn typed_value(s: Seq<char>) -> Json {
    if s.len() == 0 {
        Json::Null
    } else {
        match parse_u64_spec(s) {
            Some(u) => Json::Number(NumModel::Unsigned(u)),
            None => Json::Str(s),
        }
    }
}

/// Where a committed item goes: over the selected item, or after the last.
pub open spec fn slot(sel: Option<usize>, len: nat) -> int {
    match sel {
        Some(i) => i as int,
        None => len as int,
    }
}

/// An item placed at `slot` in a list read back: the list holds it there.
proof fn lemma_placed_item(old_items: Seq<ListItem>, new_items: Seq<ListItem>, sel: Option<usize>, item: (Seq<char>, Json))
    requires
        sel matches Some(i) ==> i < old_items.len(),
        items_model(new_items) == crate::app::rules::placed(items_model(old_items), sel, item),
    ensures
        0 <= slot(sel, old_items.len()) < new_items.len(),
        new_items[slot(sel, old_items.len())].name@ == item.0,
        new_items[slot(sel, old_items.len())].value.model() == item.1,
{
    let i = slot(sel, old_items.len());
    assert(items_model(new_items).len() == new_items.len());
    assert(items_model(old_items).len() == old_items.len());
    assert(items_model(new_items)[i] == item);
}

/// Committing the testcase popup saves, over the selected testcase or after
/// the last one, a testcase whose `testcaseId` is the number typed in the id
/// field, whose `testcaseName` is the typed name and whose `testcasePosition`
/// is the number typed in the position field.
pub proof fn law_testcase_commit(o: App, n: App, r: Action)
    requires
        o.wf(),
        o.state.mode is Form,
        o.state.form.os_testcase_editing,
        key_rule(o, n, Key::Enter, r),
    ensures
        ({
            let f = o.state.form;
            let i = slot(f.os_testcases_selected, f.os_testcases@.len());
            let tc = n.state.form.os_testcases@[i].value.model();
            &&& 0 <= i < n.state.form.os_testcases@.len()
            &&& num_at(tc, "testcaseId"@) == typed_number(f.tc_id@)
            &&& text_at(tc, "testcaseName"@) == f.tc_name@
            &&& num_at(tc, "testcasePosition"@) == typed_number(f.tc_position@)
        }),
{
    let f = o.state.form;
    let id = typed_number(f.tc_id@);
    let pos = typed_number(f.tc_position@);
    let item = (crate::app::rules::testcase_label(pos, f.tc_name@, id), crate::domain::transformers::testcase_json(id, f.tc_name@, pos));
    lemma_placed_item(f.os_testcases@, n.state.form.os_testcases@, f.os_testcases_selected, item);
    law_testcase_round_trip(id, f.tc_name@, pos);
}

/// Committing the offline-stage popup with a stage name saves, over the
/// selected stage or after the last one, a stage holding the typed name,
/// stage order and tool under `Name`, `stageOrder` and `Tool`, the steps
/// parsed from the typed text, and the testcases of the popup.
pub proof fn law_offline_stage_commit(o: App, n: App, r: Action)
    requires
        o.wf(),
        o.state.mode is Form,
        !o.state.form.os_testcase_editing,
        o.state.form.offline_stage_editing,
        !is_blank(o.state.form.os_name@),
        key_rule(o, n, Key::Enter, r),
    ensures
        ({
            let f = o.state.form;
            let i = slot(f.offline_stages_selected, f.offline_stages@.len());
            let v = n.state.form.offline_stages@[i].value.model();
            &&& 0 <= i < n.state.form.offline_stages@.len()
            &&& text_at(v, "Name"@) == f.os_name@
            &&& text_at(v, "stageOrder"@) == f.os_stage_order@
            &&& text_at(v, "Tool"@) == f.os_tool@
            &&& value_or(v.field("steps"@), Json::Array(Seq::empty())) == steps_json(f.os_steps@)
            &&& value_or(v.field("Testcases"@), Json::Array(Seq::empty())) == Json::Array(values_model(f.os_testcases@))
        }),
{
    let f = o.state.form;
    let steps = steps_json(f.os_steps@);
    let tcs = Json::Array(values_model(f.os_testcases@));
    let value = crate::domain::transformers::offline_stage_json(f.os_name@, f.os_stage_order@, f.os_tool@, steps, tcs);
    lemma_placed_item(f.offline_stages@, n.state.form.offline_stages@, f.offline_stages_selected, (f.os_name@, value));
    law_offline_stage_round_trip(f.os_name@, f.os_stage_order@, f.os_tool@, steps, tcs);
}

/// Committing the diagnostics-stage popup with a stage name saves, over the
/// selected stage or after the last one, a stage holding the typed name,
/// JSON file and stage order under `Name`, `Json` and `stageOrder`, and the
/// steps parsed from the typed text.
pub proof fn law_diagnostics_stage_commit(o: App, n: App, r: Action)
    requires
        o.wf(),
        o.state.mode is Form,
        !o.state.form.os_testcase_editing,
        !o.state.form.offline_stage_editing,
        o.state.form.diagnostics_stage_editing,
        !is_blank(o.state.form.ds_name@),
        key_rule(o, n, Key::Enter, r),
    ensures
        ({
            let f = o.state.form;
            let i = slot(f.diagnostics_stages_selected, f.diagnostics_stages@.len());
            let v = n.state.form.diagnostics_stages@[i].value.model();
            &&& 0 <= i < n.state.form.diagnostics_stages@.len()
            &&& text_at(v, "Name"@) == f.ds_name@
            &&& text_at(v, "Json"@) == f.ds_json@
            &&& text_at(v, "stageOrder"@) == f.ds_stage_order@
            &&& value_or(v.field("steps"@), Json::Array(Seq::empty())) == steps_json(f.ds_steps@)
        }),
{
    let f = o.state.form;
    let steps = steps_json(f.ds_steps@);
    let value = crate::domain::transformers::diagnostics_stage_json(f.ds_name@, f.ds_json@, steps, f.ds_stage_order@);
    lemma_placed_item(f.diagnostics_stages@, n.state.form.diagnostics_stages@, f.diagnostics_stages_selected, (f.ds_name@, value));
    law_diagnostics_stage_round_trip(f.ds_name@, f.ds_json@, steps, f.ds_stage_order@);
}

/// Committing the card popup with a card name saves, over the selected card
/// or after the last one, a card holding each popup field under its own
/// key, the EEPROM read position as the number typed.
pub proof fn law_card_commit(o: App, n: App, r: Action)
    requires
        o.wf(),
        o.state.mode is Form,
        !o.state.form.os_testcase_editing,
        !o.state.form.offline_stage_editing,
        !o.state.form.diagnostics_stage_editing,
        o.state.form.card_editing,
        !is_blank(o.state.form.card_name@),
        key_rule(o, n, Key::Enter, r),
    ensures
        ({
            let f = o.state.form;
            let i = slot(f.cards_selected, f.cards@.len());
            let v = n.state.form.cards@[i].value.model();
            &&& 0 <= i < n.state.form.cards@.len()
            &&& text_at(v, "cardName"@) == f.card_name@
            &&& text_at(v, "partNumber"@) == f.card_part_number@
            &&& text_at(v, "cardType"@) == f.card_type@
            &&& text_at(v, "Parameters"@) == f.card_parameters@
            &&& text_at(v, "cardXml"@) == f.card_xml@
            &&& text_at(v, "tejDMSxml"@) == f.card_tej_dms_xml@
            &&& num_at(v, "eeprom_read_pos"@) == typed_number(f.card_eeprom_read_pos@)
        }),
{
    let f = o.state.form;
    let eeprom = typed_number(f.card_eeprom_read_pos@);
    let value = crate::domain::transformers::card_json(
        f.card_name@,
        f.card_part_number@,
        f.card_type@,
        f.card_parameters@,
        f.card_xml@,
        f.card_tej_dms_xml@,
        eeprom,
    );
    lemma_placed_item(f.cards@, n.state.form.cards@, f.cards_selected, (f.card_name@, value));
    law_card_round_trip(f.card_name@, f.card_part_number@, f.card_type@, f.card_parameters@, f.card_xml@, f.card_tej_dms_xml@, eeprom);
}

/// Committing the query popup with a key saves, over the selected query or
/// after the last one, a query holding the typed key and message, the typed
/// value, the number typed as its id, and `isSfpTest` as the popup's SFP
/// toggle shows it.
pub proof fn law_query_commit(o: App, n: App, r: Action)
    requires
        o.wf(),
        o.state.mode is Form,
        !o.state.form.os_testcase_editing,
        !o.state.form.offline_stage_editing,
        !o.state.form.diagnostics_stage_editing,
        !o.state.form.card_editing,
        o.state.form.query_editing,
        !is_blank(o.state.form.iq_key@),
        key_rule(o, n, Key::Enter, r),
    ensures
        ({
            let f = o.state.form;
            let i = slot(f.queries_selected, f.interactive_queries@.len());
            let v = n.state.form.interactive_queries@[i].value.model();
            &&& 0 <= i < n.state.form.interactive_queries@.len()
            &&& text_at(v, "key"@) == f.iq_key@
            &&& value_or(v.field("value"@), Json::Null) == typed_value(f.iq_value@)
            &&& text_at(v, "message"@) == f.iq_message@
            &&& flag_at(v, "isSfpTest"@) == f.iq_is_sfp_test
            &&& num_at(v, "id"@) == typed_number(f.iq_id@)
        }),
{
    let f = o.state.form;
    let id = typed_number(f.iq_id@);
    let val = typed_value(f.iq_value@);
    let value = crate::domain::transformers::interactive_query_json(f.iq_key@, val, f.iq_message@, f.iq_is_sfp_test, id);
    lemma_placed_item(f.interactive_queries@, n.state.form.interactive_queries@, f.queries_selected, (f.iq_key@, value));
    law_interactive_query_round_trip(f.iq_key@, val, f.iq_message@, f.iq_is_sfp_test, id);
}

/// Testcases read from an array hold the array's values.
proof fn lemma_testcase_values(items: Seq<ListItem>, tcs: Seq<Json>)
    requires
        items_model(items) == testcase_items(Json::Array(tcs)),
    ensures
        values_model(items) == tcs,
{
    assert(items_model(items).len() == items.len());
    assert forall|i: int| 0 <= i < items.len() implies #[trigger] values_model(items)[i] == tcs[i] by {
        assert(items_model(items)[i].1 == tcs[i]);
    }
    assert(values_model(items) =~= tcs);
}

/// Opening an offline stage with `e` and committing the popup unchanged
/// gives the stage back: the saved stage has the same name, stage order,
/// tool, steps and testcases. This holds when the stage has a name, its
/// steps are an array of plain steps (texts that are not empty, hold no
/// comma and have no whitespace at either end, as parsing leaves them) and
/// its testcases are an array.
pub proof fn law_offline_stage_edit_round_trip(o: App, m: App, n: App, r1: Action, r2: Action)
    requires
        o.wf(),
        o.state.mode == Mode::Form(FormStep::OfflineStages),
        !o.state.form.os_testcase_editing,
        !o.state.form.offline_stage_editing,
        !o.state.form.diagnostics_stage_editing,
        !o.state.form.card_editing,
        !o.state.form.query_editing,
        o.state.form.offline_stages_selected is Some,
        ({
            let v = o.state.form.offline_stages@[o.state.form.offline_stages_selected->0 as int].value.model();
            &&& !is_blank(text_at(v, "Name"@))
            &&& v.field("steps"@) matches Some(Json::Array(steps)) && forall|k: int|
                0 <= k < steps.len() ==> (#[trigger] steps[k]) is Str && is_plain_step(steps[k]->Str_0)
            &&& v.field("Testcases"@) matches Some(Json::Array(_))
        }),
        key_rule(o, m, Key::Char('e'), r1),
        key_rule(m, n, Key::Enter, r2),
    ensures
        ({
            let idx = o.state.form.offline_stages_selected->0 as int;
            let v = o.state.form.offline_stages@[idx].value.model();
            let w = n.state.form.offline_stages@[idx].value.model();
            &&& idx < n.state.form.offline_stages@.len()
            &&& text_at(w, "Name"@) == text_at(v, "Name"@)
            &&& text_at(w, "stageOrder"@) == text_at(v, "stageOrder"@)
            &&& text_at(w, "Tool"@) == text_at(v, "Tool"@)
            &&& value_or(w.field("steps"@), Json::Array(Seq::empty())) == value_or(
                v.field("steps"@),
                Json::Array(Seq::empty()),
            )
            &&& value_or(w.field("Testcases"@), Json::Array(Seq::empty())) == value_or(
                v.field("Testcases"@),
                Json::Array(Seq::empty()),
            )
        }),
{
    let f = o.state.form;
    let idx = f.offline_stages_selected->0 as int;
    let v = f.offline_stages@[idx].value.model();
    let g = m.state.form;
    assert(g.offline_stage_editing && !g.os_testcase_editing);
    assert(g.offline_stages_selected == f.offline_stages_selected);
    assert(g.offline_stages == f.offline_stages);
    assert(m.wf());
    law_offline_stage_commit(m, n, r2);
    let steps = v.field("steps"@)->0->Array_0;
    law_steps_round_trip(steps);
    let tcs = v.field("Testcases"@)->0->Array_0;
    lemma_testcase_values(g.os_testcases@, tcs);
}

} // verus!
