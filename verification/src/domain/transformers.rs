//! The DMS configuration schema: conversions between flat form fields and
//! JSON values. Every key of the schema is written here and nowhere else.

use vstd::prelude::*;
use crate::domain::json_value::{lemma_field_at, Json, JsonNumber, JsonValue, NumModel};
use crate::domain::text::{chars_of, owned, trim_range, trim_start, trimmed};

verus! {

/// The model of `JsonValue::Object(o)`, entry by entry.
pub proof fn lemma_object_model(o: Vec<(String, JsonValue)>)
    ensures
        JsonValue::Object(o).model() == Json::Object(
            Seq::new(o@.len(), |i: int| (o@[i].0@, o@[i].1.model())),
        ),
{
    assert(JsonValue::Object(o).model()->Object_0 =~= Seq::new(
        o@.len(),
        |i: int| (o@[i].0@, o@[i].1.model()),
    ));
}

/// A string value.
fn text_value(s: &str) -> (r: JsonValue)
    ensures
        r.model() == Json::Str(s@),
{
    JsonValue::Str(owned(s))
}

/// An unsigned number value.
fn u64_value(n: u64) -> (r: JsonValue)
    ensures
        r.model() == Json::Number(NumModel::Unsigned(n)),
{
    JsonValue::Number(JsonNumber::Unsigned(n))
}

/// The JSON of an offline stage.
pub open spec fn offline_stage_json(
    name: Seq<char>,
    stage_order: Seq<char>,
    tool: Seq<char>,
    steps: Json,
    testcases: Json,
) -> Json {
    Json::Object(
        seq![
            ("Name"@, Json::Str(name)),
            ("stageOrder"@, Json::Str(stage_order)),
            ("Tool"@, Json::Str(tool)),
            ("steps"@, steps),
            ("Testcases"@, testcases),
        ],
    )
}

/// Build a single Offline Stage. `steps` and `testcases` are arrays.
pub fn build_offline_stage(
    name: &str,
    stage_order: &str,
    tool: &str,
    steps: &JsonValue,
    testcases: &JsonValue,
) -> (r: JsonValue)
    ensures
        r.model() == offline_stage_json(name@, stage_order@, tool@, steps.model(), testcases.model()),
{
    let mut o: Vec<(String, JsonValue)> = Vec::new();
    o.push((owned("Name"), text_value(name)));
    o.push((owned("stageOrder"), text_value(stage_order)));
    o.push((owned("Tool"), text_value(tool)));
    o.push((owned("steps"), steps.deep_copy()));
    o.push((owned("Testcases"), testcases.deep_copy()));
    proof {
        lemma_object_model(o);
        assert(Seq::new(o@.len(), |i: int| (o@[i].0@, o@[i].1.model())) =~= offline_stage_json(
            name@,
            stage_order@,
            tool@,
            steps.model(),
            testcases.model(),
        )->Object_0);
    }
    JsonValue::Object(o)
}


// ---- Reading fields ----

/// `o`'s value, or `d` when there is none (`unwrap_or`).
pub open spec fn value_or(o: Option<Json>, d: Json) -> Json {
    match o {
        Some(j) => j,
        None => d,
    }
}

/// The text under key `k` of `v`, or the empty text when the key is missing
/// or does not hold a string.
pub open spec fn text_at(v: Json, k: Seq<char>) -> Seq<char> {
    match v.field(k) {
        Some(Json::Str(s)) => s,
        _ => Seq::empty(),
    }
}

/// The unsigned number under key `k` of `v`, or 0.
pub open spec fn num_at(v: Json, k: Seq<char>) -> u64 {
    match v.field(k) {
        Some(Json::Number(NumModel::Unsigned(u))) => u,
        _ => 0,
    }
}

/// The boolean under key `k` of `v`, or `false`.
pub open spec fn flag_at(v: Json, k: Seq<char>) -> bool {
    match v.field(k) {
        Some(Json::Bool(b)) => b,
        _ => false,
    }
}

/// The section under key `k` of `info`, or an empty object when missing.
pub open spec fn section(info: Json, k: Seq<char>) -> Json {
    value_or(info.field(k), Json::Object(Seq::empty()))
}

/// The text under `key` of `v`, or the empty string.
pub fn str_field(v: &JsonValue, key: &str) -> (r: String)
    ensures
        r@ == text_at(v.model(), key@),
{
    match v.get(key) {
        Some(x) => match x.as_str() {
            Some(s) => owned(s),
            None => String::new(),
        },
        None => String::new(),
    }
}

/// The unsigned number under `key` of `v`, or 0.
pub fn u64_field(v: &JsonValue, key: &str) -> (r: u64)
    ensures
        r == num_at(v.model(), key@),
{
    match v.get(key) {
        Some(x) => match x.as_u64() {
            Some(n) => n,
            None => 0,
        },
        None => 0,
    }
}

/// The boolean under `key` of `v`, or `false`.
pub fn bool_field(v: &JsonValue, key: &str) -> (r: bool)
    ensures
        r == flag_at(v.model(), key@),
{
    match v.get(key) {
        Some(x) => match x.as_bool() {
            Some(b) => b,
            None => false,
        },
        None => false,
    }
}

/// A copy of the value under `key` of `v`, or `default` when missing.
pub fn value_field(v: &JsonValue, key: &str, default: JsonValue) -> (r: JsonValue)
    ensures
        r.model() == value_or(v.model().field(key@), default.model()),
{
    match v.get(key) {
        Some(x) => x.deep_copy(),
        None => default,
    }
}

/// An empty array value.
pub fn empty_array() -> (r: JsonValue)
    ensures
        r.model() == Json::Array(Seq::empty()),
{
    let r = JsonValue::Array(Vec::new());
    assert(r.model()->Array_0 =~= Seq::<Json>::empty());
    r
}

/// An empty object value.
pub fn empty_object() -> (r: JsonValue)
    ensures
        r.model() == Json::Object(Seq::empty()),
{
    let r = JsonValue::Object(Vec::new());
    assert(r.model()->Object_0 =~= Seq::<(Seq<char>, Json)>::empty());
    r
}

// ---- Offline Stages ----

/// Data held by one offline stage (flat, UI-friendly).
pub struct OfflineStageData {
    pub name: String,
    pub stage_order: String,
    pub tool: String,
    pub steps: JsonValue,
    pub testcases: JsonValue,
}

/// Extract fields from an offline stage value; missing `steps` and
/// `Testcases` read as empty arrays.
pub fn extract_offline_stage(v: &JsonValue) -> (r: OfflineStageData)
    ensures
        r.name@ == text_at(v.model(), "Name"@),
        r.stage_order@ == text_at(v.model(), "stageOrder"@),
        r.tool@ == text_at(v.model(), "Tool"@),
        r.steps.model() == value_or(v.model().field("steps"@), Json::Array(Seq::empty())),
        r.testcases.model() == value_or(v.model().field("Testcases"@), Json::Array(Seq::empty())),
{
    OfflineStageData {
        name: str_field(v, "Name"),
        stage_order: str_field(v, "stageOrder"),
        tool: str_field(v, "Tool"),
        steps: value_field(v, "steps", empty_array()),
        testcases: value_field(v, "Testcases", empty_array()),
    }
}

// ---- Testcases (nested inside offline stages) ----

/// The JSON of a testcase.
pub open spec fn testcase_json(id: u64, name: Seq<char>, position: u64) -> Json {
    Json::Object(
        seq![
            ("testcaseId"@, Json::Number(NumModel::Unsigned(id))),
            ("testcaseName"@, Json::Str(name)),
            ("testcasePosition"@, Json::Number(NumModel::Unsigned(position))),
        ],
    )
}

/// Build a testcase JSON object.
pub fn build_testcase(testcase_id: u64, testcase_name: &str, testcase_position: u64) -> (r:
    JsonValue)
    ensures
        r.model() == testcase_json(testcase_id, testcase_name@, testcase_position),
{
    let mut o: Vec<(String, JsonValue)> = Vec::new();
    o.push((owned("testcaseId"), u64_value(testcase_id)));
    o.push((owned("testcaseName"), text_value(testcase_name)));
    o.push((owned("testcasePosition"), u64_value(testcase_position)));
    proof {
        lemma_object_model(o);
        assert(Seq::new(o@.len(), |i: int| (o@[i].0@, o@[i].1.model())) =~= testcase_json(
            testcase_id,
            testcase_name@,
            testcase_position,
        )->Object_0);
    }
    JsonValue::Object(o)
}

/// Extract testcase fields: id, name and position.
pub fn extract_testcase(v: &JsonValue) -> (r: (u64, String, u64))
    ensures
        r.0 == num_at(v.model(), "testcaseId"@),
        r.1@ == text_at(v.model(), "testcaseName"@),
        r.2 == num_at(v.model(), "testcasePosition"@),
{
    let id = u64_field(v, "testcaseId");
    let name = str_field(v, "testcaseName");
    let pos = u64_field(v, "testcasePosition");
    (id, name, pos)
}

// ---- Diagnostics Stages ----

/// The JSON of a diagnostics stage.
pub open spec fn diagnostics_stage_json(
    name: Seq<char>,
    json_file: Seq<char>,
    steps: Json,
    stage_order: Seq<char>,
) -> Json {
    Json::Object(
        seq![
            ("Name"@, Json::Str(name)),
            ("Json"@, Json::Str(json_file)),
            ("steps"@, steps),
            ("stageOrder"@, Json::Str(stage_order)),
        ],
    )
}

/// Build a single Diagnostics Stage.
pub fn build_diagnostics_stage(name: &str, json_file: &str, steps: &JsonValue, stage_order: &str) -> (r:
    JsonValue)
    ensures
        r.model() == diagnostics_stage_json(name@, json_file@, steps.model(), stage_order@),
{
    let mut o: Vec<(String, JsonValue)> = Vec::new();
    o.push((owned("Name"), text_value(name)));
    o.push((owned("Json"), text_value(json_file)));
    o.push((owned("steps"), steps.deep_copy()));
    o.push((owned("stageOrder"), text_value(stage_order)));
    proof {
        lemma_object_model(o);
        assert(Seq::new(o@.len(), |i: int| (o@[i].0@, o@[i].1.model()))
            =~= diagnostics_stage_json(name@, json_file@, steps.model(), stage_order@)->Object_0);
    }
    JsonValue::Object(o)
}

/// Data held by one diagnostics stage.
pub struct DiagnosticsStageData {
    pub name: String,
    pub json_file: String,
    pub steps: JsonValue,
    pub stage_order: String,
}

/// Extract fields from a diagnostics stage value; missing `steps` read as an
/// empty array.
pub fn extract_diagnostics_stage(v: &JsonValue) -> (r: DiagnosticsStageData)
    ensures
        r.name@ == text_at(v.model(), "Name"@),
        r.json_file@ == text_at(v.model(), "Json"@),
        r.steps.model() == value_or(v.model().field("steps"@), Json::Array(Seq::empty())),
        r.stage_order@ == text_at(v.model(), "stageOrder"@),
{
    DiagnosticsStageData {
        name: str_field(v, "Name"),
        json_file: str_field(v, "Json"),
        steps: value_field(v, "steps", empty_array()),
        stage_order: str_field(v, "stageOrder"),
    }
}

// ---- Cards ----

/// The JSON of a card.
pub open spec fn card_json(
    card_name: Seq<char>,
    part_number: Seq<char>,
    card_type: Seq<char>,
    parameters: Seq<char>,
    card_xml: Seq<char>,
    tej_dms_xml: Seq<char>,
    eeprom_read_pos: u64,
) -> Json {
    Json::Object(
        seq![
            ("cardName"@, Json::Str(card_name)),
            ("partNumber"@, Json::Str(part_number)),
            ("cardType"@, Json::Str(card_type)),
            ("Parameters"@, Json::Str(parameters)),
            ("cardXml"@, Json::Str(card_xml)),
            ("tejDMSxml"@, Json::Str(tej_dms_xml)),
            ("eeprom_read_pos"@, Json::Number(NumModel::Unsigned(eeprom_read_pos))),
        ],
    )
}

/// Build a card JSON object.
pub fn build_card(
    card_name: &str,
    part_number: &str,
    card_type: &str,
    parameters: &str,
    card_xml: &str,
    tej_dms_xml: &str,
    eeprom_read_pos: u64,
) -> (r: JsonValue)
    ensures
        r.model() == card_json(
            card_name@,
            part_number@,
            card_type@,
            parameters@,
            card_xml@,
            tej_dms_xml@,
            eeprom_read_pos,
        ),
{
    let mut o: Vec<(String, JsonValue)> = Vec::new();
    o.push((owned("cardName"), text_value(card_name)));
    o.push((owned("partNumber"), text_value(part_number)));
    o.push((owned("cardType"), text_value(card_type)));
    o.push((owned("Parameters"), text_value(parameters)));
    o.push((owned("cardXml"), text_value(card_xml)));
    o.push((owned("tejDMSxml"), text_value(tej_dms_xml)));
    o.push((owned("eeprom_read_pos"), u64_value(eeprom_read_pos)));
    proof {
        lemma_object_model(o);
        assert(Seq::new(o@.len(), |i: int| (o@[i].0@, o@[i].1.model())) =~= card_json(
            card_name@,
            part_number@,
            card_type@,
            parameters@,
            card_xml@,
            tej_dms_xml@,
            eeprom_read_pos,
        )->Object_0);
    }
    JsonValue::Object(o)
}

/// Data held by one card.
pub struct CardData {
    pub card_name: String,
    pub part_number: String,
    pub card_type: String,
    pub parameters: String,
    pub card_xml: String,
    pub tej_dms_xml: String,
    pub eeprom_read_pos: u64,
}

/// Extract card fields; a missing or non-numeric `eeprom_read_pos` reads as 0.
pub fn extract_card(v: &JsonValue) -> (r: CardData)
    ensures
        r.card_name@ == text_at(v.model(), "cardName"@),
        r.part_number@ == text_at(v.model(), "partNumber"@),
        r.card_type@ == text_at(v.model(), "cardType"@),
        r.parameters@ == text_at(v.model(), "Parameters"@),
        r.card_xml@ == text_at(v.model(), "cardXml"@),
        r.tej_dms_xml@ == text_at(v.model(), "tejDMSxml"@),
        r.eeprom_read_pos == num_at(v.model(), "eeprom_read_pos"@),
{
    CardData {
        card_name: str_field(v, "cardName"),
        part_number: str_field(v, "partNumber"),
        card_type: str_field(v, "cardType"),
        parameters: str_field(v, "Parameters"),
        card_xml: str_field(v, "cardXml"),
        tej_dms_xml: str_field(v, "tejDMSxml"),
        eeprom_read_pos: u64_field(v, "eeprom_read_pos"),
    }
}

// ---- Interactive Queries ----

/// The JSON of an interactive query.
pub open spec fn interactive_query_json(
    key: Seq<char>,
    value: Json,
    message: Seq<char>,
    is_sfp_test: bool,
    id: u64,
) -> Json {
    Json::Object(
        seq![
            ("key"@, Json::Str(key)),
            ("value"@, value),
            ("message"@, Json::Str(message)),
            ("isSfpTest"@, Json::Bool(is_sfp_test)),
            ("id"@, Json::Number(NumModel::Unsigned(id))),
        ],
    )
}

/// Build an interactive query JSON object.
pub fn build_interactive_query(
    key: &str,
    value: &JsonValue,
    message: &str,
    is_sfp_test: bool,
    id: u64,
) -> (r: JsonValue)
    ensures
        r.model() == interactive_query_json(key@, value.model(), message@, is_sfp_test, id),
{
    let mut o: Vec<(String, JsonValue)> = Vec::new();
    o.push((owned("key"), text_value(key)));
    o.push((owned("value"), value.deep_copy()));
    o.push((owned("message"), text_value(message)));
    o.push((owned("isSfpTest"), JsonValue::Bool(is_sfp_test)));
    o.push((owned("id"), u64_value(id)));
    proof {
        lemma_object_model(o);
        assert(Seq::new(o@.len(), |i: int| (o@[i].0@, o@[i].1.model()))
            =~= interactive_query_json(key@, value.model(), message@, is_sfp_test, id)->Object_0);
    }
    JsonValue::Object(o)
}

/// Data held by one interactive query.
pub struct InteractiveQueryData {
    pub key: String,
    pub value: JsonValue,
    pub message: String,
    pub is_sfp_test: bool,
    pub id: u64,
}

/// Extract interactive query fields; a missing `value` reads as `null`.
pub fn extract_interactive_query(v: &JsonValue) -> (r: InteractiveQueryData)
    ensures
        r.key@ == text_at(v.model(), "key"@),
        r.value.model() == value_or(v.model().field("value"@), Json::Null),
        r.message@ == text_at(v.model(), "message"@),
        r.is_sfp_test == flag_at(v.model(), "isSfpTest"@),
        r.id == num_at(v.model(), "id"@),
{
    InteractiveQueryData {
        key: str_field(v, "key"),
        value: value_field(v, "value", JsonValue::Null),
        message: str_field(v, "message"),
        is_sfp_test: bool_field(v, "isSfpTest"),
        id: u64_field(v, "id"),
    }
}

// ---- Nested config sections (UCD, CFPGA, DEDI, T-MAMS, etc.) ----

/// The text under key `k` of the section `sec` of `info`.
pub open spec fn section_text(info: Json, sec: Seq<char>, k: Seq<char>) -> Seq<char> {
    text_at(section(info, sec), k)
}

/// The text under `key` of the section `sec` of `info`.
fn section_str(info: &JsonValue, sec: &str, key: &str) -> (r: String)
    ensures
        r@ == section_text(info.model(), sec@, key@),
{
    match info.get(sec) {
        Some(v) => str_field(v, key),
        None => {
            proof {
                let e = Json::Object(Seq::<(Seq<char>, Json)>::empty());
                crate::domain::json_value::lemma_key_index(Seq::empty(), key@);
                assert(e.field(key@) is None);
            }
            String::new()
        },
    }
}

/// Extract UCD fields from the `Info` object: path, address, series and
/// testcase id.
pub fn extract_ucd(info: &JsonValue) -> (r: (String, String, String, String))
    ensures
        r.0@ == section_text(info.model(), "UCD"@, "ucdPath"@),
        r.1@ == section_text(info.model(), "UCD"@, "ucdAddress"@),
        r.2@ == section_text(info.model(), "UCD"@, "tcSeries"@),
        r.3@ == section_text(info.model(), "UCD"@, "testcaseId"@),
{
    (
        section_str(info, "UCD", "ucdPath"),
        section_str(info, "UCD", "ucdAddress"),
        section_str(info, "UCD", "tcSeries"),
        section_str(info, "UCD", "testcaseId"),
    )
}

/// The JSON of the UCD section.
pub open spec fn ucd_json(path: Seq<char>, address: Seq<char>, series: Seq<char>, tc_id: Seq<char>) -> Json {
    Json::Object(
        seq![
            ("ucdPath"@, Json::Str(path)),
            ("ucdAddress"@, Json::Str(address)),
            ("tcSeries"@, Json::Str(series)),
            ("testcaseId"@, Json::Str(tc_id)),
        ],
    )
}

/// Build UCD JSON.
pub fn build_ucd(path: &str, address: &str, series: &str, tc_id: &str) -> (r: JsonValue)
    ensures
        r.model() == ucd_json(path@, address@, series@, tc_id@),
{
    let mut o: Vec<(String, JsonValue)> = Vec::new();
    o.push((owned("ucdPath"), text_value(path)));
    o.push((owned("ucdAddress"), text_value(address)));
    o.push((owned("tcSeries"), text_value(series)));
    o.push((owned("testcaseId"), text_value(tc_id)));
    proof {
        lemma_object_model(o);
        assert(Seq::new(o@.len(), |i: int| (o@[i].0@, o@[i].1.model())) =~= ucd_json(
            path@,
            address@,
            series@,
            tc_id@,
        )->Object_0);
    }
    JsonValue::Object(o)
}

/// Extract CFPGA fields: file name and TCL script.
pub fn extract_cfpga(info: &JsonValue) -> (r: (String, String))
    ensures
        r.0@ == section_text(info.model(), "CFPGA"@, "fileName"@),
        r.1@ == section_text(info.model(), "CFPGA"@, "tclScript"@),
{
    (section_str(info, "CFPGA", "fileName"), section_str(info, "CFPGA", "tclScript"))
}

/// The JSON of the CFPGA section.
pub open spec fn cfpga_json(file_name: Seq<char>, tcl_script: Seq<char>) -> Json {
    Json::Object(seq![("fileName"@, Json::Str(file_name)), ("tclScript"@, Json::Str(tcl_script))])
}

/// Build CFPGA JSON.
pub fn build_cfpga(file_name: &str, tcl_script: &str) -> (r: JsonValue)
    ensures
        r.model() == cfpga_json(file_name@, tcl_script@),
{
    let mut o: Vec<(String, JsonValue)> = Vec::new();
    o.push((owned("fileName"), text_value(file_name)));
    o.push((owned("tclScript"), text_value(tcl_script)));
    proof {
        lemma_object_model(o);
        assert(Seq::new(o@.len(), |i: int| (o@[i].0@, o@[i].1.model())) =~= cfpga_json(
            file_name@,
            tcl_script@,
        )->Object_0);
    }
    JsonValue::Object(o)
}

/// Extract DEDI fields: location and path.
pub fn extract_dedi(info: &JsonValue) -> (r: (String, String))
    ensures
        r.0@ == section_text(info.model(), "DEDI"@, "dediLocation"@),
        r.1@ == section_text(info.model(), "DEDI"@, "dediPath"@),
{
    (section_str(info, "DEDI", "dediLocation"), section_str(info, "DEDI", "dediPath"))
}

/// The JSON of the DEDI section.
pub open spec fn dedi_json(location: Seq<char>, path: Seq<char>) -> Json {
    Json::Object(seq![("dediLocation"@, Json::Str(location)), ("dediPath"@, Json::Str(path))])
}

/// Build DEDI JSON.
pub fn build_dedi(location: &str, path: &str) -> (r: JsonValue)
    ensures
        r.model() == dedi_json(location@, path@),
{
    let mut o: Vec<(String, JsonValue)> = Vec::new();
    o.push((owned("dediLocation"), text_value(location)));
    o.push((owned("dediPath"), text_value(path)));
    proof {
        lemma_object_model(o);
        assert(Seq::new(o@.len(), |i: int| (o@[i].0@, o@[i].1.model())) =~= dedi_json(
            location@,
            path@,
        )->Object_0);
    }
    JsonValue::Object(o)
}

/// Extract T-MAMS fields: workflow version and schema version.
pub fn extract_tmams(info: &JsonValue) -> (r: (String, String))
    ensures
        r.0@ == section_text(info.model(), "T-MAMS"@, "work_flow_version"@),
        r.1@ == section_text(info.model(), "T-MAMS"@, "schema_version"@),
{
    (section_str(info, "T-MAMS", "work_flow_version"), section_str(info, "T-MAMS", "schema_version"))
}

/// The JSON of the T-MAMS section.
pub open spec fn tmams_json(workflow_ver: Seq<char>, schema_ver: Seq<char>) -> Json {
    Json::Object(
        seq![("work_flow_version"@, Json::Str(workflow_ver)), ("schema_version"@, Json::Str(schema_ver))],
    )
}

/// Build T-MAMS JSON.
pub fn build_tmams(workflow_ver: &str, schema_ver: &str) -> (r: JsonValue)
    ensures
        r.model() == tmams_json(workflow_ver@, schema_ver@),
{
    let mut o: Vec<(String, JsonValue)> = Vec::new();
    o.push((owned("work_flow_version"), text_value(workflow_ver)));
    o.push((owned("schema_version"), text_value(schema_ver)));
    proof {
        lemma_object_model(o);
        assert(Seq::new(o@.len(), |i: int| (o@[i].0@, o@[i].1.model())) =~= tmams_json(
            workflow_ver@,
            schema_ver@,
        )->Object_0);
    }
    JsonValue::Object(o)
}

/// Extract programming_details fields: name, JSON file and stage order.
pub fn extract_programming_details(info: &JsonValue) -> (r: (String, String, String))
    ensures
        r.0@ == section_text(info.model(), "programming_details"@, "name"@),
        r.1@ == section_text(info.model(), "programming_details"@, "json"@),
        r.2@ == section_text(info.model(), "programming_details"@, "stageOrder"@),
{
    (
        section_str(info, "programming_details", "name"),
        section_str(info, "programming_details", "json"),
        section_str(info, "programming_details", "stageOrder"),
    )
}

/// The JSON of the programming_details section.
pub open spec fn programming_details_json(
    name: Seq<char>,
    json_file: Seq<char>,
    stage_order: Seq<char>,
) -> Json {
    Json::Object(
        seq![
            ("name"@, Json::Str(name)),
            ("json"@, Json::Str(json_file)),
            ("stageOrder"@, Json::Str(stage_order)),
        ],
    )
}

/// Build programming_details JSON.
pub fn build_programming_details(name: &str, json_file: &str, stage_order: &str) -> (r: JsonValue)
    ensures
        r.model() == programming_details_json(name@, json_file@, stage_order@),
{
    let mut o: Vec<(String, JsonValue)> = Vec::new();
    o.push((owned("name"), text_value(name)));
    o.push((owned("json"), text_value(json_file)));
    o.push((owned("stageOrder"), text_value(stage_order)));
    proof {
        lemma_object_model(o);
        assert(Seq::new(o@.len(), |i: int| (o@[i].0@, o@[i].1.model()))
            =~= programming_details_json(name@, json_file@, stage_order@)->Object_0);
    }
    JsonValue::Object(o)
}

// ---- The template ----

/// The JSON of the card-setup section.
pub open spec fn card_setup_json(json_file: Seq<char>) -> Json {
    Json::Object(seq![("json"@, Json::Str(json_file))])
}

/// Build the card-setup JSON, `{"json": json_file}`.
pub fn build_card_setup(json_file: &str) -> (r: JsonValue)
    ensures
        r.model() == card_setup_json(json_file@),
{
    let mut o: Vec<(String, JsonValue)> = Vec::new();
    o.push((owned("json"), text_value(json_file)));
    proof {
        lemma_object_model(o);
        assert(Seq::new(o@.len(), |i: int| (o@[i].0@, o@[i].1.model())) =~= card_setup_json(
            json_file@,
        )->Object_0);
    }
    JsonValue::Object(o)
}

/// The empty configuration for a part number: every section present with
/// empty texts, no stages or queries, and one card carrying the part number.
pub open spec fn template_json(part_number: Seq<char>) -> Json {
    let e = Seq::<char>::empty();
    Json::Object(
        seq![
            (
                "Info"@,
                Json::Object(
                    seq![
                        ("Offline_Stages"@, Json::Array(Seq::empty())),
                        ("Programming_Reqd"@, Json::Bool(false)),
                        ("programming_details"@, programming_details_json(e, e, e)),
                        ("Card_Setup"@, card_setup_json(e)),
                        ("Diagnostics_Stages"@, Json::Array(Seq::empty())),
                        ("Recovery_Stages"@, Json::Array(Seq::empty())),
                        ("UCD"@, ucd_json(e, e, e, e)),
                        ("CFPGA"@, cfpga_json(e, e)),
                        ("DEDI"@, dedi_json(e, e)),
                        ("T-MAMS"@, tmams_json(e, e)),
                        ("interactive_queries"@, Json::Array(Seq::empty())),
                        ("cards"@, Json::Array(seq![card_json(e, part_number, e, e, e, e, 0)])),
                        ("intruction_message"@, Json::Str(e)),
                    ],
                ),
            ),
        ],
    )
}

/// Build an empty DMS config template for a given part number.
pub fn default_template(part_number: &str) -> (r: JsonValue)
    ensures
        r.model() == template_json(part_number@),
{
    let empty = String::new();
    let e = empty.as_str();
    let mut cards: Vec<JsonValue> = Vec::new();
    cards.push(build_card(e, part_number, e, e, e, e, 0));
    let cards_value = JsonValue::Array(cards);
    assert(cards_value.model()->Array_0 =~= seq![card_json(e@, part_number@, e@, e@, e@, e@, 0)]);
    let mut info: Vec<(String, JsonValue)> = Vec::new();
    info.push((owned("Offline_Stages"), empty_array()));
    info.push((owned("Programming_Reqd"), JsonValue::Bool(false)));
    info.push((owned("programming_details"), build_programming_details(e, e, e)));
    info.push((owned("Card_Setup"), build_card_setup(e)));
    info.push((owned("Diagnostics_Stages"), empty_array()));
    info.push((owned("Recovery_Stages"), empty_array()));
    info.push((owned("UCD"), build_ucd(e, e, e, e)));
    info.push((owned("CFPGA"), build_cfpga(e, e)));
    info.push((owned("DEDI"), build_dedi(e, e)));
    info.push((owned("T-MAMS"), build_tmams(e, e)));
    info.push((owned("interactive_queries"), empty_array()));
    info.push((owned("cards"), cards_value));
    info.push((owned("intruction_message"), text_value(e)));
    let ghost inner = template_json(part_number@)->Object_0[0].1;
    proof {
        lemma_object_model(info);
        assert(Seq::new(info@.len(), |i: int| (info@[i].0@, info@[i].1.model())) =~= inner->Object_0);
    }
    let info_value = JsonValue::Object(info);
    let mut top: Vec<(String, JsonValue)> = Vec::new();
    top.push((owned("Info"), info_value));
    proof {
        lemma_object_model(top);
        assert(Seq::new(top@.len(), |i: int| (top@[i].0@, top@[i].1.model())) =~= template_json(
            part_number@,
        )->Object_0);
    }
    JsonValue::Object(top)
}

// ---- Steps as comma-separated text ----

/// The string elements of `items`, in order (others are skipped).
pub open spec fn str_items(items: Seq<Json>) -> Seq<Seq<char>>
    decreases items.len(),
{
    if items.len() == 0 {
        Seq::empty()
    } else {
        let rest = str_items(items.drop_last());
        match items.last() {
            Json::Str(s) => rest.push(s),
            _ => rest,
        }
    }
}

/// `parts` joined with `sep` between neighbours.
pub open spec fn join_with(parts: Seq<Seq<char>>, sep: Seq<char>) -> Seq<char>
    decreases parts.len(),
{
    if parts.len() == 0 {
        Seq::empty()
    } else if parts.len() == 1 {
        parts[0]
    } else {
        join_with(parts.drop_last(), sep) + sep + parts.last()
    }
}

/// The text form of a steps array: its strings joined by `", "`; anything
/// but an array gives the empty text.
pub open spec fn steps_text(steps: Json) -> Seq<char> {
    match steps {
        Json::Array(a) => join_with(str_items(a), ", "@),
        _ => Seq::empty(),
    }
}

/// Extract the `steps` array from a value as a comma-separated string
/// for easier editing in a single text field.
pub fn steps_to_string(steps: &JsonValue) -> (r: String)
    ensures
        r@ == steps_text(steps.model()),
{
    match steps.as_array() {
        Some(a) => {
            let ghost items = Seq::new(a@.len(), |i: int| a@[i].model());
            let mut r = String::new();
            let mut any = false;
            let mut i: usize = 0;
            assert(items.take(0) =~= Seq::<Json>::empty());
            while i < a.len()
                invariant
                    i <= a@.len() == items.len(),
                    items == Seq::new(a@.len(), |i: int| a@[i].model()),
                    r@ == join_with(str_items(items.take(i as int)), ", "@),
                    any == (str_items(items.take(i as int)).len() > 0),
                decreases a.len() - i,
            {
                let ghost before = str_items(items.take(i as int));
                assert(items.take(i + 1).drop_last() =~= items.take(i as int));
                match a[i].as_str() {
                    Some(s) => {
                        if any {
                            r.append(", ");
                        }
                        r.append(s);
                        any = true;
                        assert(str_items(items.take(i + 1)) == before.push(s@));
                        assert(before.push(s@).drop_last() =~= before);
                    },
                    None => {
                        assert(str_items(items.take(i + 1)) == before);
                    },
                }
                i = i + 1;
            }
            assert(items.take(a@.len() as int) =~= items);
            r
        },
        None => String::new(),
    }
}

/// The pieces of `s` between commas, as `str::split(',')` yields them: one
/// more piece than there are commas.
pub open spec fn comma_pieces(s: Seq<char>) -> Seq<Seq<char>>
    decreases s.len(),
{
    if s.len() == 0 {
        seq![Seq::empty()]
    } else {
        let p = comma_pieces(s.drop_last());
        if s.last() == ',' {
            p.push(Seq::empty())
        } else {
            p.update(p.len() - 1, p.last().push(s.last()))
        }
    }
}

/// The trimmed pieces that are not empty, in order.
pub open spec fn kept_steps(pieces: Seq<Seq<char>>) -> Seq<Seq<char>>
    decreases pieces.len(),
{
    if pieces.len() == 0 {
        Seq::empty()
    } else {
        let rest = kept_steps(pieces.drop_last());
        if trimmed(pieces.last()).len() > 0 {
            rest.push(trimmed(pieces.last()))
        } else {
            rest
        }
    }
}

/// The steps array for comma-separated text: each piece trimmed, empty
/// pieces dropped, each kept piece a string.
pub open spec fn steps_json(s: Seq<char>) -> Json {
    Json::Array(kept_steps(comma_pieces(s)).map_values(|t: Seq<char>| Json::Str(t)))
}

proof fn lemma_comma_pieces_nonempty(s: Seq<char>)
    ensures
        comma_pieces(s).len() >= 1,
    decreases s.len(),
{
    if s.len() > 0 {
        lemma_comma_pieces_nonempty(s.drop_last());
    }
}

/// Parse a comma-separated string back into a JSON array of strings.
pub fn string_to_steps(s: &str) -> (r: JsonValue)
    ensures
        r.model() == steps_json(s@),
{
    let cs = chars_of(s);
    let n = cs.len();
    let mut out: Vec<JsonValue> = Vec::new();
    let mut start: usize = 0;
    let mut i: usize = 0;
    let ghost mut done: Seq<Seq<char>> = Seq::empty();
    assert(s@.take(0) =~= Seq::<char>::empty());
    assert(comma_pieces(s@.take(0)) =~= done.push(cs@.subrange(0, 0)));
    while i < n
        invariant
            start <= i <= n == cs@.len(),
            cs@ == s@,
            comma_pieces(s@.take(i as int)) == done.push(cs@.subrange(start as int, i as int)),
            out@.len() == kept_steps(done).len(),
            forall|j: int| 0 <= j < out@.len() ==> (#[trigger] out@[j]).model() == Json::Str(kept_steps(done)[j]),
        decreases n - i,
    {
        let ghost prefix = s@.take(i as int);
        assert(s@.take(i + 1).drop_last() =~= prefix);
        assert(s@.take(i + 1).last() == cs@[i as int]);
        if cs[i] == ',' {
            let piece = trim_range(&cs, start, i);
            let ghost finished = cs@.subrange(start as int, i as int);
            proof {
                assert(kept_steps(done.push(finished)) == if trimmed(finished).len() > 0 {
                    kept_steps(done).push(trimmed(finished))
                } else {
                    kept_steps(done)
                } ) by {
                    assert(done.push(finished).drop_last() =~= done);
                }
            }
            if piece.as_str().unicode_len() > 0 {
                out.push(JsonValue::Str(piece));
            }
            proof {
                done = done.push(finished);
                assert(cs@.subrange((i + 1) as int, (i + 1) as int) =~= Seq::<char>::empty());
            }
            start = i + 1;
        } else {
            proof {
                assert(cs@.subrange(start as int, i + 1) =~= cs@.subrange(start as int, i as int).push(cs@[i as int]));
            }
        }
        i = i + 1;
    }
    let piece = trim_range(&cs, start, n);
    let ghost last = cs@.subrange(start as int, n as int);
    let ghost kept = kept_steps(done.push(last));
    proof {
        assert(s@.take(n as int) =~= s@);
        assert(done.push(last).drop_last() =~= done);
        assert(kept == if trimmed(last).len() > 0 {
            kept_steps(done).push(trimmed(last))
        } else {
            kept_steps(done)
        });
    }
    if piece.as_str().unicode_len() > 0 {
        out.push(JsonValue::Str(piece));
    }
    assert(out@.len() == kept.len());
    assert(forall|j: int| 0 <= j < out@.len() ==> (#[trigger] out@[j]).model() == Json::Str(kept[j]));
    let r = JsonValue::Array(out);
    proof {
        assert(kept == kept_steps(comma_pieces(s@)));
        assert(r.model()->Array_0 =~= kept.map_values(|t: Seq<char>| Json::Str(t)));
    }
    r
}

// ---- Round trips: what is built is read back ----

/// Extracting an offline stage that was built gives back what it was built
/// from.
pub proof fn law_offline_stage_round_trip(
    name: Seq<char>,
    stage_order: Seq<char>,
    tool: Seq<char>,
    steps: Json,
    testcases: Json,
)
    ensures
        ({
            let v = offline_stage_json(name, stage_order, tool, steps, testcases);
            &&& text_at(v, "Name"@) == name
            &&& text_at(v, "stageOrder"@) == stage_order
            &&& text_at(v, "Tool"@) == tool
            &&& value_or(v.field("steps"@), Json::Array(Seq::empty())) == steps
            &&& value_or(v.field("Testcases"@), Json::Array(Seq::empty())) == testcases
        }),
{
    reveal_strlit("Name");
    reveal_strlit("stageOrder");
    reveal_strlit("Tool");
    reveal_strlit("steps");
    reveal_strlit("Testcases");
    let es = offline_stage_json(name, stage_order, tool, steps, testcases)->Object_0;
    assert("Name"@.len() == 4 && "stageOrder"@.len() == 10 && "Tool"@.len() == 4);
    assert("steps"@.len() == 5 && "Testcases"@.len() == 9);
    assert("Name"@[0] == 'N' && "Tool"@[0] == 'T');
    lemma_field_at(es, 0);
    lemma_field_at(es, 1);
    lemma_field_at(es, 2);
    lemma_field_at(es, 3);
    lemma_field_at(es, 4);
}

/// Extracting a testcase that was built gives back its id, name and
/// position.
pub proof fn law_testcase_round_trip(id: u64, name: Seq<char>, position: u64)
    ensures
        ({
            let v = testcase_json(id, name, position);
            num_at(v, "testcaseId"@) == id && text_at(v, "testcaseName"@) == name && num_at(
                v,
                "testcasePosition"@,
            ) == position
        }),
{
    reveal_strlit("testcaseId");
    reveal_strlit("testcaseName");
    reveal_strlit("testcasePosition");
    assert("testcaseId"@.len() == 10 && "testcaseName"@.len() == 12 && "testcasePosition"@.len() == 16);
    let es = testcase_json(id, name, position)->Object_0;
    lemma_field_at(es, 0);
    lemma_field_at(es, 1);
    lemma_field_at(es, 2);
}

/// Extracting a diagnostics stage that was built gives back what it was
/// built from.
pub proof fn law_diagnostics_stage_round_trip(
    name: Seq<char>,
    json_file: Seq<char>,
    steps: Json,
    stage_order: Seq<char>,
)
    ensures
        ({
            let v = diagnostics_stage_json(name, json_file, steps, stage_order);
            &&& text_at(v, "Name"@) == name
            &&& text_at(v, "Json"@) == json_file
            &&& value_or(v.field("steps"@), Json::Array(Seq::empty())) == steps
            &&& text_at(v, "stageOrder"@) == stage_order
        }),
{
    reveal_strlit("Name");
    reveal_strlit("Json");
    reveal_strlit("steps");
    reveal_strlit("stageOrder");
    assert("Name"@.len() == 4 && "Json"@.len() == 4 && "steps"@.len() == 5 && "stageOrder"@.len() == 10);
    assert("Name"@[0] == 'N' && "Json"@[0] == 'J');
    let es = diagnostics_stage_json(name, json_file, steps, stage_order)->Object_0;
    lemma_field_at(es, 0);
    lemma_field_at(es, 1);
    lemma_field_at(es, 2);
    lemma_field_at(es, 3);
}

/// Extracting a card that was built gives back what it was built from.
pub proof fn law_card_round_trip(
    card_name: Seq<char>,
    part_number: Seq<char>,
    card_type: Seq<char>,
    parameters: Seq<char>,
    card_xml: Seq<char>,
    tej_dms_xml: Seq<char>,
    eeprom_read_pos: u64,
)
    ensures
        ({
            let v = card_json(card_name, part_number, card_type, parameters, card_xml, tej_dms_xml, eeprom_read_pos);
            &&& text_at(v, "cardName"@) == card_name
            &&& text_at(v, "partNumber"@) == part_number
            &&& text_at(v, "cardType"@) == card_type
            &&& text_at(v, "Parameters"@) == parameters
            &&& text_at(v, "cardXml"@) == card_xml
            &&& text_at(v, "tejDMSxml"@) == tej_dms_xml
            &&& num_at(v, "eeprom_read_pos"@) == eeprom_read_pos
        }),
{
    reveal_strlit("cardName");
    reveal_strlit("partNumber");
    reveal_strlit("cardType");
    reveal_strlit("Parameters");
    reveal_strlit("cardXml");
    reveal_strlit("tejDMSxml");
    reveal_strlit("eeprom_read_pos");
    assert("cardName"@.len() == 8 && "partNumber"@.len() == 10 && "cardType"@.len() == 8);
    assert("Parameters"@.len() == 10 && "cardXml"@.len() == 7 && "tejDMSxml"@.len() == 9);
    assert("eeprom_read_pos"@.len() == 15);
    assert("cardName"@[4] == 'N' && "cardType"@[4] == 'T');
    assert("partNumber"@[0] == 'p' && "Parameters"@[0] == 'P');
    let es = card_json(card_name, part_number, card_type, parameters, card_xml, tej_dms_xml, eeprom_read_pos)->Object_0;
    lemma_field_at(es, 0);
    lemma_field_at(es, 1);
    lemma_field_at(es, 2);
    lemma_field_at(es, 3);
    lemma_field_at(es, 4);
    lemma_field_at(es, 5);
    lemma_field_at(es, 6);
}

/// Extracting an interactive query that was built gives back what it was
/// built from.
pub proof fn law_interactive_query_round_trip(
    key: Seq<char>,
    value: Json,
    message: Seq<char>,
    is_sfp_test: bool,
    id: u64,
)
    ensures
        ({
            let v = interactive_query_json(key, value, message, is_sfp_test, id);
            &&& text_at(v, "key"@) == key
            &&& value_or(v.field("value"@), Json::Null) == value
            &&& text_at(v, "message"@) == message
            &&& flag_at(v, "isSfpTest"@) == is_sfp_test
            &&& num_at(v, "id"@) == id
        }),
{
    reveal_strlit("key");
    reveal_strlit("value");
    reveal_strlit("message");
    reveal_strlit("isSfpTest");
    reveal_strlit("id");
    assert("key"@.len() == 3 && "value"@.len() == 5 && "message"@.len() == 7);
    assert("isSfpTest"@.len() == 9 && "id"@.len() == 2);
    let es = interactive_query_json(key, value, message, is_sfp_test, id)->Object_0;
    lemma_field_at(es, 0);
    lemma_field_at(es, 1);
    lemma_field_at(es, 2);
    lemma_field_at(es, 3);
    lemma_field_at(es, 4);
}

/// Reading back the UCD section that was built gives its four texts.
pub proof fn law_ucd_round_trip(path: Seq<char>, address: Seq<char>, series: Seq<char>, tc_id: Seq<char>)
    ensures
        ({
            let v = ucd_json(path, address, series, tc_id);
            text_at(v, "ucdPath"@) == path && text_at(v, "ucdAddress"@) == address && text_at(v, "tcSeries"@)
                == series && text_at(v, "testcaseId"@) == tc_id
        }),
{
    reveal_strlit("ucdPath");
    reveal_strlit("ucdAddress");
    reveal_strlit("tcSeries");
    reveal_strlit("testcaseId");
    assert("ucdPath"@.len() == 7 && "ucdAddress"@.len() == 10 && "tcSeries"@.len() == 8);
    assert("testcaseId"@.len() == 10 && "ucdAddress"@[0] == 'u' && "testcaseId"@[0] == 't');
    let es = ucd_json(path, address, series, tc_id)->Object_0;
    lemma_field_at(es, 0);
    lemma_field_at(es, 1);
    lemma_field_at(es, 2);
    lemma_field_at(es, 3);
}

/// Reading back the CFPGA section that was built gives its two texts.
pub proof fn law_cfpga_round_trip(file_name: Seq<char>, tcl_script: Seq<char>)
    ensures
        text_at(cfpga_json(file_name, tcl_script), "fileName"@) == file_name,
        text_at(cfpga_json(file_name, tcl_script), "tclScript"@) == tcl_script,
{
    reveal_strlit("fileName");
    reveal_strlit("tclScript");
    assert("fileName"@.len() == 8 && "tclScript"@.len() == 9);
    let es = cfpga_json(file_name, tcl_script)->Object_0;
    lemma_field_at(es, 0);
    lemma_field_at(es, 1);
}

/// Reading back the DEDI section that was built gives its two texts.
pub proof fn law_dedi_round_trip(location: Seq<char>, path: Seq<char>)
    ensures
        text_at(dedi_json(location, path), "dediLocation"@) == location,
        text_at(dedi_json(location, path), "dediPath"@) == path,
{
    reveal_strlit("dediLocation");
    reveal_strlit("dediPath");
    assert("dediLocation"@.len() == 12 && "dediPath"@.len() == 8);
    let es = dedi_json(location, path)->Object_0;
    lemma_field_at(es, 0);
    lemma_field_at(es, 1);
}

/// Reading back the T-MAMS section that was built gives its two texts.
pub proof fn law_tmams_round_trip(workflow_ver: Seq<char>, schema_ver: Seq<char>)
    ensures
        text_at(tmams_json(workflow_ver, schema_ver), "work_flow_version"@) == workflow_ver,
        text_at(tmams_json(workflow_ver, schema_ver), "schema_version"@) == schema_ver,
{
    reveal_strlit("work_flow_version");
    reveal_strlit("schema_version");
    assert("work_flow_version"@.len() == 17 && "schema_version"@.len() == 14);
    let es = tmams_json(workflow_ver, schema_ver)->Object_0;
    lemma_field_at(es, 0);
    lemma_field_at(es, 1);
}

/// Reading back the programming-details section that was built gives its
/// three texts.
pub proof fn law_programming_details_round_trip(name: Seq<char>, json_file: Seq<char>, stage_order: Seq<char>)
    ensures
        ({
            let v = programming_details_json(name, json_file, stage_order);
            text_at(v, "name"@) == name && text_at(v, "json"@) == json_file && text_at(v, "stageOrder"@)
                == stage_order
        }),
{
    reveal_strlit("name");
    reveal_strlit("json");
    reveal_strlit("stageOrder");
    assert("name"@.len() == 4 && "json"@.len() == 4 && "stageOrder"@.len() == 10);
    assert("name"@[0] == 'n' && "json"@[0] == 'j');
    let es = programming_details_json(name, json_file, stage_order)->Object_0;
    lemma_field_at(es, 0);
    lemma_field_at(es, 1);
    lemma_field_at(es, 2);
}

/// Reading back the card-setup section that was built gives its text.
pub proof fn law_card_setup_round_trip(json_file: Seq<char>)
    ensures
        text_at(card_setup_json(json_file), "json"@) == json_file,
{
    let es = card_setup_json(json_file)->Object_0;
    lemma_field_at(es, 0);
}

/// A new configuration names its part number in its first card, which is
/// where loading a configuration reads the part number from.
pub proof fn law_template_part_number(part_number: Seq<char>)
    ensures
        ({
            let info = template_json(part_number)->Object_0[0].1;
            &&& template_json(part_number).field("Info"@) == Some(info)
            &&& info.field("cards"@) == Some(Json::Array(seq![card_json(
                Seq::empty(), part_number, Seq::empty(), Seq::empty(), Seq::empty(), Seq::empty(), 0)]))
            &&& text_at(card_json(Seq::empty(), part_number, Seq::empty(), Seq::empty(), Seq::empty(), Seq::empty(), 0), "partNumber"@) == part_number
        }),
{
    let top = template_json(part_number)->Object_0;
    lemma_field_at(top, 0);
    let es = top[0].1->Object_0;
    reveal_strlit("Offline_Stages");
    reveal_strlit("Programming_Reqd");
    reveal_strlit("programming_details");
    reveal_strlit("Card_Setup");
    reveal_strlit("Diagnostics_Stages");
    reveal_strlit("Recovery_Stages");
    reveal_strlit("UCD");
    reveal_strlit("CFPGA");
    reveal_strlit("DEDI");
    reveal_strlit("T-MAMS");
    reveal_strlit("interactive_queries");
    reveal_strlit("cards");
    assert("Offline_Stages"@.len() == 14 && "Programming_Reqd"@.len() == 16);
    assert("programming_details"@.len() == 19 && "Card_Setup"@.len() == 10);
    assert("Diagnostics_Stages"@.len() == 18 && "Recovery_Stages"@.len() == 15);
    assert("UCD"@.len() == 3 && "CFPGA"@.len() == 5 && "DEDI"@.len() == 4);
    assert("T-MAMS"@.len() == 6 && "interactive_queries"@.len() == 19 && "cards"@.len() == 5);
    assert("CFPGA"@[0] == 'C' && "cards"@[0] == 'c');
    lemma_field_at(es, 11);
    law_card_round_trip(Seq::empty(), part_number, Seq::empty(), Seq::empty(), Seq::empty(), Seq::empty(), 0);
}

// ---- Steps shown as text and parsed back ----

/// A step that text round-trips: not empty, no comma, and no whitespace at
/// either end.
pub open spec fn is_plain_step(t: Seq<char>) -> bool {
    &&& t.len() > 0
    &&& trimmed(t) == t
    &&& forall|i: int| 0 <= i < t.len() ==> t[i] != ','
}

/// The pieces that the joined text of `xs.take(n)` splits into: the first
/// step, then each later step after the space that followed its comma.
pub open spec fn spaced_steps(xs: Seq<Seq<char>>, n: int) -> Seq<Seq<char>> {
    Seq::new(n as nat, |i: int| if i == 0 { xs[0] } else { " "@ + xs[i] })
}

/// Appending comma-free text extends the last piece.
proof fn lemma_pieces_extend(s: Seq<char>, t: Seq<char>)
    requires
        forall|i: int| 0 <= i < t.len() ==> t[i] != ',',
    ensures
        comma_pieces(s + t) == comma_pieces(s).update(
            comma_pieces(s).len() - 1,
            comma_pieces(s).last() + t,
        ),
    decreases t.len(),
{
    lemma_comma_pieces_nonempty(s);
    if t.len() == 0 {
        assert(s + t =~= s);
        assert(comma_pieces(s).last() + t =~= comma_pieces(s).last());
        assert(comma_pieces(s).update(comma_pieces(s).len() - 1, comma_pieces(s).last()) =~= comma_pieces(s));
    } else {
        let u = t.drop_last();
        lemma_pieces_extend(s, u);
        assert((s + t).drop_last() =~= s + u);
        assert((s + t).last() == t.last());
        lemma_comma_pieces_nonempty(s + u);
        assert(comma_pieces(s).last() + u + seq![t.last()] =~= comma_pieces(s).last() + t);
        assert((comma_pieces(s).last() + u).push(t.last()) =~= comma_pieces(s).last() + t);
    }
}

/// The joined text of `xs.take(n)` splits into the spaced steps.
proof fn lemma_joined_pieces(xs: Seq<Seq<char>>, n: int)
    requires
        1 <= n <= xs.len(),
        forall|i: int| 0 <= i < xs.len() ==> is_plain_step(#[trigger] xs[i]),
    ensures
        comma_pieces(join_with(xs.take(n), ", "@)) == spaced_steps(xs, n),
    decreases n,
{
    reveal_strlit(", ");
    reveal_strlit(" ");
    assert(is_plain_step(xs[n - 1]));
    if n == 1 {
        assert(xs.take(1)[0] == xs[0]);
        let e = Seq::<char>::empty();
        lemma_pieces_extend(e, xs[0]);
        assert(e + xs[0] =~= xs[0]);
        assert(comma_pieces(e) == seq![e]);
        assert(e + xs[0] =~= xs[0]);
        assert(spaced_steps(xs, 1) =~= seq![xs[0]]);
    } else {
        lemma_joined_pieces(xs, n - 1);
        let j = join_with(xs.take(n - 1), ", "@);
        let t = " "@ + xs[n - 1];
        assert(xs.take(n).drop_last() =~= xs.take(n - 1));
        assert(xs.take(n).last() == xs[n - 1]);
        assert(join_with(xs.take(n), ", "@) == j + ", "@ + xs[n - 1]);
        let jc = j + seq![','];
        assert(j + ", "@ + xs[n - 1] =~= jc + t);
        assert(jc.drop_last() =~= j);
        assert(comma_pieces(jc) == comma_pieces(j).push(Seq::empty()));
        assert forall|i: int| 0 <= i < t.len() implies t[i] != ',' by {
            if i > 0 {
                assert(t[i] == xs[n - 1][i - 1]);
            }
        }
        lemma_pieces_extend(jc, t);
        assert(Seq::<char>::empty() + t =~= t);
        assert(spaced_steps(xs, n) =~= spaced_steps(xs, n - 1).push(t));
    }
}

/// The spaced steps trim back to the steps.
proof fn lemma_kept_spaced(xs: Seq<Seq<char>>, n: int)
    requires
        0 <= n <= xs.len(),
        forall|i: int| 0 <= i < xs.len() ==> is_plain_step(#[trigger] xs[i]),
    ensures
        kept_steps(spaced_steps(xs, n)) == xs.take(n),
    decreases n,
{
    if n == 0 {
        assert(spaced_steps(xs, 0) =~= Seq::<Seq<char>>::empty());
        assert(xs.take(0) =~= Seq::<Seq<char>>::empty());
    } else {
        lemma_kept_spaced(xs, n - 1);
        assert(spaced_steps(xs, n).drop_last() =~= spaced_steps(xs, n - 1));
        let x = xs[n - 1];
        assert(is_plain_step(x));
        if n > 1 {
            reveal_strlit(" ");
            let t = " "@ + x;
            assert(t.len() > 0 && t[0] == ' ');
            assert(t.drop_first() =~= x);
            assert(trim_start(t) == trim_start(x));
        }
        assert(trimmed(spaced_steps(xs, n).last()) == x);
        assert(xs.take(n) =~= xs.take(n - 1).push(x));
    }
}

/// The strings of an array of strings are its elements' texts.
proof fn lemma_str_items_all(items: Seq<Json>)
    requires
        forall|i: int| 0 <= i < items.len() ==> (#[trigger] items[i]) is Str,
    ensures
        str_items(items).len() == items.len(),
        forall|i: int| 0 <= i < items.len() ==> str_items(items)[i] == (#[trigger] items[i])->Str_0,
    decreases items.len(),
{
    if items.len() > 0 {
        let rest = items.drop_last();
        assert forall|i: int| 0 <= i < rest.len() implies (#[trigger] rest[i]) is Str by {
            assert(rest[i] == items[i]);
        }
        lemma_str_items_all(rest);
        assert(items.last() is Str);
        assert forall|i: int| 0 <= i < items.len() implies str_items(items)[i] == (#[trigger] items[i])->Str_0 by {
            if i < items.len() - 1 {
                assert(rest[i] == items[i]);
            }
        }
    }
}

/// Showing a steps array as text and parsing that text back gives the
/// same array, when every step is a text that is not empty, holds no comma
/// and has no whitespace at either end.
pub proof fn law_steps_round_trip(items: Seq<Json>)
    requires
        forall|i: int| 0 <= i < items.len() ==> (#[trigger] items[i]) is Str && is_plain_step(items[i]->Str_0),
    ensures
        steps_json(steps_text(Json::Array(items))) == Json::Array(items),
{
    lemma_str_items_all(items);
    let xs = str_items(items);
    assert forall|i: int| 0 <= i < xs.len() implies is_plain_step(#[trigger] xs[i]) by {
        assert(xs[i] == items[i]->Str_0);
    }
    let n = xs.len() as int;
    if n == 0 {
        assert(join_with(xs, ", "@) == Seq::<char>::empty());
        assert(comma_pieces(Seq::<char>::empty()) == seq![Seq::<char>::empty()]);
        assert(seq![Seq::<char>::empty()].drop_last() =~= Seq::<Seq<char>>::empty());
        assert(trim_start(Seq::<char>::empty()) == Seq::<char>::empty());
        assert(trimmed(Seq::<char>::empty()).len() == 0);
        assert(kept_steps(Seq::<Seq<char>>::empty()) == Seq::<Seq<char>>::empty());
        assert(kept_steps(seq![Seq::<char>::empty()]) =~= Seq::<Seq<char>>::empty());
    } else {
        lemma_joined_pieces(xs, n);
        assert(xs.take(n) =~= xs);
    }
    lemma_kept_spaced(xs, n);
    assert(xs.take(n) =~= xs);
    let out = kept_steps(comma_pieces(steps_text(Json::Array(items))));
    assert(out == xs);
    assert(out.map_values(|t: Seq<char>| Json::Str(t)) =~= items);
}

/// No piece between commas holds a comma.
proof fn lemma_pieces_comma_free(s: Seq<char>)
    ensures
        forall|i: int, j: int|
            0 <= i < comma_pieces(s).len() && 0 <= j < comma_pieces(s)[i].len() ==> #[trigger] comma_pieces(
                s,
            )[i][j] != ',',
    decreases s.len(),
{
    if s.len() > 0 {
        let p = comma_pieces(s.drop_last());
        lemma_pieces_comma_free(s.drop_last());
        lemma_comma_pieces_nonempty(s.drop_last());
        if s.last() != ',' {
            assert forall|i: int, j: int|
                0 <= i < comma_pieces(s).len() && 0 <= j < comma_pieces(s)[i].len() implies #[trigger] comma_pieces(
                s,
            )[i][j] != ',' by {
                if i == p.len() - 1 && j < p.last().len() {
                    assert(comma_pieces(s)[i][j] == p[i][j]);
                } else if i < p.len() - 1 {
                    assert(comma_pieces(s)[i] == p[i]);
                }
            }
        } else {
            assert forall|i: int, j: int|
                0 <= i < comma_pieces(s).len() && 0 <= j < comma_pieces(s)[i].len() implies #[trigger] comma_pieces(
                s,
            )[i][j] != ',' by {
                assert(comma_pieces(s)[i] == p[i]);
            }
        }
    }
}

/// The steps kept from comma-free pieces are plain steps.
proof fn lemma_kept_plain(pieces: Seq<Seq<char>>)
    requires
        forall|i: int, j: int| 0 <= i < pieces.len() && 0 <= j < pieces[i].len() ==> #[trigger] pieces[i][j] != ',',
    ensures
        forall|i: int| 0 <= i < kept_steps(pieces).len() ==> is_plain_step(#[trigger] kept_steps(pieces)[i]),
    decreases pieces.len(),
{
    if pieces.len() > 0 {
        let rest = pieces.drop_last();
        assert forall|i: int, j: int| 0 <= i < rest.len() && 0 <= j < rest[i].len() implies #[trigger] rest[i][j]
            != ',' by {
            assert(rest[i] == pieces[i]);
        }
        lemma_kept_plain(rest);
        let p = pieces.last();
        let r = crate::domain::text::lemma_trimmed_shape(p);
        let t = trimmed(p);
        assert forall|j: int| 0 <= j < t.len() implies t[j] != ',' by {
            assert(t[j] == p[r.0 + j]);
            assert(pieces[pieces.len() - 1][r.0 + j] != ',');
        }
        let k = kept_steps(pieces);
        let kr = kept_steps(rest);
        assert forall|i: int| 0 <= i < k.len() implies is_plain_step(#[trigger] k[i]) by {
            if i < kr.len() {
                assert(k[i] == kr[i]);
            } else {
                assert(k[i] == t);
            }
        }
    }
}

/// Whatever text the steps were parsed from, showing them and parsing
/// that text gives the same steps back.
pub proof fn law_parsed_steps_round_trip(s: Seq<char>)
    ensures
        steps_json(steps_text(steps_json(s))) == steps_json(s),
{
    let kept = kept_steps(comma_pieces(s));
    lemma_pieces_comma_free(s);
    lemma_kept_plain(comma_pieces(s));
    let items = kept.map_values(|t: Seq<char>| Json::Str(t));
    assert forall|i: int| 0 <= i < items.len() implies (#[trigger] items[i]) is Str && is_plain_step(
        items[i]->Str_0,
    ) by {
        assert(items[i] == Json::Str(kept[i]));
    }
    law_steps_round_trip(items);
}

} // verus!
