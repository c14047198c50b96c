//! Form state: all editable fields for the multi-step form.
//!
//! Each field is a `String` or a list; the transformers convert between
//! these fields and JSON.

use vstd::prelude::*;
use crate::domain::json_value::{lemma_field_at, Json, JsonValue};
use crate::domain::text::{owned, pop_char, push_char};
use crate::domain::transformers::{
    card_json, extract_cfpga, extract_dedi, extract_programming_details, extract_tmams, extract_ucd,
    flag_at, law_card_setup_round_trip, law_cfpga_round_trip, law_dedi_round_trip,
    law_programming_details_round_trip, law_tmams_round_trip, law_ucd_round_trip, section,
    section_text, str_field, template_json, text_at,
};

verus! {

/// An item in a dynamic list (offline stage, card, query, etc.).
pub struct ListItem {
    /// Display label.
    pub name: String,
    /// Underlying JSON value.
    pub value: JsonValue,
}

impl ListItem {
    pub fn new(name: String, value: JsonValue) -> (r: Self)
        ensures
            r.name == name,
            r.value == value,
    {
        Self { name, value }
    }
}

/// The labels and values of a list, as text and JSON.
pub open spec fn items_model(items: Seq<ListItem>) -> Seq<(Seq<char>, Json)> {
    items.map_values(|it: ListItem| (it.name@, it.value.model()))
}

/// The values of a list, as JSON.
pub open spec fn values_model(items: Seq<ListItem>) -> Seq<Json> {
    items.map_values(|it: ListItem| it.value.model())
}

/// The form state — one struct holding every editable field across all steps.
pub struct FormState {
    // --- Step 1: Part Number ---
    pub part_number: String,

    // --- Step 2: Basic Info & Hardware Config ---
    // UCD
    pub ucd_path: String,
    pub ucd_address: String,
    pub ucd_tc_series: String,
    pub ucd_testcase_id: String,
    // CFPGA
    pub cfpga_file_name: String,
    pub cfpga_tcl_script: String,
    // DEDI
    pub dedi_location: String,
    pub dedi_path: String,
    // T-MAMS
    pub tmams_workflow_version: String,
    pub tmams_schema_version: String,
    // Programming details
    pub programming_reqd: bool,
    pub prog_name: String,
    pub prog_json: String,
    pub prog_stage_order: String,
    // Card Setup
    pub card_setup_json: String,
    // Instruction message
    pub instruction_message: String,

    // --- Step 3: Offline Stages ---
    pub offline_stages: Vec<ListItem>,
    pub offline_stages_selected: Option<usize>,
    pub offline_stage_editing: bool,
    // Sub-form fields for offline stage
    pub os_name: String,
    pub os_stage_order: String,
    pub os_tool: String,
    /// Comma-separated.
    pub os_steps: String,
    // Testcase sub-form (nested inside offline stage editing)
    pub os_testcases: Vec<ListItem>,
    pub os_testcases_selected: Option<usize>,
    pub os_testcase_editing: bool,
    pub tc_id: String,
    pub tc_name: String,
    pub tc_position: String,

    // --- Step 4: Diagnostics Stages ---
    pub diagnostics_stages: Vec<ListItem>,
    pub diagnostics_stages_selected: Option<usize>,
    pub diagnostics_stage_editing: bool,
    pub ds_name: String,
    pub ds_json: String,
    pub ds_steps: String,
    pub ds_stage_order: String,

    // --- Step 5: Cards ---
    pub cards: Vec<ListItem>,
    pub cards_selected: Option<usize>,
    pub card_editing: bool,
    pub card_name: String,
    pub card_part_number: String,
    pub card_type: String,
    pub card_parameters: String,
    pub card_xml: String,
    pub card_tej_dms_xml: String,
    pub card_eeprom_read_pos: String,

    // --- Step 6: Interactive Queries ---
    pub interactive_queries: Vec<ListItem>,
    pub queries_selected: Option<usize>,
    pub query_editing: bool,
    pub iq_key: String,
    pub iq_value: String,
    pub iq_message: String,
    pub iq_is_sfp_test: bool,
    pub iq_id: String,

    /// Which input field is focused in the current step/sub-form.
    pub focused_field: usize,
}

/// The text fields of the form.
#[derive(Debug, Clone, Copy, PartialEq, Eq, Structural)]
pub enum TextField {
    PartNumber,
    UcdPath,
    UcdAddress,
    UcdTcSeries,
    UcdTestcaseId,
    CfpgaFileName,
    CfpgaTclScript,
    DediLocation,
    DediPath,
    TmamsWorkflowVersion,
    TmamsSchemaVersion,
    ProgName,
    ProgJson,
    ProgStageOrder,
    CardSetupJson,
    InstructionMessage,
    OsName,
    OsStageOrder,
    OsTool,
    OsSteps,
    TcId,
    TcName,
    TcPosition,
    DsName,
    DsJson,
    DsSteps,
    DsStageOrder,
    CardName,
    CardPartNumber,
    CardType,
    CardParameters,
    CardXml,
    CardTejDmsXml,
    CardEepromReadPos,
    IqKey,
    IqValue,
    IqMessage,
    IqId,
}

impl FormState {
    /// The text held by field `f`.
    pub open spec fn text(self, f: TextField) -> String {
        match f {
            TextField::PartNumber => self.part_number,
            TextField::UcdPath => self.ucd_path,
            TextField::UcdAddress => self.ucd_address,
            TextField::UcdTcSeries => self.ucd_tc_series,
            TextField::UcdTestcaseId => self.ucd_testcase_id,
            TextField::CfpgaFileName => self.cfpga_file_name,
            TextField::CfpgaTclScript => self.cfpga_tcl_script,
            TextField::DediLocation => self.dedi_location,
            TextField::DediPath => self.dedi_path,
            TextField::TmamsWorkflowVersion => self.tmams_workflow_version,
            TextField::TmamsSchemaVersion => self.tmams_schema_version,
            TextField::ProgName => self.prog_name,
            TextField::ProgJson => self.prog_json,
            TextField::ProgStageOrder => self.prog_stage_order,
            TextField::CardSetupJson => self.card_setup_json,
            TextField::InstructionMessage => self.instruction_message,
            TextField::OsName => self.os_name,
            TextField::OsStageOrder => self.os_stage_order,
            TextField::OsTool => self.os_tool,
            TextField::OsSteps => self.os_steps,
            TextField::TcId => self.tc_id,
            TextField::TcName => self.tc_name,
            TextField::TcPosition => self.tc_position,
            TextField::DsName => self.ds_name,
            TextField::DsJson => self.ds_json,
            TextField::DsSteps => self.ds_steps,
            TextField::DsStageOrder => self.ds_stage_order,
            TextField::CardName => self.card_name,
            TextField::CardPartNumber => self.card_part_number,
            TextField::CardType => self.card_type,
            TextField::CardParameters => self.card_parameters,
            TextField::CardXml => self.card_xml,
            TextField::CardTejDmsXml => self.card_tej_dms_xml,
            TextField::CardEepromReadPos => self.card_eeprom_read_pos,
            TextField::IqKey => self.iq_key,
            TextField::IqValue => self.iq_value,
            TextField::IqMessage => self.iq_message,
            TextField::IqId => self.iq_id,
        }
    }

    /// This form with field `f` holding `s`, every other field unchanged.
    pub open spec fn with_text(self, f: TextField, s: String) -> FormState {
        match f {
            TextField::PartNumber => FormState { part_number: s, ..self },
            TextField::UcdPath => FormState { ucd_path: s, ..self },
            TextField::UcdAddress => FormState { ucd_address: s, ..self },
            TextField::UcdTcSeries => FormState { ucd_tc_series: s, ..self },
            TextField::UcdTestcaseId => FormState { ucd_testcase_id: s, ..self },
            TextField::CfpgaFileName => FormState { cfpga_file_name: s, ..self },
            TextField::CfpgaTclScript => FormState { cfpga_tcl_script: s, ..self },
            TextField::DediLocation => FormState { dedi_location: s, ..self },
            TextField::DediPath => FormState { dedi_path: s, ..self },
            TextField::TmamsWorkflowVersion => FormState { tmams_workflow_version: s, ..self },
            TextField::TmamsSchemaVersion => FormState { tmams_schema_version: s, ..self },
            TextField::ProgName => FormState { prog_name: s, ..self },
            TextField::ProgJson => FormState { prog_json: s, ..self },
            TextField::ProgStageOrder => FormState { prog_stage_order: s, ..self },
            TextField::CardSetupJson => FormState { card_setup_json: s, ..self },
            TextField::InstructionMessage => FormState { instruction_message: s, ..self },
            TextField::OsName => FormState { os_name: s, ..self },
            TextField::OsStageOrder => FormState { os_stage_order: s, ..self },
            TextField::OsTool => FormState { os_tool: s, ..self },
            TextField::OsSteps => FormState { os_steps: s, ..self },
            TextField::TcId => FormState { tc_id: s, ..self },
            TextField::TcName => FormState { tc_name: s, ..self },
            TextField::TcPosition => FormState { tc_position: s, ..self },
            TextField::DsName => FormState { ds_name: s, ..self },
            TextField::DsJson => FormState { ds_json: s, ..self },
            TextField::DsSteps => FormState { ds_steps: s, ..self },
            TextField::DsStageOrder => FormState { ds_stage_order: s, ..self },
            TextField::CardName => FormState { card_name: s, ..self },
            TextField::CardPartNumber => FormState { card_part_number: s, ..self },
            TextField::CardType => FormState { card_type: s, ..self },
            TextField::CardParameters => FormState { card_parameters: s, ..self },
            TextField::CardXml => FormState { card_xml: s, ..self },
            TextField::CardTejDmsXml => FormState { card_tej_dms_xml: s, ..self },
            TextField::CardEepromReadPos => FormState { card_eeprom_read_pos: s, ..self },
            TextField::IqKey => FormState { iq_key: s, ..self },
            TextField::IqValue => FormState { iq_value: s, ..self },
            TextField::IqMessage => FormState { iq_message: s, ..self },
            TextField::IqId => FormState { iq_id: s, ..self },
        }
    }

    /// Types `c` at the end of field `f`.
    pub fn push_text(&mut self, f: TextField, c: char)
        ensures
            *final(self) == old(self).with_text(f, final(self).text(f)),
            final(self).text(f)@ == old(self).text(f)@.push(c),
    {
        match f {
            TextField::PartNumber => push_char(&mut self.part_number, c),
            TextField::UcdPath => push_char(&mut self.ucd_path, c),
            TextField::UcdAddress => push_char(&mut self.ucd_address, c),
            TextField::UcdTcSeries => push_char(&mut self.ucd_tc_series, c),
            TextField::UcdTestcaseId => push_char(&mut self.ucd_testcase_id, c),
            TextField::CfpgaFileName => push_char(&mut self.cfpga_file_name, c),
            TextField::CfpgaTclScript => push_char(&mut self.cfpga_tcl_script, c),
            TextField::DediLocation => push_char(&mut self.dedi_location, c),
            TextField::DediPath => push_char(&mut self.dedi_path, c),
            TextField::TmamsWorkflowVersion => push_char(&mut self.tmams_workflow_version, c),
            TextField::TmamsSchemaVersion => push_char(&mut self.tmams_schema_version, c),
            TextField::ProgName => push_char(&mut self.prog_name, c),
            TextField::ProgJson => push_char(&mut self.prog_json, c),
            TextField::ProgStageOrder => push_char(&mut self.prog_stage_order, c),
            TextField::CardSetupJson => push_char(&mut self.card_setup_json, c),
            TextField::InstructionMessage => push_char(&mut self.instruction_message, c),
            TextField::OsName => push_char(&mut self.os_name, c),
            TextField::OsStageOrder => push_char(&mut self.os_stage_order, c),
            TextField::OsTool => push_char(&mut self.os_tool, c),
            TextField::OsSteps => push_char(&mut self.os_steps, c),
            TextField::TcId => push_char(&mut self.tc_id, c),
            TextField::TcName => push_char(&mut self.tc_name, c),
            TextField::TcPosition => push_char(&mut self.tc_position, c),
            TextField::DsName => push_char(&mut self.ds_name, c),
            TextField::DsJson => push_char(&mut self.ds_json, c),
            TextField::DsSteps => push_char(&mut self.ds_steps, c),
            TextField::DsStageOrder => push_char(&mut self.ds_stage_order, c),
            TextField::CardName => push_char(&mut self.card_name, c),
            TextField::CardPartNumber => push_char(&mut self.card_part_number, c),
            TextField::CardType => push_char(&mut self.card_type, c),
            TextField::CardParameters => push_char(&mut self.card_parameters, c),
            TextField::CardXml => push_char(&mut self.card_xml, c),
            TextField::CardTejDmsXml => push_char(&mut self.card_tej_dms_xml, c),
            TextField::CardEepromReadPos => push_char(&mut self.card_eeprom_read_pos, c),
            TextField::IqKey => push_char(&mut self.iq_key, c),
            TextField::IqValue => push_char(&mut self.iq_value, c),
            TextField::IqMessage => push_char(&mut self.iq_message, c),
            TextField::IqId => push_char(&mut self.iq_id, c),
        }
    }

    /// Deletes the last character of field `f`, if it has one.
    pub fn pop_text(&mut self, f: TextField)
        ensures
            *final(self) == old(self).with_text(f, final(self).text(f)),
            final(self).text(f)@ == if old(self).text(f)@.len() > 0 {
                old(self).text(f)@.drop_last()
            } else {
                old(self).text(f)@
            },
    {
        match f {
            TextField::PartNumber => { pop_char(&mut self.part_number); },
            TextField::UcdPath => { pop_char(&mut self.ucd_path); },
            TextField::UcdAddress => { pop_char(&mut self.ucd_address); },
            TextField::UcdTcSeries => { pop_char(&mut self.ucd_tc_series); },
            TextField::UcdTestcaseId => { pop_char(&mut self.ucd_testcase_id); },
            TextField::CfpgaFileName => { pop_char(&mut self.cfpga_file_name); },
            TextField::CfpgaTclScript => { pop_char(&mut self.cfpga_tcl_script); },
            TextField::DediLocation => { pop_char(&mut self.dedi_location); },
            TextField::DediPath => { pop_char(&mut self.dedi_path); },
            TextField::TmamsWorkflowVersion => { pop_char(&mut self.tmams_workflow_version); },
            TextField::TmamsSchemaVersion => { pop_char(&mut self.tmams_schema_version); },
            TextField::ProgName => { pop_char(&mut self.prog_name); },
            TextField::ProgJson => { pop_char(&mut self.prog_json); },
            TextField::ProgStageOrder => { pop_char(&mut self.prog_stage_order); },
            TextField::CardSetupJson => { pop_char(&mut self.card_setup_json); },
            TextField::InstructionMessage => { pop_char(&mut self.instruction_message); },
            TextField::OsName => { pop_char(&mut self.os_name); },
            TextField::OsStageOrder => { pop_char(&mut self.os_stage_order); },
            TextField::OsTool => { pop_char(&mut self.os_tool); },
            TextField::OsSteps => { pop_char(&mut self.os_steps); },
            TextField::TcId => { pop_char(&mut self.tc_id); },
            TextField::TcName => { pop_char(&mut self.tc_name); },
            TextField::TcPosition => { pop_char(&mut self.tc_position); },
            TextField::DsName => { pop_char(&mut self.ds_name); },
            TextField::DsJson => { pop_char(&mut self.ds_json); },
            TextField::DsSteps => { pop_char(&mut self.ds_steps); },
            TextField::DsStageOrder => { pop_char(&mut self.ds_stage_order); },
            TextField::CardName => { pop_char(&mut self.card_name); },
            TextField::CardPartNumber => { pop_char(&mut self.card_part_number); },
            TextField::CardType => { pop_char(&mut self.card_type); },
            TextField::CardParameters => { pop_char(&mut self.card_parameters); },
            TextField::CardXml => { pop_char(&mut self.card_xml); },
            TextField::CardTejDmsXml => { pop_char(&mut self.card_tej_dms_xml); },
            TextField::CardEepromReadPos => { pop_char(&mut self.card_eeprom_read_pos); },
            TextField::IqKey => { pop_char(&mut self.iq_key); },
            TextField::IqValue => { pop_char(&mut self.iq_value); },
            TextField::IqMessage => { pop_char(&mut self.iq_message); },
            TextField::IqId => { pop_char(&mut self.iq_id); },
        }
    }

    /// Every text empty, every list empty, nothing selected or being edited,
    /// `Programming_Reqd` and the SFP flag off, the first field focused.
    pub open spec fn is_fresh(self) -> bool {
        &&& forall|f: TextField| (#[trigger] self.text(f))@ == Seq::<char>::empty()
        &&& !self.programming_reqd
        &&& self.offline_stages@.len() == 0
        &&& self.os_testcases@.len() == 0
        &&& self.diagnostics_stages@.len() == 0
        &&& self.cards@.len() == 0
        &&& self.interactive_queries@.len() == 0
        &&& self.sub_forms_closed()
    }

    /// Nothing selected in any list, no popup open, the SFP flag off and the
    /// first field focused.
    pub open spec fn sub_forms_closed(self) -> bool {
        &&& self.offline_stages_selected is None
        &&& self.offline_stage_editing == false
        &&& self.os_testcases_selected is None
        &&& self.os_testcase_editing == false
        &&& self.diagnostics_stages_selected is None
        &&& self.diagnostics_stage_editing == false
        &&& self.cards_selected is None
        &&& self.card_editing == false
        &&& self.queries_selected is None
        &&& self.query_editing == false
        &&& self.iq_is_sfp_test == false
        &&& self.focused_field == 0
    }

    pub fn new() -> (r: Self)
        ensures
            r.is_fresh(),
    {
        Self {
            part_number: String::new(),
            ucd_path: String::new(),
            ucd_address: String::new(),
            ucd_tc_series: String::new(),
            ucd_testcase_id: String::new(),
            cfpga_file_name: String::new(),
            cfpga_tcl_script: String::new(),
            dedi_location: String::new(),
            dedi_path: String::new(),
            tmams_workflow_version: String::new(),
            tmams_schema_version: String::new(),
            programming_reqd: false,
            prog_name: String::new(),
            prog_json: String::new(),
            prog_stage_order: String::new(),
            card_setup_json: String::new(),
            instruction_message: String::new(),
            offline_stages: Vec::new(),
            offline_stages_selected: None,
            offline_stage_editing: false,
            os_name: String::new(),
            os_stage_order: String::new(),
            os_tool: String::new(),
            os_steps: String::new(),
            os_testcases: Vec::new(),
            os_testcases_selected: None,
            os_testcase_editing: false,
            tc_id: String::new(),
            tc_name: String::new(),
            tc_position: String::new(),
            diagnostics_stages: Vec::new(),
            diagnostics_stages_selected: None,
            diagnostics_stage_editing: false,
            ds_name: String::new(),
            ds_json: String::new(),
            ds_steps: String::new(),
            ds_stage_order: String::new(),
            cards: Vec::new(),
            cards_selected: None,
            card_editing: false,
            card_name: String::new(),
            card_part_number: String::new(),
            card_type: String::new(),
            card_parameters: String::new(),
            card_xml: String::new(),
            card_tej_dms_xml: String::new(),
            card_eeprom_read_pos: String::new(),
            interactive_queries: Vec::new(),
            queries_selected: None,
            query_editing: false,
            iq_key: String::new(),
            iq_value: String::new(),
            iq_message: String::new(),
            iq_is_sfp_test: false,
            iq_id: String::new(),
            focused_field: 0,
        }
    }

    /// What `from_config` reads from a configuration: the part number of the
    /// first card, every section text, the `Programming_Reqd` flag and the
    /// four lists; the sub-forms start empty and closed.
    pub open spec fn loaded_from(self, config: Json) -> bool {
        let info = section(config, "Info"@);
        &&& self.part_number@ == first_card_part_number(info)
        &&& self.ucd_path@ == section_text(info, "UCD"@, "ucdPath"@)
        &&& self.ucd_address@ == section_text(info, "UCD"@, "ucdAddress"@)
        &&& self.ucd_tc_series@ == section_text(info, "UCD"@, "tcSeries"@)
        &&& self.ucd_testcase_id@ == section_text(info, "UCD"@, "testcaseId"@)
        &&& self.cfpga_file_name@ == section_text(info, "CFPGA"@, "fileName"@)
        &&& self.cfpga_tcl_script@ == section_text(info, "CFPGA"@, "tclScript"@)
        &&& self.dedi_location@ == section_text(info, "DEDI"@, "dediLocation"@)
        &&& self.dedi_path@ == section_text(info, "DEDI"@, "dediPath"@)
        &&& self.tmams_workflow_version@ == section_text(info, "T-MAMS"@, "work_flow_version"@)
        &&& self.tmams_schema_version@ == section_text(info, "T-MAMS"@, "schema_version"@)
        &&& self.prog_name@ == section_text(info, "programming_details"@, "name"@)
        &&& self.prog_json@ == section_text(info, "programming_details"@, "json"@)
        &&& self.prog_stage_order@ == section_text(info, "programming_details"@, "stageOrder"@)
        &&& self.programming_reqd == flag_at(info, "Programming_Reqd"@)
        &&& self.card_setup_json@ == section_text(info, "Card_Setup"@, "json"@)
        &&& self.instruction_message@ == text_at(info, "intruction_message"@)
        &&& items_model(self.offline_stages@) == listed_items(info, "Offline_Stages"@, "Name"@)
        &&& items_model(self.diagnostics_stages@) == listed_items(info, "Diagnostics_Stages"@, "Name"@)
        &&& items_model(self.cards@) == listed_items(info, "cards"@, "cardName"@)
        &&& items_model(self.interactive_queries@) == listed_items(info, "interactive_queries"@, "key"@)
        &&& forall|f: TextField| is_sub_form_field(f) ==> (#[trigger] self.text(f))@ == Seq::<char>::empty()
        &&& self.os_testcases@.len() == 0
        &&& self.sub_forms_closed()
    }

    /// Populate form fields from an existing JSON config.
    pub fn from_config(config: &JsonValue) -> (r: Self)
        ensures
            r.loaded_from(config.model()),
    {
        let info = match config.get("Info") {
            Some(i) => i.deep_copy(),
            None => crate::domain::transformers::empty_object(),
        };
        let part_number = first_card_part(&info);
        let (ucd_path, ucd_address, ucd_tc_series, ucd_testcase_id) = extract_ucd(&info);
        let (cfpga_file_name, cfpga_tcl_script) = extract_cfpga(&info);
        let (dedi_location, dedi_path) = extract_dedi(&info);
        let (tmams_workflow_version, tmams_schema_version) = extract_tmams(&info);
        let (prog_name, prog_json, prog_stage_order) = extract_programming_details(&info);
        let programming_reqd = crate::domain::transformers::bool_field(&info, "Programming_Reqd");
        let card_setup_json = match info.get("Card_Setup") {
            Some(cs) => str_field(cs, "json"),
            None => String::new(),
        };
        proof {
            crate::domain::json_value::lemma_key_index(Seq::empty(), "json"@);
        }
        let instruction_message = str_field(&info, "intruction_message");
        let offline_stages = extract_items(&info, "Offline_Stages", "Name");
        let diagnostics_stages = extract_items(&info, "Diagnostics_Stages", "Name");
        let cards = extract_items(&info, "cards", "cardName");
        let interactive_queries = extract_items(&info, "interactive_queries", "key");

        Self {
            part_number,
            ucd_path,
            ucd_address,
            ucd_tc_series,
            ucd_testcase_id,
            cfpga_file_name,
            cfpga_tcl_script,
            dedi_location,
            dedi_path,
            tmams_workflow_version,
            tmams_schema_version,
            programming_reqd,
            prog_name,
            prog_json,
            prog_stage_order,
            card_setup_json,
            instruction_message,
            offline_stages,
            offline_stages_selected: None,
            offline_stage_editing: false,
            os_name: String::new(),
            os_stage_order: String::new(),
            os_tool: String::new(),
            os_steps: String::new(),
            os_testcases: Vec::new(),
            os_testcases_selected: None,
            os_testcase_editing: false,
            tc_id: String::new(),
            tc_name: String::new(),
            tc_position: String::new(),
            diagnostics_stages,
            diagnostics_stages_selected: None,
            diagnostics_stage_editing: false,
            ds_name: String::new(),
            ds_json: String::new(),
            ds_steps: String::new(),
            ds_stage_order: String::new(),
            cards,
            cards_selected: None,
            card_editing: false,
            card_name: String::new(),
            card_part_number: String::new(),
            card_type: String::new(),
            card_parameters: String::new(),
            card_xml: String::new(),
            card_tej_dms_xml: String::new(),
            card_eeprom_read_pos: String::new(),
            interactive_queries,
            queries_selected: None,
            query_editing: false,
            iq_key: String::new(),
            iq_value: String::new(),
            iq_message: String::new(),
            iq_is_sfp_test: false,
            iq_id: String::new(),
            focused_field: 0,
        }
    }

    /// Clear all offline-stage sub-form fields, its testcase list and the
    /// testcase selection and popup.
    pub fn clear_offline_stage_fields(&mut self)
        ensures
            *final(self) == (FormState {
                os_name: final(self).os_name,
                os_stage_order: final(self).os_stage_order,
                os_tool: final(self).os_tool,
                os_steps: final(self).os_steps,
                os_testcases: final(self).os_testcases,
                os_testcases_selected: None,
                os_testcase_editing: false,
                ..*old(self)
            }),
            final(self).os_name@.len() == 0,
            final(self).os_stage_order@.len() == 0,
            final(self).os_tool@.len() == 0,
            final(self).os_steps@.len() == 0,
            final(self).os_testcases@.len() == 0,
    {
        self.os_name = String::new();
        self.os_stage_order = String::new();
        self.os_tool = String::new();
        self.os_steps = String::new();
        self.os_testcases = Vec::new();
        self.os_testcases_selected = None;
        self.os_testcase_editing = false;
    }

    /// Clear testcase sub-form fields.
    pub fn clear_testcase_fields(&mut self)
        ensures
            *final(self) == (FormState {
                tc_id: final(self).tc_id,
                tc_name: final(self).tc_name,
                tc_position: final(self).tc_position,
                ..*old(self)
            }),
            final(self).tc_id@.len() == 0,
            final(self).tc_name@.len() == 0,
            final(self).tc_position@.len() == 0,
    {
        self.tc_id = String::new();
        self.tc_name = String::new();
        self.tc_position = String::new();
    }

    /// Clear diagnostics stage sub-form fields.
    pub fn clear_diagnostics_stage_fields(&mut self)
        ensures
            *final(self) == (FormState {
                ds_name: final(self).ds_name,
                ds_json: final(self).ds_json,
                ds_steps: final(self).ds_steps,
                ds_stage_order: final(self).ds_stage_order,
                ..*old(self)
            }),
            final(self).ds_name@.len() == 0,
            final(self).ds_json@.len() == 0,
            final(self).ds_steps@.len() == 0,
            final(self).ds_stage_order@.len() == 0,
    {
        self.ds_name = String::new();
        self.ds_json = String::new();
        self.ds_steps = String::new();
        self.ds_stage_order = String::new();
    }

    /// Clear card sub-form fields.
    pub fn clear_card_fields(&mut self)
        ensures
            *final(self) == (FormState {
                card_name: final(self).card_name,
                card_part_number: final(self).card_part_number,
                card_type: final(self).card_type,
                card_parameters: final(self).card_parameters,
                card_xml: final(self).card_xml,
                card_tej_dms_xml: final(self).card_tej_dms_xml,
                card_eeprom_read_pos: final(self).card_eeprom_read_pos,
                ..*old(self)
            }),
            final(self).card_name@.len() == 0,
            final(self).card_part_number@.len() == 0,
            final(self).card_type@.len() == 0,
            final(self).card_parameters@.len() == 0,
            final(self).card_xml@.len() == 0,
            final(self).card_tej_dms_xml@.len() == 0,
            final(self).card_eeprom_read_pos@.len() == 0,
    {
        self.card_name = String::new();
        self.card_part_number = String::new();
        self.card_type = String::new();
        self.card_parameters = String::new();
        self.card_xml = String::new();
        self.card_tej_dms_xml = String::new();
        self.card_eeprom_read_pos = String::new();
    }

    /// Clear interactive query sub-form fields and the SFP flag.
    pub fn clear_query_fields(&mut self)
        ensures
            *final(self) == (FormState {
                iq_key: final(self).iq_key,
                iq_value: final(self).iq_value,
                iq_message: final(self).iq_message,
                iq_is_sfp_test: false,
                iq_id: final(self).iq_id,
                ..*old(self)
            }),
            final(self).iq_key@.len() == 0,
            final(self).iq_value@.len() == 0,
            final(self).iq_message@.len() == 0,
            final(self).iq_id@.len() == 0,
    {
        self.iq_key = String::new();
        self.iq_value = String::new();
        self.iq_message = String::new();
        self.iq_is_sfp_test = false;
        self.iq_id = String::new();
    }
}

/// The fields of the popups (stage, testcase, card and query sub-forms).
pub open spec fn is_sub_form_field(f: TextField) -> bool {
    match f {
        TextField::OsName | TextField::OsStageOrder | TextField::OsTool | TextField::OsSteps
        | TextField::TcId | TextField::TcName | TextField::TcPosition | TextField::DsName
        | TextField::DsJson | TextField::DsSteps | TextField::DsStageOrder | TextField::CardName
        | TextField::CardPartNumber | TextField::CardType | TextField::CardParameters
        | TextField::CardXml | TextField::CardTejDmsXml | TextField::CardEepromReadPos
        | TextField::IqKey | TextField::IqValue | TextField::IqMessage | TextField::IqId => true,
        _ => false,
    }
}

/// The part number of the first card under `cards` of `info`, or the empty
/// text when there is no card or it has no `partNumber` string.
pub open spec fn first_card_part_number(info: Json) -> Seq<char> {
    match info.field("cards"@) {
        Some(Json::Array(a)) => if a.len() > 0 {
            text_at(a[0], "partNumber"@)
        } else {
            Seq::empty()
        },
        _ => Seq::empty(),
    }
}

/// The part number of the first card of `info`.
fn first_card_part(info: &JsonValue) -> (r: String)
    ensures
        r@ == first_card_part_number(info.model()),
{
    match info.get("cards") {
        Some(c) => match c.as_array() {
            Some(a) => if a.len() > 0 {
                str_field(&a[0], "partNumber")
            } else {
                String::new()
            },
            None => String::new(),
        },
        None => String::new(),
    }
}

/// The label of a list item: the string under `name_key`, or `<unnamed>`.
pub open spec fn item_label(item: Json, name_key: Seq<char>) -> Seq<char> {
    match item.field(name_key) {
        Some(Json::Str(s)) => s,
        _ => "<unnamed>"@,
    }
}

/// The items of the array under `field` of `info`, each with its label; no
/// items when there is no such array.
pub open spec fn listed_items(info: Json, field: Seq<char>, name_key: Seq<char>) -> Seq<
    (Seq<char>, Json),
> {
    match info.field(field) {
        Some(Json::Array(a)) => a.map_values(|item: Json| (item_label(item, name_key), item)),
        _ => Seq::empty(),
    }
}

/// The items of the array under `field` of `config`, labelled by `name_key`.
fn extract_items(config: &JsonValue, field: &str, name_key: &str) -> (r: Vec<ListItem>)
    ensures
        items_model(r@) == listed_items(config.model(), field@, name_key@),
{
    let mut out: Vec<ListItem> = Vec::new();
    match config.get(field) {
        Some(v) => match v.as_array() {
            Some(a) => {
                let ghost items = Seq::new(a@.len(), |i: int| a@[i].model());
                let mut i: usize = 0;
                while i < a.len()
                    invariant
                        i <= a@.len(),
                        items == Seq::new(a@.len(), |i: int| a@[i].model()),
                        out@.len() == i,
                        forall|j: int|
                            0 <= j < i ==> (#[trigger] out@[j]).name@ == item_label(items[j], name_key@)
                                && out@[j].value.model() == items[j],
                    decreases a.len() - i,
                {
                    let name = match a[i].get(name_key) {
                        Some(n) => match n.as_str() {
                            Some(t) => owned(t),
                            None => owned("<unnamed>"),
                        },
                        None => owned("<unnamed>"),
                    };
                    out.push(ListItem::new(name, a[i].deep_copy()));
                    i = i + 1;
                }
                assert(items_model(out@) =~= listed_items(config.model(), field@, name_key@));
            },
            None => {
                assert(items_model(out@) =~= Seq::empty());
            },
        },
        None => {
            assert(items_model(out@) =~= Seq::empty());
        },
    }
    out
}

/// A form loaded from the template of a new configuration holds its part
/// number and one card, with an empty name, whose value is the template's
/// card; every other text is empty, the other lists are empty and
/// `Programming_Reqd` is off.
pub proof fn law_template_loads_back(part_number: Seq<char>, g: FormState)
    requires
        g.loaded_from(template_json(part_number)),
    ensures
        g.part_number@ == part_number,
        items_model(g.cards@) == seq![
            (Seq::<char>::empty(), card_json(Seq::empty(), part_number, Seq::empty(), Seq::empty(), Seq::empty(), Seq::empty(), 0)),
        ],
        g.offline_stages@.len() == 0,
        g.diagnostics_stages@.len() == 0,
        g.interactive_queries@.len() == 0,
        !g.programming_reqd,
        forall|f: TextField| f != TextField::PartNumber ==> (#[trigger] g.text(f))@ == Seq::<char>::empty(),
{
    let e = Seq::<char>::empty();
    let top = template_json(part_number)->Object_0;
    lemma_field_at(top, 0);
    let info = top[0].1;
    let es = info->Object_0;
    reveal_strlit("Info");
    reveal_strlit("Offline_Stages");
    reveal_strlit("Programming_Reqd");
    reveal_strlit("programming_details");
    reveal_strlit("Card_Setup");
    reveal_strlit("Diagnostics_Stages");
    reveal_strlit("Recovery_Stages");
    reveal_strlit("UCD");
    reveal_strlit("CFPGA");
    reveal_strlit("DEDI");
    reveal_strlit("T-MAMS");
    reveal_strlit("interactive_queries");
    reveal_strlit("cards");
    reveal_strlit("intruction_message");
    reveal_strlit("cardName");
    assert("Offline_Stages"@.len() == 14 && "Programming_Reqd"@.len() == 16);
    assert("programming_details"@.len() == 19 && "Card_Setup"@.len() == 10);
    assert("Diagnostics_Stages"@.len() == 18 && "Recovery_Stages"@.len() == 15);
    assert("UCD"@.len() == 3 && "CFPGA"@.len() == 5 && "DEDI"@.len() == 4);
    assert("T-MAMS"@.len() == 6 && "interactive_queries"@.len() == 19 && "cards"@.len() == 5);
    assert("intruction_message"@.len() == 18);
    assert("CFPGA"@[0] == 'C' && "cards"@[0] == 'c');
    assert("programming_details"@[0] == 'p' && "interactive_queries"@[0] == 'i');
    assert("Diagnostics_Stages"@[0] == 'D' && "intruction_message"@[0] == 'i');
    assert(section(template_json(part_number), "Info"@) == info);
    lemma_field_at(es, 0);
    lemma_field_at(es, 1);
    lemma_field_at(es, 2);
    lemma_field_at(es, 3);
    lemma_field_at(es, 4);
    lemma_field_at(es, 6);
    lemma_field_at(es, 7);
    lemma_field_at(es, 8);
    lemma_field_at(es, 9);
    lemma_field_at(es, 10);
    lemma_field_at(es, 11);
    lemma_field_at(es, 12);
    law_ucd_round_trip(e, e, e, e);
    law_cfpga_round_trip(e, e);
    law_dedi_round_trip(e, e);
    law_tmams_round_trip(e, e);
    law_programming_details_round_trip(e, e, e);
    law_card_setup_round_trip(e);
    let card = card_json(e, part_number, e, e, e, e, 0);
    lemma_field_at(card->Object_0, 0);
    crate::domain::transformers::law_card_round_trip(e, part_number, e, e, e, e, 0);
    assert(info.field("cards"@) == Some(Json::Array(seq![card])));
    assert(first_card_part_number(info) == part_number);
    assert(item_label(card, "cardName"@) == e);
    assert(listed_items(info, "cards"@, "cardName"@) =~= seq![(e, card)]);
    assert(listed_items(info, "Offline_Stages"@, "Name"@) =~= Seq::<(Seq<char>, Json)>::empty());
    assert(items_model(g.offline_stages@).len() == g.offline_stages@.len());
    assert(items_model(g.diagnostics_stages@).len() == g.diagnostics_stages@.len());
    assert(items_model(g.interactive_queries@).len() == g.interactive_queries@.len());
    assert forall|f: TextField| f != TextField::PartNumber implies (#[trigger] g.text(f))@ == Seq::<char>::empty() by {
        if is_sub_form_field(f) {
        } else {
            assert(g.text(f)@ == e);
        }
    }
}

} // verus!
