use dms_config::domain::json_value::{JsonNumber, JsonValue};
use dms_config::domain::transformers::{
    build_card, build_cfpga, build_diagnostics_stage, build_interactive_query, build_offline_stage,
    build_testcase, build_ucd, default_template, empty_array, extract_card, extract_cfpga,
    extract_diagnostics_stage, extract_interactive_query, extract_offline_stage, extract_testcase,
    extract_ucd, steps_to_string, string_to_steps,
};

fn text(v: &JsonValue) -> Option<&str> {
    v.as_str()
}

fn strings(v: &JsonValue) -> Vec<String> {
    v.as_array().expect("array").iter().map(|x| x.as_str().expect("string").to_string()).collect()
}

fn object(entries: Vec<(&str, JsonValue)>) -> JsonValue {
    JsonValue::Object(entries.into_iter().map(|(k, v)| (k.to_string(), v)).collect())
}

#[test]
fn steps_text_parses_into_trimmed_non_empty_steps() {
    let steps = string_to_steps(" a, b ,, c ,");
    assert_eq!(strings(&steps), vec!["a", "b", "c"]);
    assert_eq!(strings(&string_to_steps("")), Vec::<String>::new());
    assert_eq!(strings(&string_to_steps(" , ,")), Vec::<String>::new());
}

#[test]
fn steps_array_shows_its_strings_joined() {
    let arr = JsonValue::Array(vec![
        JsonValue::Str("x".to_string()),
        JsonValue::Number(JsonNumber::Unsigned(1)),
        JsonValue::Str("y".to_string()),
    ]);
    assert_eq!(steps_to_string(&arr), "x, y");
    assert_eq!(steps_to_string(&JsonValue::Null), "");
    assert_eq!(steps_to_string(&empty_array()), "");
}

#[test]
fn steps_round_trip_through_text() {
    let parsed = string_to_steps("init,  load fw ,verify");
    let shown = steps_to_string(&parsed);
    assert_eq!(shown, "init, load fw, verify");
    assert_eq!(strings(&string_to_steps(&shown)), strings(&parsed));
}

#[test]
fn offline_stage_round_trip() {
    let steps = string_to_steps("a,b");
    let tcs = JsonValue::Array(vec![build_testcase(7, "boot", 2)]);
    let v = build_offline_stage("Stage 1", "3", "dmstool", &steps, &tcs);
    let d = extract_offline_stage(&v);
    assert_eq!(d.name, "Stage 1");
    assert_eq!(d.stage_order, "3");
    assert_eq!(d.tool, "dmstool");
    assert_eq!(strings(&d.steps), vec!["a", "b"]);
    let t = &d.testcases.as_array().unwrap()[0];
    assert_eq!(extract_testcase(t), (7, "boot".to_string(), 2));
}

#[test]
fn offline_stage_missing_fields_read_as_defaults() {
    let d = extract_offline_stage(&object(vec![]));
    assert_eq!(d.name, "");
    assert_eq!(d.stage_order, "");
    assert_eq!(d.tool, "");
    assert_eq!(d.steps.as_array().map(|a| a.len()), Some(0));
    assert_eq!(d.testcases.as_array().map(|a| a.len()), Some(0));
}

#[test]
fn testcase_round_trip_and_defaults() {
    let v = build_testcase(12, "t", 3);
    assert_eq!(v.get("testcaseId").and_then(|x| x.as_u64()), Some(12));
    assert_eq!(extract_testcase(&v), (12, "t".to_string(), 3));
    let odd = object(vec![("testcaseId", JsonValue::Str("12".to_string()))]);
    assert_eq!(extract_testcase(&odd), (0, String::new(), 0));
}

#[test]
fn diagnostics_stage_round_trip() {
    let steps = string_to_steps("s1, s2");
    let v = build_diagnostics_stage("Diag", "diag.json", &steps, "4");
    let d = extract_diagnostics_stage(&v);
    assert_eq!(d.name, "Diag");
    assert_eq!(d.json_file, "diag.json");
    assert_eq!(strings(&d.steps), vec!["s1", "s2"]);
    assert_eq!(d.stage_order, "4");
}

#[test]
fn card_round_trip() {
    let v = build_card("Main", "127-PCA000097-E", "io", "p=1", "c.xml", "t.xml", 5);
    let d = extract_card(&v);
    assert_eq!(d.card_name, "Main");
    assert_eq!(d.part_number, "127-PCA000097-E");
    assert_eq!(d.card_type, "io");
    assert_eq!(d.parameters, "p=1");
    assert_eq!(d.card_xml, "c.xml");
    assert_eq!(d.tej_dms_xml, "t.xml");
    assert_eq!(d.eeprom_read_pos, 5);
    let odd = object(vec![("eeprom_read_pos", JsonValue::Number(JsonNumber::Negative(-2)))]);
    assert_eq!(extract_card(&odd).eeprom_read_pos, 0);
}

#[test]
fn interactive_query_round_trip() {
    let v = build_interactive_query("k", &JsonValue::Bool(true), "msg", true, 9);
    let d = extract_interactive_query(&v);
    assert_eq!(d.key, "k");
    assert_eq!(d.value.as_bool(), Some(true));
    assert_eq!(d.message, "msg");
    assert!(d.is_sfp_test);
    assert_eq!(d.id, 9);
    let empty = extract_interactive_query(&object(vec![]));
    assert!(matches!(empty.value, JsonValue::Null));
    assert!(!empty.is_sfp_test);
}

#[test]
fn sections_round_trip_through_info() {
    let info = object(vec![
        ("UCD", build_ucd("p", "0x10", "S", "T1")),
        ("CFPGA", build_cfpga("f.bit", "run.tcl")),
    ]);
    assert_eq!(
        extract_ucd(&info),
        ("p".to_string(), "0x10".to_string(), "S".to_string(), "T1".to_string())
    );
    assert_eq!(extract_cfpga(&info), ("f.bit".to_string(), "run.tcl".to_string()));
    assert_eq!(extract_ucd(&object(vec![])), (String::new(), String::new(), String::new(), String::new()));
}

#[test]
fn default_template_names_the_part_number_in_its_first_card() {
    let t = default_template("127-PCA000097-E");
    let info = t.get("Info").expect("Info");
    let cards = info.get("cards").and_then(|c| c.as_array()).expect("cards");
    assert_eq!(cards.len(), 1);
    assert_eq!(cards[0].get("partNumber").and_then(text), Some("127-PCA000097-E"));
    assert_eq!(info.get("intruction_message").and_then(text), Some(""));
    assert_eq!(info.get("Programming_Reqd").and_then(|x| x.as_bool()), Some(false));
    assert_eq!(info.get("Recovery_Stages").and_then(|x| x.as_array()).map(|a| a.len()), Some(0));
}

#[test]
fn insert_replaces_an_existing_key() {
    let mut o = object(vec![("a", JsonValue::Bool(false)), ("b", JsonValue::Null)]);
    o.insert("a".to_string(), JsonValue::Bool(true));
    o.insert("c".to_string(), JsonValue::Str("x".to_string()));
    assert_eq!(o.get("a").and_then(|x| x.as_bool()), Some(true));
    assert_eq!(o.get("c").and_then(text), Some("x"));
    if let JsonValue::Object(es) = &o {
        let keys: Vec<&str> = es.iter().map(|(k, _)| k.as_str()).collect();
        assert_eq!(keys, vec!["a", "b", "c"]);
    } else {
        panic!("not an object");
    }
}
