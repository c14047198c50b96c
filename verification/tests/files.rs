use dms_config::services::fs::{config_file_name, config_file_path, list_json_files, split_file_name, INFO_JSON_DIR};

fn entry(name: &str) -> (String, String) {
    (name.to_string(), format!("INFO_JSON/{}", name))
}

#[test]
fn config_file_is_named_after_the_part_number() {
    assert_eq!(config_file_name("127-PCA000097-E"), "127-PCA000097-E.json");
    assert_eq!(
        config_file_path(INFO_JSON_DIR, "127-PCA000097-E"),
        format!("INFO_JSON{}127-PCA000097-E.json", std::path::MAIN_SEPARATOR)
    );
    // An empty part number gives a file named only by its extension.
    assert!(config_file_path("dir", "").ends_with(".json"));
    // A folder ending in '/' gets the name right after it.
    assert_eq!(config_file_path("INFO_JSON/", "127-PCA000097-E"), "INFO_JSON/127-PCA000097-E.json");
    // Without a folder the path is the file name alone.
    assert_eq!(config_file_path("", "127-PCA000097-E"), "127-PCA000097-E.json");
    let p = config_file_path("/tmp/INFO_JSON", "127-PCA000097-E");
    let path = std::path::Path::new(&p);
    assert_eq!(path.parent(), Some(std::path::Path::new("/tmp/INFO_JSON")));
    assert_eq!(path.file_stem().and_then(|s| s.to_str()), Some("127-PCA000097-E"));
}

#[test]
fn file_names_split_like_paths() {
    assert_eq!(split_file_name("a.json"), ("a".to_string(), Some("json".to_string())));
    assert_eq!(split_file_name("a.b.json"), ("a.b".to_string(), Some("json".to_string())));
    assert_eq!(split_file_name(".json"), (".json".to_string(), None));
    assert_eq!(split_file_name("noext"), ("noext".to_string(), None));
    assert_eq!(split_file_name("a."), ("a".to_string(), Some(String::new())));
    assert_eq!(split_file_name(".."), ("..".to_string(), None));
    for name in ["a.json", "a.b.json", ".json", "noext", "a.", ".x.y"] {
        let p = std::path::Path::new(name);
        let (stem, ext) = split_file_name(name);
        assert_eq!(Some(stem.as_str()), p.file_stem().and_then(|s| s.to_str()), "stem of {}", name);
        assert_eq!(ext.as_deref(), p.extension().and_then(|s| s.to_str()), "extension of {}", name);
    }
}

#[test]
fn only_json_files_are_listed_sorted_by_stem() {
    let files = list_json_files(vec![
        entry("zeta.json"),
        entry("notes.txt"),
        entry("alpha.json"),
        entry(".json"),
        entry("upper.JSON"),
        entry("Beta.json"),
        entry("dir"),
    ]);
    assert_eq!(
        files,
        vec![
            ("Beta".to_string(), "INFO_JSON/Beta.json".to_string()),
            ("alpha".to_string(), "INFO_JSON/alpha.json".to_string()),
            ("zeta".to_string(), "INFO_JSON/zeta.json".to_string()),
        ]
    );
    assert_eq!(list_json_files(vec![]), vec![]);
}

#[test]
fn listing_orders_like_string_comparison() {
    let names = ["b.json", "ab.json", "a.json", "é.json", "z.json", "aa.json"];
    let files = list_json_files(names.iter().map(|n| entry(n)).collect());
    let stems: Vec<String> = files.into_iter().map(|(s, _)| s).collect();
    let mut expected: Vec<String> = names.iter().map(|n| n.trim_end_matches(".json").to_string()).collect();
    expected.sort();
    assert_eq!(stems, expected);
}
