use emotion_pipeline::archival::{
    copy_plan, copy_source, data_folder_of, destination_key, get_file_name, is_export_trigger,
    present_keys, DATA_FOLDER, MANIFEST_JSON,
};

#[test]
fn source_key_is_flattened_into_the_processed_prefix() {
    let folder = data_folder_of("export/2024-10-10/manifest-files.json");
    assert_eq!(folder, "export/2024-10-10/data/");
    let source = format!("{}AAA/part-0001.json", folder);
    assert_eq!(source, "export/2024-10-10/data/AAA/part-0001.json");
    assert_eq!(destination_key("processed/", &source), "processed/part-0001.json");
}

#[test]
fn data_folder_replaces_every_manifest_name() {
    assert_eq!(MANIFEST_JSON, "manifest-files.json");
    assert_eq!(DATA_FOLDER, "data/");
    assert_eq!(data_folder_of("a/b/c"), "a/b/c");
    assert_eq!(data_folder_of("manifest-files.json"), "data/");
    assert_eq!(
        data_folder_of("x/manifest-files.json/manifest-files.json.bak"),
        "x/data//data/.bak"
    );
    assert_eq!(data_folder_of(""), "");
}

#[test]
fn file_name_is_what_follows_the_last_slash() {
    assert_eq!(get_file_name("export/2024-10-10/data/AAA/part-0001.json"), "part-0001.json");
    assert_eq!(get_file_name("part-0001.json"), "part-0001.json");
    assert_eq!(get_file_name("folder/"), "");
    assert_eq!(get_file_name(""), "");
    assert_eq!(get_file_name("/"), "");
    assert_eq!(get_file_name("/a"), "a");
    assert_eq!(get_file_name("データ/ファイル.json"), "ファイル.json");
}

#[test]
fn signal_must_name_the_bucket_and_a_manifest() {
    let bucket = Some("exports".to_string());
    let key = Some("export/2024-10-10/manifest-files.json".to_string());
    assert!(is_export_trigger(&bucket, &key, "exports"));
    assert!(!is_export_trigger(&bucket, &key, "other"));
    assert!(!is_export_trigger(&None, &key, "exports"));
    assert!(!is_export_trigger(&bucket, &None, "exports"));
    assert!(!is_export_trigger(
        &bucket,
        &Some("export/2024-10-10/manifest-summary.json".to_string()),
        "exports"
    ));
    assert!(is_export_trigger(
        &bucket,
        &Some("manifest-files.json.md5".to_string()),
        "exports"
    ));
}

#[test]
fn listing_keeps_present_keys_in_order() {
    let listing = vec![
        Some("a/1".to_string()),
        None,
        Some(String::new()),
        Some("b/2".to_string()),
    ];
    assert_eq!(present_keys(&listing), vec!["a/1".to_string(), "b/2".to_string()]);
    assert_eq!(present_keys(&Vec::new()), Vec::<String>::new());
}

#[test]
fn plan_copies_each_source_under_its_file_name() {
    let sources = vec!["e/data/A/first.json".to_string(), "e/data/B/second.json".to_string()];
    assert_eq!(
        copy_plan(&sources, "processed/"),
        vec![
            ("e/data/A/first.json".to_string(), "processed/first.json".to_string()),
            ("e/data/B/second.json".to_string(), "processed/second.json".to_string()),
        ]
    );
    assert_eq!(copy_plan(&Vec::new(), "processed/"), Vec::<(String, String)>::new());
}

#[test]
fn copy_source_names_bucket_and_key() {
    assert_eq!(copy_source("exports", "e/data/A/first.json"), "exports/e/data/A/first.json");
}
