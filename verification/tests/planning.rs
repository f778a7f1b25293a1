use cplat::outcome::{exit_class_of, ExitClass, ToolError};
use cplat::plan::plan_copy;
use cplat::record::{EntryMeta, RawEntry};

fn entry(name: &str, meta: Option<EntryMeta>) -> RawEntry {
    RawEntry {
        name: name.to_string(),
        path: format!("/downloads/{}", name),
        meta,
    }
}

fn regular(created: Option<u64>) -> Option<EntryMeta> {
    Some(EntryMeta { is_regular: true, created })
}

#[test]
fn plan_full_run_with_rename_and_default_destination() {
    let entries = vec![
        entry("older.txt", regular(Some(5))),
        entry("bar.txt", regular(Some(10))),
        entry("subdir", Some(EntryMeta { is_regular: false, created: Some(99) })),
        entry("broken", None),
    ];
    let plan = plan_copy(&entries, &Some("foo.txt".to_string()), &None).unwrap();
    assert_eq!(plan.source_path, "/downloads/bar.txt");
    assert_eq!(plan.original_name, "bar.txt");
    assert_eq!(plan.dest_path, "./foo.txt");
}

#[test]
fn plan_keeps_original_name_with_explicit_destination() {
    let entries = vec![
        entry("bar.txt", regular(Some(10))),
        entry("older.txt", regular(Some(5))),
    ];
    let plan = plan_copy(&entries, &None, &Some("/tmp/target".to_string())).unwrap();
    assert_eq!(plan.source_path, "/downloads/bar.txt");
    assert_eq!(plan.original_name, "bar.txt");
    assert_eq!(plan.dest_path, "/tmp/target/bar.txt");
}

#[test]
fn plan_empty_directory_is_config_error() {
    let entries: Vec<RawEntry> = Vec::new();
    let err = plan_copy(&entries, &None, &None).unwrap_err();
    assert_eq!(err, ToolError::NoFilesFound);
    assert_eq!(exit_class_of(&err), ExitClass::ConfigError);
}

#[test]
fn plan_directory_without_regular_files_is_config_error() {
    let entries = vec![
        entry("subdir", Some(EntryMeta { is_regular: false, created: Some(1) })),
        entry("broken", None),
    ];
    let err = plan_copy(&entries, &None, &None).unwrap_err();
    assert_eq!(err, ToolError::NoFilesFound);
    assert_eq!(exit_class_of(&err), ExitClass::ConfigError);
}
