use cplat::copier::{chosen_name, destination_dir, destination_file_path};

#[test]
fn rename_overrides_original_name() {
    let original = "bar.txt".to_string();
    let renamed = chosen_name(&original, &Some("foo.txt".to_string()));
    assert_eq!(renamed, "foo.txt");
}

#[test]
fn default_name_is_the_original() {
    let original = "bar.txt".to_string();
    assert_eq!(chosen_name(&original, &None), "bar.txt");
}

#[test]
fn default_destination_is_working_directory() {
    assert_eq!(destination_dir(&None), ".");
    let original = "bar.txt".to_string();
    assert_eq!(destination_file_path(&original, &None, &None), "./bar.txt");
}

#[test]
fn default_destination_with_rename() {
    let original = "bar.txt".to_string();
    let p = destination_file_path(&original, &Some("foo.txt".to_string()), &None);
    assert_eq!(p, "./foo.txt");
}

#[test]
fn explicit_destination_is_joined_with_separator() {
    let original = "bar.txt".to_string();
    let p = destination_file_path(
        &original,
        &Some("foo.txt".to_string()),
        &Some("/tmp/target".to_string()),
    );
    assert_eq!(p, "/tmp/target/foo.txt");
}
