use cplat::outcome::{exit_class_of, ExitClass, ToolError};

#[test]
fn missing_download_dir_is_config_error() {
    assert_eq!(exit_class_of(&ToolError::NoDownloadDir), ExitClass::ConfigError);
}

#[test]
fn unreadable_download_dir_is_io_error() {
    assert_eq!(exit_class_of(&ToolError::DownloadDirUnreadable), ExitClass::IoError);
}

#[test]
fn no_files_found_is_config_error() {
    assert_eq!(exit_class_of(&ToolError::NoFilesFound), ExitClass::ConfigError);
}

#[test]
fn failed_copy_is_io_error() {
    assert_eq!(exit_class_of(&ToolError::CopyFailed), ExitClass::IoError);
}
