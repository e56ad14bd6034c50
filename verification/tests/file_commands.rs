use blinkmd_core::file::{
    complete_open, complete_save, complete_save_as, invalid_path_error, normalize_path,
    save_request, to_io_error, IoErrorKind,
};

// --- normalize_path ---

#[test]
fn normalize_path_empty_string_returns_invalid_path() {
    let result = normalize_path(String::new());
    assert!(result.is_err());
    let err = result.unwrap_err();
    assert_eq!(err.code, "INVALID_PATH");
}

#[test]
fn normalize_path_whitespace_only_returns_invalid_path() {
    let result = normalize_path("   \t\n  ".to_string());
    assert!(result.is_err());
    let err = result.unwrap_err();
    assert_eq!(err.code, "INVALID_PATH");
}

#[test]
fn normalize_path_valid_returns_pathbuf() {
    let result = normalize_path("/tmp/test.md".to_string());
    assert!(result.is_ok());
    assert_eq!(result.unwrap(), "/tmp/test.md");
}

#[test]
fn normalize_path_trims_surrounding_whitespace() {
    let result = normalize_path("  /tmp/test.md \t\n".to_string());
    assert_eq!(result.unwrap(), "/tmp/test.md");
}

#[test]
fn normalize_path_keeps_inner_whitespace() {
    let result = normalize_path(" /tmp/my notes.md ".to_string());
    assert_eq!(result.unwrap(), "/tmp/my notes.md");
}

#[test]
fn invalid_path_error_has_fixed_code_and_message() {
    let err = invalid_path_error();
    assert_eq!(err.code, "INVALID_PATH");
    assert_eq!(err.message, "Invalid file path. Please choose a valid path.");
}

// --- error taxonomy ---

#[test]
fn to_io_error_maps_each_kind_to_its_code() {
    assert_eq!(to_io_error("Open failed: ", IoErrorKind::NotFound).code, "FILE_NOT_FOUND");
    assert_eq!(
        to_io_error("Open failed: ", IoErrorKind::PermissionDenied).code,
        "PERMISSION_DENIED"
    );
    assert_eq!(to_io_error("Open failed: ", IoErrorKind::InvalidData).code, "INVALID_TEXT");
    assert_eq!(to_io_error("Save failed: ", IoErrorKind::AlreadyExists).code, "ALREADY_EXISTS");
    assert_eq!(to_io_error("Save failed: ", IoErrorKind::WriteZero).code, "WRITE_FAILED");
    assert_eq!(to_io_error("Save failed: ", IoErrorKind::Other).code, "IO_ERROR");
}

#[test]
fn to_io_error_prefixes_the_action() {
    let err = to_io_error("Save As failed: ", IoErrorKind::WriteZero);
    assert_eq!(err.message, "Save As failed: Failed to write file.");
}

// --- open ---

#[test]
fn open_file_nonexistent_returns_file_not_found() {
    let result = complete_open(
        "/tmp/__blinkmd_nonexistent_test_file__.md".to_string(),
        Err(IoErrorKind::NotFound),
    );
    assert!(result.is_err());
    let err = result.unwrap_err();
    assert_eq!(err.code, "FILE_NOT_FOUND");
    assert_eq!(err.message, "Open failed: File does not exist.");
}

#[test]
fn open_missing_path_scenario_reports_file_not_found() {
    let result = complete_open("/nonexistent/path.md".to_string(), Err(IoErrorKind::NotFound));
    assert_eq!(result.unwrap_err().code, "FILE_NOT_FOUND");
}

#[test]
fn open_invalid_utf8_returns_invalid_text() {
    let result = complete_open("/tmp/binary.md".to_string(), Err(IoErrorKind::InvalidData));
    let err = result.unwrap_err();
    assert_eq!(err.code, "INVALID_TEXT");
    assert_ne!(err.code, "IO_ERROR");
    assert_eq!(err.message, "Open failed: File is not valid UTF-8 text.");
}

#[test]
fn open_success_returns_path_and_content() {
    let result = complete_open("/tmp/test.md".to_string(), Ok("# Hello".to_string()));
    let payload = result.unwrap();
    assert_eq!(payload.path, "/tmp/test.md");
    assert_eq!(payload.content, "# Hello");
}

// --- save / save-as ---

#[test]
fn save_file_empty_path_returns_invalid_path() {
    let result = save_request(String::new(), "content".to_string());
    assert!(result.is_err());
    assert_eq!(result.unwrap_err().code, "INVALID_PATH");
}

#[test]
fn save_request_preserves_content_byte_for_byte() {
    let ascii = save_request("/tmp/a.md".to_string(), "plain text".to_string()).unwrap();
    assert_eq!(ascii.content, "plain text");
    let multibyte = save_request(" /tmp/b.md ".to_string(), "Saved content 保存测试".to_string())
        .unwrap();
    assert_eq!(multibyte.path, "/tmp/b.md");
    assert_eq!(multibyte.content, "Saved content 保存测试");
}

#[test]
fn save_and_save_as_return_identical_success_results() {
    let saved = complete_save("/tmp/x.md".to_string(), Ok(()));
    let saved_as = complete_save_as("/tmp/x.md".to_string(), Ok(()));
    assert_eq!(saved.unwrap(), saved_as.unwrap());
}

#[test]
fn save_and_save_as_report_the_same_error_code() {
    let saved = complete_save("/tmp/x.md".to_string(), Err(IoErrorKind::WriteZero));
    let saved_as = complete_save_as("/tmp/x.md".to_string(), Err(IoErrorKind::WriteZero));
    let e1 = saved.unwrap_err();
    let e2 = saved_as.unwrap_err();
    assert_eq!(e1.code, e2.code);
    assert_eq!(e1.message, "Save failed: Failed to write file.");
    assert_eq!(e2.message, "Save As failed: Failed to write file.");
}

#[test]
fn save_write_failure_returns_write_failed() {
    let result = complete_save("/tmp/x.md".to_string(), Err(IoErrorKind::WriteZero));
    assert_eq!(result.unwrap_err().code, "WRITE_FAILED");
}

#[test]
fn save_existing_target_returns_already_exists() {
    let result = complete_save("/tmp/x.md".to_string(), Err(IoErrorKind::AlreadyExists));
    assert_eq!(result.unwrap_err().code, "ALREADY_EXISTS");
}

#[test]
fn save_permission_failure_returns_permission_denied() {
    let result = complete_save("/tmp/x.md".to_string(), Err(IoErrorKind::PermissionDenied));
    assert_eq!(result.unwrap_err().code, "PERMISSION_DENIED");
}

#[test]
fn save_unclassified_failure_returns_io_error() {
    let result = complete_save("/tmp/x.md".to_string(), Err(IoErrorKind::Other));
    assert_eq!(result.unwrap_err().code, "IO_ERROR");
}

// --- scenarios ---

#[test]
fn save_then_open_round_trips_the_content() {
    // The save request carries the exact text; a store that hands the
    // same text back to open reproduces it byte for byte.
    let request = save_request("/tmp/x.md".to_string(), "# Hello".to_string()).unwrap();
    assert_eq!(request.path, "/tmp/x.md");
    let saved = complete_save(request.path.clone(), Ok(()));
    assert_eq!(saved.unwrap(), "/tmp/x.md");
    let opened = complete_open(request.path.clone(), Ok(request.content)).unwrap();
    assert_eq!(opened.path, "/tmp/x.md");
    assert_eq!(opened.content, "# Hello");
}

#[test]
fn round_trip_preserves_multibyte_text() {
    let text = "Saved content 保存测试";
    let request = save_request("/tmp/y.md".to_string(), text.to_string()).unwrap();
    let opened = complete_open(request.path.clone(), Ok(request.content)).unwrap();
    assert_eq!(opened.content, text);
}
