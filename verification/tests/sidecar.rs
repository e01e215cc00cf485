use second::sidecar::{check_backend_dir_override, find_python};

#[test]
fn test_find_python_returns_ok() {
    // On any system with Python installed this should succeed.
    let result = find_python(None);
    // We can't guarantee Python is installed in CI, so just check the
    // function doesn't panic and returns a reasonable result.
    match result {
        Ok(path) => assert!(!path.is_empty()),
        Err(e) => assert!(e.contains("Could not find")),
    }
}

#[test]
fn test_find_python_with_nonexistent_venv() {
    let result = find_python(Some("/tmp/definitely_does_not_exist_12345"));
    // Venv doesn't exist, so falls back to system python; only errors if none found.
    match result {
        Ok(path) => assert!(!path.is_empty()),
        Err(e) => assert!(e.contains("Could not find")),
    }
}

#[test]
fn backend_dir_override_is_taken_when_the_directory_exists() {
    let result = check_backend_dir_override(&"/opt/backend".to_string(), true);
    assert_eq!(result.ok().as_deref(), Some("/opt/backend"));
}

#[test]
fn backend_dir_override_to_a_missing_directory_is_reported() {
    let result = check_backend_dir_override(&"/no/such/dir/xyz".to_string(), false);
    let err = result.err().expect("a missing directory must be refused");
    assert_eq!(
        err,
        "SECOND_BACKEND_DIR is set to '/no/such/dir/xyz' but that directory does not exist"
    );
}
