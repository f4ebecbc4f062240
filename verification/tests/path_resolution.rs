use cmdrec::paths::default_base_path;
use cmdrec::paths::record_path;
use cmdrec::paths::record_relative_path;
use cmdrec::paths::status_path;
use cmdrec::paths::stderr_path;
use cmdrec::paths::stdout_path;
use std::path::Path;

#[test]
fn it_uses_env_to_resolve_base_path() {
    let expected_base_path = "/new/base/path";
    let path = default_base_path(Some(expected_base_path.to_string()), "/tmp");
    assert!(Path::new(&path).starts_with(expected_base_path));
}

#[test]
fn it_resolves_status_paths() {
    let base = default_base_path(None, "/tmp");
    let path = status_path(&base, "RECORD");
    assert_eq!(Path::new(&path).file_name().unwrap_or_default(), "status");
}

#[test]
fn it_resolves_stderr_paths() {
    let base = default_base_path(None, "/tmp");
    let path = stderr_path(&base, "RECORD");
    assert_eq!(Path::new(&path).file_name().unwrap_or_default(), "stderr");
}

#[test]
fn it_resolves_stdout_paths() {
    let base = default_base_path(None, "/tmp");
    let path = stdout_path(&base, "RECORD");
    assert_eq!(Path::new(&path).file_name().unwrap_or_default(), "stdout");
}

#[test]
fn it_resolves_the_default_base_path_from_the_temp_location() {
    assert_eq!(default_base_path(None, "/tmp"), "/tmp/cmdrec");
}

#[test]
fn it_lays_records_out_under_the_base_path() {
    assert_eq!(record_path("/base", "abcdef12"), "/base/abcdef12");
    assert_eq!(record_relative_path("/base", "abcdef12", "status"), "/base/abcdef12/status");
    assert_eq!(status_path("/base", "abcdef12"), "/base/abcdef12/status");
    assert_eq!(stdout_path("/base", "abcdef12"), "/base/abcdef12/stdout");
    assert_eq!(stderr_path("/base", "abcdef12"), "/base/abcdef12/stderr");
}
