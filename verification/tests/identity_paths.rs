use aethos_core::profile::{identity_file_path_for, sanitize_profile, session_cache_file_path_for};
use std::path::PathBuf;

#[test]
fn identity_file_path_uses_profile_suffix() {
    let base = PathBuf::from("/tmp/test-data");
    let path = PathBuf::from(identity_file_path_for(base.to_str().unwrap(), "alpha"));
    assert_eq!(
        path,
        PathBuf::from("/tmp/test-data/aethos-linux/identity-alpha.json")
    );
}

#[test]
fn session_cache_path_uses_profile_suffix() {
    let base = PathBuf::from("/tmp/test-data");
    let path = PathBuf::from(session_cache_file_path_for(base.to_str().unwrap(), "default"));
    assert_eq!(
        path,
        PathBuf::from("/tmp/test-data/aethos-linux/session-cache-default.enc.json")
    );
}

#[test]
fn sanitize_profile_normalizes_invalid_chars() {
    assert_eq!(sanitize_profile("team blue"), "team_blue");
}
