use free_cursor_client::config::{
    get_config_dir, get_config_file_path, get_logs_dir, get_program_path, get_program_path_with_version,
    get_program_symlink_path, join, log_file_name, migration_needed, resolve_token, AppConfig, LogDate, ProjectLayout,
};
use free_cursor_client::platform::Platform;

fn linux() -> ProjectLayout {
    ProjectLayout {
        config_dir: "/home/u/.config/free-cursor-client".to_string(),
        data_local_dir: "/home/u/.local/share/free-cursor-client".to_string(),
        platform: Platform::Linux,
    }
}

#[test]
fn versioned_program_paths() {
    let l = linux();
    assert_eq!(get_program_path_with_version(&l, "1.2.3"), "/home/u/.local/share/free-cursor-client/1.2.3/free-cursor-client");
    assert_eq!(get_program_path(&l), "/home/u/.local/share/free-cursor-client/0.1.0/free-cursor-client");
    assert_ne!(get_program_path_with_version(&l, "1.2.3"), get_program_path_with_version(&l, "1.2.4"));
    let w = ProjectLayout {
        config_dir: "C:\\Users\\u\\AppData\\Roaming\\freeai\\free-cursor-client\\config".to_string(),
        data_local_dir: "C:\\Users\\u\\AppData\\Local\\freeai\\free-cursor-client\\data".to_string(),
        platform: Platform::Windows,
    };
    assert_eq!(
        get_program_path_with_version(&w, "2.0.0"),
        "C:\\Users\\u\\AppData\\Local\\freeai\\free-cursor-client\\data\\2.0.0\\free-cursor-client.exe"
    );
}

#[test]
fn other_layout_paths() {
    let l = linux();
    assert_eq!(get_config_dir(&l), "/home/u/.config/free-cursor-client");
    assert_eq!(get_config_file_path(&l), "/home/u/.config/free-cursor-client/config.json");
    assert_eq!(get_program_symlink_path(&l), "/home/u/.local/share/free-cursor-client/free-cursor-client");
    assert_eq!(get_logs_dir(&l), "/home/u/.local/share/free-cursor-client/0.1.0/logs");
}

#[test]
fn join_does_not_double_separators() {
    assert_eq!(join(Platform::Linux, "/a/", "b"), "/a/b");
    assert_eq!(join(Platform::Linux, "", "b"), "b");
    assert_eq!(join(Platform::Windows, "C:\\a", "b"), "C:\\a\\b");
    assert_eq!(join(Platform::Windows, "C:/a/", "b"), "C:/a/b");
}

#[test]
fn daily_log_file_name() {
    assert_eq!(log_file_name(LogDate { year: 2024, month: 3, day: 7 }), "free-cursor-client-20240307.log");
    assert_eq!(log_file_name(LogDate { year: 987, month: 12, day: 31 }), "free-cursor-client-09871231.log");
}

#[test]
fn config_falls_back_to_default() {
    assert_eq!(AppConfig::load_or_default(None).token, None);
    let c = AppConfig::load_or_default(Some(AppConfig { token: Some("abc".into()) }));
    assert_eq!(c.token.as_deref(), Some("abc"));
    assert_eq!(AppConfig::load_or_default_silent(None).token, None);
}

#[test]
fn explicit_token_wins_over_cached() {
    let cached = || AppConfig { token: Some("cached".into()) };
    assert_eq!(resolve_token(Some("cli".into()), cached()).as_deref(), Some("cli"));
    assert_eq!(resolve_token(None, cached()).as_deref(), Some("cached"));
    assert_eq!(resolve_token(None, AppConfig::new()), None);
}

#[test]
fn old_config_is_migrated_only_when_new_is_missing() {
    assert!(migration_needed(true, false));
    assert!(!migration_needed(true, true));
    assert!(!migration_needed(false, false));
}
