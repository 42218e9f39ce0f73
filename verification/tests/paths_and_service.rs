use openclaw_config::paths::backup_file_name;
use openclaw_config::paths::config_path_for_home;
use openclaw_config::paths::format_timestamp;
use openclaw_config::paths::join_path;
use openclaw_config::paths::parent_dir;
use openclaw_config::service::ConfigService;

#[test]
fn timestamp_is_zero_padded() {
    assert_eq!(format_timestamp(2024, 3, 7, 5, 9, 30), "20240307_050930");
    assert_eq!(format_timestamp(5, 1, 2, 3, 4, 5), "00050102_030405");
    assert_eq!(format_timestamp(2024, 12, 31, 23, 59, 59), "20241231_235959");
}

#[test]
fn timestamp_handles_wide_and_negative_years() {
    assert_eq!(format_timestamp(12345, 1, 1, 0, 0, 0), "123450101_000000");
    assert_eq!(format_timestamp(-42, 1, 1, 0, 0, 0), "-00420101_000000");
}

#[test]
fn backup_file_name_wraps_the_timestamp() {
    assert_eq!(
        backup_file_name(2024, 3, 7, 5, 9, 30),
        "openclaw_backup_20240307_050930.json"
    );
}

#[test]
fn config_path_is_fixed_under_home() {
    assert_eq!(
        config_path_for_home("/home/u"),
        "/home/u/.openclaw/openclaw.json"
    );
}

#[test]
fn join_path_inserts_one_separator() {
    assert_eq!(join_path("/a/b", "c.json"), "/a/b/c.json");
}

#[test]
fn parent_dir_stops_at_the_last_separator() {
    assert_eq!(parent_dir("/a/b/c.json"), Some("/a/b".to_string()));
    assert_eq!(parent_dir("/c.json"), Some("".to_string()));
    assert_eq!(parent_dir("plain"), None);
}

#[test]
fn service_reports_its_path() {
    let svc = ConfigService::with_config_path("/h/.openclaw/openclaw.json".to_string());
    assert_eq!(svc.get_config_path(), "/h/.openclaw/openclaw.json");
}

#[test]
fn backup_paths_sit_beside_the_config_file() {
    let svc = ConfigService::with_config_path("/h/.openclaw/openclaw.json".to_string());
    let (dir, path) = svc.backup_paths_at(2024, 3, 7, 5, 9, 30);
    assert_eq!(dir, "/h/.openclaw/backups");
    assert_eq!(
        path,
        "/h/.openclaw/backups/openclaw_backup_20240307_050930.json"
    );
}

#[test]
fn backup_paths_now_use_the_same_shape() {
    let svc = ConfigService::with_config_path("/h/.openclaw/openclaw.json".to_string());
    let (dir, path) = svc.backup_paths();
    assert_eq!(dir, "/h/.openclaw/backups");
    let name = path
        .strip_prefix("/h/.openclaw/backups/")
        .expect("backup sits in the backup directory");
    let stamp = name
        .strip_prefix("openclaw_backup_")
        .and_then(|s| s.strip_suffix(".json"))
        .expect("backup name wraps a timestamp");
    assert_eq!(stamp.len(), 15);
    assert_eq!(stamp.as_bytes()[8], b'_');
    for (i, b) in stamp.bytes().enumerate() {
        if i != 8 {
            assert!(b.is_ascii_digit(), "unexpected character in {stamp}");
        }
    }
}

#[test]
fn new_service_points_under_the_home_directory() {
    let svc = ConfigService::new().expect("a home directory exists here");
    let path = svc.get_config_path();
    assert!(path.ends_with("/.openclaw/openclaw.json"));
    assert!(path.len() > "/.openclaw/openclaw.json".len());
}
