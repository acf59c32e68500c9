use toggleproxy::config::{get_real_config_path, Config};

#[test]
fn default_config_values() {
    let c = Config::default();
    assert_eq!(c.port, 1080);
    assert_eq!(c.target, "127.0.0.1:1081");
    assert!(!c.status);
    assert!(!c.systemd);
}

#[test]
fn config_path_file_stands() {
    assert_eq!(
        get_real_config_path("/etc/toggleproxy.json", false),
        "/etc/toggleproxy.json"
    );
}

#[test]
fn config_path_directory_gets_file_name() {
    assert_eq!(get_real_config_path("/etc", true), "/etc/toggleproxy.json");
}

#[test]
fn config_path_trailing_slash_kept() {
    assert_eq!(get_real_config_path("/etc/", true), "/etc/toggleproxy.json");
}

#[test]
fn config_path_empty_directory() {
    assert_eq!(get_real_config_path("", true), "/toggleproxy.json");
}

#[test]
fn overrides_replace_given_fields() {
    let c = Config::default();
    let c = c.apply_overrides(Some(9000), Some("10.0.0.1:1080".to_string()), Some(true), None);
    assert_eq!(c.port, 9000);
    assert_eq!(c.target, "10.0.0.1:1080");
    assert!(c.status);
    assert!(!c.systemd);
}

#[test]
fn overrides_keep_missing_fields() {
    let c = Config { port: 7, target: "t".to_string(), status: true, systemd: true };
    let c = c.apply_overrides(None, None, None, None);
    assert_eq!(c.port, 7);
    assert_eq!(c.target, "t");
    assert!(c.status);
    assert!(c.systemd);
}
