use kodegen_tools_config::config_value::ValueKind;
use kodegen_tools_config::{
    ClientInfo, ConfigError, ConfigKey, ConfigManager, ConfigValue, SystemInfo,
};
use tokio::sync::mpsc::{unbounded_channel, UnboundedReceiver};

fn store() -> (ConfigManager, UnboundedReceiver<()>) {
    let (tx, rx) = unbounded_channel();
    (ConfigManager::new(tx, false), rx)
}

fn drain(rx: &mut UnboundedReceiver<()>) -> usize {
    let mut n = 0;
    while rx.try_recv().is_ok() {
        n += 1;
    }
    n
}

fn strings(items: &[&str]) -> Vec<String> {
    items.iter().map(|s| s.to_string()).collect()
}

#[test]
fn defaults_are_the_documented_ones() {
    let (m, _rx) = store();
    let blocked = m.get_blocked_commands();
    assert_eq!(blocked.len(), 17);
    assert_eq!(blocked[0], "rm");
    assert_eq!(blocked[16], "poweroff");
    assert_eq!(m.get_file_read_line_limit(), 1000);
    assert_eq!(m.get_file_write_line_limit(), 50);
    assert_eq!(m.get_fuzzy_search_threshold_percent(), 70);
    assert_eq!(m.get_http_connection_timeout_secs(), 5);
    assert_eq!(m.get_path_validation_timeout_ms(), 30_000);
    assert_eq!(m.get_value("default_shell"), Some(ConfigValue::String("/bin/sh".to_string())));
    assert_eq!(m.get_client_info(), None);
    assert!(m.get_client_history().is_empty());
    assert_eq!(m.get_save_error_count(), 0);
    assert_eq!(kodegen_tools_config::default_http_connection_timeout_secs(), 5);
    assert_eq!(kodegen_tools_config::default_path_validation_timeout_ms(), 30_000);
}

#[test]
fn windows_default_shell_is_powershell() {
    let (tx, _rx) = unbounded_channel();
    let m = ConfigManager::new(tx, true);
    assert_eq!(
        m.get_value("default_shell"),
        Some(ConfigValue::String("powershell.exe".to_string()))
    );
}

#[test]
fn set_then_get_returns_the_coerced_value_for_every_key() {
    let (mut m, _rx) = store();
    let cases = vec![
        ("blocked_commands", ConfigValue::Array(strings(&["rm", "wget"]))),
        ("default_shell", ConfigValue::String("/bin/bash".to_string())),
        ("allowed_directories", ConfigValue::Array(strings(&["/home/user/projects"]))),
        ("denied_directories", ConfigValue::Array(strings(&["/etc", "/root"]))),
        ("file_read_line_limit", ConfigValue::Number(2000)),
        ("file_write_line_limit", ConfigValue::Number(75)),
        ("fuzzy_search_threshold", ConfigValue::Number(85)),
        ("http_connection_timeout_secs", ConfigValue::Number(12)),
        ("path_validation_timeout_ms", ConfigValue::Number(45_000)),
    ];
    for (key, value) in cases {
        assert_eq!(m.set_value(key, value.clone()), Ok(()));
        assert_eq!(m.get_value(key), Some(value));
    }
}

#[test]
fn fuzzy_threshold_percentage_is_stored_as_a_fraction() {
    let (mut m, _rx) = store();
    assert_eq!(m.set_value("fuzzy_search_threshold", ConfigValue::Number(85)), Ok(()));
    let fraction = m.get_fuzzy_search_threshold_percent() as f64 / 100.0;
    assert!((fraction - 0.85).abs() < 1e-9);
    assert_eq!(m.set_value("fuzzy_search_threshold", ConfigValue::Number(0)), Ok(()));
    assert_eq!(m.set_value("fuzzy_search_threshold", ConfigValue::Number(100)), Ok(()));
    assert_eq!(m.get_fuzzy_search_threshold_percent(), 100);
}

#[test]
fn unknown_key_is_refused_and_changes_nothing() {
    let (mut m, mut rx) = store();
    let before = m.get_config(SystemInfo::empty());
    let r = m.set_value("nonexistent_key", ConfigValue::Boolean(true));
    let e = r.unwrap_err();
    assert_eq!(e, ConfigError::UnknownKey("nonexistent_key".to_string()));
    assert!(e.message().contains("Unknown config key: nonexistent_key"));
    let after = m.get_config(SystemInfo::empty());
    assert_eq!(before.blocked_commands, after.blocked_commands);
    assert_eq!(before.default_shell, after.default_shell);
    assert_eq!(before.file_read_line_limit, after.file_read_line_limit);
    assert_eq!(before.path_validation_timeout_ms, after.path_validation_timeout_ms);
    assert_eq!(drain(&mut rx), 0);
    assert_eq!(m.get_value("nonexistent_key"), None);
}

#[test]
fn negative_line_limit_must_be_positive() {
    let (mut m, mut rx) = store();
    let e = m.set_value("file_read_line_limit", ConfigValue::Number(-100)).unwrap_err();
    assert_eq!(e, ConfigError::NotPositive(ConfigKey::FileReadLineLimit));
    assert!(e.message().contains("must be positive"));
    assert_eq!(e.message(), "file_read_line_limit must be positive");
    assert_eq!(m.get_file_read_line_limit(), 1000);
    assert_eq!(drain(&mut rx), 0);
    let e = m.set_value("file_write_line_limit", ConfigValue::Number(0)).unwrap_err();
    assert_eq!(e, ConfigError::NotPositive(ConfigKey::FileWriteLineLimit));
    let e = m.set_value("http_connection_timeout_secs", ConfigValue::Number(0)).unwrap_err();
    assert_eq!(e.message(), "http_connection_timeout_secs must be positive");
}

#[test]
fn path_timeout_bound_is_inclusive() {
    let (mut m, _rx) = store();
    let e = m.set_value("path_validation_timeout_ms", ConfigValue::Number(700_000)).unwrap_err();
    assert_eq!(e, ConfigError::TimeoutTooLong(ConfigKey::PathValidationTimeoutMs));
    assert_eq!(
        e.message(),
        "path_validation_timeout_ms cannot exceed 600000ms (10 minutes)"
    );
    assert_eq!(m.get_path_validation_timeout_ms(), 30_000);
    assert_eq!(m.set_value("path_validation_timeout_ms", ConfigValue::Number(600_000)), Ok(()));
    assert_eq!(m.get_path_validation_timeout_ms(), 600_000);
    let e = m.set_value("path_validation_timeout_ms", ConfigValue::Number(-1)).unwrap_err();
    assert_eq!(e, ConfigError::NotPositive(ConfigKey::PathValidationTimeoutMs));
}

#[test]
fn threshold_outside_percentage_range_is_refused() {
    let (mut m, _rx) = store();
    for n in [101, -1] {
        let e = m.set_value("fuzzy_search_threshold", ConfigValue::Number(n)).unwrap_err();
        assert_eq!(e, ConfigError::PercentOutOfRange(ConfigKey::FuzzySearchThreshold));
        assert_eq!(e.message(), "fuzzy_search_threshold must be between 0 and 100");
    }
    assert_eq!(m.get_fuzzy_search_threshold_percent(), 70);
}

#[test]
fn wrong_value_kind_is_refused_not_coerced() {
    let (mut m, _rx) = store();
    let e = m
        .set_value("blocked_commands", ConfigValue::String("[\"rm\"]".to_string()))
        .unwrap_err();
    assert_eq!(
        e,
        ConfigError::WrongKind { key: ConfigKey::BlockedCommands, expected: ValueKind::Array }
    );
    assert_eq!(e.message(), "Expected array");
    let e = m.set_value("default_shell", ConfigValue::Number(3)).unwrap_err();
    assert_eq!(e.message(), "Expected string");
    let e = m.set_value("file_read_line_limit", ConfigValue::Boolean(true)).unwrap_err();
    assert_eq!(e.message(), "Expected number");
    assert_eq!(m.get_blocked_commands().len(), 17);
}

#[test]
fn out_of_range_error_has_its_message() {
    assert_eq!(
        ConfigError::OutOfRange(ConfigKey::FileReadLineLimit).message(),
        "file_read_line_limit value out of range"
    );
}

#[test]
fn each_accepted_write_sends_one_save_signal() {
    let (mut m, mut rx) = store();
    for n in 1..=5 {
        assert_eq!(m.set_value("file_write_line_limit", ConfigValue::Number(n)), Ok(()));
    }
    assert_eq!(drain(&mut rx), 5);
    assert_eq!(m.get_file_write_line_limit(), 5);
    m.set_client_info(ClientInfo::new("editor".to_string(), "1.0".to_string()));
    assert_eq!(drain(&mut rx), 1);
}

#[test]
fn same_client_twice_updates_last_seen_only() {
    let (mut m, _rx) = store();
    let c = ClientInfo::new("editor".to_string(), "1.0".to_string());
    m.record_client_at(c.clone(), 1_000);
    m.record_client_at(c.clone(), 5_000);
    let h = m.get_client_history();
    assert_eq!(h.len(), 1);
    assert_eq!(h[0].connected_at, 1_000);
    assert_eq!(h[0].last_seen, 5_000);
    assert_eq!(m.get_client_info(), Some(c));
}

#[test]
fn distinct_clients_get_their_own_records() {
    let (mut m, _rx) = store();
    let a = ClientInfo::new("editor".to_string(), "1.0".to_string());
    let b = ClientInfo::new("editor".to_string(), "2.0".to_string());
    m.record_client_at(a.clone(), 1_000);
    m.record_client_at(b.clone(), 2_000);
    m.record_client_at(a.clone(), 3_000);
    let h = m.get_client_history();
    assert_eq!(h.len(), 2);
    assert_eq!(h[0].client_info, a);
    assert_eq!(h[0].connected_at, 1_000);
    assert_eq!(h[0].last_seen, 3_000);
    assert_eq!(h[1].client_info, b);
    assert_eq!(h[1].connected_at, 2_000);
    assert_eq!(h[1].last_seen, 2_000);
    assert_eq!(m.get_client_info(), Some(a));
}

#[test]
fn set_client_info_stamps_the_current_time() {
    let (mut m, _rx) = store();
    let c = ClientInfo::new("cli".to_string(), "0.1".to_string());
    m.set_client_info(c.clone());
    m.set_client_info(c.clone());
    let h = m.get_client_history();
    assert_eq!(h.len(), 1);
    // after 2020-01-01 in microseconds
    assert!(h[0].connected_at > 1_577_836_800_000_000);
    assert!(h[0].last_seen >= h[0].connected_at);
}

#[test]
fn save_failures_are_counted_and_shown_in_reads() {
    let (mut m, _rx) = store();
    m.record_save_failure();
    m.record_save_failure();
    assert_eq!(m.get_save_error_count(), 2);
    assert_eq!(kodegen_tools_config::get_save_error_count(&m), 2);
    let info = SystemInfo { hostname: "box".to_string(), cpu_count: 4, ..SystemInfo::empty() };
    let snapshot = m.get_config(info.clone());
    assert_eq!(snapshot.save_error_count, 2);
    assert_eq!(snapshot.system_info, info);
}
