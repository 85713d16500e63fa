use kodegen_tools_config::{ClientInfo, ClientRecord};
use kodegen_tools_config::env_loader::{drop_empty, split_pieces};
use kodegen_tools_config::{apply_env_overrides, parse_dir_list, ConfigManager, ServerConfig};
use tokio::sync::mpsc::unbounded_channel;

#[test]
fn path_list_is_split_trimmed_and_filtered() {
    assert_eq!(parse_dir_list(" /a : /b ::  ", ':'), vec!["/a".to_string(), "/b".to_string()]);
    assert_eq!(parse_dir_list("C:\\x; D:\\y ;", ';'), vec!["C:\\x".to_string(), "D:\\y".to_string()]);
}

#[test]
fn empty_path_list_yields_nothing() {
    assert!(parse_dir_list("", ':').is_empty());
    assert!(parse_dir_list(" : \t :", ':').is_empty());
}

#[test]
fn single_entry_without_separator() {
    assert_eq!(parse_dir_list("  /srv/data\n", ':'), vec!["/srv/data".to_string()]);
}

#[test]
fn non_empty_environment_list_replaces_the_stored_one() {
    let mut c = ServerConfig::defaults(false);
    c.allowed_directories = vec!["/from/file".to_string()];
    c.denied_directories = vec!["/denied/file".to_string()];
    apply_env_overrides(&mut c, vec!["/from/env".to_string()], Vec::new());
    assert_eq!(c.allowed_directories, vec!["/from/env".to_string()]);
    assert_eq!(c.denied_directories, vec!["/denied/file".to_string()]);
}

#[test]
fn load_applies_environment_over_loaded_settings() {
    let (tx, _rx) = unbounded_channel();
    let mut m = ConfigManager::new(tx, false);
    let mut loaded = ServerConfig::defaults(false);
    loaded.file_read_line_limit = 42;
    loaded.allowed_directories = vec!["/file".to_string()];
    m.load(loaded, Vec::new(), vec!["/tmp".to_string()]);
    assert_eq!(m.get_file_read_line_limit(), 42);
    let snapshot = m.get_config(kodegen_tools_config::SystemInfo::empty());
    assert_eq!(snapshot.allowed_directories, vec!["/file".to_string()]);
    assert_eq!(snapshot.denied_directories, vec!["/tmp".to_string()]);
}

#[test]
fn splitting_keeps_every_piece_including_empty_ones() {
    assert_eq!(split_pieces("a::b:", ':'), vec!["a", "", "b", ""]);
    assert_eq!(split_pieces("", ':'), vec![""]);
    assert_eq!(split_pieces(" x ", ':'), vec![" x "]);
}

#[test]
fn dropping_empty_pieces_keeps_order() {
    let pieces = vec!["b".to_string(), String::new(), "a".to_string(), String::new()];
    assert_eq!(drop_empty(pieces), vec!["b".to_string(), "a".to_string()]);
}

#[test]
fn load_keeps_the_store_failure_count() {
    let (tx, _rx) = unbounded_channel();
    let mut m = ConfigManager::new(tx, false);
    for _ in 0..5 {
        m.record_save_failure();
    }
    let mut loaded = ServerConfig::defaults(false);
    loaded.save_error_count = 0;
    m.load(loaded, Vec::new(), Vec::new());
    assert_eq!(m.get_save_error_count(), 5);
}

#[test]
fn load_replaces_invalid_fields_with_defaults() {

    let (tx, _rx) = unbounded_channel();
    let mut m = ConfigManager::new(tx, false);
    let mut loaded = ServerConfig::defaults(false);
    loaded.file_read_line_limit = 0;
    loaded.file_write_line_limit = 7;
    loaded.fuzzy_search_threshold_percent = 250;
    loaded.http_connection_timeout_secs = 0;
    loaded.path_validation_timeout_ms = 900_000;
    let a = ClientInfo::new("a".to_string(), "1".to_string());
    let b = ClientInfo::new("b".to_string(), "1".to_string());
    loaded.client_history = vec![
        ClientRecord { client_info: a.clone(), connected_at: 1, last_seen: 2 },
        ClientRecord { client_info: b.clone(), connected_at: 3, last_seen: 4 },
        ClientRecord { client_info: a.clone(), connected_at: 5, last_seen: 6 },
    ];
    m.load(loaded, Vec::new(), Vec::new());
    assert_eq!(m.get_file_read_line_limit(), 1000);
    assert_eq!(m.get_file_write_line_limit(), 7);
    assert_eq!(m.get_fuzzy_search_threshold_percent(), 70);
    assert_eq!(m.get_http_connection_timeout_secs(), 5);
    assert_eq!(m.get_path_validation_timeout_ms(), 30_000);
    let h = m.get_client_history();
    assert_eq!(h.len(), 2);
    assert_eq!(h[0].client_info, a);
    assert_eq!(h[0].connected_at, 1);
    assert_eq!(h[1].client_info, b);
}

#[test]
fn closing_the_queue_lets_the_receiver_see_the_end() {
    let (tx, mut rx) = unbounded_channel::<()>();
    let mut m = ConfigManager::new(tx, false);
    assert_eq!(
        m.set_value("file_read_line_limit", kodegen_tools_config::ConfigValue::Number(10)),
        Ok(())
    );
    m.close_save_queue();
    assert!(rx.try_recv().is_ok());
    assert_eq!(
        rx.try_recv(),
        Err(tokio::sync::mpsc::error::TryRecvError::Disconnected)
    );
    assert_eq!(
        m.set_value("file_read_line_limit", kodegen_tools_config::ConfigValue::Number(11)),
        Ok(())
    );
    assert_eq!(m.get_file_read_line_limit(), 11);
}

#[test]
fn trimming_removes_unicode_white_space_only() {
    use_trim("\u{3000}/a\u{00A0}\u{2009}", "/a");
    use_trim("\u{200B}/b ", "\u{200B}/b");
    use_trim(" \t\n ", "");
    use_trim("x y", "x y");
}

fn use_trim(input: &str, expected: &str) {
    assert_eq!(kodegen_tools_config::env_loader::trim_text(input), expected);
    assert_eq!(kodegen_tools_config::env_loader::trim_text(input), input.trim());
}
