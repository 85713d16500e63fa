//! An in-process configuration store: a validated key/value interface over a
//! settings snapshot, client-history tracking, the debounce decisions of the
//! background saver, the parsing of directory-list overrides, and the texts
//! that report settings and changes.

pub mod config_model;
pub mod config_value;
pub mod display;
pub mod env_loader;
pub mod history;
pub mod manager;
pub mod persistence;
pub mod system_info;
pub mod validation;

pub use config_model::{
    default_http_connection_timeout_secs, default_path_validation_timeout_ms, ServerConfig,
};
pub use config_value::{ConfigError, ConfigKey, ConfigValue};
pub use env_loader::{apply_env_overrides, parse_dir_list};
pub use manager::ConfigManager;
pub use persistence::{get_save_error_count, SaveScheduler, SaverEvent};
pub use system_info::{ClientInfo, ClientRecord, MemoryInfo, SystemInfo};
