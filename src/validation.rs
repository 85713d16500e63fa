use vstd::prelude::*;
use crate::config_model::{copy_texts, ConfigView, ServerConfig, MAX_PATH_VALIDATION_TIMEOUT_MS};
use crate::config_value::{ConfigError, ConfigKey, ConfigValue, ValueKind, ValueView};

verus! {

/// The variant of a value.
pub open spec fn kind_of(v: ValueView) -> ValueKind {
    match v {
        ValueView::Text(_) => ValueKind::String,
        ValueView::Number(_) => ValueKind::Number,
        ValueView::Boolean(_) => ValueKind::Boolean,
        ValueView::Array(_) => ValueKind::Array,
    }
}

/// The variant each key takes.
pub open spec fn expected_kind(k: ConfigKey) -> ValueKind {
    match k {
        ConfigKey::BlockedCommands => ValueKind::Array,
        ConfigKey::DefaultShell => ValueKind::String,
        ConfigKey::AllowedDirectories => ValueKind::Array,
        ConfigKey::DeniedDirectories => ValueKind::Array,
        _ => ValueKind::Number,
    }
}

/// A count read out as a number; counts beyond `i64::MAX` read as `i64::MAX`.
pub open spec fn as_number(n: int) -> i64 {
    if n <= i64::MAX {
        n as i64
    } else {
        i64::MAX
    }
}

/// The value stored under a key.
pub open spec fn value_of(c: ConfigView, k: ConfigKey) -> ValueView {
    match k {
        ConfigKey::BlockedCommands => ValueView::Array(c.blocked_commands),
        ConfigKey::DefaultShell => ValueView::Text(c.default_shell),
        ConfigKey::AllowedDirectories => ValueView::Array(c.allowed_directories),
        ConfigKey::DeniedDirectories => ValueView::Array(c.denied_directories),
        ConfigKey::FileReadLineLimit => ValueView::Number(as_number(c.file_read_line_limit as int)),
        ConfigKey::FileWriteLineLimit => ValueView::Number(
            as_number(c.file_write_line_limit as int),
        ),
        ConfigKey::FuzzySearchThreshold => ValueView::Number(
            as_number(c.fuzzy_search_threshold_percent as int),
        ),
        ConfigKey::HttpConnectionTimeoutSecs => ValueView::Number(
            as_number(c.http_connection_timeout_secs as int),
        ),
        ConfigKey::PathValidationTimeoutMs => ValueView::Number(
            as_number(c.path_validation_timeout_ms as int),
        ),
    }
}

/// Why a number is refused for a key, if it is.
pub open spec fn number_error(k: ConfigKey, n: int) -> Option<ConfigError> {
    match k {
        ConfigKey::FileReadLineLimit | ConfigKey::FileWriteLineLimit => if n <= 0 {
            Some(ConfigError::NotPositive(k))
        } else if n > usize::MAX {
            Some(ConfigError::OutOfRange(k))
        } else {
            None
        },
        ConfigKey::FuzzySearchThreshold => if n < 0 || n > 100 {
            Some(ConfigError::PercentOutOfRange(k))
        } else {
            None
        },
        ConfigKey::HttpConnectionTimeoutSecs => if n <= 0 {
            Some(ConfigError::NotPositive(k))
        } else {
            None
        },
        ConfigKey::PathValidationTimeoutMs => if n <= 0 {
            Some(ConfigError::NotPositive(k))
        } else if n > MAX_PATH_VALIDATION_TIMEOUT_MS {
            Some(ConfigError::TimeoutTooLong(k))
        } else {
            None
        },
        _ => None,
    }
}

/// Why a value is refused for a key, if it is.
pub open spec fn value_error(k: ConfigKey, v: ValueView) -> Option<ConfigError> {
    if kind_of(v) != expected_kind(k) {
        Some(ConfigError::WrongKind { key: k, expected: expected_kind(k) })
    } else {
        match v {
            ValueView::Number(n) => number_error(k, n as int),
            _ => None,
        }
    }
}

/// The settings after an accepted value is stored under a key.
pub open spec fn with_value(c: ConfigView, k: ConfigKey, v: ValueView) -> ConfigView {
    match v {
        ValueView::Array(a) => match k {
            ConfigKey::BlockedCommands => ConfigView { blocked_commands: a, ..c },
            ConfigKey::AllowedDirectories => ConfigView { allowed_directories: a, ..c },
            ConfigKey::DeniedDirectories => ConfigView { denied_directories: a, ..c },
            _ => c,
        },
        ValueView::Text(s) => match k {
            ConfigKey::DefaultShell => ConfigView { default_shell: s, ..c },
            _ => c,
        },
        ValueView::Number(n) => match k {
            ConfigKey::FileReadLineLimit => ConfigView { file_read_line_limit: n as usize, ..c },
            ConfigKey::FileWriteLineLimit => ConfigView { file_write_line_limit: n as usize, ..c },
            ConfigKey::FuzzySearchThreshold => ConfigView {
                fuzzy_search_threshold_percent: n as u64,
                ..c
            },
            ConfigKey::HttpConnectionTimeoutSecs => ConfigView {
                http_connection_timeout_secs: n as u64,
                ..c
            },
            ConfigKey::PathValidationTimeoutMs => ConfigView {
                path_validation_timeout_ms: n as u64,
                ..c
            },
            _ => c,
        },
        ValueView::Boolean(_) => c,
    }
}

impl ConfigValue {
    /// The variant of this value.
    pub fn kind(&self) -> (r: ValueKind)
        ensures
            r == kind_of(self@),
    {
        match self {
            ConfigValue::String(_) => ValueKind::String,
            ConfigValue::Number(_) => ValueKind::Number,
            ConfigValue::Boolean(_) => ValueKind::Boolean,
            ConfigValue::Array(_) => ValueKind::Array,
        }
    }
}

impl ConfigKey {
    /// The variant this key takes.
    pub fn expected_kind(&self) -> (r: ValueKind)
        ensures
            r == expected_kind(*self),
    {
        match self {
            ConfigKey::BlockedCommands => ValueKind::Array,
            ConfigKey::DefaultShell => ValueKind::String,
            ConfigKey::AllowedDirectories => ValueKind::Array,
            ConfigKey::DeniedDirectories => ValueKind::Array,
            _ => ValueKind::Number,
        }
    }
}

/// Checks a number against a key's bounds.
pub fn check_number(k: ConfigKey, n: i64) -> (r: Option<ConfigError>)
    ensures
        r == number_error(k, n as int),
{
    match k {
        ConfigKey::FileReadLineLimit | ConfigKey::FileWriteLineLimit => {
            if n <= 0 {
                Some(ConfigError::NotPositive(k))
            } else if (n as u64) > (usize::MAX as u64) {
                Some(ConfigError::OutOfRange(k))
            } else {
                None
            }
        },
        ConfigKey::FuzzySearchThreshold => {
            if n < 0 || n > 100 {
                Some(ConfigError::PercentOutOfRange(k))
            } else {
                None
            }
        },
        ConfigKey::HttpConnectionTimeoutSecs => {
            if n <= 0 {
                Some(ConfigError::NotPositive(k))
            } else {
                None
            }
        },
        ConfigKey::PathValidationTimeoutMs => {
            if n <= 0 {
                Some(ConfigError::NotPositive(k))
            } else if n > MAX_PATH_VALIDATION_TIMEOUT_MS as i64 {
                Some(ConfigError::TimeoutTooLong(k))
            } else {
                None
            }
        },
        _ => None,
    }
}

/// Checks a value against a key's type and bounds and, when it passes,
/// stores it; a refused value leaves the snapshot as it was.
pub fn store_value(config: &mut ServerConfig, k: ConfigKey, value: ConfigValue) -> (r: Result<
    (),
    ConfigError,
>)
    ensures
        final(config).system_info == old(config).system_info,
        match value_error(k, value@) {
            Some(e) => r == Err::<(), ConfigError>(e) && final(config)@ == old(config)@,
            None => r is Ok && final(config)@ == with_value(old(config)@, k, value@),
        },
{
    let expected = k.expected_kind();
    if value.kind() != expected {
        return Err(ConfigError::WrongKind { key: k, expected });
    }
    match value {
        ConfigValue::Array(a) => {
            match k {
                ConfigKey::BlockedCommands => config.blocked_commands = a,
                ConfigKey::AllowedDirectories => config.allowed_directories = a,
                _ => config.denied_directories = a,
            }
            Ok(())
        },
        ConfigValue::String(s) => {
            config.default_shell = s;
            Ok(())
        },
        ConfigValue::Number(n) => {
            if let Some(e) = check_number(k, n) {
                return Err(e);
            }
            match k {
                ConfigKey::FileReadLineLimit => config.file_read_line_limit = n as usize,
                ConfigKey::FileWriteLineLimit => config.file_write_line_limit = n as usize,
                ConfigKey::FuzzySearchThreshold => config.fuzzy_search_threshold_percent = n as u64,
                ConfigKey::HttpConnectionTimeoutSecs => config.http_connection_timeout_secs = n as u64,
                _ => config.path_validation_timeout_ms = n as u64,
            }
            Ok(())
        },
        // no key takes a boolean: the kind check above refused it
        ConfigValue::Boolean(_) => Ok(()),
    }
}


fn count_as_number(n: u64) -> (r: i64)
    ensures
        r == as_number(n as int),
{
    if n <= i64::MAX as u64 {
        n as i64
    } else {
        i64::MAX
    }
}

/// The value stored under a key, as a generic value.
pub fn read_value(config: &ServerConfig, k: ConfigKey) -> (r: ConfigValue)
    ensures
        r@ == value_of(config@, k),
{
    match k {
        ConfigKey::BlockedCommands => ConfigValue::Array(copy_texts(&config.blocked_commands)),
        ConfigKey::DefaultShell => ConfigValue::String(config.default_shell.clone()),
        ConfigKey::AllowedDirectories => ConfigValue::Array(copy_texts(&config.allowed_directories)),
        ConfigKey::DeniedDirectories => ConfigValue::Array(copy_texts(&config.denied_directories)),
        ConfigKey::FileReadLineLimit => ConfigValue::Number(
            count_as_number(config.file_read_line_limit as u64),
        ),
        ConfigKey::FileWriteLineLimit => ConfigValue::Number(
            count_as_number(config.file_write_line_limit as u64),
        ),
        ConfigKey::FuzzySearchThreshold => ConfigValue::Number(
            count_as_number(config.fuzzy_search_threshold_percent),
        ),
        ConfigKey::HttpConnectionTimeoutSecs => ConfigValue::Number(
            count_as_number(config.http_connection_timeout_secs),
        ),
        ConfigKey::PathValidationTimeoutMs => ConfigValue::Number(
            count_as_number(config.path_validation_timeout_ms),
        ),
    }
}

/// Reading a key back after a value was accepted for it gives that value.
pub proof fn law_read_back_accepted_value(c: ConfigView, k: ConfigKey, v: ValueView)
    requires
        value_error(k, v) is None,
    ensures
        value_of(with_value(c, k, v), k) == v,
{
}

/// Storing an accepted value keeps a well-formed snapshot well formed.
pub proof fn lemma_accepted_value_keeps_wf(c: ConfigView, k: ConfigKey, v: ValueView)
    requires
        c.wf(),
        value_error(k, v) is None,
    ensures
        with_value(c, k, v).wf(),
{
}

/// Storing an accepted value changes the field of its key and no other.
pub proof fn law_other_keys_unchanged(c: ConfigView, k: ConfigKey, other: ConfigKey, v: ValueView)
    requires
        value_error(k, v) is None,
        other != k,
    ensures
        value_of(with_value(c, k, v), other) == value_of(c, other),
{
}

} // verus!
