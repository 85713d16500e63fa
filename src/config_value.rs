use vstd::prelude::*;
use vstd::string::*;

verus! {

/// The keys that can be read and written through the generic interface.
#[derive(Clone, Copy, Debug, PartialEq, Eq, Structural)]
pub enum ConfigKey {
    BlockedCommands,
    DefaultShell,
    AllowedDirectories,
    DeniedDirectories,
    FileReadLineLimit,
    FileWriteLineLimit,
    FuzzySearchThreshold,
    HttpConnectionTimeoutSecs,
    PathValidationTimeoutMs,
}

/// The name under which each key is addressed.
pub open spec fn key_name(k: ConfigKey) -> Seq<char> {
    match k {
        ConfigKey::BlockedCommands => "blocked_commands"@,
        ConfigKey::DefaultShell => "default_shell"@,
        ConfigKey::AllowedDirectories => "allowed_directories"@,
        ConfigKey::DeniedDirectories => "denied_directories"@,
        ConfigKey::FileReadLineLimit => "file_read_line_limit"@,
        ConfigKey::FileWriteLineLimit => "file_write_line_limit"@,
        ConfigKey::FuzzySearchThreshold => "fuzzy_search_threshold"@,
        ConfigKey::HttpConnectionTimeoutSecs => "http_connection_timeout_secs"@,
        ConfigKey::PathValidationTimeoutMs => "path_validation_timeout_ms"@,
    }
}

/// The key a name addresses, if any.
pub open spec fn key_from_name(s: Seq<char>) -> Option<ConfigKey> {
    if s == "blocked_commands"@ {
        Some(ConfigKey::BlockedCommands)
    } else if s == "default_shell"@ {
        Some(ConfigKey::DefaultShell)
    } else if s == "allowed_directories"@ {
        Some(ConfigKey::AllowedDirectories)
    } else if s == "denied_directories"@ {
        Some(ConfigKey::DeniedDirectories)
    } else if s == "file_read_line_limit"@ {
        Some(ConfigKey::FileReadLineLimit)
    } else if s == "file_write_line_limit"@ {
        Some(ConfigKey::FileWriteLineLimit)
    } else if s == "fuzzy_search_threshold"@ {
        Some(ConfigKey::FuzzySearchThreshold)
    } else if s == "http_connection_timeout_secs"@ {
        Some(ConfigKey::HttpConnectionTimeoutSecs)
    } else if s == "path_validation_timeout_ms"@ {
        Some(ConfigKey::PathValidationTimeoutMs)
    } else {
        None
    }
}

/// Character-wise equality of two strings.
pub fn same_text(a: &str, b: &str) -> (r: bool)
    ensures
        r == (a@ == b@),
{
    let n = a.unicode_len();
    if n != b.unicode_len() {
        return false;
    }
    let mut i: usize = 0;
    while i < n
        invariant
            n == a@.len(),
            n == b@.len(),
            i <= n,
            forall|j: int| 0 <= j < i ==> a@[j] == b@[j],
        decreases n - i,
    {
        if a.get_char(i) != b.get_char(i) {
            return false;
        }
        i += 1;
    }
    assert(a@ =~= b@);
    true
}

impl ConfigKey {
    /// The name under which this key is addressed.
    pub fn name(&self) -> (r: &'static str)
        ensures
            r@ == key_name(*self),
    {
        match self {
            ConfigKey::BlockedCommands => "blocked_commands",
            ConfigKey::DefaultShell => "default_shell",
            ConfigKey::AllowedDirectories => "allowed_directories",
            ConfigKey::DeniedDirectories => "denied_directories",
            ConfigKey::FileReadLineLimit => "file_read_line_limit",
            ConfigKey::FileWriteLineLimit => "file_write_line_limit",
            ConfigKey::FuzzySearchThreshold => "fuzzy_search_threshold",
            ConfigKey::HttpConnectionTimeoutSecs => "http_connection_timeout_secs",
            ConfigKey::PathValidationTimeoutMs => "path_validation_timeout_ms",
        }
    }

    /// Looks a key up by its name.
    pub fn parse(name: &str) -> (r: Option<ConfigKey>)
        ensures
            r == key_from_name(name@),
    {
        if same_text(name, "blocked_commands") {
            Some(ConfigKey::BlockedCommands)
        } else if same_text(name, "default_shell") {
            Some(ConfigKey::DefaultShell)
        } else if same_text(name, "allowed_directories") {
            Some(ConfigKey::AllowedDirectories)
        } else if same_text(name, "denied_directories") {
            Some(ConfigKey::DeniedDirectories)
        } else if same_text(name, "file_read_line_limit") {
            Some(ConfigKey::FileReadLineLimit)
        } else if same_text(name, "file_write_line_limit") {
            Some(ConfigKey::FileWriteLineLimit)
        } else if same_text(name, "fuzzy_search_threshold") {
            Some(ConfigKey::FuzzySearchThreshold)
        } else if same_text(name, "http_connection_timeout_secs") {
            Some(ConfigKey::HttpConnectionTimeoutSecs)
        } else if same_text(name, "path_validation_timeout_ms") {
            Some(ConfigKey::PathValidationTimeoutMs)
        } else {
            None
        }
    }
}


/// A value at the generic key/value boundary, before it is coerced to a
/// field's own type.
#[derive(Clone, Debug, PartialEq, Eq)]
pub enum ConfigValue {
    String(String),
    Number(i64),
    Boolean(bool),
    Array(Vec<String>),
}

/// What a `ConfigValue` holds, with its list as a sequence.
pub enum ValueView {
    Text(String),
    Number(i64),
    Boolean(bool),
    Array(Seq<String>),
}

impl View for ConfigValue {
    type V = ValueView;

    open spec fn view(&self) -> ValueView {
        match self {
            ConfigValue::String(s) => ValueView::Text(*s),
            ConfigValue::Number(n) => ValueView::Number(*n),
            ConfigValue::Boolean(b) => ValueView::Boolean(*b),
            ConfigValue::Array(v) => ValueView::Array(v@),
        }
    }
}

/// The union variants, as named in errors.
#[derive(Clone, Copy, Debug, PartialEq, Eq, Structural)]
pub enum ValueKind {
    String,
    Number,
    Boolean,
    Array,
}

/// Why a write through the generic interface was refused.
#[derive(Clone, Debug, PartialEq, Eq)]
pub enum ConfigError {
    /// No field has this name.
    UnknownKey(String),
    /// The value is of another variant than the field takes.
    WrongKind { key: ConfigKey, expected: ValueKind },
    /// The field takes positive numbers only.
    NotPositive(ConfigKey),
    /// The number does not fit the field's integer type.
    OutOfRange(ConfigKey),
    /// A percentage outside 0 to 100.
    PercentOutOfRange(ConfigKey),
    /// A timeout above 600000 ms.
    TimeoutTooLong(ConfigKey),
}

pub open spec fn kind_text(k: ValueKind) -> Seq<char> {
    match k {
        ValueKind::String => "Expected string"@,
        ValueKind::Number => "Expected number"@,
        ValueKind::Boolean => "Expected boolean"@,
        ValueKind::Array => "Expected array"@,
    }
}

/// The message that describes an error.
pub open spec fn error_text(e: ConfigError) -> Seq<char> {
    match e {
        ConfigError::UnknownKey(k) => "Unknown config key: "@ + k@,
        ConfigError::WrongKind { key, expected } => kind_text(expected),
        ConfigError::NotPositive(key) => key_name(key) + " must be positive"@,
        ConfigError::OutOfRange(key) => key_name(key) + " value out of range"@,
        ConfigError::PercentOutOfRange(key) => key_name(key) + " must be between 0 and 100"@,
        ConfigError::TimeoutTooLong(key) => key_name(key)
            + " cannot exceed 600000ms (10 minutes)"@,
    }
}

impl ValueKind {
    fn text(&self) -> (r: &'static str)
        ensures
            r@ == kind_text(*self),
    {
        match self {
            ValueKind::String => "Expected string",
            ValueKind::Number => "Expected number",
            ValueKind::Boolean => "Expected boolean",
            ValueKind::Array => "Expected array",
        }
    }
}

impl ConfigError {
    /// The human-readable message of this error.
    pub fn message(&self) -> (r: String)
        ensures
            r@ == error_text(*self),
    {
        match self {
            ConfigError::UnknownKey(k) => String::from_str("Unknown config key: ").concat(k.as_str()),
            ConfigError::WrongKind { key, expected } => String::from_str(expected.text()),
            ConfigError::NotPositive(key) => String::from_str(key.name()).concat(" must be positive"),
            ConfigError::OutOfRange(key) => String::from_str(key.name()).concat(" value out of range"),
            ConfigError::PercentOutOfRange(key) => String::from_str(key.name()).concat(
                " must be between 0 and 100",
            ),
            ConfigError::TimeoutTooLong(key) => String::from_str(key.name()).concat(
                " cannot exceed 600000ms (10 minutes)",
            ),
        }
    }
}

} // verus!
