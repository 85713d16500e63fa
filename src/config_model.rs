use vstd::prelude::*;
use vstd::string::*;
use crate::history::{distinct_history, distinct_records};
use crate::system_info::{same_client, ClientInfo, ClientRecord, SystemInfo};

verus! {

/// Default fuzzy-search threshold, as a percentage.
pub fn default_fuzzy_search_threshold_percent() -> (r: u64)
    ensures
        r == 70,
{
    70
}

/// Default HTTP connection timeout, in seconds.
pub fn default_http_connection_timeout_secs() -> (r: u64)
    ensures
        r == 5,
{
    5
}

/// Default path validation timeout, in milliseconds.
pub fn default_path_validation_timeout_ms() -> (r: u64)
    ensures
        r == 30_000,
{
    30_000
}

/// The largest path validation timeout that can be set, in milliseconds.
pub const MAX_PATH_VALIDATION_TIMEOUT_MS: u64 = 600_000;

/// The full settings snapshot.
#[derive(Clone, Debug)]
pub struct ServerConfig {
    /// Commands that cannot be executed (exact match).
    pub blocked_commands: Vec<String>,
    /// Default shell for command execution.
    pub default_shell: String,
    /// Directories that can be accessed; empty means unrestricted.
    pub allowed_directories: Vec<String>,
    /// Directories that cannot be accessed.
    pub denied_directories: Vec<String>,
    /// Maximum lines for one file read.
    pub file_read_line_limit: usize,
    /// Maximum lines for one file write.
    pub file_write_line_limit: usize,
    /// Minimum similarity for fuzzy-search suggestions, as a percentage
    /// (70 stands for a ratio of 0.7).
    pub fuzzy_search_threshold_percent: u64,
    /// HTTP connection timeout in seconds.
    pub http_connection_timeout_secs: u64,
    /// Path validation timeout in milliseconds.
    pub path_validation_timeout_ms: u64,
    /// The client that connected most recently, if any.
    pub current_client: Option<ClientInfo>,
    /// One record per distinct client that has connected.
    pub client_history: Vec<ClientRecord>,
    /// Diagnostics, filled in on every read and not part of the settings.
    pub system_info: SystemInfo,
    /// Background save failures, filled in on every read.
    pub save_error_count: usize,
}

/// The settings of a snapshot, diagnostics left out.
pub struct ConfigView {
    pub blocked_commands: Seq<String>,
    pub default_shell: String,
    pub allowed_directories: Seq<String>,
    pub denied_directories: Seq<String>,
    pub file_read_line_limit: usize,
    pub file_write_line_limit: usize,
    pub fuzzy_search_threshold_percent: u64,
    pub http_connection_timeout_secs: u64,
    pub path_validation_timeout_ms: u64,
    pub current_client: Option<ClientInfo>,
    pub client_history: Seq<ClientRecord>,
    pub save_error_count: usize,
}

impl View for ServerConfig {
    type V = ConfigView;

    open spec fn view(&self) -> ConfigView {
        ConfigView {
            blocked_commands: self.blocked_commands@,
            default_shell: self.default_shell,
            allowed_directories: self.allowed_directories@,
            denied_directories: self.denied_directories@,
            file_read_line_limit: self.file_read_line_limit,
            file_write_line_limit: self.file_write_line_limit,
            fuzzy_search_threshold_percent: self.fuzzy_search_threshold_percent,
            http_connection_timeout_secs: self.http_connection_timeout_secs,
            path_validation_timeout_ms: self.path_validation_timeout_ms,
            current_client: self.current_client,
            client_history: self.client_history@,
            save_error_count: self.save_error_count,
        }
    }
}

/// At most one record per (name, version) pair.
pub open spec fn history_unique(h: Seq<ClientRecord>) -> bool {
    forall|i: int, j: int|
        0 <= i < h.len() && 0 <= j < h.len() && i != j ==> !same_client(
            #[trigger] h[i].client_info,
            #[trigger] h[j].client_info,
        )
}

impl ConfigView {
    /// The invariant of a committed snapshot.
    pub open spec fn wf(self) -> bool {
        &&& self.file_read_line_limit > 0
        &&& self.file_write_line_limit > 0
        &&& self.fuzzy_search_threshold_percent <= 100
        &&& self.http_connection_timeout_secs > 0
        &&& 0 < self.path_validation_timeout_ms <= MAX_PATH_VALIDATION_TIMEOUT_MS
        &&& history_unique(self.client_history)
    }
}

/// The commands blocked by default.
pub open spec fn default_blocked_commands() -> Seq<Seq<char>> {
    seq![
        "rm"@, "rmdir"@, "del"@, "format"@, "dd"@, "shred"@, "sudo"@, "su"@, "passwd"@,
        "useradd"@, "userdel"@, "chmod"@, "chown"@, "shutdown"@, "reboot"@, "halt"@,
        "poweroff"@,
    ]
}

/// The text of each string in a sequence.
pub open spec fn texts(v: Seq<String>) -> Seq<Seq<char>> {
    v.map_values(|s: String| s@)
}

/// The default shell: PowerShell on Windows, `/bin/sh` elsewhere.
pub open spec fn default_shell_for(windows: bool) -> Seq<char> {
    if windows {
        "powershell.exe"@
    } else {
        "/bin/sh"@
    }
}

/// The snapshot holds the hard-coded defaults.
pub open spec fn is_default_config(c: ConfigView, windows: bool) -> bool {
    &&& texts(c.blocked_commands) == default_blocked_commands()
    &&& c.default_shell@ == default_shell_for(windows)
    &&& c.allowed_directories.len() == 0
    &&& c.denied_directories.len() == 0
    &&& c.file_read_line_limit == 1000
    &&& c.file_write_line_limit == 50
    &&& c.fuzzy_search_threshold_percent == 70
    &&& c.http_connection_timeout_secs == 5
    &&& c.path_validation_timeout_ms == 30_000
    &&& c.current_client is None
    &&& c.client_history.len() == 0
    &&& c.save_error_count == 0
}

/// The settings with each field that breaks the invariant set back to its
/// default, and each client's later duplicate records dropped.
pub open spec fn sanitized(c: ConfigView) -> ConfigView {
    ConfigView {
        file_read_line_limit: if c.file_read_line_limit > 0 {
            c.file_read_line_limit
        } else {
            1000
        },
        file_write_line_limit: if c.file_write_line_limit > 0 {
            c.file_write_line_limit
        } else {
            50
        },
        fuzzy_search_threshold_percent: if c.fuzzy_search_threshold_percent <= 100 {
            c.fuzzy_search_threshold_percent
        } else {
            70
        },
        http_connection_timeout_secs: if c.http_connection_timeout_secs > 0 {
            c.http_connection_timeout_secs
        } else {
            5
        },
        path_validation_timeout_ms: if 0 < c.path_validation_timeout_ms
            <= MAX_PATH_VALIDATION_TIMEOUT_MS {
            c.path_validation_timeout_ms
        } else {
            30_000
        },
        client_history: distinct_records(c.client_history),
        ..c
    }
}

/// A copy of a list of strings.
pub fn copy_texts(v: &Vec<String>) -> (r: Vec<String>)
    ensures
        r@ == v@,
{
    let mut r: Vec<String> = Vec::new();
    let mut i: usize = 0;
    while i < v.len()
        invariant
            i <= v@.len(),
            r@ == v@.subrange(0, i as int),
        decreases v@.len() - i,
    {
        r.push(v[i].clone());
        i += 1;
    }
    assert(r@ =~= v@);
    r
}

/// A copy of a client history.
pub fn copy_history(v: &Vec<ClientRecord>) -> (r: Vec<ClientRecord>)
    ensures
        r@ == v@,
{
    let mut r: Vec<ClientRecord> = Vec::new();
    let mut i: usize = 0;
    while i < v.len()
        invariant
            i <= v@.len(),
            r@ == v@.subrange(0, i as int),
        decreases v@.len() - i,
    {
        r.push(v[i].duplicate());
        i += 1;
    }
    assert(r@ =~= v@);
    r
}

fn copy_client(c: &Option<ClientInfo>) -> (r: Option<ClientInfo>)
    ensures
        r == *c,
{
    match c {
        Some(ci) => Some(ci.duplicate()),
        None => None,
    }
}

impl ServerConfig {
    /// The hard-coded defaults, for a Windows host or another one.
    pub fn defaults(windows: bool) -> (r: ServerConfig)
        ensures
            is_default_config(r@, windows),
            r@.wf(),
    {
        let mut blocked: Vec<String> = Vec::new();
        blocked.push(String::from_str("rm"));
        blocked.push(String::from_str("rmdir"));
        blocked.push(String::from_str("del"));
        blocked.push(String::from_str("format"));
        blocked.push(String::from_str("dd"));
        blocked.push(String::from_str("shred"));
        blocked.push(String::from_str("sudo"));
        blocked.push(String::from_str("su"));
        blocked.push(String::from_str("passwd"));
        blocked.push(String::from_str("useradd"));
        blocked.push(String::from_str("userdel"));
        blocked.push(String::from_str("chmod"));
        blocked.push(String::from_str("chown"));
        blocked.push(String::from_str("shutdown"));
        blocked.push(String::from_str("reboot"));
        blocked.push(String::from_str("halt"));
        blocked.push(String::from_str("poweroff"));
        assert(texts(blocked@) =~= default_blocked_commands());
        let shell = if windows {
            String::from_str("powershell.exe")
        } else {
            String::from_str("/bin/sh")
        };
        ServerConfig {
            blocked_commands: blocked,
            default_shell: shell,
            allowed_directories: Vec::new(),
            denied_directories: Vec::new(),
            file_read_line_limit: 1000,
            file_write_line_limit: 50,
            fuzzy_search_threshold_percent: default_fuzzy_search_threshold_percent(),
            http_connection_timeout_secs: default_http_connection_timeout_secs(),
            path_validation_timeout_ms: default_path_validation_timeout_ms(),
            current_client: None,
            client_history: Vec::new(),
            system_info: SystemInfo::empty(),
            save_error_count: 0,
        }
    }

    /// Sets each field that breaks the invariant back to its default and
    /// drops each client's later duplicate records.
    pub fn sanitize(&mut self)
        ensures
            final(self)@ == sanitized(old(self)@),
            final(self)@.wf(),
            final(self).system_info == old(self).system_info,
    {
        if self.file_read_line_limit == 0 {
            self.file_read_line_limit = 1000;
        }
        if self.file_write_line_limit == 0 {
            self.file_write_line_limit = 50;
        }
        if self.fuzzy_search_threshold_percent > 100 {
            self.fuzzy_search_threshold_percent = default_fuzzy_search_threshold_percent();
        }
        if self.http_connection_timeout_secs == 0 {
            self.http_connection_timeout_secs = default_http_connection_timeout_secs();
        }
        if self.path_validation_timeout_ms == 0 || self.path_validation_timeout_ms
            > MAX_PATH_VALIDATION_TIMEOUT_MS {
            self.path_validation_timeout_ms = default_path_validation_timeout_ms();
        }
        self.client_history = distinct_history(&self.client_history);
        assert(self@ =~= sanitized(old(self)@));
    }

    /// A copy of the settings, with the given diagnostics and failure count.
    pub fn snapshot(&self, system_info: SystemInfo, save_error_count: usize) -> (r: ServerConfig)
        ensures
            r@ == (ConfigView { save_error_count, ..self@ }),
            r.system_info == system_info,
    {
        ServerConfig {
            blocked_commands: copy_texts(&self.blocked_commands),
            default_shell: self.default_shell.clone(),
            allowed_directories: copy_texts(&self.allowed_directories),
            denied_directories: copy_texts(&self.denied_directories),
            file_read_line_limit: self.file_read_line_limit,
            file_write_line_limit: self.file_write_line_limit,
            fuzzy_search_threshold_percent: self.fuzzy_search_threshold_percent,
            http_connection_timeout_secs: self.http_connection_timeout_secs,
            path_validation_timeout_ms: self.path_validation_timeout_ms,
            current_client: copy_client(&self.current_client),
            client_history: copy_history(&self.client_history),
            system_info,
            save_error_count,
        }
    }
}

} // verus!
