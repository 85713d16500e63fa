use vstd::prelude::*;

verus! {

/// Diagnostic facts about the machine, collected fresh for every read of the
/// configuration.
#[derive(Clone, Debug, PartialEq, Eq)]
pub struct SystemInfo {
    /// Operating system family ("macos", "linux", "windows", ...).
    pub platform: String,
    /// CPU architecture ("x86_64", "aarch64", ...).
    pub arch: String,
    /// OS version string.
    pub os_version: String,
    /// Kernel version.
    pub kernel_version: String,
    /// Machine hostname.
    pub hostname: String,
    /// Version of this server.
    pub rust_version: String,
    /// Number of logical CPU cores.
    pub cpu_count: usize,
    /// Memory totals.
    pub memory: MemoryInfo,
}

/// Memory totals, each as text in megabytes.
#[derive(Clone, Debug, PartialEq, Eq)]
pub struct MemoryInfo {
    pub total_mb: String,
    pub available_mb: String,
    pub used_mb: String,
}

impl SystemInfo {
    /// Diagnostics that were not collected: empty texts and no CPUs.
    pub fn empty() -> (r: SystemInfo)
        ensures
            r.platform@.len() == 0,
            r.arch@.len() == 0,
            r.os_version@.len() == 0,
            r.kernel_version@.len() == 0,
            r.hostname@.len() == 0,
            r.rust_version@.len() == 0,
            r.cpu_count == 0,
            r.memory.total_mb@.len() == 0,
            r.memory.available_mb@.len() == 0,
            r.memory.used_mb@.len() == 0,
    {
        SystemInfo {
            platform: String::new(),
            arch: String::new(),
            os_version: String::new(),
            kernel_version: String::new(),
            hostname: String::new(),
            rust_version: String::new(),
            cpu_count: 0,
            memory: MemoryInfo {
                total_mb: String::new(),
                available_mb: String::new(),
                used_mb: String::new(),
            },
        }
    }
}

/// The name and version a connecting client announces, with its optional
/// descriptive fields.
#[derive(Clone, Debug, PartialEq, Eq)]
pub struct ClientInfo {
    pub name: String,
    pub version: String,
    pub title: Option<String>,
    pub website_url: Option<String>,
    /// The client's icons as JSON text, carried unchanged.
    pub icons: Option<String>,
}

/// One record of the client history: a client, when it first connected and
/// when it was last seen, in microseconds since the Unix epoch.
#[derive(Clone, Debug, PartialEq, Eq)]
pub struct ClientRecord {
    pub client_info: ClientInfo,
    pub connected_at: i64,
    pub last_seen: i64,
}

/// Two clients are the same client when name and version agree.
pub open spec fn same_client(a: ClientInfo, b: ClientInfo) -> bool {
    a.name@ == b.name@ && a.version@ == b.version@
}

fn copy_opt_text(o: &Option<String>) -> (r: Option<String>)
    ensures
        r == *o,
{
    match o {
        Some(s) => Some(s.clone()),
        None => None,
    }
}

impl ClientInfo {
    /// A client with only a name and a version.
    pub fn new(name: String, version: String) -> (r: ClientInfo)
        ensures
            r.name == name,
            r.version == version,
            r.title is None,
            r.website_url is None,
            r.icons is None,
    {
        ClientInfo { name, version, title: None, website_url: None, icons: None }
    }

    /// A field-for-field copy.
    pub fn duplicate(&self) -> (r: ClientInfo)
        ensures
            r == *self,
    {
        ClientInfo {
            name: self.name.clone(),
            version: self.version.clone(),
            title: copy_opt_text(&self.title),
            website_url: copy_opt_text(&self.website_url),
            icons: copy_opt_text(&self.icons),
        }
    }

    /// Whether `other` is the same client (same name and version).
    pub fn same_client_as(&self, other: &ClientInfo) -> (r: bool)
        ensures
            r == same_client(*self, *other),
    {
        self.name == other.name && self.version == other.version
    }
}

impl ClientRecord {
    /// A field-for-field copy.
    pub fn duplicate(&self) -> (r: ClientRecord)
        ensures
            r == *self,
    {
        ClientRecord {
            client_info: self.client_info.duplicate(),
            connected_at: self.connected_at,
            last_seen: self.last_seen,
        }
    }
}

} // verus!
