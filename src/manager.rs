use vstd::prelude::*;
use tokio::sync::mpsc::UnboundedSender;
use crate::config_model::{
    copy_history, copy_texts, is_default_config, sanitized, ConfigView, ServerConfig,
};
use crate::config_value::{key_from_name, ConfigError, ConfigKey, ConfigValue, ValueView};
use crate::history::{lemma_recorded_keeps_unique, record_client, recorded};
use crate::system_info::{ClientInfo, ClientRecord, SystemInfo};
use crate::validation::{
    lemma_accepted_value_keeps_wf, read_value, store_value, value_error, value_of, with_value,
};
use crate::env_loader::{apply_env_overrides, with_env_overrides};

verus! {

#[verifier::external_type_specification]
#[verifier::external_body]
#[verifier::reject_recursive_types(T)]
pub struct ExUnboundedSender<T>(UnboundedSender<T>);

/// Relies on tokio's `UnboundedSender::send`: it queues the signal without
/// waiting. Its one failure, a receiver that is already gone, is ignored.
#[verifier::external_body]
fn signal_save(sender: &UnboundedSender<()>) {
    let _ = sender.send(());
}

/// Relies on chrono's `From<SystemTime> for DateTime<Utc>` and
/// `DateTime::timestamp_micros`: the system clock in microseconds since the
/// Unix epoch, negative for a clock set before it. Nothing is promised of the
/// value: the clock may be set to any time, and may go back.
#[verifier::external_body]
fn now_micros() -> (r: i64) {
    chrono::DateTime::<chrono::Utc>::from(std::time::SystemTime::now()).timestamp_micros()
}

/// The canonical settings and the sending half of the save-signal queue.
/// Every committed change sends one signal; the background saver that holds
/// the receiving half debounces them into writes of the backing file. Once the
/// queue is closed, changes are still counted as requests but nothing is sent.
pub struct ConfigManager {
    config: ServerConfig,
    save_sender: Option<UnboundedSender<()>>,
    requests: Ghost<nat>,
}

impl View for ConfigManager {
    type V = ConfigView;

    closed spec fn view(&self) -> ConfigView {
        self.config@
    }
}

impl ConfigManager {
    /// How many saves this store has requested: one per committed change.
    pub closed spec fn save_requests(&self) -> nat {
        self.requests@
    }

    /// Whether the sending half of the save-signal queue is still held.
    pub closed spec fn queue_open(&self) -> bool {
        self.save_sender is Some
    }

    /// A store holding the hard-coded defaults.
    pub fn new(save_sender: UnboundedSender<()>, windows: bool) -> (r: ConfigManager)
        ensures
            is_default_config(r@, windows),
            r@.wf(),
            r.save_requests() == 0,
            r.queue_open(),
    {
        ConfigManager {
            config: ServerConfig::defaults(windows),
            save_sender: Some(save_sender),
            requests: Ghost(0),
        }
    }

    /// Sends one save signal while the queue is open, and counts the request.
    fn request_save(&mut self)
        ensures
            final(self)@ == old(self)@,
            final(self).save_requests() == old(self).save_requests() + 1,
            final(self).queue_open() == old(self).queue_open(),
    {
        if let Some(sender) = &self.save_sender {
            signal_save(sender);
        }
        self.requests = Ghost(self.requests@ + 1);
    }

    /// Drops the sending half of the save-signal queue, so that the saver
    /// drains: it writes what is pending and stops.
    pub fn close_save_queue(&mut self)
        ensures
            final(self)@ == old(self)@,
            final(self).save_requests() == old(self).save_requests(),
            !final(self).queue_open(),
    {
        self.save_sender = None;
    }

    /// Installs the settings read at start-up: fields that break the
    /// invariant fall back to their defaults, the environment's directory
    /// lists are applied over them, and the store keeps its own count of save
    /// failures. No signal is sent.
    pub fn load(&mut self, loaded: ServerConfig, env_allowed: Vec<String>, env_denied: Vec<String>)
        ensures
            final(self)@ == with_env_overrides(
                ConfigView { save_error_count: old(self)@.save_error_count, ..sanitized(loaded@) },
                env_allowed@,
                env_denied@,
            ),
            final(self)@.wf(),
            final(self).save_requests() == old(self).save_requests(),
            final(self).queue_open() == old(self).queue_open(),
    {
        let mut config = loaded;
        config.sanitize();
        config.save_error_count = self.config.save_error_count;
        apply_env_overrides(&mut config, env_allowed, env_denied);
        self.config = config;
    }

    /// A copy of the settings with the given fresh diagnostics.
    pub fn get_config(&self, system_info: SystemInfo) -> (r: ServerConfig)
        ensures
            r@ == self@,
            r.system_info == system_info,
    {
        let r = self.config.snapshot(system_info, self.config.save_error_count);
        assert(r@ =~= self@);
        r
    }

    pub fn get_file_read_line_limit(&self) -> (r: usize)
        ensures
            r == self@.file_read_line_limit,
    {
        self.config.file_read_line_limit
    }

    pub fn get_file_write_line_limit(&self) -> (r: usize)
        ensures
            r == self@.file_write_line_limit,
    {
        self.config.file_write_line_limit
    }

    pub fn get_blocked_commands(&self) -> (r: Vec<String>)
        ensures
            r@ == self@.blocked_commands,
    {
        copy_texts(&self.config.blocked_commands)
    }

    /// The fuzzy-search threshold as a percentage (70 for a ratio of 0.7).
    pub fn get_fuzzy_search_threshold_percent(&self) -> (r: u64)
        ensures
            r == self@.fuzzy_search_threshold_percent,
    {
        self.config.fuzzy_search_threshold_percent
    }

    pub fn get_http_connection_timeout_secs(&self) -> (r: u64)
        ensures
            r == self@.http_connection_timeout_secs,
    {
        self.config.http_connection_timeout_secs
    }

    pub fn get_path_validation_timeout_ms(&self) -> (r: u64)
        ensures
            r == self@.path_validation_timeout_ms,
    {
        self.config.path_validation_timeout_ms
    }

    /// The value stored under a key; an unknown key reads as `None`.
    pub fn get_value(&self, key: &str) -> (r: Option<ConfigValue>)
        ensures
            match key_from_name(key@) {
                None => r is None,
                Some(k) => r is Some && r->0@ == value_of(self@, k),
            },
    {
        match ConfigKey::parse(key) {
            None => None,
            Some(k) => Some(read_value(&self.config, k)),
        }
    }

    /// Checks a value against the key's type and bounds and stores it. On
    /// success one save signal is sent; on failure nothing changes and no
    /// signal is sent.
    pub fn set_value(&mut self, key: &str, value: ConfigValue) -> (r: Result<(), ConfigError>)
        ensures
            match key_from_name(key@) {
                None => {
                    &&& r matches Err(ConfigError::UnknownKey(name)) && name@ == key@
                    &&& final(self)@ == old(self)@
                    &&& final(self).save_requests() == old(self).save_requests()
                },
                Some(k) => match value_error(k, value@) {
                    Some(e) => {
                        &&& r == Err::<(), ConfigError>(e)
                        &&& final(self)@ == old(self)@
                        &&& final(self).save_requests() == old(self).save_requests()
                    },
                    None => {
                        &&& r is Ok
                        &&& final(self)@ == with_value(old(self)@, k, value@)
                        &&& final(self).save_requests() == old(self).save_requests() + 1
                    },
                },
            },
            old(self)@.wf() ==> final(self)@.wf(),
            final(self).queue_open() == old(self).queue_open(),
    {
        let k = match ConfigKey::parse(key) {
            None => {
                return Err(ConfigError::UnknownKey(key.to_owned()));
            },
            Some(k) => k,
        };
        proof {
            if value_error(k, value@) is None {
                if self@.wf() {
                    lemma_accepted_value_keeps_wf(self@, k, value@);
                }
            }
        }
        match store_value(&mut self.config, k, value) {
            Err(e) => Err(e),
            Ok(()) => {
                self.request_save();
                Ok(())
            },
        }
    }

    /// Notes that a client connected now: its record's `last_seen` is updated,
    /// or a new record is appended; it becomes the current client, and one
    /// save signal is sent.
    pub fn set_client_info(&mut self, client_info: ClientInfo)
        ensures
            exists|now: i64|
                final(self)@ == (ConfigView {
                    current_client: Some(client_info),
                    client_history: #[trigger] recorded(old(self)@.client_history, client_info, now),
                    ..old(self)@
                }),
            final(self).save_requests() == old(self).save_requests() + 1,
            old(self)@.wf() ==> final(self)@.wf(),
            final(self).queue_open() == old(self).queue_open(),
    {
        let now = now_micros();
        self.record_client_at(client_info, now);
        self.request_save();
    }

    /// Notes that a client connected at time `now`, without sending a signal.
    pub fn record_client_at(&mut self, client_info: ClientInfo, now: i64)
        ensures
            final(self)@ == (ConfigView {
                current_client: Some(client_info),
                client_history: recorded(old(self)@.client_history, client_info, now),
                ..old(self)@
            }),
            final(self).save_requests() == old(self).save_requests(),
            old(self)@.wf() ==> final(self)@.wf(),
            final(self).queue_open() == old(self).queue_open(),
    {
        proof {
            if self@.wf() {
                lemma_recorded_keeps_unique(self@.client_history, client_info, now);
            }
        }
        record_client(&mut self.config.client_history, &client_info, now);
        self.config.current_client = Some(client_info);
        assert(self@ =~= (ConfigView {
            current_client: Some(client_info),
            client_history: recorded(old(self)@.client_history, client_info, now),
            ..old(self)@
        }));
    }

    pub fn get_client_info(&self) -> (r: Option<ClientInfo>)
        ensures
            r == self@.current_client,
    {
        match &self.config.current_client {
            Some(c) => Some(c.duplicate()),
            None => None,
        }
    }

    pub fn get_client_history(&self) -> (r: Vec<ClientRecord>)
        ensures
            r@ == self@.client_history,
    {
        copy_history(&self.config.client_history)
    }

    /// Background save failures counted so far.
    pub fn get_save_error_count(&self) -> (r: usize)
        ensures
            r == self@.save_error_count,
    {
        self.config.save_error_count
    }

    /// Counts one more background save failure (saturating at `usize::MAX`).
    pub fn record_save_failure(&mut self)
        ensures
            final(self)@ == (ConfigView {
                save_error_count: if old(self)@.save_error_count < usize::MAX {
                    (old(self)@.save_error_count + 1) as usize
                } else {
                    usize::MAX
                },
                ..old(self)@
            }),
            final(self).save_requests() == old(self).save_requests(),
    {
        if self.config.save_error_count < usize::MAX {
            self.config.save_error_count = self.config.save_error_count + 1;
        }
        assert(self@ =~= (ConfigView {
            save_error_count: if old(self)@.save_error_count < usize::MAX {
                (old(self)@.save_error_count + 1) as usize
            } else {
                usize::MAX
            },
            ..old(self)@
        }));
    }
}


/// Only a recorded save failure moves the failure count, and never down: a
/// change of settings, a client sighting and a load all keep it.
pub proof fn law_failure_count_kept(
    c: ConfigView,
    k: ConfigKey,
    v: ValueView,
    client: ClientInfo,
    now: i64,
    loaded: ConfigView,
    env_allowed: Seq<String>,
    env_denied: Seq<String>,
)
    ensures
        with_value(c, k, v).save_error_count == c.save_error_count,
        (ConfigView {
            current_client: Some(client),
            client_history: recorded(c.client_history, client, now),
            ..c
        }).save_error_count == c.save_error_count,
        with_env_overrides(
            ConfigView { save_error_count: c.save_error_count, ..sanitized(loaded) },
            env_allowed,
            env_denied,
        ).save_error_count == c.save_error_count,
{
}

} // verus!
