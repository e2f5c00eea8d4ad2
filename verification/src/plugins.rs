//! Plugin status codes, per-plugin configuration records, and the lookup of
//! saved configurations by plugin name. Configuration payloads are carried
//! as JSON text; reading and writing the configuration file is left to the
//! embedding.

use vstd::prelude::*;

use crate::state::str_eq;

verus! {

/// Status of a plugin connection or operation.
#[derive(Clone, Copy, Debug, PartialEq, Eq, Structural)]
pub enum PluginStatus {
    /// The plugin is working correctly.
    Working,
    /// The plugin is not configured (missing required configuration).
    NotConfigured,
    /// Connection to the service failed.
    ConnectionFailed,
    /// Authentication failed (invalid credentials).
    AuthFailed,
    /// An unknown error occurred.
    UnknownError,
}

impl PluginStatus {
    /// Decode the numeric status code a plugin reports.
    pub fn from_i32(value: i32) -> (r: Self)
        ensures
            r == (if value == 0 {
                PluginStatus::Working
            } else if value == 1 {
                PluginStatus::NotConfigured
            } else if value == 2 {
                PluginStatus::ConnectionFailed
            } else if value == 3 {
                PluginStatus::AuthFailed
            } else {
                PluginStatus::UnknownError
            }),
    {
        if value == 0 {
            PluginStatus::Working
        } else if value == 1 {
            PluginStatus::NotConfigured
        } else if value == 2 {
            PluginStatus::ConnectionFailed
        } else if value == 3 {
            PluginStatus::AuthFailed
        } else {
            PluginStatus::UnknownError
        }
    }
}

/// Serializable mirror of a plugin status.
#[derive(Clone, Copy, Debug, PartialEq, Eq, Structural)]
pub enum SerializablePluginStatus {
    Working,
    NotConfigured,
    ConnectionFailed,
    AuthFailed,
    UnknownError,
}

impl From<PluginStatus> for SerializablePluginStatus {
    fn from(status: PluginStatus) -> (r: Self) {
        match status {
            PluginStatus::Working => SerializablePluginStatus::Working,
            PluginStatus::NotConfigured => SerializablePluginStatus::NotConfigured,
            PluginStatus::ConnectionFailed => SerializablePluginStatus::ConnectionFailed,
            PluginStatus::AuthFailed => SerializablePluginStatus::AuthFailed,
            PluginStatus::UnknownError => SerializablePluginStatus::UnknownError,
        }
    }
}

impl vstd::std_specs::convert::FromSpecImpl<PluginStatus> for SerializablePluginStatus {
    open spec fn obeys_from_spec() -> bool {
        true
    }

    open spec fn from_spec(status: PluginStatus) -> Self {
        match status {
            PluginStatus::Working => SerializablePluginStatus::Working,
            PluginStatus::NotConfigured => SerializablePluginStatus::NotConfigured,
            PluginStatus::ConnectionFailed => SerializablePluginStatus::ConnectionFailed,
            PluginStatus::AuthFailed => SerializablePluginStatus::AuthFailed,
            PluginStatus::UnknownError => SerializablePluginStatus::UnknownError,
        }
    }
}

impl From<SerializablePluginStatus> for PluginStatus {
    fn from(status: SerializablePluginStatus) -> (r: Self) {
        match status {
            SerializablePluginStatus::Working => PluginStatus::Working,
            SerializablePluginStatus::NotConfigured => PluginStatus::NotConfigured,
            SerializablePluginStatus::ConnectionFailed => PluginStatus::ConnectionFailed,
            SerializablePluginStatus::AuthFailed => PluginStatus::AuthFailed,
            SerializablePluginStatus::UnknownError => PluginStatus::UnknownError,
        }
    }
}

impl vstd::std_specs::convert::FromSpecImpl<SerializablePluginStatus> for PluginStatus {
    open spec fn obeys_from_spec() -> bool {
        true
    }

    open spec fn from_spec(status: SerializablePluginStatus) -> Self {
        match status {
            SerializablePluginStatus::Working => PluginStatus::Working,
            SerializablePluginStatus::NotConfigured => PluginStatus::NotConfigured,
            SerializablePluginStatus::ConnectionFailed => PluginStatus::ConnectionFailed,
            SerializablePluginStatus::AuthFailed => PluginStatus::AuthFailed,
            SerializablePluginStatus::UnknownError => PluginStatus::UnknownError,
        }
    }
}

/// Information about a loaded plugin, for display. The configuration and
/// its schema are carried as JSON text.
#[derive(Debug, PartialEq)]
pub struct PluginInfo {
    pub name: String,
    pub version: String,
    pub enabled: bool,
    pub status: SerializablePluginStatus,
    pub config_schema: String,
    pub config: String,
    pub last_error: Option<String>,
}

/// Mathematical model of a plugin description.
#[verifier::ext_equal]
pub ghost struct PluginInfoV {
    pub name: Seq<char>,
    pub version: Seq<char>,
    pub enabled: bool,
    pub status: SerializablePluginStatus,
    pub config_schema: Seq<char>,
    pub config: Seq<char>,
    pub last_error: Option<Seq<char>>,
}

impl View for PluginInfo {
    type V = PluginInfoV;

    open spec fn view(&self) -> PluginInfoV {
        PluginInfoV {
            name: self.name@,
            version: self.version@,
            enabled: self.enabled,
            status: self.status,
            config_schema: self.config_schema@,
            config: self.config@,
            last_error: match self.last_error {
                Some(ref e) => Some(e@),
                None => None,
            },
        }
    }
}

/// Configuration stored for a plugin, with the payload as JSON text.
#[derive(Debug, PartialEq)]
pub struct PluginConfig {
    pub enabled: bool,
    pub config: String,
    pub last_error: Option<String>,
}

impl Clone for PluginConfig {
    fn clone(&self) -> (r: Self)
        ensures
            r == *self,
    {
        PluginConfig {
            enabled: self.enabled,
            config: self.config.clone(),
            last_error: match &self.last_error {
                Some(e) => Some(e.clone()),
                None => None,
            },
        }
    }
}

/// The saved configurations of all plugins, keyed by plugin name.
#[derive(Debug, PartialEq)]
pub struct PluginsConfigFile {
    pub plugins: Vec<(String, PluginConfig)>,
}

/// The configuration saved under a name: the first entry that carries it.
pub open spec fn spec_lookup(s: Seq<(String, PluginConfig)>, name: Seq<char>) -> Option<
    PluginConfig,
>
    decreases s.len(),
{
    if s.len() == 0 {
        None
    } else if s[0].0@ == name {
        Some(s[0].1)
    } else {
        spec_lookup(s.drop_first(), name)
    }
}

/// Holds the plugins directory and the saved per-plugin configurations.
#[derive(Debug, PartialEq)]
pub struct PluginConfigManager {
    plugins_dir: String,
    config: PluginsConfigFile,
}

impl PluginConfigManager {
    /// Create a manager over an already-loaded configuration.
    pub fn new(plugins_dir: String, config: PluginsConfigFile) -> (r: Self)
        ensures
            r.spec_plugins_dir() == plugins_dir@,
            r.spec_config() == config.plugins@,
    {
        PluginConfigManager { plugins_dir, config }
    }

    /// The plugins directory path.
    pub closed spec fn spec_plugins_dir(&self) -> Seq<char> {
        self.plugins_dir@
    }

    /// The saved configuration entries.
    pub closed spec fn spec_config(&self) -> Seq<(String, PluginConfig)> {
        self.config.plugins@
    }

    /// Get the plugins directory path.
    pub fn plugins_dir(&self) -> (r: String)
        ensures
            r@ == self.spec_plugins_dir(),
    {
        self.plugins_dir.clone()
    }

    /// Get the saved configuration for a plugin, by name.
    pub fn get_plugin_config(&self, name: &str) -> (r: Option<PluginConfig>)
        ensures
            r == spec_lookup(self.spec_config(), name@),
    {
        let entries = &self.config.plugins;
        proof {
            assert(entries@.skip(0) =~= entries@);
        }
        let mut i: usize = 0;
        while i < entries.len()
            invariant
                i <= entries@.len(),
                entries@ == self.spec_config(),
                spec_lookup(entries@, name@) == spec_lookup(entries@.skip(i as int), name@),
            decreases entries@.len() - i,
        {
            proof {
                assert(entries@.skip(i as int)[0] == entries@[i as int]);
                assert(entries@.skip(i as int).drop_first() =~= entries@.skip(i as int + 1));
            }
            if str_eq(entries[i].0.as_str(), name) {
                proof {
                    assert(spec_lookup(entries@.skip(i as int), name@) == Some(
                        entries@[i as int].1,
                    ));
                }
                let c = entries[i].1.clone();
                proof {
                    assert(c == entries@[i as int].1);
                    assert(Some(c) == spec_lookup(self.spec_config(), name@));
                }
                return Some(c);
            }
            i = i + 1;
        }
        proof {
            assert(entries@.skip(entries@.len() as int) =~= Seq::<(String, PluginConfig)>::empty());
        }
        None
    }
}

} // verus!
