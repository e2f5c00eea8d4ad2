//! Client-side state and decision logic for the local text-to-speech
//! server: configuration, the cached voice list, the server URL, and the
//! classification of HTTP responses. Sending requests and persisting the
//! configuration file are left to the embedding.

use vstd::prelude::*;

use crate::text::spec_contains;
use crate::text::spec_dec;
use crate::text::push_dec;
use crate::text::str_contains;

verus! {

/// Contents of the local-server configuration file.
#[derive(Debug, PartialEq)]
pub struct LocalhostFile {
    pub config: LocalhostConfig,
    pub voices: Vec<LocalhostVoice>,
    pub voices_last_updated: Option<String>,
}

/// Settings for the local text-to-speech server.
#[derive(Debug, PartialEq)]
pub struct LocalhostConfig {
    pub port: Option<String>,
    pub token: Option<String>,
    pub voice: Option<String>,
    pub connected: bool,
    pub timeout: u64,
}

impl Clone for LocalhostConfig {
    fn clone(&self) -> (r: Self)
        ensures
            r == *self,
    {
        LocalhostConfig {
            port: clone_opt(&self.port),
            token: clone_opt(&self.token),
            voice: clone_opt(&self.voice),
            connected: self.connected,
            timeout: self.timeout,
        }
    }
}

/// Copy an optional string.
pub fn clone_opt(s: &Option<String>) -> (r: Option<String>)
    ensures
        r == *s,
{
    match s {
        Some(v) => Some(v.clone()),
        None => None,
    }
}

impl Default for LocalhostConfig {
    /// The default configuration: nothing set, not connected, a one-minute
    /// timeout.
    fn default() -> (r: Self)
        ensures
            r.port is None,
            r.token is None,
            r.voice is None,
            !r.connected,
            r.timeout == 60,
    {
        LocalhostConfig { port: None, token: None, voice: None, connected: false, timeout: 60 }
    }
}

/// One voice offered by the local server.
#[derive(Debug, PartialEq)]
pub struct LocalhostVoice {
    pub code: String,
    pub name: String,
}

impl Clone for LocalhostVoice {
    fn clone(&self) -> (r: Self)
        ensures
            r == *self,
    {
        LocalhostVoice { code: self.code.clone(), name: self.name.clone() }
    }
}

/// Relies on chrono::Utc::now and chrono::DateTime::to_rfc3339: the current
/// time rendered as an RFC 3339 timestamp.
#[verifier::external_body]
fn rfc3339_now() -> (r: String)
    ensures
        r@.len() > 0,
{
    chrono::Utc::now().to_rfc3339()
}

/// Client for the local text-to-speech server, holding its configuration
/// and cached voice list.
#[derive(Debug, PartialEq)]
pub struct LocalhostClient {
    data: LocalhostFile,
}

impl LocalhostClient {
    /// The current configuration.
    pub closed spec fn spec_config(&self) -> LocalhostConfig {
        self.data.config
    }

    /// The cached voices.
    pub closed spec fn spec_voices(&self) -> Seq<LocalhostVoice> {
        self.data.voices@
    }

    /// When the cached voices were last updated, if known.
    pub closed spec fn spec_voices_last_updated(&self) -> Option<String> {
        self.data.voices_last_updated
    }

    /// Create a client over an already-loaded file.
    pub fn new(data: LocalhostFile) -> (r: Self)
        ensures
            r.spec_config() == data.config,
            r.spec_voices() == data.voices@,
            r.spec_voices_last_updated() == data.voices_last_updated,
    {
        LocalhostClient { data }
    }

    /// Create a temporary client for a single request: the given
    /// configuration, no cached voices.
    pub fn new_for_request(config: LocalhostConfig) -> (r: Self)
        ensures
            r.spec_config() == config,
            r.spec_voices() == Seq::<LocalhostVoice>::empty(),
            r.spec_voices_last_updated() is None,
    {
        let r = LocalhostClient {
            data: LocalhostFile { config, voices: Vec::new(), voices_last_updated: None },
        };
        proof {
            assert(r.spec_voices() =~= Seq::<LocalhostVoice>::empty());
        }
        r
    }

    /// A copy of the cached voices.
    pub fn get_voices(&self) -> (r: Vec<LocalhostVoice>)
        ensures
            r@ == self.spec_voices(),
    {
        let mut r: Vec<LocalhostVoice> = Vec::new();
        let mut i: usize = 0;
        while i < self.data.voices.len()
            invariant
                i <= self.data.voices@.len(),
                r@ =~= self.data.voices@.take(i as int),
            decreases self.data.voices@.len() - i,
        {
            r.push(self.data.voices[i].clone());
            i = i + 1;
        }
        proof {
            assert(r@ =~= self.data.voices@);
        }
        r
    }

    /// Replace the cached voices and stamp the update time.
    pub fn update_voices(&mut self, voices: Vec<LocalhostVoice>)
        ensures
            final(self).spec_config() == old(self).spec_config(),
            final(self).spec_voices() == voices@,
            final(self).spec_voices_last_updated() is Some,
    {
        self.data.voices = voices;
        self.data.voices_last_updated = Some(rfc3339_now());
    }

    /// Drop the cached voices and their update time.
    pub fn clear_voices(&mut self)
        ensures
            final(self).spec_config() == old(self).spec_config(),
            final(self).spec_voices() == Seq::<LocalhostVoice>::empty(),
            final(self).spec_voices_last_updated() is None,
    {
        self.data.voices.clear();
        self.data.voices_last_updated = None;
        proof {
            assert(self.spec_voices() =~= Seq::<LocalhostVoice>::empty());
        }
    }

    /// The base URL of the local server; an error when no port is set.
    pub fn get_server_url(&self) -> (r: Result<String, String>)
        ensures
            match (r, self.spec_config().port) {
                (Ok(u), Some(p)) => u@ == "http://localhost:"@ + p@,
                (Err(m), None) => m@ == "Port not set"@,
                _ => false,
            },
    {
        match &self.data.config.port {
            Some(port) => Ok(String::from_str("http://localhost:").concat(port.as_str())),
            None => Err(String::from_str("Port not set")),
        }
    }

    /// Set the server port; an empty string clears it. When the port
    /// changes, the cached voices are dropped.
    pub fn set_port(&mut self, port: String)
        ensures
            final(self).spec_config() == (LocalhostConfig {
                port: if port@.len() == 0 {
                    None
                } else {
                    Some(port)
                },
                ..old(self).spec_config()
            }),
            ({
                let changed = !opt_eq_spec(
                    old(self).spec_config().port,
                    if port@.len() == 0 {
                        None
                    } else {
                        Some(port)
                    },
                );
                if changed {
                    final(self).spec_voices() == Seq::<LocalhostVoice>::empty()
                        && final(self).spec_voices_last_updated() is None
                } else {
                    final(self).spec_voices() == old(self).spec_voices()
                        && final(self).spec_voices_last_updated() == old(
                        self,
                    ).spec_voices_last_updated()
                }
            }),
    {
        let new_port: Option<String> = if port.as_str().unicode_len() == 0 {
            None
        } else {
            Some(port)
        };
        let changed = !opt_eq(&self.data.config.port, &new_port);
        if changed {
            self.data.voices.clear();
            self.data.voices_last_updated = None;
            proof {
                assert(self.spec_voices() =~= Seq::<LocalhostVoice>::empty());
            }
        }
        self.data.config.port = new_port;
    }

    /// Set the authorization token; an empty string clears it.
    pub fn set_token(&mut self, token: String)
        ensures
            final(self).spec_config() == (LocalhostConfig {
                token: if token@.len() == 0 {
                    None
                } else {
                    Some(token)
                },
                ..old(self).spec_config()
            }),
            final(self).spec_voices() == old(self).spec_voices(),
            final(self).spec_voices_last_updated() == old(self).spec_voices_last_updated(),
    {
        self.data.config.token = if token.as_str().unicode_len() == 0 {
            None
        } else {
            Some(token)
        };
    }

    /// Select the voice to synthesize with.
    pub fn set_voice(&mut self, voice: Option<String>)
        ensures
            final(self).spec_config() == (LocalhostConfig { voice, ..old(self).spec_config() }),
            final(self).spec_voices() == old(self).spec_voices(),
            final(self).spec_voices_last_updated() == old(self).spec_voices_last_updated(),
    {
        self.data.config.voice = voice;
    }

    /// Record whether the last connection test succeeded.
    pub fn set_connected(&mut self, connected: bool)
        ensures
            final(self).spec_config() == (LocalhostConfig { connected, ..old(self).spec_config() }),
            final(self).spec_voices() == old(self).spec_voices(),
            final(self).spec_voices_last_updated() == old(self).spec_voices_last_updated(),
    {
        self.data.config.connected = connected;
    }

    /// The current configuration.
    pub fn get_config(&self) -> (r: &LocalhostConfig)
        ensures
            *r == self.spec_config(),
    {
        &self.data.config
    }
}

/// Whether two optional strings hold the same characters.
pub open spec fn opt_eq_spec(a: Option<String>, b: Option<String>) -> bool {
    match (a, b) {
        (Some(x), Some(y)) => x@ == y@,
        (None, None) => true,
        _ => false,
    }
}

fn opt_eq(a: &Option<String>, b: &Option<String>) -> (r: bool)
    ensures
        r == opt_eq_spec(*a, *b),
{
    match (a, b) {
        (Some(x), Some(y)) => crate::state::str_eq(x.as_str(), y.as_str()),
        (None, None) => true,
        _ => false,
    }
}

/// Classify the status code of a connection test: success and the
/// no-content status mean the server answered; unauthorized, missing
/// endpoint, and every other status are distinct errors.
pub fn connection_outcome(status: u16) -> (r: Result<bool, String>)
    ensures
        200 <= status < 300 || status == 204 ==> r == Ok::<bool, String>(true),
        !(200 <= status < 300) && status == 401 ==> (r matches Err(m) && m@
            == "Invalid authorization token"@),
        !(200 <= status < 300) && status == 404 ==> (r matches Err(m) && m@
            == "Endpoint not found. Check if server is running."@),
        !(200 <= status < 300) && status != 204 && status != 401 && status != 404 ==> (r matches Err(
            m,
        ) && m@ == "Unexpected status code: "@ + spec_dec(status as nat)),
{
    if (200 <= status && status < 300) || status == 204 {
        Ok(true)
    } else if status == 401 {
        Err(String::from_str("Invalid authorization token"))
    } else if status == 404 {
        Err(String::from_str("Endpoint not found. Check if server is running."))
    } else {
        let mut m = String::from_str("Unexpected status code: ");
        push_dec(&mut m, status as u32);
        Err(m)
    }
}

/// Whether a content-type header announces audio data: it mentions `audio`
/// or `mpeg`.
pub fn speech_content_type_ok(content_type: &str) -> (r: bool)
    ensures
        r == (spec_contains(content_type@, "audio"@) || spec_contains(content_type@, "mpeg"@)),
{
    str_contains(content_type, "audio") || str_contains(content_type, "mpeg")
}

} // verus!
