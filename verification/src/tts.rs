//! Text-to-speech provider selection and status reporting types. The
//! speech engines themselves (system voices, network synthesis, audio
//! output) are external collaborators; the library holds the choices and
//! the derived status.

use vstd::prelude::*;

use crate::text::lower_of;
use crate::text::lowercase;
use crate::state::str_eq;

verus! {

/// The available text-to-speech providers.
#[derive(Clone, Copy, Debug, PartialEq, Eq, Structural)]
pub enum TtsProvider {
    System,
    OpenAI,
    Silero,
    Localhost,
}

impl Default for TtsProvider {
    fn default() -> (r: Self)
        ensures
            r == TtsProvider::System,
    {
        TtsProvider::System
    }
}

/// The textual code of a provider.
pub open spec fn spec_provider_str(p: TtsProvider) -> Seq<char> {
    match p {
        TtsProvider::System => "system"@,
        TtsProvider::OpenAI => "openai"@,
        TtsProvider::Silero => "silero"@,
        TtsProvider::Localhost => "localhost"@,
    }
}

impl TtsProvider {
    pub fn as_str(&self) -> (r: &'static str)
        ensures
            r@ == spec_provider_str(*self),
    {
        match self {
            TtsProvider::System => "system",
            TtsProvider::OpenAI => "openai",
            TtsProvider::Silero => "silero",
            TtsProvider::Localhost => "localhost",
        }
    }

    /// Decode a provider name, ignoring case; every unknown name selects
    /// the system provider.
    pub fn from_str(s: &str) -> (r: Self)
        ensures
            r == (if lower_of(s@) == spec_provider_str(TtsProvider::OpenAI) {
                TtsProvider::OpenAI
            } else if lower_of(s@) == spec_provider_str(TtsProvider::Silero) {
                TtsProvider::Silero
            } else if lower_of(s@) == spec_provider_str(TtsProvider::Localhost) {
                TtsProvider::Localhost
            } else {
                TtsProvider::System
            }),
    {
        let folded = lowercase(s);
        if str_eq(folded.as_str(), "openai") {
            TtsProvider::OpenAI
        } else if str_eq(folded.as_str(), "silero") {
            TtsProvider::Silero
        } else if str_eq(folded.as_str(), "localhost") {
            TtsProvider::Localhost
        } else {
            TtsProvider::System
        }
    }
}

/// Status of the text-to-speech engine, for display.
#[derive(Debug, PartialEq)]
pub struct TtsStatus {
    pub is_speaking: bool,
    pub provider: String,
    pub continuous_play: bool,
    pub has_openai_key: bool,
    pub sapi_available: bool,
    pub silero_available: bool,
    pub silero_server_url: String,
    pub silero_voice: String,
}

/// One system voice.
#[derive(Debug, PartialEq)]
pub struct Voice {
    pub id: String,
    pub name: String,
}

impl Clone for Voice {
    fn clone(&self) -> (r: Self)
        ensures
            r == *self,
    {
        Voice { id: self.id.clone(), name: self.name.clone() }
    }
}

} // verus!
