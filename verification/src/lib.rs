//! Global hotkey interception and key-classification library.
//!
//! The library models the decision logic of a low-level keyboard hook:
//! classifying raw key codes, detecting a two-key chord with a bounded
//! disambiguation window, tracking a modifier pair used for input-language
//! switching, and recording intercepted keys in bounded queues with strictly
//! increasing sequence numbers.

mod audio_settings;
mod commands;
mod device;
mod hook;
mod keys;
mod laws;
mod localhost;
mod openai;
mod plugins;
mod state;
mod text;
mod tts;

pub use audio_settings::AudioSettings;
pub use audio_settings::AudioSettingsManager;
pub use commands::get_active_window_keys;
pub use commands::get_intercepted_keys;
pub use commands::get_status;
pub use commands::KeysResponse;
pub use commands::StatusResponse;
pub use device::find_all_output_devices;
pub use device::find_virtual_devices;
pub use device::is_virtual_device_name;
pub use device::DeviceInfoV;
pub use device::OutputDeviceInfo;
pub use device::VirtualDeviceInfo;
pub use localhost::connection_outcome;
pub use localhost::speech_content_type_ok;
pub use localhost::LocalhostClient;
pub use localhost::LocalhostConfig;
pub use localhost::LocalhostFile;
pub use localhost::LocalhostVoice;
pub use openai::OpenAIVoice;
pub use text::lower_of;
pub use text::spec_contains;
pub use text::spec_dec;
pub use text::str_contains;
pub use tts::TtsProvider;
pub use tts::TtsStatus;
pub use tts::Voice;

pub use hook::note_input_language;
pub use laws::lemma_caps_lock_never_blocked;
pub use laws::lemma_early_release_replays_once;
pub use laws::lemma_escape_confirms_chord;
pub use laws::lemma_injected_passes_untouched;
pub use laws::lemma_intercepted_seqs_strictly_increasing;
pub use laws::lemma_modifiers_pass_while_blocking;
pub use laws::lemma_win_down_blocked;
pub use laws::lemma_win_up_notifies;
pub use hook::spec_hook_step;
pub use hook::spec_timer_step;
pub use hook::ChordTimeoutState;
pub use hook::Decision;
pub use hook::EffectV;
pub use hook::EventV;
pub use hook::HookEffect;
pub use hook::HookEngine;
pub use hook::HookOutcome;
pub use hook::KeyInput;
pub use hook::StepV;
pub use hook::SENDINPUT_MARKER;
pub use hook::VK_CAPITAL;
pub use hook::VK_ESCAPE;
pub use hook::VK_LWIN;
pub use hook::WIN_TIMEOUT_MS;

pub use keys::spec_hex;
pub use keys::spec_hex4;
pub use keys::spec_key_name;
pub use keys::vk_code_to_name;
pub use plugins::PluginConfig;
pub use plugins::PluginConfigManager;
pub use plugins::PluginInfo;
pub use plugins::PluginStatus;
pub use plugins::PluginsConfigFile;
pub use plugins::SerializablePluginStatus;
pub use state::AppState;
pub use state::AppStateEvent;
pub use state::HotkeyMode;
pub use state::InputLanguage;
pub use state::KeyEvent;
pub use state::KeyEventV;
pub use state::StateV;
pub use state::TtsMessage;
pub use state::TtsMessageStatus;
pub use state::TtsMessageV;
pub use state::MAX_KEYS;
pub use state::MAX_TTS_MESSAGES;
