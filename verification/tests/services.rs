//! Tests of the service-facing pieces: plugin status codes and saved
//! configurations, the local synthesis client, provider selection, audio
//! settings, and device classification.

use app_tts::connection_outcome;
use app_tts::find_all_output_devices;
use app_tts::find_virtual_devices;
use app_tts::is_virtual_device_name;
use app_tts::speech_content_type_ok;
use app_tts::str_contains;
use app_tts::AudioSettings;
use app_tts::AudioSettingsManager;
use app_tts::LocalhostClient;
use app_tts::LocalhostConfig;
use app_tts::LocalhostVoice;
use app_tts::PluginConfig;
use app_tts::PluginConfigManager;
use app_tts::PluginStatus;
use app_tts::PluginsConfigFile;
use app_tts::SerializablePluginStatus;
use app_tts::TtsProvider;

#[test]
fn test_status_conversion() {
    assert_eq!(PluginStatus::from_i32(0), PluginStatus::Working);
    assert_eq!(PluginStatus::from_i32(1), PluginStatus::NotConfigured);
    assert_eq!(PluginStatus::from_i32(2), PluginStatus::ConnectionFailed);
    assert_eq!(PluginStatus::from_i32(3), PluginStatus::AuthFailed);
    assert_eq!(PluginStatus::from_i32(99), PluginStatus::UnknownError);
}

#[test]
fn status_round_trips_through_serializable_form() {
    for code in 0..5 {
        let status = PluginStatus::from_i32(code);
        let serializable = SerializablePluginStatus::from(status);
        assert_eq!(PluginStatus::from(serializable), status);
    }
}

#[test]
fn plugin_config_lookup_finds_first_entry() {
    let file = PluginsConfigFile {
        plugins: vec![
            (
                "logger".to_string(),
                PluginConfig { enabled: true, config: "{}".to_string(), last_error: None },
            ),
            (
                "chat".to_string(),
                PluginConfig {
                    enabled: false,
                    config: "{\"url\":\"x\"}".to_string(),
                    last_error: Some("boom".to_string()),
                },
            ),
        ],
    };
    let manager = PluginConfigManager::new("plugins".to_string(), file);
    assert_eq!(manager.plugins_dir(), "plugins");
    let found = manager.get_plugin_config("chat").unwrap();
    assert!(!found.enabled);
    assert_eq!(found.last_error.as_deref(), Some("boom"));
    assert!(manager.get_plugin_config("missing").is_none());
}

#[test]
fn test_audio_settings_default() {
    let settings = AudioSettings::default();
    assert_eq!(settings.speaker_device, None);
    assert_eq!(settings.speaker_enabled, true);
    assert_eq!(settings.speaker_volume, 100);
    assert_eq!(settings.virtual_mic_device, None);
    assert_eq!(settings.virtual_mic_volume, 100);
}

#[test]
fn audio_settings_manager_applies_updates() {
    let mut manager = AudioSettingsManager::new(AudioSettings::default());
    manager.set_speaker_volume(75).unwrap();
    assert_eq!(manager.get().speaker_volume, 75);
    manager.set_speaker_volume(250).unwrap();
    assert_eq!(manager.get().speaker_volume, 100);
    manager.set_speaker_enabled(false).unwrap();
    assert!(!manager.get().speaker_enabled);

    assert!(manager.enable_virtual_mic().is_err());
    manager.set_virtual_mic_device(Some("CABLE Input".to_string())).unwrap();
    assert_eq!(manager.get().virtual_mic_device.as_deref(), Some("CABLE Input"));
    manager.disable_virtual_mic().unwrap();
    assert_eq!(manager.get().virtual_mic_device, None);
    manager.enable_virtual_mic().unwrap();
    assert_eq!(manager.get().virtual_mic_device.as_deref(), Some("CABLE Input"));

    manager
        .update(|mut s| {
            s.virtual_mic_volume = 40;
            s
        })
        .unwrap();
    assert_eq!(manager.get().virtual_mic_volume, 40);
}

#[test]
fn localhost_client_url_and_settings() {
    let mut client = LocalhostClient::new_for_request(LocalhostConfig::default());
    assert_eq!(client.get_server_url(), Err("Port not set".to_string()));
    client.set_port("8080".to_string());
    assert_eq!(client.get_server_url(), Ok("http://localhost:8080".to_string()));

    client.set_token("abc123".to_string());
    assert!(client.get_config().token.is_some());
    client.set_token(String::new());
    assert!(client.get_config().token.is_none());

    client.set_voice(Some("anna".to_string()));
    assert_eq!(client.get_config().voice.as_deref(), Some("anna"));
    client.set_connected(true);
    assert!(client.get_config().connected);
    assert_eq!(client.get_config().timeout, 60);
}

#[test]
fn changing_the_port_clears_cached_voices() {
    let mut client = LocalhostClient::new_for_request(LocalhostConfig::default());
    client.set_port("8080".to_string());
    client.update_voices(vec![LocalhostVoice {
        code: "a".to_string(),
        name: "Anna".to_string(),
    }]);
    assert_eq!(client.get_voices().len(), 1);

    // Same port: the cache stays.
    client.set_port("8080".to_string());
    assert_eq!(client.get_voices().len(), 1);

    // New port: the cache is dropped.
    client.set_port("9090".to_string());
    assert!(client.get_voices().is_empty());

    client.update_voices(vec![LocalhostVoice {
        code: "b".to_string(),
        name: "Boris".to_string(),
    }]);
    client.clear_voices();
    assert!(client.get_voices().is_empty());
}

#[test]
fn connection_outcomes_by_status_code() {
    assert_eq!(connection_outcome(200), Ok(true));
    assert_eq!(connection_outcome(204), Ok(true));
    assert_eq!(connection_outcome(299), Ok(true));
    assert_eq!(
        connection_outcome(401),
        Err("Invalid authorization token".to_string())
    );
    assert_eq!(
        connection_outcome(404),
        Err("Endpoint not found. Check if server is running.".to_string())
    );
    assert_eq!(
        connection_outcome(500),
        Err("Unexpected status code: 500".to_string())
    );
    assert_eq!(
        connection_outcome(307),
        Err("Unexpected status code: 307".to_string())
    );
}

#[test]
fn content_types_announcing_audio() {
    assert!(speech_content_type_ok("audio/mpeg"));
    assert!(speech_content_type_ok("audio/wav"));
    assert!(speech_content_type_ok("video/mpeg"));
    assert!(!speech_content_type_ok("application/json"));
    assert!(!speech_content_type_ok("text/plain"));
}

#[test]
fn substring_search() {
    assert!(str_contains("hello world", "lo wo"));
    assert!(str_contains("hello", ""));
    assert!(str_contains("hello", "hello"));
    assert!(!str_contains("hello", "hellos"));
    assert!(!str_contains("abc", "d"));
}

#[test]
fn provider_names_fold_case() {
    assert_eq!(TtsProvider::from_str("openai"), TtsProvider::OpenAI);
    assert_eq!(TtsProvider::from_str("OpenAI"), TtsProvider::OpenAI);
    assert_eq!(TtsProvider::from_str("SILERO"), TtsProvider::Silero);
    assert_eq!(TtsProvider::from_str("Localhost"), TtsProvider::Localhost);
    assert_eq!(TtsProvider::from_str("system"), TtsProvider::System);
    assert_eq!(TtsProvider::from_str("unknown"), TtsProvider::System);
    assert_eq!(TtsProvider::OpenAI.as_str(), "openai");
    assert_eq!(TtsProvider::default(), TtsProvider::System);
}

#[test]
fn virtual_devices_are_picked_by_keyword() {
    assert!(is_virtual_device_name("CABLE Input (VB-Audio Virtual Cable)"));
    assert!(is_virtual_device_name("VoiceMeeter AUX Input"));
    assert!(!is_virtual_device_name("Speakers (Realtek)"));

    let names = vec![
        "Speakers (Realtek)".to_string(),
        "CABLE Input".to_string(),
        "VoiceMeeter VAIO".to_string(),
    ];
    let virtuals = find_virtual_devices(names.clone());
    assert_eq!(virtuals.len(), 2);
    assert_eq!(virtuals[0].name, "CABLE Input");
    assert_eq!(virtuals[1].name, "VoiceMeeter VAIO");
    assert!(!virtuals[0].is_default);

    let outputs = find_all_output_devices(names, Some("CABLE Input".to_string()));
    assert_eq!(outputs.len(), 3);
    assert!(!outputs[0].is_default);
    assert!(outputs[1].is_default);
    assert_eq!(outputs[2].id, "VoiceMeeter VAIO");
}
