//! Tests of the shared session state: the bounded key queues with their
//! sequence numbers, and the text-to-speech message history.

use app_tts::AppState;
use app_tts::HotkeyMode;
use app_tts::InputLanguage;
use app_tts::KeyEvent;
use app_tts::TtsMessage;
use app_tts::TtsMessageStatus;
use app_tts::get_intercepted_keys;
use app_tts::get_status;
use app_tts::MAX_KEYS;

#[test]
fn sequence_numbers_strictly_increase() {
    let mut state = AppState::new();
    for vk in 0x41..0x50u32 {
        state.add_key_auto(vk, "x".to_string(), 0);
    }
    let keys = state.get_keys();
    assert_eq!(keys.len(), 15);
    for w in keys.windows(2) {
        assert!(w[0].seq_num < w[1].seq_num);
    }
}

#[test]
fn queues_are_bounded_and_evict_oldest() {
    let mut state = AppState::new();
    for i in 0..(MAX_KEYS as u32 + 10) {
        state.add_key_auto(i, "k".to_string(), 0);
    }
    let keys = state.get_keys();
    assert_eq!(keys.len(), MAX_KEYS);
    assert_eq!(keys[0].vk_code, 10);
    assert_eq!(keys[MAX_KEYS - 1].vk_code, MAX_KEYS as u32 + 9);
}

#[test]
fn keys_after_filters_by_sequence_number() {
    let mut state = AppState::new();
    for vk in 1..=6u32 {
        state.add_key_auto(vk, "k".to_string(), 0);
    }
    let recent = state.get_keys_after(2);
    assert_eq!(recent.len(), 3);
    assert_eq!(recent[0].seq_num, 3);
    let latest = state.get_latest_key().unwrap();
    assert_eq!(latest.vk_code, 6);

    let response = get_intercepted_keys(&state, Some(2));
    assert_eq!(response.keys.len(), 3);
    assert_eq!(response.latest_key.unwrap().vk_code, 6);
}

#[test]
fn clear_keys_resets_the_counter() {
    let mut state = AppState::new();
    state.add_key_auto(1, "k".to_string(), 0);
    state.add_key_auto(2, "k".to_string(), 0);
    state.clear_keys();
    assert!(state.get_keys().is_empty());
    assert!(state.get_latest_key().is_none());
    let k = state.add_key_auto(3, "k".to_string(), 0);
    assert_eq!(k.seq_num, 0);
}

#[test]
fn status_snapshot_reflects_the_flags() {
    let mut state = AppState::new();
    state.set_hotkey_mode(HotkeyMode::OverlayCall);
    state.set_caps_lock(true);
    state.set_always_on_top(true);
    state.set_input_language(0x04190419);
    let status = get_status(&state);
    assert!(!status.blocking_enabled);
    assert!(status.caps_lock);
    assert!(status.always_on_top);
    assert!(!status.auto_show_on_block);
    assert_eq!(status.input_language, "ru");
    assert_eq!(status.hotkey_mode, "overlay_call");
}

#[test]
fn language_helpers() {
    assert_eq!(InputLanguage::from_raw(0x04190419), InputLanguage::Ru);
    assert_eq!(InputLanguage::from_raw(0x04090409), InputLanguage::En);
    assert_eq!(InputLanguage::Ru.toggle(), InputLanguage::En);
    assert_eq!(InputLanguage::En.toggle(), InputLanguage::Ru);
    assert_eq!(InputLanguage::default(), InputLanguage::En);
}

#[test]
fn hotkey_mode_strings_round_trip() {
    assert_eq!(HotkeyMode::BackgroundBlocking.as_str(), "background_blocking");
    assert_eq!(HotkeyMode::OverlayCall.as_str(), "overlay_call");
    assert_eq!(
        HotkeyMode::from_str("background_blocking"),
        Some(HotkeyMode::BackgroundBlocking)
    );
    assert_eq!(HotkeyMode::from_str("overlay_call"), Some(HotkeyMode::OverlayCall));
    assert_eq!(HotkeyMode::from_str("anything else"), None);
    assert_eq!(HotkeyMode::default(), HotkeyMode::OverlayCall);
}

#[test]
fn key_event_constructor_keeps_its_arguments() {
    let k = KeyEvent::new(0x41, "A".to_string(), 1234, 7);
    assert_eq!(k.vk_code, 0x41);
    assert_eq!(k.key_name, "A");
    assert_eq!(k.timestamp, 1234);
    assert_eq!(k.seq_num, 7);
}

#[test]
fn tts_message_constructor_and_builders() {
    let m = TtsMessage::new("hello".to_string(), 99);
    assert_eq!(m.text, "hello");
    assert_eq!(m.timestamp, 99);
    assert_eq!(m.status, TtsMessageStatus::Queued);
    assert!(!m.locked);
    assert_eq!(m.id.len(), 36);
    assert!(m.id.starts_with("msg_"));

    let m2 = m.clone().with_status(TtsMessageStatus::Playing);
    assert_eq!(m2.status, TtsMessageStatus::Playing);
    let m3 = m2.with_locked(true);
    assert!(m3.locked);
    assert_eq!(m3.text, "hello");
}

#[test]
fn fresh_message_ids_differ() {
    let a = TtsMessage::new("a".to_string(), 0);
    let b = TtsMessage::new("b".to_string(), 0);
    assert_ne!(a.id, b.id);
}

#[test]
fn history_updates_by_identifier() {
    let mut state = AppState::new();
    let id1 = state.add_tts_message("one".to_string(), 1);
    let id2 = state.add_tts_message("two".to_string(), 2);

    state.update_tts_message_status(&id1, TtsMessageStatus::Playing);
    assert!(!state.delete_tts_message(&id1));
    assert!(state.toggle_tts_message_locked(&id2));
    assert!(!state.toggle_tts_message_locked(&id2));
    assert!(!state.toggle_tts_message_locked("msg_none"));
    assert!(state.delete_tts_message(&id2));
    assert!(!state.delete_tts_message(&id2));
}

#[test]
fn history_ordering_puts_playing_first() {
    let mut state = AppState::new();
    let a = state.add_tts_message("a".to_string(), 1);
    let b = state.add_tts_message("b".to_string(), 2);
    let c = state.add_tts_message("c".to_string(), 3);
    let _d = state.add_tts_message("d".to_string(), 4);
    let e = state.add_tts_message("e".to_string(), 5);

    state.update_tts_message_status(&a, TtsMessageStatus::Completed);
    state.toggle_tts_message_locked(&a);
    state.update_tts_message_status(&b, TtsMessageStatus::Completed);
    state.update_tts_message_status(&c, TtsMessageStatus::Playing);
    state.update_tts_message_status(&e, TtsMessageStatus::Completed);

    let ordered = state.get_tts_history();
    let texts: Vec<&str> = ordered.iter().map(|m| m.text.as_str()).collect();
    // Playing, then queued, then locked completed, then other completed
    // newest first.
    assert_eq!(texts, vec!["c", "d", "a", "e", "b"]);
}

#[test]
fn history_sort_is_stable_for_equal_timestamps() {
    let mut state = AppState::new();
    let a = state.add_tts_message("first".to_string(), 7);
    let b = state.add_tts_message("second".to_string(), 7);
    state.update_tts_message_status(&a, TtsMessageStatus::Completed);
    state.update_tts_message_status(&b, TtsMessageStatus::Completed);
    let ordered = state.get_tts_history();
    assert_eq!(ordered[0].text, "first");
    assert_eq!(ordered[1].text, "second");
}

#[test]
fn history_evicts_completed_messages_at_capacity() {
    let mut state = AppState::new();
    let mut ids = Vec::new();
    for i in 0..100u64 {
        ids.push(state.add_tts_message(format!("m{}", i), i));
    }
    for id in &ids {
        state.update_tts_message_status(id, TtsMessageStatus::Completed);
    }
    let id = state.add_tts_message("fresh".to_string(), 200);
    let history = state.get_tts_history();
    assert_eq!(history.len(), 1);
    assert_eq!(history[0].text, "fresh");
    assert_eq!(history[0].id, id);
}

#[test]
fn next_queued_message_is_the_earliest_queued_one() {
    let mut state = AppState::new();
    assert_eq!(state.next_queued_message(), None);
    let a = state.add_tts_message("a".to_string(), 5);
    let b = state.add_tts_message("b".to_string(), 3);
    let _c = state.add_tts_message("c".to_string(), 3);

    // The earliest timestamp wins; on a tie the first message wins.
    assert_eq!(
        state.next_queued_message(),
        Some((b.clone(), "b".to_string()))
    );
    state.update_tts_message_status(&b, TtsMessageStatus::Playing);
    assert_eq!(state.next_queued_message().unwrap().1, "c");
    state.update_tts_message_status(&_c, TtsMessageStatus::Completed);
    assert_eq!(state.next_queued_message(), Some((a, "a".to_string())));
}

#[test]
fn clear_history_keeps_locked_and_unfinished_messages() {
    let mut state = AppState::new();
    let a = state.add_tts_message("done".to_string(), 1);
    let b = state.add_tts_message("kept".to_string(), 2);
    let _c = state.add_tts_message("queued".to_string(), 3);
    state.update_tts_message_status(&a, TtsMessageStatus::Completed);
    state.update_tts_message_status(&b, TtsMessageStatus::Completed);
    state.toggle_tts_message_locked(&b);
    state.clear_tts_history();
    let remaining = state.get_tts_history();
    let texts: Vec<&str> = remaining.iter().map(|m| m.text.as_str()).collect();
    assert_eq!(texts, vec!["queued", "kept"]);
}
