//! Scenario tests for the hotkey state machine.

use app_tts::AppState;
use app_tts::AppStateEvent;
use app_tts::ChordTimeoutState;
use app_tts::Decision;
use app_tts::HookEffect;
use app_tts::HookEngine;
use app_tts::HotkeyMode;
use app_tts::InputLanguage;
use app_tts::KeyInput;
use app_tts::note_input_language;
use app_tts::VK_CAPITAL;
use app_tts::VK_ESCAPE;
use app_tts::VK_LWIN;

fn input(vk_code: u32, is_keydown: bool, is_app_window: bool, time: u64) -> KeyInput {
    KeyInput {
        vk_code,
        is_keydown,
        injected: false,
        is_app_window,
        foreground_window: 42,
        time,
    }
}

#[test]
fn win_down_unfocused_is_blocked_with_one_notification() {
    let mut engine = HookEngine::new();
    let mut state = AppState::new();
    let out = engine.handle_key(&mut state, input(VK_LWIN, true, false, 0));
    assert_eq!(out.decision, Decision::Block);
    assert_eq!(
        out.effects,
        vec![
            HookEffect::StartChordTimer,
            HookEffect::Notify(AppStateEvent::WinPressedChanged(true)),
        ]
    );
    assert!(engine.win_pressed);
    assert!(engine.win_blocked);
    assert_eq!(engine.timeout, Some(ChordTimeoutState::Active));

    let out = engine.handle_key(&mut state, input(VK_LWIN, false, false, 10));
    assert_eq!(out.decision, Decision::PassThrough);
    // Blocking is disabled, so no replay happens on this early release.
    assert_eq!(
        out.effects,
        vec![HookEffect::Notify(AppStateEvent::WinPressedChanged(false))]
    );
    assert!(!engine.win_pressed);
}

#[test]
fn win_down_while_app_focused_passes_through() {
    let mut engine = HookEngine::new();
    let mut state = AppState::new();
    let out = engine.handle_key(&mut state, input(VK_LWIN, true, true, 0));
    assert_eq!(out.decision, Decision::PassThrough);
    assert!(out.effects.is_empty());
    assert!(!engine.win_pressed);
}

#[test]
fn chord_in_background_blocking_mode_toggles_and_records() {
    // The exact scenario: modifier down at t=0 while unfocused is blocked
    // and starts the window; Escape at t=50 resolves the window to Sent and
    // flips blocking ON, recording one toggle event; the keyup at t=60
    // passes through with no replay.
    let mut engine = HookEngine::new();
    let mut state = AppState::new();
    state.set_hotkey_mode(HotkeyMode::BackgroundBlocking);

    let out = engine.handle_key(&mut state, input(VK_LWIN, true, false, 0));
    assert_eq!(out.decision, Decision::Block);
    assert_eq!(engine.timeout, Some(ChordTimeoutState::Active));

    let out = engine.handle_key(&mut state, input(VK_ESCAPE, true, false, 50));
    assert_eq!(out.decision, Decision::Block);
    assert_eq!(engine.timeout, Some(ChordTimeoutState::Sent));
    assert!(state.is_blocking_enabled());
    assert_eq!(
        out.effects,
        vec![HookEffect::Notify(AppStateEvent::BlockingChanged(true))]
    );
    let keys = state.get_keys();
    assert_eq!(keys.len(), 1);
    assert_eq!(keys[0].vk_code, VK_ESCAPE);
    assert_eq!(keys[0].key_name, "Win+Esc (Toggle -> ON)");
    assert_eq!(keys[0].timestamp, 50);

    let out = engine.handle_key(&mut state, input(VK_LWIN, false, false, 60));
    assert_eq!(out.decision, Decision::PassThrough);
    assert_eq!(
        out.effects,
        vec![HookEffect::Notify(AppStateEvent::WinPressedChanged(false))]
    );
}

#[test]
fn chord_in_overlay_mode_requests_window_and_keeps_blocking() {
    let mut engine = HookEngine::new();
    let mut state = AppState::new();
    state.set_hotkey_mode(HotkeyMode::OverlayCall);

    engine.handle_key(&mut state, input(VK_LWIN, true, false, 0));
    let out = engine.handle_key(&mut state, input(VK_ESCAPE, true, false, 50));
    assert_eq!(out.decision, Decision::Block);
    assert_eq!(
        out.effects,
        vec![HookEffect::Notify(AppStateEvent::ShowWindowRequested)]
    );
    assert!(!state.is_blocking_enabled());
    assert!(state.get_keys().is_empty());
}

#[test]
fn early_release_replays_exactly_once() {
    let mut engine = HookEngine::new();
    let mut state = AppState::new();
    state.blocking_enabled = true;

    engine.handle_key(&mut state, input(VK_LWIN, true, false, 0));
    assert_eq!(engine.timeout, Some(ChordTimeoutState::Active));
    let out = engine.handle_key(&mut state, input(VK_LWIN, false, false, 100));
    assert_eq!(out.decision, Decision::PassThrough);
    assert_eq!(
        out.effects,
        vec![
            HookEffect::Notify(AppStateEvent::WinPressedChanged(false)),
            HookEffect::ReplayWinKeydown,
        ]
    );
    assert_eq!(engine.timeout, Some(ChordTimeoutState::EarlyReleased));
}

#[test]
fn release_after_expired_window_injects_nothing() {
    let mut engine = HookEngine::new();
    let mut state = AppState::new();
    state.blocking_enabled = true;

    engine.handle_key(&mut state, input(VK_LWIN, true, false, 0));
    assert!(engine.handle_timer_expiry());
    assert_eq!(engine.timeout, Some(ChordTimeoutState::Sent));
    assert!(!engine.win_blocked);
    // The timer resolves the window exactly once.
    assert!(!engine.handle_timer_expiry());

    let out = engine.handle_key(&mut state, input(VK_LWIN, false, false, 300));
    assert_eq!(out.decision, Decision::PassThrough);
    assert_eq!(
        out.effects,
        vec![HookEffect::Notify(AppStateEvent::WinPressedChanged(false))]
    );
}

#[test]
fn injected_events_pass_untouched() {
    let mut engine = HookEngine::new();
    let mut state = AppState::new();
    state.blocking_enabled = true;
    for vk in [VK_LWIN, VK_ESCAPE, VK_CAPITAL, 0x41] {
        let mut inp = input(vk, true, false, 0);
        inp.injected = true;
        let out = engine.handle_key(&mut state, inp);
        assert_eq!(out.decision, Decision::PassThrough);
        assert!(out.effects.is_empty());
    }
    assert!(state.get_keys().is_empty());
    assert!(state.get_active_window_keys().is_empty());
    assert!(!engine.win_pressed);
}

#[test]
fn caps_lock_is_never_blocked() {
    let mut engine = HookEngine::new();
    let mut state = AppState::new();
    state.blocking_enabled = true;

    let out = engine.handle_key(&mut state, input(VK_CAPITAL, true, false, 0));
    assert_eq!(out.decision, Decision::PassThrough);
    assert!(state.is_caps_lock());
    assert_eq!(
        out.effects,
        vec![HookEffect::Notify(AppStateEvent::CapsLockChanged(true))]
    );

    let out = engine.handle_key(&mut state, input(VK_CAPITAL, true, false, 1));
    assert_eq!(out.decision, Decision::PassThrough);
    assert!(!state.is_caps_lock());
}

#[test]
fn blocking_blocks_keydowns_and_records_them() {
    let mut engine = HookEngine::new();
    let mut state = AppState::new();
    state.blocking_enabled = true;

    let out = engine.handle_key(&mut state, input(0x41, true, false, 5));
    assert_eq!(out.decision, Decision::Block);
    let keys = state.get_keys();
    assert_eq!(keys.len(), 1);
    assert_eq!(keys[0].key_name, "A");
    match &out.effects[..] {
        [HookEffect::Notify(AppStateEvent::KeyIntercepted(k))] => {
            assert_eq!(k.vk_code, 0x41);
            assert_eq!(k.seq_num, 0);
        }
        other => panic!("unexpected effects: {:?}", other),
    }

    // Keyups of ordinary keys pass so the system never sees a stuck key.
    let out = engine.handle_key(&mut state, input(0x41, false, false, 6));
    assert_eq!(out.decision, Decision::PassThrough);
}

#[test]
fn modifiers_pass_and_language_switch_fires_once() {
    let mut engine = HookEngine::new();
    let mut state = AppState::new();
    state.blocking_enabled = true;
    state.set_input_language(0x04090409);

    // Shift down, then Alt down: both pass, the combination is flagged.
    let out = engine.handle_key(&mut state, input(0x10, true, false, 0));
    assert_eq!(out.decision, Decision::PassThrough);
    assert!(out.effects.is_empty());
    let out = engine.handle_key(&mut state, input(0x12, true, false, 1));
    assert_eq!(out.decision, Decision::PassThrough);
    assert!(out.effects.is_empty());
    assert!(engine.language_switch_detected);

    // Releasing one key consumes the combination: the layout is re-read.
    let out = engine.handle_key(&mut state, input(0x12, false, false, 2));
    assert_eq!(out.decision, Decision::PassThrough);
    assert_eq!(out.effects, vec![HookEffect::QueryInputLanguage]);
    assert!(!engine.language_switch_detected);

    // A changed layout produces exactly one notification.
    let event = note_input_language(&mut state, 0x04190419);
    assert_eq!(
        event,
        Some(AppStateEvent::InputLanguageChanged(InputLanguage::Ru))
    );
    // An unchanged layout produces none.
    let event = note_input_language(&mut state, 0x04190419);
    assert_eq!(event, None);

    // The trailing Shift release passes through without another query.
    let out = engine.handle_key(&mut state, input(0x10, false, false, 3));
    assert_eq!(out.decision, Decision::PassThrough);
    assert!(out.effects.is_empty());
}

#[test]
fn focus_changes_remember_the_previous_window() {
    let mut engine = HookEngine::new();
    let mut state = AppState::new();
    state.set_app_window_hwnd(7);

    // Focus moves to the host window: the old foreground is remembered.
    let mut inp = input(0x41, true, true, 0);
    inp.foreground_window = 99;
    engine.handle_key(&mut state, inp);
    assert_eq!(state.get_previous_window(), 99);

    // Focus moves away again: the new foreground is remembered.
    let mut inp = input(0x42, true, false, 1);
    inp.foreground_window = 123;
    engine.handle_key(&mut state, inp);
    assert_eq!(state.get_previous_window(), 123);
}

#[test]
fn active_window_keys_are_recorded_when_focused() {
    let mut engine = HookEngine::new();
    let mut state = AppState::new();

    let out = engine.handle_key(&mut state, input(0x42, true, true, 9));
    assert_eq!(out.decision, Decision::PassThrough);
    let keys = state.get_active_window_keys();
    assert_eq!(keys.len(), 1);
    assert_eq!(keys[0].key_name, "B");
    assert_eq!(keys[0].timestamp, 9);
    assert!(state.get_keys().is_empty());
}
