//! The guarantees the hotkey state machine gives, stated and proved against
//! the transition function `spec_hook_step`.

use vstd::prelude::*;

use crate::hook::is_alt_vk;
use crate::hook::is_shift_vk;
use crate::hook::spec_hook_step;
use crate::hook::spec_toggle_label;
use crate::hook::ChordTimeoutState;
use crate::hook::Decision;
use crate::hook::EffectV;
use crate::hook::EventV;
use crate::hook::HookEngine;
use crate::hook::KeyInput;
use crate::hook::VK_CAPITAL;
use crate::hook::VK_ESCAPE;
use crate::hook::VK_LWIN;
use crate::state::spec_push_bounded;
use crate::state::AppState;
use crate::state::HotkeyMode;
use crate::state::KeyEventV;
use crate::state::StateV;

verus! {

/// Law: the recorded intercepted events carry strictly increasing sequence
/// numbers, with no duplicates, as long as no clear operation intervenes:
/// every recording operation preserves well-formedness, and a well-formed
/// queue is strictly ordered.
pub proof fn lemma_intercepted_seqs_strictly_increasing(s: AppState)
    requires
        s.wf(),
    ensures
        forall|i: int, j: int|
            0 <= i < j < s@.intercepted_keys.len() ==> s@.intercepted_keys[i].seq_num
                < s@.intercepted_keys[j].seq_num,
{
}

/// Law: a primary-modifier keydown received while the host window is not
/// foregrounded is blocked, starts the disambiguation window, and produces
/// exactly one `WinPressedChanged(true)` notification.
pub proof fn lemma_win_down_blocked(e: HookEngine, s: StateV, inp: KeyInput)
    requires
        inp.vk_code == VK_LWIN,
        inp.is_keydown,
        !inp.is_app_window,
        !inp.injected,
    ensures
        ({
            let step = spec_hook_step(e, s, inp);
            &&& step.decision == Decision::Block
            &&& step.engine.win_pressed
            &&& step.engine.win_blocked
            &&& step.engine.timeout == Some(ChordTimeoutState::Active)
            &&& step.effects == seq![
                EffectV::StartChordTimer,
                EffectV::Notify(EventV::WinPressedChanged(true)),
            ]
        }),
{
}

/// Law: the paired primary-modifier keyup (host window still not
/// foregrounded) produces exactly one `WinPressedChanged(false)`
/// notification and clears the held and blocked flags.
pub proof fn lemma_win_up_notifies(e: HookEngine, s: StateV, inp: KeyInput)
    requires
        inp.vk_code == VK_LWIN,
        !inp.is_keydown,
        !inp.is_app_window,
        !inp.injected,
    ensures
        ({
            let step = spec_hook_step(e, s, inp);
            &&& step.decision == Decision::PassThrough
            &&& !step.engine.win_pressed
            &&& !step.engine.win_blocked
            &&& step.effects[0] == EffectV::Notify(EventV::WinPressedChanged(false))
            &&& (if e.win_blocked && !e.esc_pressed_while_win && s.blocking_enabled && e.timeout
                == Some(ChordTimeoutState::Active) {
                step.effects == seq![
                    EffectV::Notify(EventV::WinPressedChanged(false)),
                    EffectV::ReplayWinKeydown,
                ]
            } else {
                step.effects == seq![EffectV::Notify(EventV::WinPressedChanged(false))]
            })
        }),
{
}

/// Law: a companion-key keydown within the disambiguation window after a
/// blocked primary-modifier keydown resolves the window to `Sent` and is
/// blocked. In `BackgroundBlocking` mode the blocking flag flips exactly
/// once, exactly one `BlockingChanged` notification is emitted, and one
/// synthetic record labeled with the new state is appended to the
/// intercepted queue. In `OverlayCall` mode exactly one
/// `ShowWindowRequested` notification is emitted and the blocking flag and
/// the queues are untouched.
pub proof fn lemma_escape_confirms_chord(e: HookEngine, s: StateV, inp: KeyInput)
    requires
        inp.vk_code == VK_ESCAPE,
        inp.is_keydown,
        !inp.injected,
        e.win_pressed,
        e.win_blocked,
        e.timeout == Some(ChordTimeoutState::Active),
    ensures
        ({
            let step = spec_hook_step(e, s, inp);
            &&& step.decision == Decision::Block
            &&& step.engine.esc_pressed_while_win
            &&& step.engine.timeout == Some(ChordTimeoutState::Sent)
            &&& (s.hotkey_mode == HotkeyMode::BackgroundBlocking ==> {
                let record = KeyEventV {
                    vk_code: VK_ESCAPE,
                    key_name: spec_toggle_label(!s.blocking_enabled),
                    timestamp: inp.time,
                    seq_num: s.key_seq_counter,
                };
                &&& step.state.blocking_enabled == !s.blocking_enabled
                &&& step.effects == seq![
                    EffectV::Notify(EventV::BlockingChanged(!s.blocking_enabled)),
                ]
                &&& step.state.intercepted_keys == spec_push_bounded(s.intercepted_keys, record)
            })
            &&& (s.hotkey_mode == HotkeyMode::OverlayCall ==> {
                &&& step.state.blocking_enabled == s.blocking_enabled
                &&& step.state.intercepted_keys == s.intercepted_keys
                &&& step.effects == seq![EffectV::Notify(EventV::ShowWindowRequested)]
            })
        }),
{
}

/// Law: a primary-modifier release before the companion key and before the
/// disambiguation window elapses injects exactly one synthetic modifier
/// keydown before the keyup propagates (provided the press had been blocked
/// and blocking is still enabled); a keyup arriving after the window has
/// already been resolved injects none.
pub proof fn lemma_early_release_replays_once(e: HookEngine, s: StateV, inp: KeyInput)
    requires
        inp.vk_code == VK_LWIN,
        !inp.is_keydown,
        !inp.is_app_window,
        !inp.injected,
    ensures
        ({
            let step = spec_hook_step(e, s, inp);
            &&& step.decision == Decision::PassThrough
            &&& (e.timeout == Some(ChordTimeoutState::Active) && e.win_blocked
                && !e.esc_pressed_while_win && s.blocking_enabled ==> step.effects == seq![
                EffectV::Notify(EventV::WinPressedChanged(false)),
                EffectV::ReplayWinKeydown,
            ])
            &&& (e.timeout != Some(ChordTimeoutState::Active) ==> step.effects == seq![
                EffectV::Notify(EventV::WinPressedChanged(false)),
            ])
        }),
{
}

/// Law: any key event tagged with the subsystem's own synthetic-origin
/// marker is passed through untouched, with no state change, no
/// notification, and no queue insertion, regardless of its key code.
pub proof fn lemma_injected_passes_untouched(e: HookEngine, s: StateV, inp: KeyInput)
    requires
        inp.injected,
    ensures
        ({
            let step = spec_hook_step(e, s, inp);
            &&& step.decision == Decision::PassThrough
            &&& step.engine == e
            &&& step.state == s
            &&& step.effects == Seq::<EffectV>::empty()
        }),
{
}

/// Law: a Caps Lock keydown is never blocked, even while the blocking flag
/// is set and the host window is not foregrounded; it flips the tracked
/// flag and emits exactly one `CapsLockChanged` notification.
pub proof fn lemma_caps_lock_never_blocked(e: HookEngine, s: StateV, inp: KeyInput)
    requires
        inp.vk_code == VK_CAPITAL,
        inp.is_keydown,
        !inp.injected,
    ensures
        ({
            let step = spec_hook_step(e, s, inp);
            &&& step.decision == Decision::PassThrough
            &&& step.state.caps_lock == !s.caps_lock
            &&& step.effects == seq![EffectV::Notify(EventV::CapsLockChanged(!s.caps_lock))]
        }),
{
}

/// Law: Shift and Alt (either side) always pass through while the blocking
/// flag is set and the host window is not foregrounded, in both directions;
/// the second key's press while the first is held flags the combination,
/// and the release that consumes a flagged combination asks the embedding
/// to re-read the keyboard layout exactly once.
pub proof fn lemma_modifiers_pass_while_blocking(e: HookEngine, s: StateV, inp: KeyInput)
    requires
        is_shift_vk(inp.vk_code) || is_alt_vk(inp.vk_code),
        !inp.injected,
        !inp.is_app_window,
        s.blocking_enabled,
    ensures
        ({
            let step = spec_hook_step(e, s, inp);
            &&& step.decision == Decision::PassThrough
            &&& (inp.is_keydown && is_shift_vk(inp.vk_code) && e.alt_pressed
                ==> step.engine.language_switch_detected)
            &&& (inp.is_keydown && is_alt_vk(inp.vk_code) && e.shift_pressed
                ==> step.engine.language_switch_detected)
            &&& (!inp.is_keydown && is_shift_vk(inp.vk_code) && e.language_switch_detected
                && e.alt_pressed ==> step.effects == seq![EffectV::QueryInputLanguage])
            &&& (!inp.is_keydown && is_alt_vk(inp.vk_code) && e.language_switch_detected
                && e.shift_pressed ==> step.effects == seq![EffectV::QueryInputLanguage])
        }),
{
}

} // verus!
