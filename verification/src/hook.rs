//! The hotkey state machine: the decision logic that a low-level keyboard
//! hook runs for every system key event.
//!
//! The machine is pure: given the hook-thread state, the shared session
//! state, and one key event, it returns a block / pass-through decision and
//! the list of effects to apply (notifications to send, the one-shot chord
//! timer to start, a synthetic replay of the primary modifier to inject, or
//! a re-read of the keyboard layout). The embedding performs the effects;
//! every state change is decided here.

use vstd::prelude::*;

use crate::keys::spec_key_name;
use crate::keys::vk_code_to_name;
use crate::plugins::PluginInfoV;
use crate::state::spec_language_of;
use crate::state::spec_push_bounded;
use crate::state::AppState;
use crate::state::AppStateEvent;
use crate::state::HotkeyMode;
use crate::state::InputLanguage;
use crate::state::KeyEventV;
use crate::state::StateV;

verus! {

/// Virtual key code of the primary modifier (left system key).
pub const VK_LWIN: u32 = 0x5B;

/// Virtual key code of the companion key of the chord.
pub const VK_ESCAPE: u32 = 0x1B;

/// Virtual key code of Caps Lock.
pub const VK_CAPITAL: u32 = 0x14;

/// Virtual key codes of the Shift keys (generic, left, right).
pub const VK_SHIFT: u32 = 0x10;

pub const VK_LSHIFT: u32 = 0xA0;

pub const VK_RSHIFT: u32 = 0xA1;

/// Virtual key codes of the Alt keys (generic, left, right).
pub const VK_MENU: u32 = 0x12;

pub const VK_LMENU: u32 = 0xA4;

pub const VK_RMENU: u32 = 0xA5;

/// Duration of the chord disambiguation window, in milliseconds.
pub const WIN_TIMEOUT_MS: u64 = 200;

/// Marker attached to key events this subsystem injects itself, so the hook
/// never re-processes its own synthetic input.
pub const SENDINPUT_MARKER: usize = 0x5A5A5A5A;

/// Whether a key code is one of the Shift keys.
pub open spec fn is_shift_vk(vk: u32) -> bool {
    vk == VK_SHIFT || vk == VK_LSHIFT || vk == VK_RSHIFT
}

/// Whether a key code is one of the Alt keys.
pub open spec fn is_alt_vk(vk: u32) -> bool {
    vk == VK_MENU || vk == VK_LMENU || vk == VK_RMENU
}

fn is_shift_key(vk: u32) -> (r: bool)
    ensures
        r == is_shift_vk(vk),
{
    vk == VK_SHIFT || vk == VK_LSHIFT || vk == VK_RSHIFT
}

fn is_alt_key(vk: u32) -> (r: bool)
    ensures
        r == is_alt_vk(vk),
{
    vk == VK_MENU || vk == VK_LMENU || vk == VK_RMENU
}

/// State of one chord disambiguation window. Exactly one terminal state
/// (`EarlyReleased` or `Sent`) is reached per primary-modifier keydown, and
/// transitions are one-way.
#[derive(Clone, Copy, Debug, PartialEq, Eq, Structural)]
pub enum ChordTimeoutState {
    /// The one-shot timer is running.
    Active,
    /// The primary modifier was released before the window elapsed.
    EarlyReleased,
    /// The window was resolved: the timer fired, or the companion key
    /// confirmed the chord.
    Sent,
}

/// The answer the hook returns to the operating system for one key event.
#[derive(Clone, Copy, Debug, PartialEq, Eq, Structural)]
pub enum Decision {
    /// Consume the event; no other application sees it.
    Block,
    /// Hand the event to the next hook unchanged.
    PassThrough,
}

/// One intercepted key event, as the hook callback sees it.
#[derive(Clone, Copy, Debug)]
pub struct KeyInput {
    /// Virtual key code.
    pub vk_code: u32,
    /// Whether this is a keydown (else a keyup).
    pub is_keydown: bool,
    /// Whether the event carries this subsystem's own synthetic-origin
    /// marker.
    pub injected: bool,
    /// Whether the host application's window (or a child of it) is the
    /// foreground window.
    pub is_app_window: bool,
    /// Raw handle of the foreground window.
    pub foreground_window: isize,
    /// Timestamp given to events recorded for this input.
    pub time: u64,
}

/// The hook-thread state: modifier tracking, the chord window, and the
/// focus flag used to notice focus changes.
#[derive(Clone, Copy, Debug)]
pub struct HookEngine {
    /// Whether the primary modifier is currently held.
    pub win_pressed: bool,
    /// Whether the current primary-modifier press was blocked.
    pub win_blocked: bool,
    /// Whether the companion key was seen while the modifier was held.
    pub esc_pressed_while_win: bool,
    /// Shift press state for the language-switch combination.
    pub shift_pressed: bool,
    /// Alt press state for the language-switch combination.
    pub alt_pressed: bool,
    /// Whether the language-switch combination has been detected.
    pub language_switch_detected: bool,
    /// Whether the host window was foregrounded at the last event.
    pub was_app_focused: bool,
    /// The chord disambiguation window of the current modifier press, if
    /// one was started.
    pub timeout: Option<ChordTimeoutState>,
}

/// Mathematical model of a notification.
pub ghost enum EventV {
    BlockingChanged(bool),
    CapsLockChanged(bool),
    InputLanguageChanged(InputLanguage),
    KeyIntercepted(KeyEventV),
    WinPressedChanged(bool),
    AlwaysOnTopChanged(bool),
    AutoShowOnBlockChanged(bool),
    ContinuousPlayChanged(bool),
    TtsProviderChanged(Seq<char>),
    TtsConfigChanged,
    PluginsChanged(Seq<PluginInfoV>),
    HotkeyModeChanged(HotkeyMode),
    ShowWindowRequested,
}

impl View for AppStateEvent {
    type V = EventV;

    open spec fn view(&self) -> EventV {
        match self {
            AppStateEvent::BlockingChanged(b) => EventV::BlockingChanged(*b),
            AppStateEvent::CapsLockChanged(b) => EventV::CapsLockChanged(*b),
            AppStateEvent::InputLanguageChanged(l) => EventV::InputLanguageChanged(*l),
            AppStateEvent::KeyIntercepted(k) => EventV::KeyIntercepted(k@),
            AppStateEvent::WinPressedChanged(b) => EventV::WinPressedChanged(*b),
            AppStateEvent::AlwaysOnTopChanged(b) => EventV::AlwaysOnTopChanged(*b),
            AppStateEvent::AutoShowOnBlockChanged(b) => EventV::AutoShowOnBlockChanged(*b),
            AppStateEvent::ContinuousPlayChanged(b) => EventV::ContinuousPlayChanged(*b),
            AppStateEvent::TtsProviderChanged(s) => EventV::TtsProviderChanged(s@),
            AppStateEvent::TtsConfigChanged => EventV::TtsConfigChanged,
            AppStateEvent::PluginsChanged(ps) => EventV::PluginsChanged(
                ps@.map_values(|p: crate::plugins::PluginInfo| p@),
            ),
            AppStateEvent::HotkeyModeChanged(m) => EventV::HotkeyModeChanged(*m),
            AppStateEvent::ShowWindowRequested => EventV::ShowWindowRequested,
        }
    }
}

/// An effect the embedding must apply after a decision.
#[derive(Debug, PartialEq)]
pub enum HookEffect {
    /// Send a notification over the event channel (fire and forget).
    Notify(AppStateEvent),
    /// Start the one-shot chord timer for the disambiguation window.
    StartChordTimer,
    /// Inject one synthetic keydown of the primary modifier, tagged with
    /// the synthetic-origin marker.
    ReplayWinKeydown,
    /// Re-read the system keyboard layout and hand it to
    /// `note_input_language`.
    QueryInputLanguage,
}

/// Mathematical model of an effect.
pub ghost enum EffectV {
    Notify(EventV),
    StartChordTimer,
    ReplayWinKeydown,
    QueryInputLanguage,
}

impl View for HookEffect {
    type V = EffectV;

    open spec fn view(&self) -> EffectV {
        match self {
            HookEffect::Notify(e) => EffectV::Notify(e@),
            HookEffect::StartChordTimer => EffectV::StartChordTimer,
            HookEffect::ReplayWinKeydown => EffectV::ReplayWinKeydown,
            HookEffect::QueryInputLanguage => EffectV::QueryInputLanguage,
        }
    }
}

/// The view of a list of effects.
pub open spec fn effects_view(s: Seq<HookEffect>) -> Seq<EffectV> {
    s.map_values(|e: HookEffect| e@)
}

/// A decision together with the effects to apply.
#[derive(Debug, PartialEq)]
pub struct HookOutcome {
    pub decision: Decision,
    pub effects: Vec<HookEffect>,
}

/// Result of one step of the machine, in the mathematical model.
#[verifier::ext_equal]
pub ghost struct StepV {
    pub engine: HookEngine,
    pub state: StateV,
    pub decision: Decision,
    pub effects: Seq<EffectV>,
}

/// The session state after focus tracking: when focus moved between the
/// host window and another window, the other window is remembered for
/// focus restoration.
pub open spec fn spec_focus_tracked(e: HookEngine, s: StateV, inp: KeyInput) -> StateV {
    if e.was_app_focused != inp.is_app_window && inp.foreground_window != 0
        && inp.foreground_window != s.app_window_hwnd {
        StateV { previous_window_hwnd: inp.foreground_window, ..s }
    } else {
        s
    }
}

/// The model of the key event recorded for an input: the classifier's name
/// for the code, the input's timestamp, and the next sequence number.
pub open spec fn spec_recorded_key(inp: KeyInput, s: StateV) -> KeyEventV {
    KeyEventV {
        vk_code: inp.vk_code,
        key_name: spec_key_name(inp.vk_code),
        timestamp: inp.time,
        seq_num: s.key_seq_counter,
    }
}

/// Step for a primary-modifier keydown (not marker-tagged).
pub open spec fn spec_win_down_step(e: HookEngine, s: StateV, inp: KeyInput) -> StepV {
    if inp.is_app_window {
        // Never intercepted while the user is interacting with the host UI.
        StepV { engine: e, state: s, decision: Decision::PassThrough, effects: Seq::empty() }
    } else {
        StepV {
            engine: HookEngine {
                win_pressed: true,
                win_blocked: true,
                esc_pressed_while_win: false,
                timeout: Some(ChordTimeoutState::Active),
                ..e
            },
            state: s,
            decision: Decision::Block,
            effects: seq![
                EffectV::StartChordTimer,
                EffectV::Notify(EventV::WinPressedChanged(true)),
            ],
        }
    }
}

/// Step for a primary-modifier keyup.
pub open spec fn spec_win_up_step(e: HookEngine, s: StateV, inp: KeyInput) -> StepV {
    if inp.is_app_window {
        StepV { engine: e, state: s, decision: Decision::PassThrough, effects: Seq::empty() }
    } else {
        let was_early_release = e.timeout == Some(ChordTimeoutState::Active);
        let engine = HookEngine {
            win_pressed: false,
            win_blocked: false,
            esc_pressed_while_win: false,
            timeout: if was_early_release {
                Some(ChordTimeoutState::EarlyReleased)
            } else {
                e.timeout
            },
            ..e
        };
        let replay = e.win_blocked && !e.esc_pressed_while_win && s.blocking_enabled
            && was_early_release;
        StepV {
            engine,
            state: s,
            decision: Decision::PassThrough,
            effects: if replay {
                seq![
                    EffectV::Notify(EventV::WinPressedChanged(false)),
                    EffectV::ReplayWinKeydown,
                ]
            } else {
                seq![EffectV::Notify(EventV::WinPressedChanged(false))]
            },
        }
    }
}

/// The label recorded for a chord that toggled the blocking flag.
pub open spec fn spec_toggle_label(enabled: bool) -> Seq<char> {
    if enabled {
        "Win+Esc (Toggle -> ON)"@
    } else {
        "Win+Esc (Toggle -> OFF)"@
    }
}

/// Step for a companion-key keydown while the primary modifier is held:
/// the chord is confirmed.
pub open spec fn spec_escape_step(e: HookEngine, s: StateV, inp: KeyInput) -> StepV {
    let engine = HookEngine {
        esc_pressed_while_win: true,
        timeout: if e.timeout is Some {
            Some(ChordTimeoutState::Sent)
        } else {
            None
        },
        ..e
    };
    if s.hotkey_mode == HotkeyMode::OverlayCall {
        StepV {
            engine,
            state: s,
            decision: Decision::Block,
            effects: seq![EffectV::Notify(EventV::ShowWindowRequested)],
        }
    } else {
        let enabled = !s.blocking_enabled;
        let record = KeyEventV {
            vk_code: VK_ESCAPE,
            key_name: spec_toggle_label(enabled),
            timestamp: inp.time,
            seq_num: s.key_seq_counter,
        };
        StepV {
            engine,
            state: StateV {
                blocking_enabled: enabled,
                key_seq_counter: (s.key_seq_counter + 1) as u64,
                intercepted_keys: spec_push_bounded(s.intercepted_keys, record),
                ..s
            },
            decision: Decision::Block,
            effects: seq![EffectV::Notify(EventV::BlockingChanged(enabled))],
        }
    }
}

/// Step for a Caps Lock keydown: the Caps Lock flag flips and the event is
/// always passed through, so the system indicator stays in line with it.
pub open spec fn spec_caps_step(e: HookEngine, s: StateV) -> StepV {
    StepV {
        engine: e,
        state: StateV { caps_lock: !s.caps_lock, ..s },
        decision: Decision::PassThrough,
        effects: seq![EffectV::Notify(EventV::CapsLockChanged(!s.caps_lock))],
    }
}

/// Shift and Alt tracking for the language-switch combination: the combo is
/// flagged when the second key goes down while the first is held, and is
/// consumed on a release while flagged and both held, asking the embedding
/// to re-read the keyboard layout.
pub open spec fn spec_track_modifiers(e: HookEngine, inp: KeyInput) -> (HookEngine, Seq<EffectV>) {
    if is_shift_vk(inp.vk_code) {
        if inp.is_keydown {
            (
                HookEngine {
                    shift_pressed: true,
                    language_switch_detected: if e.alt_pressed {
                        true
                    } else {
                        e.language_switch_detected
                    },
                    ..e
                },
                Seq::empty(),
            )
        } else {
            let was_switch = e.language_switch_detected && e.alt_pressed;
            (
                HookEngine {
                    shift_pressed: false,
                    language_switch_detected: if was_switch {
                        false
                    } else {
                        e.language_switch_detected
                    },
                    ..e
                },
                if was_switch {
                    seq![EffectV::QueryInputLanguage]
                } else {
                    Seq::empty()
                },
            )
        }
    } else if is_alt_vk(inp.vk_code) {
        if inp.is_keydown {
            (
                HookEngine {
                    alt_pressed: true,
                    language_switch_detected: if e.shift_pressed {
                        true
                    } else {
                        e.language_switch_detected
                    },
                    ..e
                },
                Seq::empty(),
            )
        } else {
            let was_switch = e.language_switch_detected && e.shift_pressed;
            (
                HookEngine {
                    alt_pressed: false,
                    language_switch_detected: if was_switch {
                        false
                    } else {
                        e.language_switch_detected
                    },
                    ..e
                },
                if was_switch {
                    seq![EffectV::QueryInputLanguage]
                } else {
                    Seq::empty()
                },
            )
        }
    } else {
        (e, Seq::empty())
    }
}

/// Step for every key that is not the primary modifier, a confirming
/// companion key, or a Caps Lock keydown: modifier tracking, recording of
/// keydowns seen while the host window is focused, and the global blocking
/// rule.
pub open spec fn spec_tail_step(e: HookEngine, s: StateV, inp: KeyInput) -> StepV {
    let mod_step = spec_track_modifiers(e, inp);
    let engine = mod_step.0;
    let lang_effects = mod_step.1;
    let recorded = if inp.is_keydown && inp.is_app_window {
        StateV {
            key_seq_counter: (s.key_seq_counter + 1) as u64,
            active_window_keys: spec_push_bounded(s.active_window_keys, spec_recorded_key(inp, s)),
            ..s
        }
    } else {
        s
    };
    if recorded.blocking_enabled && !inp.is_app_window {
        if is_shift_vk(inp.vk_code) || is_alt_vk(inp.vk_code) {
            // Modifiers always pass in both directions, so the
            // language-switch combination keeps working while blocking is
            // active.
            StepV {
                engine,
                state: recorded,
                decision: Decision::PassThrough,
                effects: lang_effects,
            }
        } else if !inp.is_keydown {
            // Keyups of other keys pass so the system never sees a stuck
            // key.
            StepV {
                engine,
                state: recorded,
                decision: Decision::PassThrough,
                effects: lang_effects,
            }
        } else {
            let record = spec_recorded_key(inp, recorded);
            StepV {
                engine,
                state: StateV {
                    key_seq_counter: (recorded.key_seq_counter + 1) as u64,
                    intercepted_keys: spec_push_bounded(recorded.intercepted_keys, record),
                    ..recorded
                },
                decision: Decision::Block,
                effects: lang_effects + seq![EffectV::Notify(EventV::KeyIntercepted(record))],
            }
        }
    } else {
        StepV { engine, state: recorded, decision: Decision::PassThrough, effects: lang_effects }
    }
}

/// One step of the hotkey state machine: the full transition the hook makes
/// for one key event.
pub open spec fn spec_hook_step(e: HookEngine, s: StateV, inp: KeyInput) -> StepV {
    if inp.injected {
        // The recursion guard: the subsystem's own synthetic input passes
        // through untouched, with no state change and no effect.
        StepV { engine: e, state: s, decision: Decision::PassThrough, effects: Seq::empty() }
    } else {
        let s0 = spec_focus_tracked(e, s, inp);
        let e0 = HookEngine { was_app_focused: inp.is_app_window, ..e };
        if inp.vk_code == VK_LWIN && inp.is_keydown {
            spec_win_down_step(e0, s0, inp)
        } else if inp.vk_code == VK_LWIN && !inp.is_keydown {
            spec_win_up_step(e0, s0, inp)
        } else if inp.vk_code == VK_ESCAPE && inp.is_keydown && e0.win_pressed {
            spec_escape_step(e0, s0, inp)
        } else if inp.vk_code == VK_CAPITAL && inp.is_keydown {
            spec_caps_step(e0, s0)
        } else {
            spec_tail_step(e0, s0, inp)
        }
    }
}

/// The chord timer's resolution when it fires: only a still-`Active` window
/// transitions (to `Sent`, clearing the blocked flag); a window already
/// resolved by the keyup or the companion key is left alone.
pub open spec fn spec_timer_step(e: HookEngine) -> HookEngine {
    if e.timeout == Some(ChordTimeoutState::Active) {
        HookEngine { timeout: Some(ChordTimeoutState::Sent), win_blocked: false, ..e }
    } else {
        e
    }
}

impl HookEngine {
    /// A fresh engine: nothing held, no chord window, host window not
    /// focused.
    pub fn new() -> (r: Self)
        ensures
            r == (HookEngine {
                win_pressed: false,
                win_blocked: false,
                esc_pressed_while_win: false,
                shift_pressed: false,
                alt_pressed: false,
                language_switch_detected: false,
                was_app_focused: false,
                timeout: None::<ChordTimeoutState>,
            }),
    {
        HookEngine {
            win_pressed: false,
            win_blocked: false,
            esc_pressed_while_win: false,
            shift_pressed: false,
            alt_pressed: false,
            language_switch_detected: false,
            was_app_focused: false,
            timeout: None,
        }
    }

    /// Decide one key event: the hook callback's whole logic.
    #[verifier::rlimit(60)]
    pub fn handle_key(&mut self, session: &mut AppState, input: KeyInput) -> (r: HookOutcome)
        requires
            old(session).key_seq_counter < u64::MAX,
        ensures
            ({
                let step = spec_hook_step(*old(self), old(session)@, input);
                &&& *final(self) == step.engine
                &&& final(session)@ == step.state
                &&& r.decision == step.decision
                &&& effects_view(r.effects@) == step.effects
            }),
            old(session).wf() ==> final(session).wf(),
    {
        if input.injected {
            return HookOutcome { decision: Decision::PassThrough, effects: Vec::new() };
        }
        // Focus tracking: remember the window focus moved from or to.
        let fg = input.foreground_window;
        if self.was_app_focused != input.is_app_window && fg != 0 && fg
            != session.get_app_window_hwnd() {
            session.set_previous_window(fg);
        }
        self.was_app_focused = input.is_app_window;
        proof {
            assert(session@ =~= spec_focus_tracked(*old(self), old(session)@, input));
            assert(*self == (HookEngine { was_app_focused: input.is_app_window, ..*old(self) }));
        }

        if input.vk_code == VK_LWIN && input.is_keydown {
            self.handle_win_down(session, input)
        } else if input.vk_code == VK_LWIN && !input.is_keydown {
            self.handle_win_up(session, input)
        } else if input.vk_code == VK_ESCAPE && input.is_keydown && self.win_pressed {
            self.handle_escape_down(session, input)
        } else if input.vk_code == VK_CAPITAL && input.is_keydown {
            self.handle_caps_down(session)
        } else {
            self.handle_tail(session, input)
        }
    }

    fn handle_win_down(&mut self, session: &mut AppState, input: KeyInput) -> (r: HookOutcome)
        requires
            input.vk_code == VK_LWIN,
            input.is_keydown,
        ensures
            ({
                let step = spec_win_down_step(*old(self), old(session)@, input);
                &&& *final(self) == step.engine
                &&& final(session)@ == step.state
                &&& r.decision == step.decision
                &&& effects_view(r.effects@) == step.effects
            }),
    {
        if input.is_app_window {
            return HookOutcome { decision: Decision::PassThrough, effects: Vec::new() };
        }
        self.win_pressed = true;
        self.win_blocked = true;
        self.esc_pressed_while_win = false;
        self.timeout = Some(ChordTimeoutState::Active);
        let mut effects: Vec<HookEffect> = Vec::new();
        effects.push(HookEffect::StartChordTimer);
        effects.push(HookEffect::Notify(AppStateEvent::WinPressedChanged(true)));
        proof {
            assert(effects_view(effects@) =~= seq![
                EffectV::StartChordTimer,
                EffectV::Notify(EventV::WinPressedChanged(true)),
            ]);
        }
        HookOutcome { decision: Decision::Block, effects }
    }

    fn handle_win_up(&mut self, session: &mut AppState, input: KeyInput) -> (r: HookOutcome)
        requires
            input.vk_code == VK_LWIN,
            !input.is_keydown,
        ensures
            ({
                let step = spec_win_up_step(*old(self), old(session)@, input);
                &&& *final(self) == step.engine
                &&& final(session)@ == step.state
                &&& r.decision == step.decision
                &&& effects_view(r.effects@) == step.effects
            }),
    {
        if input.is_app_window {
            return HookOutcome { decision: Decision::PassThrough, effects: Vec::new() };
        }
        let was_early_release = match self.timeout {
            Some(ChordTimeoutState::Active) => true,
            _ => false,
        };
        if was_early_release {
            self.timeout = Some(ChordTimeoutState::EarlyReleased);
        }
        let was_blocked = self.win_blocked;
        let esc_was_pressed = self.esc_pressed_while_win;
        self.win_pressed = false;
        self.win_blocked = false;
        self.esc_pressed_while_win = false;

        let mut effects: Vec<HookEffect> = Vec::new();
        effects.push(HookEffect::Notify(AppStateEvent::WinPressedChanged(false)));
        if was_blocked && !esc_was_pressed && session.is_blocking_enabled() && was_early_release {
            effects.push(HookEffect::ReplayWinKeydown);
            proof {
                assert(effects_view(effects@) =~= seq![
                    EffectV::Notify(EventV::WinPressedChanged(false)),
                    EffectV::ReplayWinKeydown,
                ]);
            }
        } else {
            proof {
                assert(effects_view(effects@) =~= seq![
                    EffectV::Notify(EventV::WinPressedChanged(false)),
                ]);
            }
        }
        HookOutcome { decision: Decision::PassThrough, effects }
    }

    fn handle_escape_down(&mut self, session: &mut AppState, input: KeyInput) -> (r: HookOutcome)
        requires
            old(session).key_seq_counter < u64::MAX,
        ensures
            ({
                let step = spec_escape_step(*old(self), old(session)@, input);
                &&& *final(self) == step.engine
                &&& final(session)@ == step.state
                &&& r.decision == step.decision
                &&& effects_view(r.effects@) == step.effects
            }),
            old(session).wf() ==> final(session).wf(),
    {
        if self.timeout.is_some() {
            self.timeout = Some(ChordTimeoutState::Sent);
        }
        self.esc_pressed_while_win = true;
        let mut effects: Vec<HookEffect> = Vec::new();
        if session.is_overlay_call_mode() {
            effects.push(HookEffect::Notify(AppStateEvent::ShowWindowRequested));
            proof {
                assert(effects_view(effects@) =~= seq![
                    EffectV::Notify(EventV::ShowWindowRequested),
                ]);
            }
            HookOutcome { decision: Decision::Block, effects }
        } else {
            let enabled = session.toggle_blocking();
            effects.push(HookEffect::Notify(AppStateEvent::BlockingChanged(enabled)));
            let label = if enabled {
                String::from_str("Win+Esc (Toggle -> ON)")
            } else {
                String::from_str("Win+Esc (Toggle -> OFF)")
            };
            let _recorded = session.add_key_auto(VK_ESCAPE, label, input.time);
            proof {
                assert(effects_view(effects@) =~= seq![
                    EffectV::Notify(EventV::BlockingChanged(enabled)),
                ]);
                assert(session@ =~= spec_escape_step(*old(self), old(session)@, input).state);
            }
            HookOutcome { decision: Decision::Block, effects }
        }
    }

    fn handle_caps_down(&mut self, session: &mut AppState) -> (r: HookOutcome)
        ensures
            ({
                let step = spec_caps_step(*old(self), old(session)@);
                &&& *final(self) == step.engine
                &&& final(session)@ == step.state
                &&& r.decision == step.decision
                &&& effects_view(r.effects@) == step.effects
            }),
    {
        let caps = session.toggle_caps_lock();
        let mut effects: Vec<HookEffect> = Vec::new();
        effects.push(HookEffect::Notify(AppStateEvent::CapsLockChanged(caps)));
        proof {
            assert(effects_view(effects@) =~= seq![EffectV::Notify(EventV::CapsLockChanged(caps))]);
        }
        HookOutcome { decision: Decision::PassThrough, effects }
    }

    fn handle_tail(&mut self, session: &mut AppState, input: KeyInput) -> (r: HookOutcome)
        requires
            old(session).key_seq_counter < u64::MAX,
        ensures
            ({
                let step = spec_tail_step(*old(self), old(session)@, input);
                &&& *final(self) == step.engine
                &&& final(session)@ == step.state
                &&& r.decision == step.decision
                &&& effects_view(r.effects@) == step.effects
            }),
            old(session).wf() ==> final(session).wf(),
    {
        let mut effects: Vec<HookEffect> = Vec::new();
        let shift = is_shift_key(input.vk_code);
        let alt = is_alt_key(input.vk_code);
        if shift {
            if input.is_keydown {
                self.shift_pressed = true;
                if self.alt_pressed {
                    self.language_switch_detected = true;
                }
            } else {
                let was_switch = self.language_switch_detected && self.alt_pressed;
                self.shift_pressed = false;
                if was_switch {
                    self.language_switch_detected = false;
                    effects.push(HookEffect::QueryInputLanguage);
                }
            }
        } else if alt {
            if input.is_keydown {
                self.alt_pressed = true;
                if self.shift_pressed {
                    self.language_switch_detected = true;
                }
            } else {
                let was_switch = self.language_switch_detected && self.shift_pressed;
                self.alt_pressed = false;
                if was_switch {
                    self.language_switch_detected = false;
                    effects.push(HookEffect::QueryInputLanguage);
                }
            }
        }
        proof {
            let mod_step = spec_track_modifiers(*old(self), input);
            assert(*self == mod_step.0);
            assert(effects_view(effects@) =~= mod_step.1);
        }

        if input.is_keydown && input.is_app_window {
            record_active(session, input);
        }

        if session.is_blocking_enabled() && !input.is_app_window {
            if shift || alt {
                return HookOutcome { decision: Decision::PassThrough, effects };
            }
            if !input.is_keydown {
                return HookOutcome { decision: Decision::PassThrough, effects };
            }
            let name = vk_code_to_name(input.vk_code);
            let recorded = session.add_key_auto(input.vk_code, name, input.time);
            effects.push(HookEffect::Notify(AppStateEvent::KeyIntercepted(recorded)));
            proof {
                let mod_step = spec_track_modifiers(*old(self), input);
                assert(effects_view(effects@) =~= mod_step.1 + seq![
                    EffectV::Notify(EventV::KeyIntercepted(recorded@)),
                ]);
            }
            return HookOutcome { decision: Decision::Block, effects };
        }
        HookOutcome { decision: Decision::PassThrough, effects }
    }

    /// Resolve the chord window when the one-shot timer fires: a
    /// still-`Active` window becomes `Sent` and the blocked flag is
    /// cleared; returns whether this call performed the resolution.
    pub fn handle_timer_expiry(&mut self) -> (fired: bool)
        ensures
            *final(self) == spec_timer_step(*old(self)),
            fired == (old(self).timeout == Some(ChordTimeoutState::Active)),
    {
        match self.timeout {
            Some(ChordTimeoutState::Active) => {
                self.timeout = Some(ChordTimeoutState::Sent);
                self.win_blocked = false;
                true
            },
            _ => false,
        }
    }
}

/// Record one keydown seen while the host window is focused.
fn record_active(session: &mut AppState, input: KeyInput)
    requires
        old(session).key_seq_counter < u64::MAX,
    ensures
        final(session)@ == (StateV {
            key_seq_counter: (old(session).key_seq_counter + 1) as u64,
            active_window_keys: spec_push_bounded(
                old(session)@.active_window_keys,
                spec_recorded_key(input, old(session)@),
            ),
            ..old(session)@
        }),
        old(session).wf() ==> final(session).wf(),
{
    let name = vk_code_to_name(input.vk_code);
    let seq_num = session.key_seq_counter;
    session.key_seq_counter = session.key_seq_counter + 1;
    let key = crate::state::KeyEvent::new(input.vk_code, name, input.time, seq_num);
    session.add_active_window_key(key);
}

/// Take note of a freshly read keyboard layout after a consumed
/// language-switch combination: the cache is updated, and exactly when the
/// raw value differs from the cached one, a language-changed notification
/// is produced.
pub fn note_input_language(session: &mut AppState, hkl: u32) -> (r: Option<AppStateEvent>)
    ensures
        final(session)@ == (StateV { input_language: hkl, ..old(session)@ }),
        hkl != old(session).input_language ==> (r matches Some(e) && e@
            == EventV::InputLanguageChanged(spec_language_of(hkl))),
        hkl == old(session).input_language ==> r is None,
{
    let changed = session.get_input_language_raw() != hkl;
    session.set_input_language(hkl);
    if changed {
        Some(AppStateEvent::InputLanguageChanged(InputLanguage::from_raw(hkl)))
    } else {
        None
    }
}

} // verus!
