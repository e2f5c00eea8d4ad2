//! Shared session state: mode flags, the two bounded key-event queues with
//! their common sequence counter, the input-language cache, and the
//! text-to-speech message history.

use vstd::prelude::*;

use crate::plugins::PluginInfo;

verus! {

/// Maximum number of recorded key events kept in each queue.
pub const MAX_KEYS: usize = 100;

/// Maximum number of text-to-speech messages kept in the history.
pub const MAX_TTS_MESSAGES: usize = 100;

/// Hotkey behavior mode.
#[derive(Clone, Copy, Debug, PartialEq, Eq, Structural)]
pub enum HotkeyMode {
    /// The chord toggles global key interception.
    BackgroundBlocking,
    /// The chord requests that the host window be shown, without blocking.
    OverlayCall,
}

/// The textual code of a hotkey mode.
pub open spec fn spec_mode_str(m: HotkeyMode) -> Seq<char> {
    match m {
        HotkeyMode::BackgroundBlocking => "background_blocking"@,
        HotkeyMode::OverlayCall => "overlay_call"@,
    }
}

impl HotkeyMode {
    pub fn as_str(&self) -> (r: &'static str)
        ensures
            r@ == spec_mode_str(*self),
    {
        match self {
            HotkeyMode::BackgroundBlocking => "background_blocking",
            HotkeyMode::OverlayCall => "overlay_call",
        }
    }

    pub fn from_str(s: &str) -> (r: Option<Self>)
        ensures
            r == (if s@ == spec_mode_str(HotkeyMode::BackgroundBlocking) {
                Some(HotkeyMode::BackgroundBlocking)
            } else if s@ == spec_mode_str(HotkeyMode::OverlayCall) {
                Some(HotkeyMode::OverlayCall)
            } else {
                None::<HotkeyMode>
            }),
    {
        if str_eq(s, "background_blocking") {
            Some(HotkeyMode::BackgroundBlocking)
        } else if str_eq(s, "overlay_call") {
            Some(HotkeyMode::OverlayCall)
        } else {
            None
        }
    }
}

impl Default for HotkeyMode {
    fn default() -> (r: Self)
        ensures
            r == HotkeyMode::OverlayCall,
    {
        HotkeyMode::OverlayCall
    }
}

/// Compare two string slices by their character sequences.
pub fn str_eq(a: &str, b: &str) -> (r: bool)
    ensures
        r == (a@ == b@),
{
    let sa: String = a.to_owned();
    let sb: String = b.to_owned();
    sa == sb
}

/// Input language identifier.
#[derive(Clone, Copy, Debug, PartialEq, Eq, Structural)]
pub enum InputLanguage {
    Ru,
    En,
}

/// The language that a raw keyboard-layout handle denotes: the low 16 bits
/// select the language, and only the Russian identifier maps to `Ru`.
pub open spec fn spec_language_of(hkl: u32) -> InputLanguage {
    if hkl % 0x10000 == 0x0419 {
        InputLanguage::Ru
    } else {
        InputLanguage::En
    }
}

impl InputLanguage {
    /// Classify a raw keyboard-layout handle.
    pub fn from_raw(hkl: u32) -> (r: Self)
        ensures
            r == spec_language_of(hkl),
    {
        let lang_id = hkl % 0x10000;
        if lang_id == 0x0419 {
            InputLanguage::Ru
        } else {
            InputLanguage::En
        }
    }

    pub fn toggle(&self) -> (r: Self)
        ensures
            r == (match *self {
                InputLanguage::Ru => InputLanguage::En,
                InputLanguage::En => InputLanguage::Ru,
            }),
    {
        match self {
            InputLanguage::Ru => InputLanguage::En,
            InputLanguage::En => InputLanguage::Ru,
        }
    }

    /// The two-letter code of the language.
    pub fn code(&self) -> (r: &'static str)
        ensures
            *self == InputLanguage::Ru ==> r@ == "ru"@,
            *self == InputLanguage::En ==> r@ == "en"@,
    {
        match self {
            InputLanguage::Ru => "ru",
            InputLanguage::En => "en",
        }
    }
}

impl Default for InputLanguage {
    fn default() -> (r: Self)
        ensures
            r == InputLanguage::En,
    {
        InputLanguage::En
    }
}

/// Status of a text-to-speech message.
#[derive(Clone, Copy, Debug, PartialEq, Eq, Structural)]
pub enum TtsMessageStatus {
    Queued,
    Playing,
    Completed,
}

impl Default for TtsMessageStatus {
    fn default() -> (r: Self)
        ensures
            r == TtsMessageStatus::Queued,
    {
        TtsMessageStatus::Queued
    }
}

/// A text-to-speech message in the history.
#[derive(Debug, PartialEq)]
pub struct TtsMessage {
    pub id: String,
    pub text: String,
    pub timestamp: u64,
    pub status: TtsMessageStatus,
    pub locked: bool,
}

/// Mathematical model of a message.
#[verifier::ext_equal]
pub ghost struct TtsMessageV {
    pub id: Seq<char>,
    pub text: Seq<char>,
    pub timestamp: u64,
    pub status: TtsMessageStatus,
    pub locked: bool,
}

impl View for TtsMessage {
    type V = TtsMessageV;

    open spec fn view(&self) -> TtsMessageV {
        TtsMessageV {
            id: self.id@,
            text: self.text@,
            timestamp: self.timestamp,
            status: self.status,
            locked: self.locked,
        }
    }
}

impl Clone for TtsMessage {
    fn clone(&self) -> (r: Self)
        ensures
            r == *self,
    {
        TtsMessage {
            id: self.id.clone(),
            text: self.text.clone(),
            timestamp: self.timestamp,
            status: self.status,
            locked: self.locked,
        }
    }
}

/// Relies on uuid::Uuid::new_v4 and the `simple` formatting of the uuid
/// crate: a fresh random identifier rendered as 32 hexadecimal characters,
/// prefixed here to a 36-character message id.
#[verifier::external_body]
fn fresh_message_id() -> (r: String)
    ensures
        r@.len() == 36,
{
    format!("msg_{}", uuid::Uuid::new_v4().simple())
}

impl TtsMessage {
    /// Create a new queued, unlocked message with a fresh identifier.
    pub fn new(text: String, timestamp: u64) -> (r: Self)
        ensures
            r.text == text,
            r.timestamp == timestamp,
            r.status == TtsMessageStatus::Queued,
            !r.locked,
            r.id@.len() == 36,
    {
        TtsMessage {
            id: fresh_message_id(),
            text,
            timestamp,
            status: TtsMessageStatus::Queued,
            locked: false,
        }
    }

    pub fn with_status(self, status: TtsMessageStatus) -> (r: Self)
        ensures
            r == (TtsMessage { status, ..self }),
    {
        TtsMessage { status, ..self }
    }

    pub fn with_locked(self, locked: bool) -> (r: Self)
        ensures
            r == (TtsMessage { locked, ..self }),
    {
        TtsMessage { locked, ..self }
    }
}

/// A single recorded keyboard event.
#[derive(Debug, PartialEq)]
pub struct KeyEvent {
    pub vk_code: u32,
    pub key_name: String,
    pub timestamp: u64,
    /// Global sequence number used for ordering across both queues.
    pub seq_num: u64,
}

/// Mathematical model of a key event.
#[verifier::ext_equal]
pub ghost struct KeyEventV {
    pub vk_code: u32,
    pub key_name: Seq<char>,
    pub timestamp: u64,
    pub seq_num: u64,
}

impl View for KeyEvent {
    type V = KeyEventV;

    open spec fn view(&self) -> KeyEventV {
        KeyEventV {
            vk_code: self.vk_code,
            key_name: self.key_name@,
            timestamp: self.timestamp,
            seq_num: self.seq_num,
        }
    }
}

impl Clone for KeyEvent {
    fn clone(&self) -> (r: Self)
        ensures
            r == *self,
    {
        KeyEvent {
            vk_code: self.vk_code,
            key_name: self.key_name.clone(),
            timestamp: self.timestamp,
            seq_num: self.seq_num,
        }
    }
}

impl KeyEvent {
    pub fn new(vk_code: u32, key_name: String, timestamp: u64, seq_num: u64) -> (r: Self)
        ensures
            r == (KeyEvent { vk_code, key_name, timestamp, seq_num }),
    {
        KeyEvent { vk_code, key_name, timestamp, seq_num }
    }
}

/// Notifications sent from the hook thread to the rest of the application.
#[derive(Debug, PartialEq)]
pub enum AppStateEvent {
    BlockingChanged(bool),
    CapsLockChanged(bool),
    InputLanguageChanged(InputLanguage),
    KeyIntercepted(KeyEvent),
    WinPressedChanged(bool),
    AlwaysOnTopChanged(bool),
    AutoShowOnBlockChanged(bool),
    ContinuousPlayChanged(bool),
    TtsProviderChanged(String),
    TtsConfigChanged,
    PluginsChanged(Vec<PluginInfo>),
    HotkeyModeChanged(HotkeyMode),
    ShowWindowRequested,
}

/// The view of all recorded key events in a queue.
pub open spec fn keys_view(s: Seq<KeyEvent>) -> Seq<KeyEventV> {
    s.map_values(|k: KeyEvent| k@)
}

/// Shared application state. The hook's decision function and the rest of
/// the application both read and update it; synchronization is left to the
/// embedding.
#[derive(Debug, PartialEq)]
pub struct AppState {
    /// Whether keyboard blocking is currently enabled.
    pub blocking_enabled: bool,
    /// Tracks whether the primary modifier is currently pressed.
    pub win_pressed: bool,
    /// Whether the window should always be on top.
    pub always_on_top: bool,
    /// Whether to auto-show the window when blocking is enabled.
    pub auto_show_on_block: bool,
    /// Current hotkey mode.
    pub hotkey_mode: HotkeyMode,
    /// Whether Caps Lock is currently enabled.
    pub caps_lock: bool,
    /// Counter handing out key-event sequence numbers.
    pub key_seq_counter: u64,
    /// Queue of intercepted keyboard events (host window not focused).
    pub intercepted_keys: Vec<KeyEvent>,
    /// Queue of keyboard events seen while the host window is focused.
    pub active_window_keys: Vec<KeyEvent>,
    /// Whether continuous play mode is enabled.
    pub continuous_play: bool,
    /// Whether text-to-speech is currently speaking.
    pub tts_is_speaking: bool,
    /// Text-to-speech message history.
    pub tts_history: Vec<TtsMessage>,
    /// Identifier of the currently playing message, if any.
    pub tts_current_message_id: Option<String>,
    /// Raw keyboard-layout handle last read from the system.
    pub input_language: u32,
    /// Handle of the previously active window, for focus restoration.
    pub previous_window_hwnd: isize,
    /// Handle of the host application's own window.
    pub app_window_hwnd: isize,
}

/// Mathematical model of the whole session state.
#[verifier::ext_equal]
pub ghost struct StateV {
    pub blocking_enabled: bool,
    pub win_pressed: bool,
    pub always_on_top: bool,
    pub auto_show_on_block: bool,
    pub hotkey_mode: HotkeyMode,
    pub caps_lock: bool,
    pub key_seq_counter: u64,
    pub intercepted_keys: Seq<KeyEventV>,
    pub active_window_keys: Seq<KeyEventV>,
    pub continuous_play: bool,
    pub tts_is_speaking: bool,
    pub tts_history: Seq<TtsMessageV>,
    pub tts_current_message_id: Option<Seq<char>>,
    pub input_language: u32,
    pub previous_window_hwnd: isize,
    pub app_window_hwnd: isize,
}

impl View for AppState {
    type V = StateV;

    open spec fn view(&self) -> StateV {
        StateV {
            blocking_enabled: self.blocking_enabled,
            win_pressed: self.win_pressed,
            always_on_top: self.always_on_top,
            auto_show_on_block: self.auto_show_on_block,
            hotkey_mode: self.hotkey_mode,
            caps_lock: self.caps_lock,
            key_seq_counter: self.key_seq_counter,
            intercepted_keys: keys_view(self.intercepted_keys@),
            active_window_keys: keys_view(self.active_window_keys@),
            continuous_play: self.continuous_play,
            tts_is_speaking: self.tts_is_speaking,
            tts_history: self.tts_history@.map_values(|m: TtsMessage| m@),
            tts_current_message_id: match self.tts_current_message_id {
                Some(ref s) => Some(s@),
                None => None,
            },
            input_language: self.input_language,
            previous_window_hwnd: self.previous_window_hwnd,
            app_window_hwnd: self.app_window_hwnd,
        }
    }
}

/// Append to a bounded queue, evicting the oldest entry when full.
pub open spec fn spec_push_bounded(s: Seq<KeyEventV>, k: KeyEventV) -> Seq<KeyEventV> {
    if s.len() >= MAX_KEYS {
        s.subrange(1, s.len() as int).push(k)
    } else {
        s.push(k)
    }
}

impl AppState {
    /// Well-formedness: the queues respect their capacity, and the
    /// intercepted queue is strictly ordered by sequence number, below the
    /// counter that hands the numbers out.
    pub open spec fn wf(self) -> bool {
        &&& self@.intercepted_keys.len() <= MAX_KEYS
        &&& self@.active_window_keys.len() <= MAX_KEYS
        &&& forall|i: int, j: int|
            0 <= i < j < self@.intercepted_keys.len() ==> self@.intercepted_keys[i].seq_num
                < self@.intercepted_keys[j].seq_num
        &&& forall|i: int|
            0 <= i < self@.intercepted_keys.len() ==> self@.intercepted_keys[i].seq_num
                < self@.key_seq_counter
    }

    pub fn new() -> (r: Self)
        ensures
            !r.blocking_enabled,
            !r.win_pressed,
            !r.always_on_top,
            !r.auto_show_on_block,
            r.hotkey_mode == HotkeyMode::BackgroundBlocking,
            !r.caps_lock,
            r.key_seq_counter == 0,
            r.intercepted_keys@.len() == 0,
            r.active_window_keys@.len() == 0,
            !r.continuous_play,
            !r.tts_is_speaking,
            r.tts_history@.len() == 0,
            r.tts_current_message_id is None,
            r.input_language == 0,
            r.previous_window_hwnd == 0,
            r.app_window_hwnd == 0,
            r.wf(),
    {
        AppState {
            blocking_enabled: false,
            win_pressed: false,
            always_on_top: false,
            auto_show_on_block: false,
            hotkey_mode: HotkeyMode::BackgroundBlocking,
            caps_lock: false,
            key_seq_counter: 0,
            intercepted_keys: Vec::new(),
            active_window_keys: Vec::new(),
            continuous_play: false,
            tts_is_speaking: false,
            tts_history: Vec::new(),
            tts_current_message_id: None,
            input_language: 0,
            previous_window_hwnd: 0,
            app_window_hwnd: 0,
        }
    }

    /// Check whether blocking is enabled.
    pub fn is_blocking_enabled(&self) -> (r: bool)
        ensures
            r == self.blocking_enabled,
    {
        self.blocking_enabled
    }

    /// Toggle the blocking flag; returns the new value.
    pub fn toggle_blocking(&mut self) -> (r: bool)
        ensures
            r == final(self).blocking_enabled,
            final(self).blocking_enabled == !old(self).blocking_enabled,
            final(self)@ == (StateV { blocking_enabled: !old(self).blocking_enabled, ..old(self)@ }),
    {
        self.blocking_enabled = !self.blocking_enabled;
        self.blocking_enabled
    }

    /// Check whether the primary modifier is recorded as pressed.
    pub fn is_win_pressed(&self) -> (r: bool)
        ensures
            r == self.win_pressed,
    {
        self.win_pressed
    }

    /// Record whether the primary modifier is pressed.
    pub fn set_win_pressed(&mut self, pressed: bool)
        ensures
            final(self)@ == (StateV { win_pressed: pressed, ..old(self)@ }),
    {
        self.win_pressed = pressed;
    }

    pub fn is_always_on_top(&self) -> (r: bool)
        ensures
            r == self.always_on_top,
    {
        self.always_on_top
    }

    pub fn set_always_on_top(&mut self, enabled: bool)
        ensures
            final(self)@ == (StateV { always_on_top: enabled, ..old(self)@ }),
    {
        self.always_on_top = enabled;
    }

    pub fn is_auto_show_on_block(&self) -> (r: bool)
        ensures
            r == self.auto_show_on_block,
    {
        self.auto_show_on_block
    }

    pub fn set_auto_show_on_block(&mut self, enabled: bool)
        ensures
            final(self)@ == (StateV { auto_show_on_block: enabled, ..old(self)@ }),
    {
        self.auto_show_on_block = enabled;
    }

    pub fn get_hotkey_mode(&self) -> (r: HotkeyMode)
        ensures
            r == self.hotkey_mode,
    {
        self.hotkey_mode
    }

    pub fn set_hotkey_mode(&mut self, mode: HotkeyMode)
        ensures
            final(self)@ == (StateV { hotkey_mode: mode, ..old(self)@ }),
    {
        self.hotkey_mode = mode;
    }

    /// Check whether the overlay-call mode is selected.
    pub fn is_overlay_call_mode(&self) -> (r: bool)
        ensures
            r == (self.hotkey_mode == HotkeyMode::OverlayCall),
    {
        match self.hotkey_mode {
            HotkeyMode::OverlayCall => true,
            HotkeyMode::BackgroundBlocking => false,
        }
    }

    pub fn is_caps_lock(&self) -> (r: bool)
        ensures
            r == self.caps_lock,
    {
        self.caps_lock
    }

    /// Toggle the Caps Lock flag; returns the new value.
    pub fn toggle_caps_lock(&mut self) -> (r: bool)
        ensures
            r == final(self).caps_lock,
            final(self)@ == (StateV { caps_lock: !old(self).caps_lock, ..old(self)@ }),
    {
        self.caps_lock = !self.caps_lock;
        self.caps_lock
    }

    pub fn set_caps_lock(&mut self, enabled: bool)
        ensures
            final(self)@ == (StateV { caps_lock: enabled, ..old(self)@ }),
    {
        self.caps_lock = enabled;
    }

    /// Append an event to the intercepted-keys queue, evicting the oldest
    /// entry when the queue is full.
    pub fn add_key(&mut self, key: KeyEvent)
        ensures
            final(self)@ == (StateV {
                intercepted_keys: spec_push_bounded(old(self)@.intercepted_keys, key@),
                ..old(self)@
            }),
    {
        if self.intercepted_keys.len() >= MAX_KEYS {
            self.intercepted_keys.remove(0);
        }
        self.intercepted_keys.push(key);
        proof {
            assert(self@.intercepted_keys =~= spec_push_bounded(old(self)@.intercepted_keys, key@));
        }
    }

    /// Record an intercepted key, drawing the next sequence number.
    /// Returns the recorded event.
    pub fn add_key_auto(&mut self, vk_code: u32, key_name: String, timestamp: u64) -> (r: KeyEvent)
        requires
            old(self).key_seq_counter < u64::MAX,
        ensures
            r@ == (KeyEventV {
                vk_code,
                key_name: key_name@,
                timestamp,
                seq_num: old(self).key_seq_counter,
            }),
            final(self)@ == (StateV {
                key_seq_counter: (old(self).key_seq_counter + 1) as u64,
                intercepted_keys: spec_push_bounded(old(self)@.intercepted_keys, r@),
                ..old(self)@
            }),
            old(self).wf() ==> final(self).wf(),
    {
        let seq_num = self.key_seq_counter;
        self.key_seq_counter = self.key_seq_counter + 1;
        let key = KeyEvent::new(vk_code, key_name, timestamp, seq_num);
        let result = key.clone();
        self.add_key(key);
        result
    }

    /// Return a copy of all intercepted keys, oldest first.
    pub fn get_keys(&self) -> (r: Vec<KeyEvent>)
        ensures
            r@ == self.intercepted_keys@,
    {
        clone_keys(&self.intercepted_keys)
    }

    /// Return copies of the intercepted keys whose sequence number is
    /// greater than the given one.
    pub fn get_keys_after(&self, after_seq_num: u64) -> (r: Vec<KeyEvent>)
        ensures
            r@ == self.intercepted_keys@.filter(|k: KeyEvent| k.seq_num > after_seq_num),
    {
        filter_keys_after(&self.intercepted_keys, after_seq_num)
    }

    /// Return a copy of the most recent intercepted key, if any.
    pub fn get_latest_key(&self) -> (r: Option<KeyEvent>)
        ensures
            r == (if self.intercepted_keys@.len() == 0 {
                None::<KeyEvent>
            } else {
                Some(self.intercepted_keys@.last())
            }),
    {
        latest_key(&self.intercepted_keys)
    }

    /// Clear the intercepted keys and reset the sequence counter.
    pub fn clear_keys(&mut self)
        ensures
            final(self)@ == (StateV {
                intercepted_keys: Seq::empty(),
                key_seq_counter: 0,
                ..old(self)@
            }),
            old(self).wf() ==> final(self).wf(),
    {
        self.intercepted_keys.clear();
        self.key_seq_counter = 0;
        proof {
            assert(self@.intercepted_keys =~= Seq::<KeyEventV>::empty());
        }
    }

    /// Append an event to the active-window queue, evicting the oldest
    /// entry when the queue is full.
    pub fn add_active_window_key(&mut self, key: KeyEvent)
        ensures
            final(self)@ == (StateV {
                active_window_keys: spec_push_bounded(old(self)@.active_window_keys, key@),
                ..old(self)@
            }),
    {
        if self.active_window_keys.len() >= MAX_KEYS {
            self.active_window_keys.remove(0);
        }
        self.active_window_keys.push(key);
        proof {
            assert(self@.active_window_keys =~= spec_push_bounded(
                old(self)@.active_window_keys,
                key@,
            ));
        }
    }

    /// Return a copy of all active-window keys, oldest first.
    pub fn get_active_window_keys(&self) -> (r: Vec<KeyEvent>)
        ensures
            r@ == self.active_window_keys@,
    {
        clone_keys(&self.active_window_keys)
    }

    /// Return a copy of the most recent active-window key, if any.
    pub fn get_latest_active_window_key(&self) -> (r: Option<KeyEvent>)
        ensures
            r == (if self.active_window_keys@.len() == 0 {
                None::<KeyEvent>
            } else {
                Some(self.active_window_keys@.last())
            }),
    {
        latest_key(&self.active_window_keys)
    }

    /// Clear the active-window keys. The sequence counter is not reset.
    pub fn clear_active_window_keys(&mut self)
        ensures
            final(self)@ == (StateV { active_window_keys: Seq::empty(), ..old(self)@ }),
    {
        self.active_window_keys.clear();
        proof {
            assert(self@.active_window_keys =~= Seq::<KeyEventV>::empty());
        }
    }

    pub fn is_continuous_play(&self) -> (r: bool)
        ensures
            r == self.continuous_play,
    {
        self.continuous_play
    }

    pub fn set_continuous_play(&mut self, enabled: bool)
        ensures
            final(self)@ == (StateV { continuous_play: enabled, ..old(self)@ }),
    {
        self.continuous_play = enabled;
    }

    /// Toggle continuous play; returns the new value.
    pub fn toggle_continuous_play(&mut self) -> (r: bool)
        ensures
            r == final(self).continuous_play,
            final(self)@ == (StateV { continuous_play: !old(self).continuous_play, ..old(self)@ }),
    {
        self.continuous_play = !self.continuous_play;
        self.continuous_play
    }

    pub fn is_tts_speaking(&self) -> (r: bool)
        ensures
            r == self.tts_is_speaking,
    {
        self.tts_is_speaking
    }

    /// Record the raw keyboard-layout handle read from the system.
    pub fn set_input_language(&mut self, hkl: u32)
        ensures
            final(self)@ == (StateV { input_language: hkl, ..old(self)@ }),
    {
        self.input_language = hkl;
    }

    /// The language denoted by the cached keyboard-layout handle.
    pub fn get_input_language(&self) -> (r: InputLanguage)
        ensures
            r == spec_language_of(self.input_language),
    {
        InputLanguage::from_raw(self.input_language)
    }

    /// The cached keyboard-layout handle itself.
    pub fn get_input_language_raw(&self) -> (r: u32)
        ensures
            r == self.input_language,
    {
        self.input_language
    }

    pub fn set_previous_window(&mut self, hwnd: isize)
        ensures
            final(self)@ == (StateV { previous_window_hwnd: hwnd, ..old(self)@ }),
    {
        self.previous_window_hwnd = hwnd;
    }

    pub fn get_previous_window(&self) -> (r: isize)
        ensures
            r == self.previous_window_hwnd,
    {
        self.previous_window_hwnd
    }

    pub fn set_app_window_hwnd(&mut self, hwnd: isize)
        ensures
            final(self)@ == (StateV { app_window_hwnd: hwnd, ..old(self)@ }),
    {
        self.app_window_hwnd = hwnd;
    }

    pub fn get_app_window_hwnd(&self) -> (r: isize)
        ensures
            r == self.app_window_hwnd,
    {
        self.app_window_hwnd
    }

    pub fn get_current_tts_message_id(&self) -> (r: Option<String>)
        ensures
            match (r, &self.tts_current_message_id) {
                (Some(a), Some(b)) => a@ == b@,
                (None, None) => true,
                _ => false,
            },
    {
        match &self.tts_current_message_id {
            Some(id) => Some(id.clone()),
            None => None,
        }
    }

    pub fn set_current_tts_message_id(&mut self, id: Option<String>)
        ensures
            final(self).tts_current_message_id == id,
            final(self)@ == (StateV {
                tts_current_message_id: final(self)@.tts_current_message_id,
                ..old(self)@
            }),
    {
        self.tts_current_message_id = id;
    }

    /// The queued message to play next: the first one with the earliest
    /// timestamp, as its identifier and text. `None` exactly when nothing
    /// is queued.
    pub fn next_queued_message(&self) -> (r: Option<(String, String)>)
        ensures
            r is None <==> (forall|k: int|
                0 <= k < self.tts_history@.len() ==> (#[trigger] self.tts_history@[k]).status
                    != TtsMessageStatus::Queued),
            r matches Some(p) ==> exists|j: int|
                {
                    &&& #[trigger] spec_next_queued_upto(
                        self.tts_history@,
                        j,
                        self.tts_history@.len() as int,
                    )
                    &&& p.0@ == self.tts_history@[j].id@
                    &&& p.1@ == self.tts_history@[j].text@
                },
    {
        let h = &self.tts_history;
        let mut best: Option<usize> = None;
        let mut i: usize = 0;
        while i < h.len()
            invariant
                i <= h@.len(),
                match best {
                    None => forall|k: int|
                        0 <= k < i ==> (#[trigger] h@[k]).status != TtsMessageStatus::Queued,
                    Some(b) => spec_next_queued_upto(h@, b as int, i as int),
                },
            decreases h@.len() - i,
        {
            if h[i].status == TtsMessageStatus::Queued {
                match best {
                    None => {
                        best = Some(i);
                    },
                    Some(b) => {
                        if h[i].timestamp < h[b].timestamp {
                            best = Some(i);
                        }
                    },
                }
            }
            i = i + 1;
        }
        match best {
            Some(b) => {
                proof {
                    assert(spec_next_queued_upto(h@, b as int, h@.len() as int));
                }
                Some((h[b].id.clone(), h[b].text.clone()))
            },
            None => None,
        }
    }

    /// Add a new message to the history, evicting old completed messages
    /// when the capacity is reached. Returns the new message's identifier.
    pub fn add_tts_message(&mut self, text: String, timestamp: u64) -> (r: String)
        ensures
            final(self)@ == (StateV { tts_history: final(self)@.tts_history, ..old(self)@ }),
            final(self).tts_history@.drop_last() == spec_evict_history(old(self).tts_history@),
            ({
                let m = final(self).tts_history@.last();
                &&& m.text == text
                &&& m.timestamp == timestamp
                &&& m.status == TtsMessageStatus::Queued
                &&& !m.locked
                &&& r@ == m.id@
            }),
    {
        if self.tts_history.len() >= MAX_TTS_MESSAGES {
            let kept = filter_messages(&self.tts_history, true);
            self.tts_history = kept;
            let ghost kept0 = self.tts_history@;
            while self.tts_history.len() >= MAX_TTS_MESSAGES
                invariant
                    self@ == (StateV { tts_history: self@.tts_history, ..old(self)@ }),
                    spec_trim_history(self.tts_history@) == spec_trim_history(kept0),
                ensures
                    self.tts_history@ == spec_trim_history(kept0),
                decreases self.tts_history@.len(),
            {
                let found = rposition_completed(&self.tts_history);
                match found {
                    Some(j) => {
                        self.tts_history.remove(j);
                    },
                    None => {
                        break ;
                    },
                }
            }
        }
        let message = TtsMessage::new(text, timestamp);
        let id = message.id.clone();
        self.tts_history.push(message);
        proof {
            assert(self.tts_history@.drop_last() =~= spec_evict_history(old(self).tts_history@));
        }
        id
    }

    /// All messages, ordered for display: playing first, then queued, then
    /// locked completed and other completed messages, each group newest
    /// first.
    pub fn get_tts_history(&self) -> (r: Vec<TtsMessage>)
        ensures
            r@ == self.tts_history@.filter(|m: TtsMessage| m.status == TtsMessageStatus::Playing)
                + self.tts_history@.filter(|m: TtsMessage| m.status == TtsMessageStatus::Queued)
                + spec_sort_desc(
                self.tts_history@.filter(
                    |m: TtsMessage| m.status == TtsMessageStatus::Completed && m.locked,
                ),
            ) + spec_sort_desc(
                self.tts_history@.filter(
                    |m: TtsMessage| m.status == TtsMessageStatus::Completed && !m.locked,
                ),
            ),
    {
        let mut playing: Vec<TtsMessage> = Vec::new();
        let mut queued: Vec<TtsMessage> = Vec::new();
        let mut locked_completed: Vec<TtsMessage> = Vec::new();
        let mut other_completed: Vec<TtsMessage> = Vec::new();
        let h = &self.tts_history;
        let mut i: usize = 0;
        while i < h.len()
            invariant
                i <= h@.len(),
                playing@ =~= h@.take(i as int).filter(
                    |m: TtsMessage| m.status == TtsMessageStatus::Playing,
                ),
                queued@ =~= h@.take(i as int).filter(
                    |m: TtsMessage| m.status == TtsMessageStatus::Queued,
                ),
                locked_completed@ =~= h@.take(i as int).filter(
                    |m: TtsMessage| m.status == TtsMessageStatus::Completed && m.locked,
                ),
                other_completed@ =~= h@.take(i as int).filter(
                    |m: TtsMessage| m.status == TtsMessageStatus::Completed && !m.locked,
                ),
            decreases h@.len() - i,
        {
            proof {
                reveal_with_fuel(Seq::filter, 2);
                assert(h@.take(i as int + 1).drop_last() =~= h@.take(i as int));
                assert(h@.take(i as int + 1).last() == h@[i as int]);
            }
            match h[i].status {
                TtsMessageStatus::Playing => playing.push(h[i].clone()),
                TtsMessageStatus::Queued => queued.push(h[i].clone()),
                TtsMessageStatus::Completed => {
                    if h[i].locked {
                        locked_completed.push(h[i].clone());
                    } else {
                        other_completed.push(h[i].clone());
                    }
                },
            }
            i = i + 1;
        }
        proof {
            assert(h@.take(h@.len() as int) =~= h@);
        }
        let locked_sorted = sort_desc(locked_completed);
        let other_sorted = sort_desc(other_completed);
        let mut result = playing;
        append_all(&mut result, queued);
        append_all(&mut result, locked_sorted);
        append_all(&mut result, other_sorted);
        result
    }

    /// Set the status of the first message carrying the identifier, if
    /// any.
    pub fn update_tts_message_status(&mut self, id: &str, status: TtsMessageStatus)
        ensures
            final(self)@ == (StateV { tts_history: final(self)@.tts_history, ..old(self)@ }),
            ({
                let j = spec_find_msg(old(self).tts_history@, id@);
                if j == -1 {
                    final(self).tts_history@ == old(self).tts_history@
                } else {
                    final(self).tts_history@ == old(self).tts_history@.update(
                        j,
                        (TtsMessage { status, ..old(self).tts_history@[j] }),
                    )
                }
            }),
    {
        let n = self.tts_history.len();
        let mut i: usize = 0;
        while i < n
            invariant
                n == self.tts_history@.len(),
                i <= n,
                *self == *old(self),
                forall|k: int| 0 <= k < i ==> self.tts_history@[k].id@ != id@,
            decreases n - i,
        {
            if str_eq(self.tts_history[i].id.as_str(), id) {
                proof {
                    lemma_find_msg_first(self.tts_history@, id@, i as int);
                }
                let updated = self.tts_history[i].clone().with_status(status);
                self.tts_history.set(i, updated);
                return ;
            }
            i = i + 1;
        }
        proof {
            lemma_find_msg_none(self.tts_history@, id@);
        }
    }

    /// Toggle the locked flag of the first message carrying the
    /// identifier; returns the new flag, or false when no message carries
    /// it.
    pub fn toggle_tts_message_locked(&mut self, id: &str) -> (r: bool)
        ensures
            final(self)@ == (StateV { tts_history: final(self)@.tts_history, ..old(self)@ }),
            ({
                let j = spec_find_msg(old(self).tts_history@, id@);
                if j == -1 {
                    final(self).tts_history@ == old(self).tts_history@ && r == false
                } else {
                    final(self).tts_history@ == old(self).tts_history@.update(
                        j,
                        (TtsMessage {
                            locked: !old(self).tts_history@[j].locked,
                            ..old(self).tts_history@[j]
                        }),
                    ) && r == !old(self).tts_history@[j].locked
                }
            }),
    {
        let n = self.tts_history.len();
        let mut i: usize = 0;
        while i < n
            invariant
                n == self.tts_history@.len(),
                i <= n,
                *self == *old(self),
                forall|k: int| 0 <= k < i ==> self.tts_history@[k].id@ != id@,
            decreases n - i,
        {
            if str_eq(self.tts_history[i].id.as_str(), id) {
                proof {
                    lemma_find_msg_first(self.tts_history@, id@, i as int);
                }
                let new_locked = !self.tts_history[i].locked;
                let updated = self.tts_history[i].clone().with_locked(new_locked);
                self.tts_history.set(i, updated);
                return new_locked;
            }
            i = i + 1;
        }
        proof {
            lemma_find_msg_none(self.tts_history@, id@);
        }
        false
    }

    /// Delete the first message carrying the identifier, unless it is
    /// currently playing; returns whether a message was deleted.
    pub fn delete_tts_message(&mut self, id: &str) -> (r: bool)
        ensures
            final(self)@ == (StateV { tts_history: final(self)@.tts_history, ..old(self)@ }),
            ({
                let j = spec_find_msg(old(self).tts_history@, id@);
                if j == -1 {
                    final(self).tts_history@ == old(self).tts_history@ && r == false
                } else if old(self).tts_history@[j].status == TtsMessageStatus::Playing {
                    final(self).tts_history@ == old(self).tts_history@ && r == false
                } else {
                    final(self).tts_history@ == old(self).tts_history@.remove(j) && r == true
                }
            }),
    {
        let n = self.tts_history.len();
        let mut i: usize = 0;
        while i < n
            invariant
                n == self.tts_history@.len(),
                i <= n,
                *self == *old(self),
                forall|k: int| 0 <= k < i ==> self.tts_history@[k].id@ != id@,
            decreases n - i,
        {
            if str_eq(self.tts_history[i].id.as_str(), id) {
                proof {
                    lemma_find_msg_first(self.tts_history@, id@, i as int);
                }
                if self.tts_history[i].status == TtsMessageStatus::Playing {
                    return false;
                }
                self.tts_history.remove(i);
                return true;
            }
            i = i + 1;
        }
        proof {
            lemma_find_msg_none(self.tts_history@, id@);
        }
        false
    }

    /// Drop every completed, unlocked message; playing, queued, and locked
    /// messages stay.
    pub fn clear_tts_history(&mut self)
        ensures
            final(self)@ == (StateV { tts_history: final(self)@.tts_history, ..old(self)@ }),
            final(self).tts_history@ == old(self).tts_history@.filter(
                |m: TtsMessage| m.locked || m.status == TtsMessageStatus::Playing || m.status
                    == TtsMessageStatus::Queued,
            ),
    {
        let mut kept: Vec<TtsMessage> = Vec::new();
        let n = self.tts_history.len();
        let mut i: usize = 0;
        while i < n
            invariant
                n == self.tts_history@.len(),
                i <= n,
                *self == *old(self),
                kept@ =~= self.tts_history@.take(i as int).filter(
                    |m: TtsMessage| m.locked || m.status == TtsMessageStatus::Playing || m.status
                        == TtsMessageStatus::Queued,
                ),
            decreases n - i,
        {
            proof {
                reveal_with_fuel(Seq::filter, 2);
                assert(self.tts_history@.take(i as int + 1).drop_last() =~= self.tts_history@.take(
                    i as int,
                ));
                assert(self.tts_history@.take(i as int + 1).last() == self.tts_history@[i as int]);
            }
            let keep = self.tts_history[i].locked || match self.tts_history[i].status {
                TtsMessageStatus::Playing => true,
                TtsMessageStatus::Queued => true,
                TtsMessageStatus::Completed => false,
            };
            if keep {
                kept.push(self.tts_history[i].clone());
            }
            i = i + 1;
        }
        proof {
            assert(self.tts_history@.take(n as int) =~= self.tts_history@);
        }
        self.tts_history = kept;
    }
}

/// Move every element of the second queue onto the end of the first.
fn append_all(dst: &mut Vec<TtsMessage>, src: Vec<TtsMessage>)
    ensures
        final(dst)@ == old(dst)@ + src@,
{
    let mut rest = src;
    let n = rest.len();
    let mut i: usize = 0;
    while i < n
        invariant
            n == rest@.len(),
            i <= n,
            dst@ =~= old(dst)@ + rest@.take(i as int),
        decreases n - i,
    {
        let m = rest[i].clone();
        dst.push(m);
        proof {
            assert(dst@ =~= old(dst)@ + rest@.take(i as int + 1));
        }
        i = i + 1;
    }
    proof {
        assert(rest@.take(n as int) =~= rest@);
    }
}

/// Whether position `j` holds the message to play next among the first `n`:
/// it is queued, none of the first `n` queued messages has an earlier
/// timestamp, and every earlier queued message has a strictly later one.
pub open spec fn spec_next_queued_upto(s: Seq<TtsMessage>, j: int, n: int) -> bool {
    &&& 0 <= j < n <= s.len()
    &&& s[j].status == TtsMessageStatus::Queued
    &&& (forall|k: int|
        0 <= k < n && (#[trigger] s[k]).status == TtsMessageStatus::Queued ==> s[j].timestamp
            <= s[k].timestamp)
    &&& (forall|k: int|
        0 <= k < j && (#[trigger] s[k]).status == TtsMessageStatus::Queued ==> s[j].timestamp
            < s[k].timestamp)
}

/// The position of the first message carrying the given identifier, or -1.
pub open spec fn spec_find_msg(s: Seq<TtsMessage>, id: Seq<char>) -> int
    decreases s.len(),
{
    if s.len() == 0 {
        -1
    } else if s[0].id@ == id {
        0
    } else {
        let r = spec_find_msg(s.drop_first(), id);
        if r == -1 {
            -1
        } else {
            r + 1
        }
    }
}

/// If no message up to `i` carries the identifier and the one at `i` does,
/// then `i` is the first position carrying it.
proof fn lemma_find_msg_first(s: Seq<TtsMessage>, id: Seq<char>, i: int)
    requires
        0 <= i < s.len(),
        s[i].id@ == id,
        forall|k: int| 0 <= k < i ==> s[k].id@ != id,
    ensures
        spec_find_msg(s, id) == i,
    decreases i,
{
    if i > 0 {
        lemma_find_msg_first(s.drop_first(), id, i - 1);
    }
}

/// If no message carries the identifier, none is found.
proof fn lemma_find_msg_none(s: Seq<TtsMessage>, id: Seq<char>)
    requires
        forall|k: int| 0 <= k < s.len() ==> s[k].id@ != id,
    ensures
        spec_find_msg(s, id) == -1,
    decreases s.len(),
{
    if s.len() > 0 {
        lemma_find_msg_none(s.drop_first(), id);
    }
}

/// The position of the last completed message, or -1.
pub open spec fn spec_last_completed(s: Seq<TtsMessage>) -> int
    decreases s.len(),
{
    if s.len() == 0 {
        -1
    } else if s.last().status == TtsMessageStatus::Completed {
        s.len() - 1
    } else {
        spec_last_completed(s.drop_last())
    }
}

/// If the message at `j` is completed and none after it is, then `j` is
/// the last completed position.
proof fn lemma_last_completed_at(s: Seq<TtsMessage>, j: int)
    requires
        0 <= j < s.len(),
        s[j].status == TtsMessageStatus::Completed,
        forall|k: int| j < k < s.len() ==> s[k].status != TtsMessageStatus::Completed,
    ensures
        spec_last_completed(s) == j,
    decreases s.len(),
{
    if j < s.len() - 1 {
        assert(s.drop_last() =~= s.take(s.len() - 1));
        lemma_last_completed_at(s.drop_last(), j);
    }
}

/// If no message is completed, none is found.
proof fn lemma_last_completed_none(s: Seq<TtsMessage>)
    requires
        forall|k: int| 0 <= k < s.len() ==> s[k].status != TtsMessageStatus::Completed,
    ensures
        spec_last_completed(s) == -1,
    decreases s.len(),
{
    if s.len() > 0 {
        lemma_last_completed_none(s.drop_last());
    }
}

/// Whether the history keeps a message when the capacity is reached: it is
/// not yet completed, or it is locked.
pub open spec fn spec_history_keeps(m: TtsMessage) -> bool {
    m.status != TtsMessageStatus::Completed || m.locked
}

/// Remove the last completed message while the history is at or over
/// capacity, as long as one exists.
pub open spec fn spec_trim_history(s: Seq<TtsMessage>) -> Seq<TtsMessage>
    decreases s.len(),
{
    if s.len() < MAX_TTS_MESSAGES {
        s
    } else {
        let j = spec_last_completed(s);
        if j < 0 || j >= s.len() {
            s
        } else {
            spec_trim_history(s.remove(j))
        }
    }
}

/// What the history holds after making room for one more message: under
/// capacity it is untouched; at capacity, completed unlocked messages are
/// dropped first, then the last completed messages until under capacity or
/// none is left.
pub open spec fn spec_evict_history(s: Seq<TtsMessage>) -> Seq<TtsMessage> {
    if s.len() < MAX_TTS_MESSAGES {
        s
    } else {
        spec_trim_history(s.filter(|m: TtsMessage| spec_history_keeps(m)))
    }
}

/// Insert a message into a sequence sorted by descending timestamp, after
/// every message with an equal or later timestamp.
pub open spec fn spec_insert_desc(s: Seq<TtsMessage>, m: TtsMessage) -> Seq<TtsMessage>
    decreases s.len(),
{
    if s.len() == 0 {
        seq![m]
    } else if s.last().timestamp >= m.timestamp {
        s.push(m)
    } else {
        spec_insert_desc(s.drop_last(), m).push(s.last())
    }
}

/// Stable sort by descending timestamp: messages with equal timestamps
/// keep their order.
pub open spec fn spec_sort_desc(s: Seq<TtsMessage>) -> Seq<TtsMessage>
    decreases s.len(),
{
    if s.len() == 0 {
        s
    } else {
        spec_insert_desc(spec_sort_desc(s.drop_last()), s.last())
    }
}

/// The position of the last completed message of a queue, if any.
fn rposition_completed(v: &Vec<TtsMessage>) -> (r: Option<usize>)
    ensures
        match r {
            Some(j) => {
                &&& j < v@.len()
                &&& v@[j as int].status == TtsMessageStatus::Completed
                &&& spec_last_completed(v@) == j
            },
            None => spec_last_completed(v@) == -1,
        },
{
    let mut k = v.len();
    while k > 0
        invariant
            k <= v@.len(),
            forall|t: int| k <= t < v@.len() ==> v@[t].status != TtsMessageStatus::Completed,
        decreases k,
    {
        k = k - 1;
        if v[k].status == TtsMessageStatus::Completed {
            proof {
                lemma_last_completed_at(v@, k as int);
            }
            return Some(k);
        }
    }
    proof {
        lemma_last_completed_none(v@);
    }
    None
}

/// Copy the messages that a predicate keeps, in order.
fn filter_messages(v: &Vec<TtsMessage>, keep_completed_locked: bool) -> (r: Vec<TtsMessage>)
    ensures
        keep_completed_locked ==> r@ == v@.filter(|m: TtsMessage| spec_history_keeps(m)),
{
    let mut r: Vec<TtsMessage> = Vec::new();
    let mut i: usize = 0;
    while i < v.len()
        invariant
            i <= v@.len(),
            r@ =~= v@.take(i as int).filter(|m: TtsMessage| spec_history_keeps(m)),
        decreases v@.len() - i,
    {
        proof {
            reveal_with_fuel(Seq::filter, 2);
            assert(v@.take(i as int + 1).drop_last() =~= v@.take(i as int));
            assert(v@.take(i as int + 1).last() == v@[i as int]);
        }
        let keep = match v[i].status {
            TtsMessageStatus::Completed => v[i].locked,
            _ => true,
        };
        if keep {
            r.push(v[i].clone());
        }
        i = i + 1;
    }
    proof {
        assert(v@.take(v@.len() as int) =~= v@);
    }
    r
}

/// Insert a message into a queue sorted by descending timestamp, after
/// every entry with an equal or later timestamp.
fn insert_desc(r: &mut Vec<TtsMessage>, key: TtsMessage)
    ensures
        final(r)@ == spec_insert_desc(old(r)@, key),
{
    let mut j: usize = r.len();
    proof {
        assert(r@.take(j as int) =~= r@);
        assert(r@.skip(j as int) =~= Seq::<TtsMessage>::empty());
        assert(spec_insert_desc(r@, key) =~= spec_insert_desc(r@.take(j as int), key) + r@.skip(
            j as int,
        ));
    }
    while j > 0 && r[j - 1].timestamp < key.timestamp
        invariant
            j <= r@.len(),
            spec_insert_desc(r@, key) =~= spec_insert_desc(r@.take(j as int), key) + r@.skip(
                j as int,
            ),
        decreases j,
    {
        proof {
            assert(r@.take(j as int).drop_last() =~= r@.take(j as int - 1));
            assert(r@.take(j as int).last() == r@[j as int - 1]);
            assert(spec_insert_desc(r@.take(j as int - 1), key).push(r@[j as int - 1]) + r@.skip(
                j as int,
            ) =~= spec_insert_desc(r@.take(j as int - 1), key) + r@.skip(j as int - 1));
        }
        j = j - 1;
    }
    proof {
        if j > 0 {
            assert(r@.take(j as int).last() == r@[j as int - 1]);
            assert(spec_insert_desc(r@.take(j as int), key) == r@.take(j as int).push(key));
        } else {
            assert(r@.take(0).len() == 0);
            assert(spec_insert_desc(r@.take(0), key) =~= seq![key]);
        }
        assert(old(r)@.insert(j as int, key) =~= r@.take(j as int).push(key) + r@.skip(j as int));
    }
    r.insert(j, key);
}

/// Stable sort by descending timestamp.
fn sort_desc(v: Vec<TtsMessage>) -> (r: Vec<TtsMessage>)
    ensures
        r@ == spec_sort_desc(v@),
{
    let mut r: Vec<TtsMessage> = Vec::new();
    let mut i: usize = 0;
    while i < v.len()
        invariant
            i <= v@.len(),
            r@ == spec_sort_desc(v@.take(i as int)),
        decreases v@.len() - i,
    {
        proof {
            assert(v@.take(i as int + 1).drop_last() =~= v@.take(i as int));
            assert(v@.take(i as int + 1).last() == v@[i as int]);
        }
        insert_desc(&mut r, v[i].clone());
        i = i + 1;
    }
    proof {
        assert(v@.take(v@.len() as int) =~= v@);
    }
    r
}

/// Copy every event of a queue, in order.
fn clone_keys(keys: &Vec<KeyEvent>) -> (r: Vec<KeyEvent>)
    ensures
        r@ == keys@,
{
    let mut r: Vec<KeyEvent> = Vec::new();
    let mut i: usize = 0;
    while i < keys.len()
        invariant
            i <= keys@.len(),
            r@ =~= keys@.take(i as int),
        decreases keys@.len() - i,
    {
        r.push(keys[i].clone());
        i = i + 1;
    }
    proof {
        assert(r@ =~= keys@);
    }
    r
}

/// Copy the events with a sequence number above the given one, in order.
fn filter_keys_after(keys: &Vec<KeyEvent>, after_seq_num: u64) -> (r: Vec<KeyEvent>)
    ensures
        r@ == keys@.filter(|k: KeyEvent| k.seq_num > after_seq_num),
{
    let mut r: Vec<KeyEvent> = Vec::new();
    let mut i: usize = 0;
    while i < keys.len()
        invariant
            i <= keys@.len(),
            r@ =~= keys@.take(i as int).filter(|k: KeyEvent| k.seq_num > after_seq_num),
        decreases keys@.len() - i,
    {
        proof {
            reveal_with_fuel(Seq::filter, 2);
            assert(keys@.take(i as int + 1).drop_last() =~= keys@.take(i as int));
            assert(keys@.take(i as int + 1).last() == keys@[i as int]);
        }
        if keys[i].seq_num > after_seq_num {
            r.push(keys[i].clone());
        }
        i = i + 1;
    }
    proof {
        assert(keys@.take(keys@.len() as int) =~= keys@);
    }
    r
}

/// Copy the most recent event of a queue, if any.
fn latest_key(keys: &Vec<KeyEvent>) -> (r: Option<KeyEvent>)
    ensures
        r == (if keys@.len() == 0 {
            None::<KeyEvent>
        } else {
            Some(keys@.last())
        }),
{
    if keys.len() == 0 {
        None
    } else {
        Some(keys[keys.len() - 1].clone())
    }
}

} // verus!
