//! Snapshots of the session state as the user interface reads them: the
//! status summary and the key-queue responses.

use vstd::prelude::*;

use crate::state::spec_language_of;
use crate::state::spec_mode_str;
use crate::state::AppState;
use crate::state::InputLanguage;
use crate::state::KeyEvent;

verus! {

/// Summary of the keyboard interceptor's state.
#[derive(Debug, PartialEq)]
pub struct StatusResponse {
    pub blocking_enabled: bool,
    pub win_pressed: bool,
    pub always_on_top: bool,
    pub auto_show_on_block: bool,
    pub caps_lock: bool,
    pub input_language: String,
    pub hotkey_mode: String,
}

/// A key queue together with its most recent entry.
#[derive(Debug, PartialEq)]
pub struct KeysResponse {
    pub keys: Vec<KeyEvent>,
    pub latest_key: Option<KeyEvent>,
}

/// The two-letter code of a language.
pub open spec fn spec_language_code(l: InputLanguage) -> Seq<char> {
    match l {
        InputLanguage::Ru => "ru"@,
        InputLanguage::En => "en"@,
    }
}

/// The current status of the keyboard interceptor.
pub fn get_status(state: &AppState) -> (r: StatusResponse)
    ensures
        r.blocking_enabled == state.blocking_enabled,
        r.win_pressed == state.win_pressed,
        r.always_on_top == state.always_on_top,
        r.auto_show_on_block == state.auto_show_on_block,
        r.caps_lock == state.caps_lock,
        r.input_language@ == spec_language_code(spec_language_of(state.input_language)),
        r.hotkey_mode@ == spec_mode_str(state.hotkey_mode),
{
    StatusResponse {
        blocking_enabled: state.is_blocking_enabled(),
        win_pressed: state.is_win_pressed(),
        always_on_top: state.is_always_on_top(),
        auto_show_on_block: state.is_auto_show_on_block(),
        caps_lock: state.is_caps_lock(),
        input_language: String::from_str(state.get_input_language().code()),
        hotkey_mode: String::from_str(state.get_hotkey_mode().as_str()),
    }
}

/// The intercepted keys and the most recent one; with a sequence number
/// given, only the keys recorded after it.
pub fn get_intercepted_keys(state: &AppState, after_seq_num: Option<u64>) -> (r: KeysResponse)
    ensures
        r.keys@ == (match after_seq_num {
            Some(seq) => state.intercepted_keys@.filter(|k: KeyEvent| k.seq_num > seq),
            None => state.intercepted_keys@,
        }),
        r.latest_key == (if state.intercepted_keys@.len() == 0 {
            None::<KeyEvent>
        } else {
            Some(state.intercepted_keys@.last())
        }),
{
    let keys = match after_seq_num {
        Some(seq) => state.get_keys_after(seq),
        None => state.get_keys(),
    };
    let latest_key = state.get_latest_key();
    KeysResponse { keys, latest_key }
}

/// The keys seen while the host window was focused, and the most recent
/// one.
pub fn get_active_window_keys(state: &AppState) -> (r: KeysResponse)
    ensures
        r.keys@ == state.active_window_keys@,
        r.latest_key == (if state.active_window_keys@.len() == 0 {
            None::<KeyEvent>
        } else {
            Some(state.active_window_keys@.last())
        }),
{
    let keys = state.get_active_window_keys();
    let latest_key = state.get_latest_active_window_key();
    KeysResponse { keys, latest_key }
}

} // verus!
