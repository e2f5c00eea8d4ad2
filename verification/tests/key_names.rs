//! Exact expected values of the key classifier.

use app_tts::vk_code_to_name;

#[test]
fn named_keys() {
    assert_eq!(vk_code_to_name(0x08), "Backspace");
    assert_eq!(vk_code_to_name(0x0D), "Enter");
    assert_eq!(vk_code_to_name(0x10), "Shift");
    assert_eq!(vk_code_to_name(0x14), "Caps Lock");
    assert_eq!(vk_code_to_name(0x1B), "Escape");
    assert_eq!(vk_code_to_name(0x20), "Space");
    assert_eq!(vk_code_to_name(0x2E), "Delete");
    assert_eq!(vk_code_to_name(0x91), "Scroll Lock");
    assert_eq!(vk_code_to_name(0xA0), "Left Shift");
    assert_eq!(vk_code_to_name(0xA5), "Right Alt");
    assert_eq!(vk_code_to_name(0xC0), "Backtick");
    assert_eq!(vk_code_to_name(0xDE), "Quote");
}

#[test]
fn digit_and_letter_keys() {
    assert_eq!(vk_code_to_name(0x30), "Digit 0");
    assert_eq!(vk_code_to_name(0x35), "Digit 5");
    assert_eq!(vk_code_to_name(0x39), "Digit 9");
    assert_eq!(vk_code_to_name(0x41), "A");
    assert_eq!(vk_code_to_name(0x4B), "K");
    assert_eq!(vk_code_to_name(0x5A), "Z");
}

#[test]
fn numpad_and_function_keys() {
    assert_eq!(vk_code_to_name(0x60), "Numpad 0");
    assert_eq!(vk_code_to_name(0x67), "Numpad 7");
    assert_eq!(vk_code_to_name(0x6A), "Numpad Multiply");
    assert_eq!(vk_code_to_name(0x70), "F1");
    assert_eq!(vk_code_to_name(0x78), "F9");
    assert_eq!(vk_code_to_name(0x79), "F10");
    assert_eq!(vk_code_to_name(0x7B), "F12");
    assert_eq!(vk_code_to_name(0x87), "F24");
}

#[test]
fn unknown_keys_fall_back_to_hexadecimal() {
    assert_eq!(vk_code_to_name(0x03), "VK_0003");
    assert_eq!(vk_code_to_name(0xE8), "VK_00E8");
    assert_eq!(vk_code_to_name(0xABC), "VK_0ABC");
    assert_eq!(vk_code_to_name(0xABCD), "VK_ABCD");
    assert_eq!(vk_code_to_name(0x1A2B3), "VK_1A2B3");
    assert_eq!(vk_code_to_name(0xFFFFFFFF), "VK_FFFFFFFF");
}
