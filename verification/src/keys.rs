//! Key classifier: maps a virtual key code to a stable human-readable label.
//!
//! The mapping is a pure function of the code; unrecognized codes fall back
//! to a hexadecimal rendering of the raw value.

use vstd::prelude::*;

verus! {

/// Label of a single hexadecimal digit (also used for decimal digits).
pub open spec fn spec_hex_digit(d: u32) -> Seq<char> {
    if d == 0 {
        "0"@
    } else if d == 1 {
        "1"@
    } else if d == 2 {
        "2"@
    } else if d == 3 {
        "3"@
    } else if d == 4 {
        "4"@
    } else if d == 5 {
        "5"@
    } else if d == 6 {
        "6"@
    } else if d == 7 {
        "7"@
    } else if d == 8 {
        "8"@
    } else if d == 9 {
        "9"@
    } else if d == 10 {
        "A"@
    } else if d == 11 {
        "B"@
    } else if d == 12 {
        "C"@
    } else if d == 13 {
        "D"@
    } else if d == 14 {
        "E"@
    } else {
        "F"@
    }
}

pub(crate) fn hex_digit_str(d: u32) -> (r: &'static str)
    requires
        d < 16,
    ensures
        r@ == spec_hex_digit(d),
{
    if d == 0 {
        "0"
    } else if d == 1 {
        "1"
    } else if d == 2 {
        "2"
    } else if d == 3 {
        "3"
    } else if d == 4 {
        "4"
    } else if d == 5 {
        "5"
    } else if d == 6 {
        "6"
    } else if d == 7 {
        "7"
    } else if d == 8 {
        "8"
    } else if d == 9 {
        "9"
    } else if d == 10 {
        "A"
    } else if d == 11 {
        "B"
    } else if d == 12 {
        "C"
    } else if d == 13 {
        "D"
    } else if d == 14 {
        "E"
    } else {
        "F"
    }
}

/// Hexadecimal rendering of a value, most significant digit first, no padding.
pub open spec fn spec_hex(v: nat) -> Seq<char>
    decreases v,
{
    if v < 16 {
        spec_hex_digit(v as u32)
    } else {
        spec_hex((v / 16) as nat) + spec_hex_digit((v % 16) as u32)
    }
}

/// Hexadecimal rendering zero-padded to at least four digits.
pub open spec fn spec_hex4(v: nat) -> Seq<char> {
    if v < 0x10 {
        "000"@ + spec_hex(v)
    } else if v < 0x100 {
        "00"@ + spec_hex(v)
    } else if v < 0x1000 {
        "0"@ + spec_hex(v)
    } else {
        spec_hex(v)
    }
}

fn push_hex(s: &mut String, v: u32)
    ensures
        final(s)@ == old(s)@ + spec_hex(v as nat),
    decreases v,
{
    if v < 16 {
        s.append(hex_digit_str(v));
    } else {
        push_hex(s, v / 16);
        s.append(hex_digit_str(v % 16));
        assert(s@ =~= old(s)@ + spec_hex(v as nat));
    }
}

/// Label of a letter key code (`0x41` through `0x5A`).
pub open spec fn spec_letter(vk: u32) -> Seq<char> {
    if vk == 0x41 {
        "A"@
    } else if vk == 0x42 {
        "B"@
    } else if vk == 0x43 {
        "C"@
    } else if vk == 0x44 {
        "D"@
    } else if vk == 0x45 {
        "E"@
    } else if vk == 0x46 {
        "F"@
    } else if vk == 0x47 {
        "G"@
    } else if vk == 0x48 {
        "H"@
    } else if vk == 0x49 {
        "I"@
    } else if vk == 0x4A {
        "J"@
    } else if vk == 0x4B {
        "K"@
    } else if vk == 0x4C {
        "L"@
    } else if vk == 0x4D {
        "M"@
    } else if vk == 0x4E {
        "N"@
    } else if vk == 0x4F {
        "O"@
    } else if vk == 0x50 {
        "P"@
    } else if vk == 0x51 {
        "Q"@
    } else if vk == 0x52 {
        "R"@
    } else if vk == 0x53 {
        "S"@
    } else if vk == 0x54 {
        "T"@
    } else if vk == 0x55 {
        "U"@
    } else if vk == 0x56 {
        "V"@
    } else if vk == 0x57 {
        "W"@
    } else if vk == 0x58 {
        "X"@
    } else if vk == 0x59 {
        "Y"@
    } else {
        "Z"@
    }
}

fn letter_str(vk: u32) -> (r: &'static str)
    requires
        0x41 <= vk <= 0x5A,
    ensures
        r@ == spec_letter(vk),
{
    if vk == 0x41 {
        "A"
    } else if vk == 0x42 {
        "B"
    } else if vk == 0x43 {
        "C"
    } else if vk == 0x44 {
        "D"
    } else if vk == 0x45 {
        "E"
    } else if vk == 0x46 {
        "F"
    } else if vk == 0x47 {
        "G"
    } else if vk == 0x48 {
        "H"
    } else if vk == 0x49 {
        "I"
    } else if vk == 0x4A {
        "J"
    } else if vk == 0x4B {
        "K"
    } else if vk == 0x4C {
        "L"
    } else if vk == 0x4D {
        "M"
    } else if vk == 0x4E {
        "N"
    } else if vk == 0x4F {
        "O"
    } else if vk == 0x50 {
        "P"
    } else if vk == 0x51 {
        "Q"
    } else if vk == 0x52 {
        "R"
    } else if vk == 0x53 {
        "S"
    } else if vk == 0x54 {
        "T"
    } else if vk == 0x55 {
        "U"
    } else if vk == 0x56 {
        "V"
    } else if vk == 0x57 {
        "W"
    } else if vk == 0x58 {
        "X"
    } else if vk == 0x59 {
        "Y"
    } else {
        "Z"
    }
}

/// The full classifier mapping: the label every key code is given.
pub open spec fn spec_key_name(vk: u32) -> Seq<char> {
    if vk == 0x01 {
        "Left Mouse Button"@
    } else if vk == 0x02 {
        "Right Mouse Button"@
    } else if vk == 0x04 {
        "Middle Mouse Button"@
    } else if vk == 0x08 {
        "Backspace"@
    } else if vk == 0x09 {
        "Tab"@
    } else if vk == 0x0D {
        "Enter"@
    } else if vk == 0x10 {
        "Shift"@
    } else if vk == 0x11 {
        "Control"@
    } else if vk == 0x12 {
        "Alt"@
    } else if vk == 0x13 {
        "Pause"@
    } else if vk == 0x14 {
        "Caps Lock"@
    } else if vk == 0x1B {
        "Escape"@
    } else if vk == 0x20 {
        "Space"@
    } else if vk == 0x21 {
        "Page Up"@
    } else if vk == 0x22 {
        "Page Down"@
    } else if vk == 0x23 {
        "End"@
    } else if vk == 0x24 {
        "Home"@
    } else if vk == 0x25 {
        "Left Arrow"@
    } else if vk == 0x26 {
        "Up Arrow"@
    } else if vk == 0x27 {
        "Right Arrow"@
    } else if vk == 0x28 {
        "Down Arrow"@
    } else if vk == 0x2C {
        "Print Screen"@
    } else if vk == 0x2D {
        "Insert"@
    } else if vk == 0x2E {
        "Delete"@
    } else if 0x30 <= vk <= 0x39 {
        "Digit "@ + spec_hex_digit((vk - 0x30) as u32)
    } else if 0x41 <= vk <= 0x5A {
        spec_letter(vk)
    } else if 0x60 <= vk <= 0x69 {
        "Numpad "@ + spec_hex_digit((vk - 0x60) as u32)
    } else if vk == 0x6A {
        "Numpad Multiply"@
    } else if vk == 0x6B {
        "Numpad Add"@
    } else if vk == 0x6C {
        "Numpad Separator"@
    } else if vk == 0x6D {
        "Numpad Subtract"@
    } else if vk == 0x6E {
        "Numpad Decimal"@
    } else if vk == 0x6F {
        "Numpad Divide"@
    } else if 0x70 <= vk <= 0x87 {
        let f_num = (vk - 0x6F) as u32;
        if f_num < 10 {
            "F"@ + spec_hex_digit(f_num)
        } else {
            "F"@ + spec_hex_digit(f_num / 10) + spec_hex_digit(f_num % 10)
        }
    } else if vk == 0x90 {
        "Num Lock"@
    } else if vk == 0x91 {
        "Scroll Lock"@
    } else if vk == 0xA0 {
        "Left Shift"@
    } else if vk == 0xA1 {
        "Right Shift"@
    } else if vk == 0xA2 {
        "Left Control"@
    } else if vk == 0xA3 {
        "Right Control"@
    } else if vk == 0xA4 {
        "Left Alt"@
    } else if vk == 0xA5 {
        "Right Alt"@
    } else if vk == 0xBA {
        "Semicolon"@
    } else if vk == 0xBB {
        "Equals"@
    } else if vk == 0xBC {
        "Comma"@
    } else if vk == 0xBD {
        "Minus"@
    } else if vk == 0xBE {
        "Period"@
    } else if vk == 0xBF {
        "Slash"@
    } else if vk == 0xC0 {
        "Backtick"@
    } else if vk == 0xDB {
        "Left Bracket"@
    } else if vk == 0xDC {
        "Backslash"@
    } else if vk == 0xDD {
        "Right Bracket"@
    } else if vk == 0xDE {
        "Quote"@
    } else {
        "VK_"@ + spec_hex4(vk as nat)
    }
}

/// Convert a virtual key code to its human-readable name.
pub fn vk_code_to_name(vk_code: u32) -> (r: String)
    ensures
        r@ == spec_key_name(vk_code),
{
    let vk = vk_code;
    if vk == 0x01 {
        String::from_str("Left Mouse Button")
    } else if vk == 0x02 {
        String::from_str("Right Mouse Button")
    } else if vk == 0x04 {
        String::from_str("Middle Mouse Button")
    } else if vk == 0x08 {
        String::from_str("Backspace")
    } else if vk == 0x09 {
        String::from_str("Tab")
    } else if vk == 0x0D {
        String::from_str("Enter")
    } else if vk == 0x10 {
        String::from_str("Shift")
    } else if vk == 0x11 {
        String::from_str("Control")
    } else if vk == 0x12 {
        String::from_str("Alt")
    } else if vk == 0x13 {
        String::from_str("Pause")
    } else if vk == 0x14 {
        String::from_str("Caps Lock")
    } else if vk == 0x1B {
        String::from_str("Escape")
    } else if vk == 0x20 {
        String::from_str("Space")
    } else if vk == 0x21 {
        String::from_str("Page Up")
    } else if vk == 0x22 {
        String::from_str("Page Down")
    } else if vk == 0x23 {
        String::from_str("End")
    } else if vk == 0x24 {
        String::from_str("Home")
    } else if vk == 0x25 {
        String::from_str("Left Arrow")
    } else if vk == 0x26 {
        String::from_str("Up Arrow")
    } else if vk == 0x27 {
        String::from_str("Right Arrow")
    } else if vk == 0x28 {
        String::from_str("Down Arrow")
    } else if vk == 0x2C {
        String::from_str("Print Screen")
    } else if vk == 0x2D {
        String::from_str("Insert")
    } else if vk == 0x2E {
        String::from_str("Delete")
    } else if 0x30 <= vk && vk <= 0x39 {
        let mut s = String::from_str("Digit ");
        s.append(hex_digit_str(vk - 0x30));
        s
    } else if 0x41 <= vk && vk <= 0x5A {
        String::from_str(letter_str(vk))
    } else if 0x60 <= vk && vk <= 0x69 {
        let mut s = String::from_str("Numpad ");
        s.append(hex_digit_str(vk - 0x60));
        s
    } else if vk == 0x6A {
        String::from_str("Numpad Multiply")
    } else if vk == 0x6B {
        String::from_str("Numpad Add")
    } else if vk == 0x6C {
        String::from_str("Numpad Separator")
    } else if vk == 0x6D {
        String::from_str("Numpad Subtract")
    } else if vk == 0x6E {
        String::from_str("Numpad Decimal")
    } else if vk == 0x6F {
        String::from_str("Numpad Divide")
    } else if 0x70 <= vk && vk <= 0x87 {
        let f_num = vk - 0x6F;
        let mut s = String::from_str("F");
        if f_num < 10 {
            s.append(hex_digit_str(f_num));
        } else {
            s.append(hex_digit_str(f_num / 10));
            s.append(hex_digit_str(f_num % 10));
        }
        s
    } else if vk == 0x90 {
        String::from_str("Num Lock")
    } else if vk == 0x91 {
        String::from_str("Scroll Lock")
    } else if vk == 0xA0 {
        String::from_str("Left Shift")
    } else if vk == 0xA1 {
        String::from_str("Right Shift")
    } else if vk == 0xA2 {
        String::from_str("Left Control")
    } else if vk == 0xA3 {
        String::from_str("Right Control")
    } else if vk == 0xA4 {
        String::from_str("Left Alt")
    } else if vk == 0xA5 {
        String::from_str("Right Alt")
    } else if vk == 0xBA {
        String::from_str("Semicolon")
    } else if vk == 0xBB {
        String::from_str("Equals")
    } else if vk == 0xBC {
        String::from_str("Comma")
    } else if vk == 0xBD {
        String::from_str("Minus")
    } else if vk == 0xBE {
        String::from_str("Period")
    } else if vk == 0xBF {
        String::from_str("Slash")
    } else if vk == 0xC0 {
        String::from_str("Backtick")
    } else if vk == 0xDB {
        String::from_str("Left Bracket")
    } else if vk == 0xDC {
        String::from_str("Backslash")
    } else if vk == 0xDD {
        String::from_str("Right Bracket")
    } else if vk == 0xDE {
        String::from_str("Quote")
    } else {
        let mut s = String::from_str("VK_");
        if vk < 0x10 {
            s.append("000");
        } else if vk < 0x100 {
            s.append("00");
        } else if vk < 0x1000 {
            s.append("0");
        }
        push_hex(&mut s, vk);
        s
    }
}

} // verus!
