//! The key chord vocabulary: mapping key names to Linux input key codes,
//! and building the press/release sequence of a chord.

use vstd::prelude::*;
use crate::strutil::{
    eq_ignore_ascii_case, str_eq_ignore_case, spec_trim, trim, spec_split, split_str, spec_dec_str,
    u64_to_string,
};

verus! {

/// The input key code a name stands for, matched without regard to ASCII
/// case: modifiers, function keys, letters, digits, punctuation, media and
/// numpad keys; an unknown name has none.
pub open spec fn spec_key_code(s: Seq<char>) -> Option<u16> {
    if eq_ignore_ascii_case(s, "ctrl"@) || eq_ignore_ascii_case(s, "control"@) {
        Some(29u16)
    } else if eq_ignore_ascii_case(s, "shift"@) {
        Some(42u16)
    } else if eq_ignore_ascii_case(s, "alt"@) {
        Some(56u16)
    } else if eq_ignore_ascii_case(s, "super"@) || eq_ignore_ascii_case(s, "win"@) || eq_ignore_ascii_case(s, "meta"@) {
        Some(125u16)
    } else if eq_ignore_ascii_case(s, "f1"@) {
        Some(59u16)
    } else if eq_ignore_ascii_case(s, "f2"@) {
        Some(60u16)
    } else if eq_ignore_ascii_case(s, "f3"@) {
        Some(61u16)
    } else if eq_ignore_ascii_case(s, "f4"@) {
        Some(62u16)
    } else if eq_ignore_ascii_case(s, "f5"@) {
        Some(63u16)
    } else if eq_ignore_ascii_case(s, "f6"@) {
        Some(64u16)
    } else if eq_ignore_ascii_case(s, "f7"@) {
        Some(65u16)
    } else if eq_ignore_ascii_case(s, "f8"@) {
        Some(66u16)
    } else if eq_ignore_ascii_case(s, "f9"@) {
        Some(67u16)
    } else if eq_ignore_ascii_case(s, "f10"@) {
        Some(68u16)
    } else if eq_ignore_ascii_case(s, "f11"@) {
        Some(87u16)
    } else if eq_ignore_ascii_case(s, "f12"@) {
        Some(88u16)
    } else if eq_ignore_ascii_case(s, "esc"@) || eq_ignore_ascii_case(s, "escape"@) {
        Some(1u16)
    } else if eq_ignore_ascii_case(s, "tab"@) {
        Some(15u16)
    } else if eq_ignore_ascii_case(s, "enter"@) || eq_ignore_ascii_case(s, "return"@) {
        Some(28u16)
    } else if eq_ignore_ascii_case(s, "space"@) {
        Some(57u16)
    } else if eq_ignore_ascii_case(s, "backspace"@) {
        Some(14u16)
    } else if eq_ignore_ascii_case(s, "delete"@) || eq_ignore_ascii_case(s, "del"@) {
        Some(111u16)
    } else if eq_ignore_ascii_case(s, "insert"@) || eq_ignore_ascii_case(s, "ins"@) {
        Some(110u16)
    } else if eq_ignore_ascii_case(s, "home"@) {
        Some(102u16)
    } else if eq_ignore_ascii_case(s, "end"@) {
        Some(107u16)
    } else if eq_ignore_ascii_case(s, "pageup"@) || eq_ignore_ascii_case(s, "pgup"@) {
        Some(104u16)
    } else if eq_ignore_ascii_case(s, "pagedown"@) || eq_ignore_ascii_case(s, "pgdn"@) {
        Some(109u16)
    } else if eq_ignore_ascii_case(s, "up"@) {
        Some(103u16)
    } else if eq_ignore_ascii_case(s, "down"@) {
        Some(108u16)
    } else if eq_ignore_ascii_case(s, "left"@) {
        Some(105u16)
    } else if eq_ignore_ascii_case(s, "right"@) {
        Some(106u16)
    } else if eq_ignore_ascii_case(s, "printscreen"@) || eq_ignore_ascii_case(s, "prtsc"@) {
        Some(99u16)
    } else if eq_ignore_ascii_case(s, "pause"@) {
        Some(119u16)
    } else if eq_ignore_ascii_case(s, "capslock"@) {
        Some(58u16)
    } else if eq_ignore_ascii_case(s, "numlock"@) {
        Some(69u16)
    } else if eq_ignore_ascii_case(s, "scrolllock"@) {
        Some(70u16)
    } else if eq_ignore_ascii_case(s, "a"@) {
        Some(30u16)
    } else if eq_ignore_ascii_case(s, "b"@) {
        Some(48u16)
    } else if eq_ignore_ascii_case(s, "c"@) {
        Some(46u16)
    } else if eq_ignore_ascii_case(s, "d"@) {
        Some(32u16)
    } else if eq_ignore_ascii_case(s, "e"@) {
        Some(18u16)
    } else if eq_ignore_ascii_case(s, "f"@) {
        Some(33u16)
    } else if eq_ignore_ascii_case(s, "g"@) {
        Some(34u16)
    } else if eq_ignore_ascii_case(s, "h"@) {
        Some(35u16)
    } else if eq_ignore_ascii_case(s, "i"@) {
        Some(23u16)
    } else if eq_ignore_ascii_case(s, "j"@) {
        Some(36u16)
    } else if eq_ignore_ascii_case(s, "k"@) {
        Some(37u16)
    } else if eq_ignore_ascii_case(s, "l"@) {
        Some(38u16)
    } else if eq_ignore_ascii_case(s, "m"@) {
        Some(50u16)
    } else if eq_ignore_ascii_case(s, "n"@) {
        Some(49u16)
    } else if eq_ignore_ascii_case(s, "o"@) {
        Some(24u16)
    } else if eq_ignore_ascii_case(s, "p"@) {
        Some(25u16)
    } else if eq_ignore_ascii_case(s, "q"@) {
        Some(16u16)
    } else if eq_ignore_ascii_case(s, "r"@) {
        Some(19u16)
    } else if eq_ignore_ascii_case(s, "s"@) {
        Some(31u16)
    } else if eq_ignore_ascii_case(s, "t"@) {
        Some(20u16)
    } else if eq_ignore_ascii_case(s, "u"@) {
        Some(22u16)
    } else if eq_ignore_ascii_case(s, "v"@) {
        Some(47u16)
    } else if eq_ignore_ascii_case(s, "w"@) {
        Some(17u16)
    } else if eq_ignore_ascii_case(s, "x"@) {
        Some(45u16)
    } else if eq_ignore_ascii_case(s, "y"@) {
        Some(21u16)
    } else if eq_ignore_ascii_case(s, "z"@) {
        Some(44u16)
    } else if eq_ignore_ascii_case(s, "0"@) {
        Some(11u16)
    } else if eq_ignore_ascii_case(s, "1"@) {
        Some(2u16)
    } else if eq_ignore_ascii_case(s, "2"@) {
        Some(3u16)
    } else if eq_ignore_ascii_case(s, "3"@) {
        Some(4u16)
    } else if eq_ignore_ascii_case(s, "4"@) {
        Some(5u16)
    } else if eq_ignore_ascii_case(s, "5"@) {
        Some(6u16)
    } else if eq_ignore_ascii_case(s, "6"@) {
        Some(7u16)
    } else if eq_ignore_ascii_case(s, "7"@) {
        Some(8u16)
    } else if eq_ignore_ascii_case(s, "8"@) {
        Some(9u16)
    } else if eq_ignore_ascii_case(s, "9"@) {
        Some(10u16)
    } else if eq_ignore_ascii_case(s, "-"@) || eq_ignore_ascii_case(s, "minus"@) {
        Some(12u16)
    } else if eq_ignore_ascii_case(s, "="@) || eq_ignore_ascii_case(s, "equal"@) {
        Some(13u16)
    } else if eq_ignore_ascii_case(s, "["@) || eq_ignore_ascii_case(s, "leftbracket"@) {
        Some(26u16)
    } else if eq_ignore_ascii_case(s, "]"@) || eq_ignore_ascii_case(s, "rightbracket"@) {
        Some(27u16)
    } else if eq_ignore_ascii_case(s, "\\"@) || eq_ignore_ascii_case(s, "backslash"@) {
        Some(43u16)
    } else if eq_ignore_ascii_case(s, ";"@) || eq_ignore_ascii_case(s, "semicolon"@) {
        Some(39u16)
    } else if eq_ignore_ascii_case(s, "'"@) || eq_ignore_ascii_case(s, "apostrophe"@) {
        Some(40u16)
    } else if eq_ignore_ascii_case(s, "`"@) || eq_ignore_ascii_case(s, "grave"@) {
        Some(41u16)
    } else if eq_ignore_ascii_case(s, ","@) || eq_ignore_ascii_case(s, "comma"@) {
        Some(51u16)
    } else if eq_ignore_ascii_case(s, "."@) || eq_ignore_ascii_case(s, "period"@) {
        Some(52u16)
    } else if eq_ignore_ascii_case(s, "/"@) || eq_ignore_ascii_case(s, "slash"@) {
        Some(53u16)
    } else if eq_ignore_ascii_case(s, "volumeup"@) || eq_ignore_ascii_case(s, "volup"@) {
        Some(115u16)
    } else if eq_ignore_ascii_case(s, "volumedown"@) || eq_ignore_ascii_case(s, "voldown"@) {
        Some(114u16)
    } else if eq_ignore_ascii_case(s, "mute"@) {
        Some(113u16)
    } else if eq_ignore_ascii_case(s, "playpause"@) || eq_ignore_ascii_case(s, "play"@) {
        Some(164u16)
    } else if eq_ignore_ascii_case(s, "stop"@) {
        Some(166u16)
    } else if eq_ignore_ascii_case(s, "next"@) || eq_ignore_ascii_case(s, "nextsong"@) {
        Some(163u16)
    } else if eq_ignore_ascii_case(s, "prev"@) || eq_ignore_ascii_case(s, "previoussong"@) {
        Some(165u16)
    } else if eq_ignore_ascii_case(s, "kp0"@) || eq_ignore_ascii_case(s, "numpad0"@) {
        Some(82u16)
    } else if eq_ignore_ascii_case(s, "kp1"@) || eq_ignore_ascii_case(s, "numpad1"@) {
        Some(79u16)
    } else if eq_ignore_ascii_case(s, "kp2"@) || eq_ignore_ascii_case(s, "numpad2"@) {
        Some(80u16)
    } else if eq_ignore_ascii_case(s, "kp3"@) || eq_ignore_ascii_case(s, "numpad3"@) {
        Some(81u16)
    } else if eq_ignore_ascii_case(s, "kp4"@) || eq_ignore_ascii_case(s, "numpad4"@) {
        Some(75u16)
    } else if eq_ignore_ascii_case(s, "kp5"@) || eq_ignore_ascii_case(s, "numpad5"@) {
        Some(76u16)
    } else if eq_ignore_ascii_case(s, "kp6"@) || eq_ignore_ascii_case(s, "numpad6"@) {
        Some(77u16)
    } else if eq_ignore_ascii_case(s, "kp7"@) || eq_ignore_ascii_case(s, "numpad7"@) {
        Some(71u16)
    } else if eq_ignore_ascii_case(s, "kp8"@) || eq_ignore_ascii_case(s, "numpad8"@) {
        Some(72u16)
    } else if eq_ignore_ascii_case(s, "kp9"@) || eq_ignore_ascii_case(s, "numpad9"@) {
        Some(73u16)
    } else if eq_ignore_ascii_case(s, "kpenter"@) || eq_ignore_ascii_case(s, "numpadenter"@) {
        Some(96u16)
    } else if eq_ignore_ascii_case(s, "kpplus"@) || eq_ignore_ascii_case(s, "numpadplus"@) {
        Some(78u16)
    } else if eq_ignore_ascii_case(s, "kpminus"@) || eq_ignore_ascii_case(s, "numpadminus"@) {
        Some(74u16)
    } else if eq_ignore_ascii_case(s, "kpmultiply"@) || eq_ignore_ascii_case(s, "numpadmultiply"@) || eq_ignore_ascii_case(s, "kpasterisk"@) {
        Some(55u16)
    } else if eq_ignore_ascii_case(s, "kpdivide"@) || eq_ignore_ascii_case(s, "numpaddivide"@) || eq_ignore_ascii_case(s, "kpslash"@) {
        Some(98u16)
    } else if eq_ignore_ascii_case(s, "kpdot"@) || eq_ignore_ascii_case(s, "numpaddot"@) || eq_ignore_ascii_case(s, "kpperiod"@) {
        Some(83u16)
    } else if eq_ignore_ascii_case(s, "menu"@) || eq_ignore_ascii_case(s, "contextmenu"@) {
        Some(127u16)
    } else if eq_ignore_ascii_case(s, "rctrl"@) || eq_ignore_ascii_case(s, "rightctrl"@) {
        Some(97u16)
    } else if eq_ignore_ascii_case(s, "rshift"@) || eq_ignore_ascii_case(s, "rightshift"@) {
        Some(54u16)
    } else if eq_ignore_ascii_case(s, "ralt"@) || eq_ignore_ascii_case(s, "rightalt"@) || eq_ignore_ascii_case(s, "altgr"@) {
        Some(100u16)
    } else if eq_ignore_ascii_case(s, "rsuper"@) || eq_ignore_ascii_case(s, "rightsuper"@) || eq_ignore_ascii_case(s, "rwin"@) {
        Some(126u16)
    } else {
        None
    }
}

/// Maps one key name to its input key code; unknown names map to nothing.
pub fn key_name_to_code(key: &str) -> (r: Option<u16>)
    ensures
        r == spec_key_code(key@),
{
    if str_eq_ignore_case(key, "ctrl") || str_eq_ignore_case(key, "control") {
        Some(29)
    } else if str_eq_ignore_case(key, "shift") {
        Some(42)
    } else if str_eq_ignore_case(key, "alt") {
        Some(56)
    } else if str_eq_ignore_case(key, "super") || str_eq_ignore_case(key, "win") || str_eq_ignore_case(key, "meta") {
        Some(125)
    } else if str_eq_ignore_case(key, "f1") {
        Some(59)
    } else if str_eq_ignore_case(key, "f2") {
        Some(60)
    } else if str_eq_ignore_case(key, "f3") {
        Some(61)
    } else if str_eq_ignore_case(key, "f4") {
        Some(62)
    } else if str_eq_ignore_case(key, "f5") {
        Some(63)
    } else if str_eq_ignore_case(key, "f6") {
        Some(64)
    } else if str_eq_ignore_case(key, "f7") {
        Some(65)
    } else if str_eq_ignore_case(key, "f8") {
        Some(66)
    } else if str_eq_ignore_case(key, "f9") {
        Some(67)
    } else if str_eq_ignore_case(key, "f10") {
        Some(68)
    } else if str_eq_ignore_case(key, "f11") {
        Some(87)
    } else if str_eq_ignore_case(key, "f12") {
        Some(88)
    } else if str_eq_ignore_case(key, "esc") || str_eq_ignore_case(key, "escape") {
        Some(1)
    } else if str_eq_ignore_case(key, "tab") {
        Some(15)
    } else if str_eq_ignore_case(key, "enter") || str_eq_ignore_case(key, "return") {
        Some(28)
    } else if str_eq_ignore_case(key, "space") {
        Some(57)
    } else if str_eq_ignore_case(key, "backspace") {
        Some(14)
    } else if str_eq_ignore_case(key, "delete") || str_eq_ignore_case(key, "del") {
        Some(111)
    } else if str_eq_ignore_case(key, "insert") || str_eq_ignore_case(key, "ins") {
        Some(110)
    } else if str_eq_ignore_case(key, "home") {
        Some(102)
    } else if str_eq_ignore_case(key, "end") {
        Some(107)
    } else if str_eq_ignore_case(key, "pageup") || str_eq_ignore_case(key, "pgup") {
        Some(104)
    } else if str_eq_ignore_case(key, "pagedown") || str_eq_ignore_case(key, "pgdn") {
        Some(109)
    } else if str_eq_ignore_case(key, "up") {
        Some(103)
    } else if str_eq_ignore_case(key, "down") {
        Some(108)
    } else if str_eq_ignore_case(key, "left") {
        Some(105)
    } else if str_eq_ignore_case(key, "right") {
        Some(106)
    } else if str_eq_ignore_case(key, "printscreen") || str_eq_ignore_case(key, "prtsc") {
        Some(99)
    } else if str_eq_ignore_case(key, "pause") {
        Some(119)
    } else if str_eq_ignore_case(key, "capslock") {
        Some(58)
    } else if str_eq_ignore_case(key, "numlock") {
        Some(69)
    } else if str_eq_ignore_case(key, "scrolllock") {
        Some(70)
    } else if str_eq_ignore_case(key, "a") {
        Some(30)
    } else if str_eq_ignore_case(key, "b") {
        Some(48)
    } else if str_eq_ignore_case(key, "c") {
        Some(46)
    } else if str_eq_ignore_case(key, "d") {
        Some(32)
    } else if str_eq_ignore_case(key, "e") {
        Some(18)
    } else if str_eq_ignore_case(key, "f") {
        Some(33)
    } else if str_eq_ignore_case(key, "g") {
        Some(34)
    } else if str_eq_ignore_case(key, "h") {
        Some(35)
    } else if str_eq_ignore_case(key, "i") {
        Some(23)
    } else if str_eq_ignore_case(key, "j") {
        Some(36)
    } else if str_eq_ignore_case(key, "k") {
        Some(37)
    } else if str_eq_ignore_case(key, "l") {
        Some(38)
    } else if str_eq_ignore_case(key, "m") {
        Some(50)
    } else if str_eq_ignore_case(key, "n") {
        Some(49)
    } else if str_eq_ignore_case(key, "o") {
        Some(24)
    } else if str_eq_ignore_case(key, "p") {
        Some(25)
    } else if str_eq_ignore_case(key, "q") {
        Some(16)
    } else if str_eq_ignore_case(key, "r") {
        Some(19)
    } else if str_eq_ignore_case(key, "s") {
        Some(31)
    } else if str_eq_ignore_case(key, "t") {
        Some(20)
    } else if str_eq_ignore_case(key, "u") {
        Some(22)
    } else if str_eq_ignore_case(key, "v") {
        Some(47)
    } else if str_eq_ignore_case(key, "w") {
        Some(17)
    } else if str_eq_ignore_case(key, "x") {
        Some(45)
    } else if str_eq_ignore_case(key, "y") {
        Some(21)
    } else if str_eq_ignore_case(key, "z") {
        Some(44)
    } else if str_eq_ignore_case(key, "0") {
        Some(11)
    } else if str_eq_ignore_case(key, "1") {
        Some(2)
    } else if str_eq_ignore_case(key, "2") {
        Some(3)
    } else if str_eq_ignore_case(key, "3") {
        Some(4)
    } else if str_eq_ignore_case(key, "4") {
        Some(5)
    } else if str_eq_ignore_case(key, "5") {
        Some(6)
    } else if str_eq_ignore_case(key, "6") {
        Some(7)
    } else if str_eq_ignore_case(key, "7") {
        Some(8)
    } else if str_eq_ignore_case(key, "8") {
        Some(9)
    } else if str_eq_ignore_case(key, "9") {
        Some(10)
    } else if str_eq_ignore_case(key, "-") || str_eq_ignore_case(key, "minus") {
        Some(12)
    } else if str_eq_ignore_case(key, "=") || str_eq_ignore_case(key, "equal") {
        Some(13)
    } else if str_eq_ignore_case(key, "[") || str_eq_ignore_case(key, "leftbracket") {
        Some(26)
    } else if str_eq_ignore_case(key, "]") || str_eq_ignore_case(key, "rightbracket") {
        Some(27)
    } else if str_eq_ignore_case(key, "\\") || str_eq_ignore_case(key, "backslash") {
        Some(43)
    } else if str_eq_ignore_case(key, ";") || str_eq_ignore_case(key, "semicolon") {
        Some(39)
    } else if str_eq_ignore_case(key, "'") || str_eq_ignore_case(key, "apostrophe") {
        Some(40)
    } else if str_eq_ignore_case(key, "`") || str_eq_ignore_case(key, "grave") {
        Some(41)
    } else if str_eq_ignore_case(key, ",") || str_eq_ignore_case(key, "comma") {
        Some(51)
    } else if str_eq_ignore_case(key, ".") || str_eq_ignore_case(key, "period") {
        Some(52)
    } else if str_eq_ignore_case(key, "/") || str_eq_ignore_case(key, "slash") {
        Some(53)
    } else if str_eq_ignore_case(key, "volumeup") || str_eq_ignore_case(key, "volup") {
        Some(115)
    } else if str_eq_ignore_case(key, "volumedown") || str_eq_ignore_case(key, "voldown") {
        Some(114)
    } else if str_eq_ignore_case(key, "mute") {
        Some(113)
    } else if str_eq_ignore_case(key, "playpause") || str_eq_ignore_case(key, "play") {
        Some(164)
    } else if str_eq_ignore_case(key, "stop") {
        Some(166)
    } else if str_eq_ignore_case(key, "next") || str_eq_ignore_case(key, "nextsong") {
        Some(163)
    } else if str_eq_ignore_case(key, "prev") || str_eq_ignore_case(key, "previoussong") {
        Some(165)
    } else if str_eq_ignore_case(key, "kp0") || str_eq_ignore_case(key, "numpad0") {
        Some(82)
    } else if str_eq_ignore_case(key, "kp1") || str_eq_ignore_case(key, "numpad1") {
        Some(79)
    } else if str_eq_ignore_case(key, "kp2") || str_eq_ignore_case(key, "numpad2") {
        Some(80)
    } else if str_eq_ignore_case(key, "kp3") || str_eq_ignore_case(key, "numpad3") {
        Some(81)
    } else if str_eq_ignore_case(key, "kp4") || str_eq_ignore_case(key, "numpad4") {
        Some(75)
    } else if str_eq_ignore_case(key, "kp5") || str_eq_ignore_case(key, "numpad5") {
        Some(76)
    } else if str_eq_ignore_case(key, "kp6") || str_eq_ignore_case(key, "numpad6") {
        Some(77)
    } else if str_eq_ignore_case(key, "kp7") || str_eq_ignore_case(key, "numpad7") {
        Some(71)
    } else if str_eq_ignore_case(key, "kp8") || str_eq_ignore_case(key, "numpad8") {
        Some(72)
    } else if str_eq_ignore_case(key, "kp9") || str_eq_ignore_case(key, "numpad9") {
        Some(73)
    } else if str_eq_ignore_case(key, "kpenter") || str_eq_ignore_case(key, "numpadenter") {
        Some(96)
    } else if str_eq_ignore_case(key, "kpplus") || str_eq_ignore_case(key, "numpadplus") {
        Some(78)
    } else if str_eq_ignore_case(key, "kpminus") || str_eq_ignore_case(key, "numpadminus") {
        Some(74)
    } else if str_eq_ignore_case(key, "kpmultiply") || str_eq_ignore_case(key, "numpadmultiply") || str_eq_ignore_case(key, "kpasterisk") {
        Some(55)
    } else if str_eq_ignore_case(key, "kpdivide") || str_eq_ignore_case(key, "numpaddivide") || str_eq_ignore_case(key, "kpslash") {
        Some(98)
    } else if str_eq_ignore_case(key, "kpdot") || str_eq_ignore_case(key, "numpaddot") || str_eq_ignore_case(key, "kpperiod") {
        Some(83)
    } else if str_eq_ignore_case(key, "menu") || str_eq_ignore_case(key, "contextmenu") {
        Some(127)
    } else if str_eq_ignore_case(key, "rctrl") || str_eq_ignore_case(key, "rightctrl") {
        Some(97)
    } else if str_eq_ignore_case(key, "rshift") || str_eq_ignore_case(key, "rightshift") {
        Some(54)
    } else if str_eq_ignore_case(key, "ralt") || str_eq_ignore_case(key, "rightalt") || str_eq_ignore_case(key, "altgr") {
        Some(100)
    } else if str_eq_ignore_case(key, "rsuper") || str_eq_ignore_case(key, "rightsuper") || str_eq_ignore_case(key, "rwin") {
        Some(126)
    } else {
        None
    }
}

} // verus!

verus! {

/// The key codes of a chord's parts, in order, unknown names dropped.
pub open spec fn spec_chord_codes(parts: Seq<Seq<char>>) -> Seq<u16>
    decreases parts.len(),
{
    if parts.len() == 0 {
        Seq::empty()
    } else {
        let rest = spec_chord_codes(parts.drop_last());
        match spec_key_code(spec_trim(parts.last())) {
            Some(c) => rest + seq![c],
            None => rest,
        }
    }
}

/// A press token: the decimal key code and `:1`.
pub open spec fn spec_press_token(c: u16) -> Seq<char> {
    spec_dec_str(c as nat) + ":1"@
}

/// A release token: the decimal key code and `:0`.
pub open spec fn spec_release_token(c: u16) -> Seq<char> {
    spec_dec_str(c as nat) + ":0"@
}

/// The token sequence of a chord: every key pressed left to right, then
/// released in reverse order.
pub open spec fn spec_hotkey_sequence(keys: Seq<char>) -> Seq<Seq<char>> {
    let codes = spec_chord_codes(spec_split(keys, "+"@));
    codes.map_values(|c: u16| spec_press_token(c)) + codes.reverse().map_values(
        |c: u16| spec_release_token(c),
    )
}

/// Builds the press/release token sequence of a `+`-separated key chord,
/// as the input tool takes it: each known key pressed in order, then
/// released in reverse order; unknown names are dropped.
pub fn hotkey_sequence(keys: &str) -> (r: Vec<String>)
    ensures
        r@.map_values(|t: String| t@) == spec_hotkey_sequence(keys@),
{
    proof {
        reveal_strlit("+");
    }
    let parts = split_str(keys, "+");
    let ghost sparts = parts@.map_values(|t: String| t@);
    let mut codes: Vec<u16> = Vec::new();
    let mut i: usize = 0;
    proof {
        assert(sparts.subrange(0, 0) =~= Seq::<Seq<char>>::empty());
        assert(codes@ =~= spec_chord_codes(sparts.subrange(0, 0)));
    }
    while i < parts.len()
        invariant
            i <= parts@.len(),
            sparts == parts@.map_values(|t: String| t@),
            codes@ == spec_chord_codes(sparts.subrange(0, i as int)),
        decreases parts@.len() - i,
    {
        let t = trim(parts[i].as_str());
        proof {
            assert(sparts.subrange(0, i + 1).drop_last() =~= sparts.subrange(0, i as int));
            assert(sparts.subrange(0, i + 1).last() == parts@[i as int]@);
        }
        match key_name_to_code(t.as_str()) {
            Some(c) => {
                codes.push(c);
                proof {
                    assert(codes@ =~= spec_chord_codes(sparts.subrange(0, i + 1)));
                }
            },
            None => {
                proof {
                    assert(codes@ =~= spec_chord_codes(sparts.subrange(0, i + 1)));
                }
            },
        }
        i += 1;
    }
    proof {
        assert(sparts.subrange(0, sparts.len() as int) =~= sparts);
    }
    let ghost final_codes = codes@;
    let mut r: Vec<String> = Vec::new();
    let mut k: usize = 0;
    while k < codes.len()
        invariant
            k <= codes@.len(),
            codes@ == final_codes,
            r@.len() == k,
            forall|m: int| 0 <= m < k ==> #[trigger] r@[m]@ == spec_press_token(final_codes[m]),
        decreases codes@.len() - k,
    {
        let mut s = u64_to_string(codes[k] as u64);
        s.append(":1");
        proof {
            reveal_strlit(":1");
            assert(s@ =~= spec_press_token(final_codes[k as int]));
        }
        r.push(s);
        k += 1;
    }
    let mut k2: usize = codes.len();
    while k2 > 0
        invariant
            k2 <= codes@.len(),
            codes@ == final_codes,
            r@.len() == final_codes.len() + (final_codes.len() - k2),
            forall|m: int|
                0 <= m < final_codes.len() ==> #[trigger] r@[m]@ == spec_press_token(
                    final_codes[m],
                ),
            forall|m: int|
                final_codes.len() <= m < r@.len() ==> #[trigger] r@[m]@ == spec_release_token(
                    final_codes[final_codes.len() * 2 - 1 - m],
                ),
        decreases k2,
    {
        k2 -= 1;
        let mut s = u64_to_string(codes[k2] as u64);
        s.append(":0");
        proof {
            reveal_strlit(":0");
            assert(s@ =~= spec_release_token(final_codes[k2 as int]));
        }
        r.push(s);
    }
    proof {
        let lhs = r@.map_values(|t: String| t@);
        let rhs = spec_hotkey_sequence(keys@);
        let presses = final_codes.map_values(|c: u16| spec_press_token(c));
        let releases = final_codes.reverse().map_values(|c: u16| spec_release_token(c));
        assert(lhs.len() == rhs.len());
        assert forall|m: int| 0 <= m < lhs.len() implies lhs[m] == rhs[m] by {
            if m < final_codes.len() {
                assert(rhs[m] == presses[m]);
            } else {
                assert(rhs[m] == releases[m - final_codes.len()]);
                assert(final_codes.reverse()[m - final_codes.len()] == final_codes[final_codes.len()
                    * 2 - 1 - m]);
            }
        }
        assert(lhs =~= rhs);
    }
    r
}

} // verus!
