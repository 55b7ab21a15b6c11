//! Physical key identifiers and their classification.

use vstd::prelude::*;

verus! {

/// Classification of a physical key, used to decide which modifiers and lock
/// keys select the level of the symbol it produces.
#[derive(Debug, Clone, Copy, PartialEq, Eq, Structural)]
pub enum KeyType {
    /// Keys that represent alphabetic characters
    Alphabetic,
    /// Keys that represent numerals
    Numeric,
    /// Keys that represent punctuation
    Punctuation,
    /// The numeric and '.' keys on the numpad (symbols, num lock, and enter keys not included)
    Numpad,
    /// Keys that represent controls such as enter, escape, backspace, and functions
    Control,
}

/// An opaque identifier for a physical key position (not a symbol), carrying
/// the key's hardware keycode.
#[derive(Debug, Clone, Copy, PartialEq, Eq, Hash, Structural)]
pub struct Key(pub u8);

pub const KEY_ESC: u8 = 1;
pub const KEY_1: u8 = 2;
pub const KEY_2: u8 = 3;
pub const KEY_3: u8 = 4;
pub const KEY_4: u8 = 5;
pub const KEY_5: u8 = 6;
pub const KEY_6: u8 = 7;
pub const KEY_7: u8 = 8;
pub const KEY_8: u8 = 9;
pub const KEY_9: u8 = 10;
pub const KEY_0: u8 = 11;
pub const KEY_HYPHEN: u8 = 12;
pub const KEY_EQUALS: u8 = 13;
pub const KEY_BACKSPACE: u8 = 14;
pub const KEY_TAB: u8 = 15;
pub const KEY_Q: u8 = 16;
pub const KEY_W: u8 = 17;
pub const KEY_E: u8 = 18;
pub const KEY_R: u8 = 19;
pub const KEY_T: u8 = 20;
pub const KEY_Y: u8 = 21;
pub const KEY_U: u8 = 22;
pub const KEY_I: u8 = 23;
pub const KEY_O: u8 = 24;
pub const KEY_P: u8 = 25;
pub const KEY_OP_BRACKET: u8 = 26;
pub const KEY_CL_BRACKET: u8 = 27;
pub const KEY_ENTER: u8 = 28;
pub const KEY_L_CTRL: u8 = 29;
pub const KEY_A: u8 = 30;
pub const KEY_S: u8 = 31;
pub const KEY_D: u8 = 32;
pub const KEY_F: u8 = 33;
pub const KEY_G: u8 = 34;
pub const KEY_H: u8 = 35;
pub const KEY_J: u8 = 36;
pub const KEY_K: u8 = 37;
pub const KEY_L: u8 = 38;
pub const KEY_COLON: u8 = 39;
pub const KEY_QUOTE: u8 = 40;
pub const KEY_BACKTICK: u8 = 41;
pub const KEY_L_SHIFT: u8 = 42;
pub const KEY_HASH: u8 = 43;
pub const KEY_Z: u8 = 44;
pub const KEY_X: u8 = 45;
pub const KEY_C: u8 = 46;
pub const KEY_V: u8 = 47;
pub const KEY_B: u8 = 48;
pub const KEY_N: u8 = 49;
pub const KEY_M: u8 = 50;
pub const KEY_COMMA: u8 = 51;
pub const KEY_PERIOD: u8 = 52;
pub const KEY_F_SLASH: u8 = 53;
pub const KEY_R_SHIFT: u8 = 54;
pub const KEY_NUM_MUL: u8 = 55;
pub const KEY_ALT: u8 = 56;
pub const KEY_SPACE: u8 = 57;
pub const KEY_CAPS_LOCK: u8 = 58;
pub const KEY_F1: u8 = 59;
pub const KEY_F2: u8 = 60;
pub const KEY_F3: u8 = 61;
pub const KEY_F4: u8 = 62;
pub const KEY_F5: u8 = 63;
pub const KEY_F6: u8 = 64;
pub const KEY_F7: u8 = 65;
pub const KEY_F8: u8 = 66;
pub const KEY_F9: u8 = 67;
pub const KEY_F10: u8 = 68;
pub const KEY_NUM_LOCK: u8 = 69;
pub const KEY_SCROLL_LOCK: u8 = 70;
pub const KEY_NUM_7: u8 = 71;
pub const KEY_NUM_8: u8 = 72;
pub const KEY_NUM_9: u8 = 73;
pub const KEY_NUM_SUB: u8 = 74;
pub const KEY_NUM_4: u8 = 75;
pub const KEY_NUM_5: u8 = 76;
pub const KEY_NUM_6: u8 = 77;
pub const KEY_NUM_ADD: u8 = 78;
pub const KEY_NUM_1: u8 = 79;
pub const KEY_NUM_2: u8 = 80;
pub const KEY_NUM_3: u8 = 81;
pub const KEY_NUM_0: u8 = 82;
pub const KEY_NUM_DECIMAL: u8 = 83;
pub const KEY_F11: u8 = 87;
pub const KEY_F12: u8 = 88;
pub const KEY_NUM_ENTER: u8 = 96;
pub const KEY_R_CTRL: u8 = 97;
pub const KEY_NUM_DIV: u8 = 98;
pub const KEY_PRT_SCR: u8 = 99;
pub const KEY_ALT_GR: u8 = 100;
pub const KEY_HOME: u8 = 102;
pub const KEY_UP: u8 = 103;
pub const KEY_PG_UP: u8 = 104;
pub const KEY_LEFT: u8 = 105;
pub const KEY_RIGHT: u8 = 106;
pub const KEY_END: u8 = 107;
pub const KEY_DOWN: u8 = 108;
pub const KEY_PG_DOWN: u8 = 109;
pub const KEY_INS: u8 = 110;
pub const KEY_DEL: u8 = 111;
pub const KEY_PAUSE: u8 = 119;
pub const KEY_L_SUPER: u8 = 125;
pub const KEY_R_SUPER: u8 = 126;
pub const KEY_MENU: u8 = 127;

impl Key {
    /// Builds the key with the given keycode.
    pub fn from_keycode(keycode: u8) -> (k: Key)
        ensures
            k.0 == keycode,
    {
        Key(keycode)
    }

    /// Returns the keycode for this key
    pub fn keycode(&self) -> (code: u8)
        ensures
            code == self.0,
    {
        self.0
    }

    /// The classification of a key, as a function of its keycode alone.
    /// A keycode outside every class is unclassified.
    pub open spec fn spec_key_type(self) -> Option<KeyType> {
        let code = self.0;
        if 16 <= code <= 25 || 30 <= code <= 38 || 44 <= code <= 50 {
            Some(KeyType::Alphabetic)
        } else if 2 <= code <= 11 {
            Some(KeyType::Numeric)
        } else if code == 12 || code == 13 || code == 26 || code == 27 || code == 39
            || code == 40 || code == 41 || code == 43 || code == 51 || code == 52
            || code == 53 || code == 55 || code == 98 {
            Some(KeyType::Punctuation)
        } else if code == 1 || code == 14 || code == 15 || code == 28 || code == 29
            || code == 42 || code == 54 || 56 <= code <= 70 || code == 74 || code == 78
            || code == 87 || code == 88 || code == 96 || code == 97 || code == 99
            || code == 100 || 102 <= code <= 111 || code == 119 || code == 125
            || code == 126 || code == 127 {
            Some(KeyType::Control)
        } else if code == 71 || code == 72 || code == 73 || code == 75 || code == 76
            || code == 77 || 79 <= code <= 83 {
            Some(KeyType::Numpad)
        } else {
            None
        }
    }

    /// Returns the type of the key, which is used to determine which modifiers
    /// can alter the key's level
    pub fn key_type(&self) -> (t: Option<KeyType>)
        ensures
            t == self.spec_key_type(),
    {
        let code = self.0;
        if 16 <= code && code <= 25 || 30 <= code && code <= 38 || 44 <= code && code <= 50 {
            Some(KeyType::Alphabetic)
        } else if 2 <= code && code <= 11 {
            Some(KeyType::Numeric)
        } else if code == 12 || code == 13 || code == 26 || code == 27 || code == 39
            || code == 40 || code == 41 || code == 43 || code == 51 || code == 52
            || code == 53 || code == 55 || code == 98 {
            Some(KeyType::Punctuation)
        } else if code == 1 || code == 14 || code == 15 || code == 28 || code == 29
            || code == 42 || code == 54 || 56 <= code && code <= 70 || code == 74 || code == 78
            || code == 87 || code == 88 || code == 96 || code == 97 || code == 99
            || code == 100 || 102 <= code && code <= 111 || code == 119 || code == 125
            || code == 126 || code == 127 {
            Some(KeyType::Control)
        } else if code == 71 || code == 72 || code == 73 || code == 75 || code == 76
            || code == 77 || 79 <= code && code <= 83 {
            Some(KeyType::Numpad)
        } else {
            None
        }
    }

    /// Returns true if the key represents an alphabetic character
    pub fn is_alphabetic(&self) -> (r: bool)
        ensures
            r == (self.spec_key_type() == Some(KeyType::Alphabetic)),
    {
        self.key_type() == Some(KeyType::Alphabetic)
    }

    /// Returns true if the key represents a numeric character
    ///
    /// Note: this does not include the numpad keys.
    pub fn is_numeric(&self) -> (r: bool)
        ensures
            r == (self.spec_key_type() == Some(KeyType::Numeric)),
    {
        self.key_type() == Some(KeyType::Numeric)
    }

    /// Returns true if the key represents a punctuation character
    pub fn is_punctuation(&self) -> (r: bool)
        ensures
            r == (self.spec_key_type() == Some(KeyType::Punctuation)),
    {
        self.key_type() == Some(KeyType::Punctuation)
    }

    /// Returns true if the key represents a control key
    ///
    /// For example: Enter, Caps lock, Page up, etc
    pub fn is_control(&self) -> (r: bool)
        ensures
            r == (self.spec_key_type() == Some(KeyType::Control)),
    {
        self.key_type() == Some(KeyType::Control)
    }

    /// Returns true if the key represents a numeric character on the numpad
    ///
    /// This includes all the numbers and the '.' key but not enter or any of the symbols
    pub fn is_numpad(&self) -> (r: bool)
        ensures
            r == (self.spec_key_type() == Some(KeyType::Numpad)),
    {
        self.key_type() == Some(KeyType::Numpad)
    }

    /// The character printed on the key of a plain QWERTY arrangement, as a
    /// function of the keycode alone; the null character for keys that carry
    /// no such character.
    pub open spec fn spec_qwerty_char(self) -> char {
        let code = self.0;
        if code == KEY_1 { '1' }
        else if code == KEY_2 { '2' }
        else if code == KEY_3 { '3' }
        else if code == KEY_4 { '4' }
        else if code == KEY_5 { '5' }
        else if code == KEY_6 { '6' }
        else if code == KEY_7 { '7' }
        else if code == KEY_8 { '8' }
        else if code == KEY_9 { '9' }
        else if code == KEY_0 { '0' }
        else if code == KEY_HYPHEN { '-' }
        else if code == KEY_EQUALS { '=' }
        else if code == KEY_TAB { '\t' }
        else if code == KEY_Q { 'q' }
        else if code == KEY_W { 'w' }
        else if code == KEY_E { 'e' }
        else if code == KEY_R { 'r' }
        else if code == KEY_T { 't' }
        else if code == KEY_Y { 'y' }
        else if code == KEY_U { 'u' }
        else if code == KEY_I { 'i' }
        else if code == KEY_O { 'o' }
        else if code == KEY_P { 'p' }
        else if code == KEY_OP_BRACKET { '[' }
        else if code == KEY_CL_BRACKET { ']' }
        else if code == KEY_ENTER { '\n' }
        else if code == KEY_A { 'a' }
        else if code == KEY_S { 's' }
        else if code == KEY_D { 'd' }
        else if code == KEY_F { 'f' }
        else if code == KEY_G { 'g' }
        else if code == KEY_H { 'h' }
        else if code == KEY_J { 'j' }
        else if code == KEY_K { 'k' }
        else if code == KEY_L { 'l' }
        else if code == KEY_COLON { ';' }
        else if code == KEY_QUOTE { '\'' }
        else if code == KEY_BACKTICK { '`' }
        else if code == KEY_HASH { '#' }
        else if code == KEY_Z { 'z' }
        else if code == KEY_X { 'x' }
        else if code == KEY_C { 'c' }
        else if code == KEY_V { 'v' }
        else if code == KEY_B { 'b' }
        else if code == KEY_N { 'n' }
        else if code == KEY_M { 'm' }
        else if code == KEY_COMMA { ',' }
        else if code == KEY_PERIOD { '.' }
        else if code == KEY_F_SLASH { '/' }
        else if code == KEY_NUM_MUL { '*' }
        else if code == KEY_NUM_SUB { '-' }
        else if code == KEY_NUM_ADD { '+' }
        else if code == KEY_NUM_DECIMAL { '.' }
        else if code == KEY_NUM_DIV { '/' }
        else { '\0' }
    }

    /// Returns the character printed on this key of a plain QWERTY arrangement
    ///
    /// Do not use this for finding the symbol of the key as it does not take
    /// into account the keyboard layout or modifiers
    pub fn qwerty_char(&self) -> (c: char)
        ensures
            c == self.spec_qwerty_char(),
    {
        let code = self.0;
        if code == KEY_1 { '1' }
        else if code == KEY_2 { '2' }
        else if code == KEY_3 { '3' }
        else if code == KEY_4 { '4' }
        else if code == KEY_5 { '5' }
        else if code == KEY_6 { '6' }
        else if code == KEY_7 { '7' }
        else if code == KEY_8 { '8' }
        else if code == KEY_9 { '9' }
        else if code == KEY_0 { '0' }
        else if code == KEY_HYPHEN { '-' }
        else if code == KEY_EQUALS { '=' }
        else if code == KEY_TAB { '\t' }
        else if code == KEY_Q { 'q' }
        else if code == KEY_W { 'w' }
        else if code == KEY_E { 'e' }
        else if code == KEY_R { 'r' }
        else if code == KEY_T { 't' }
        else if code == KEY_Y { 'y' }
        else if code == KEY_U { 'u' }
        else if code == KEY_I { 'i' }
        else if code == KEY_O { 'o' }
        else if code == KEY_P { 'p' }
        else if code == KEY_OP_BRACKET { '[' }
        else if code == KEY_CL_BRACKET { ']' }
        else if code == KEY_ENTER { '\n' }
        else if code == KEY_A { 'a' }
        else if code == KEY_S { 's' }
        else if code == KEY_D { 'd' }
        else if code == KEY_F { 'f' }
        else if code == KEY_G { 'g' }
        else if code == KEY_H { 'h' }
        else if code == KEY_J { 'j' }
        else if code == KEY_K { 'k' }
        else if code == KEY_L { 'l' }
        else if code == KEY_COLON { ';' }
        else if code == KEY_QUOTE { '\'' }
        else if code == KEY_BACKTICK { '`' }
        else if code == KEY_HASH { '#' }
        else if code == KEY_Z { 'z' }
        else if code == KEY_X { 'x' }
        else if code == KEY_C { 'c' }
        else if code == KEY_V { 'v' }
        else if code == KEY_B { 'b' }
        else if code == KEY_N { 'n' }
        else if code == KEY_M { 'm' }
        else if code == KEY_COMMA { ',' }
        else if code == KEY_PERIOD { '.' }
        else if code == KEY_F_SLASH { '/' }
        else if code == KEY_NUM_MUL { '*' }
        else if code == KEY_NUM_SUB { '-' }
        else if code == KEY_NUM_ADD { '+' }
        else if code == KEY_NUM_DECIMAL { '.' }
        else if code == KEY_NUM_DIV { '/' }
        else { '\0' }
    }

    /// The display name of a key, as a function of its keycode alone.
    pub open spec fn spec_name(self) -> Seq<char> {
        let code = self.0;
        if code == KEY_ESC { "ESC"@ }
        else if code == KEY_1 { "1"@ }
        else if code == KEY_2 { "2"@ }
        else if code == KEY_3 { "3"@ }
        else if code == KEY_4 { "4"@ }
        else if code == KEY_5 { "5"@ }
        else if code == KEY_6 { "6"@ }
        else if code == KEY_7 { "7"@ }
        else if code == KEY_8 { "8"@ }
        else if code == KEY_9 { "9"@ }
        else if code == KEY_0 { "0"@ }
        else if code == KEY_HYPHEN { "-"@ }
        else if code == KEY_EQUALS { "="@ }
        else if code == KEY_BACKSPACE { "BACKSPACE"@ }
        else if code == KEY_TAB { "TAB"@ }
        else if code == KEY_Q { "Q"@ }
        else if code == KEY_W { "W"@ }
        else if code == KEY_E { "E"@ }
        else if code == KEY_R { "R"@ }
        else if code == KEY_T { "T"@ }
        else if code == KEY_Y { "Y"@ }
        else if code == KEY_U { "U"@ }
        else if code == KEY_I { "I"@ }
        else if code == KEY_O { "O"@ }
        else if code == KEY_P { "P"@ }
        else if code == KEY_OP_BRACKET { "["@ }
        else if code == KEY_CL_BRACKET { "]"@ }
        else if code == KEY_ENTER { "ENTER"@ }
        else if code == KEY_L_CTRL { "L CTRL"@ }
        else if code == KEY_A { "A"@ }
        else if code == KEY_S { "S"@ }
        else if code == KEY_D { "D"@ }
        else if code == KEY_F { "F"@ }
        else if code == KEY_G { "G"@ }
        else if code == KEY_H { "H"@ }
        else if code == KEY_J { "J"@ }
        else if code == KEY_K { "K"@ }
        else if code == KEY_L { "L"@ }
        else if code == KEY_COLON { ";"@ }
        else if code == KEY_QUOTE { "'"@ }
        else if code == KEY_BACKTICK { "`"@ }
        else if code == KEY_L_SHIFT { "L SHIFT"@ }
        else if code == KEY_HASH { "#"@ }
        else if code == KEY_Z { "Z"@ }
        else if code == KEY_X { "X"@ }
        else if code == KEY_C { "C"@ }
        else if code == KEY_V { "V"@ }
        else if code == KEY_B { "B"@ }
        else if code == KEY_N { "N"@ }
        else if code == KEY_M { "M"@ }
        else if code == KEY_COMMA { ","@ }
        else if code == KEY_PERIOD { "."@ }
        else if code == KEY_F_SLASH { "/"@ }
        else if code == KEY_R_SHIFT { "R SHIFT"@ }
        else if code == KEY_NUM_MUL { "NUM *"@ }
        else if code == KEY_ALT { "ALT"@ }
        else if code == KEY_SPACE { "SPACE"@ }
        else if code == KEY_CAPS_LOCK { "CAPS LOCK"@ }
        else if code == KEY_F1 { "F1"@ }
        else if code == KEY_F2 { "F2"@ }
        else if code == KEY_F3 { "F3"@ }
        else if code == KEY_F4 { "F4"@ }
        else if code == KEY_F5 { "F5"@ }
        else if code == KEY_F6 { "F6"@ }
        else if code == KEY_F7 { "F7"@ }
        else if code == KEY_F8 { "F8"@ }
        else if code == KEY_F9 { "F9"@ }
        else if code == KEY_F10 { "F10"@ }
        else if code == KEY_NUM_LOCK { "NUM LOCK"@ }
        else if code == KEY_SCROLL_LOCK { "SCROLL LOCK"@ }
        else if code == KEY_NUM_7 { "NUM 7"@ }
        else if code == KEY_NUM_8 { "NUM 8"@ }
        else if code == KEY_NUM_9 { "NUM 9"@ }
        else if code == KEY_NUM_SUB { "NUM -"@ }
        else if code == KEY_NUM_4 { "NUM 4"@ }
        else if code == KEY_NUM_5 { "NUM 5"@ }
        else if code == KEY_NUM_6 { "NUM 6"@ }
        else if code == KEY_NUM_ADD { "NUM +"@ }
        else if code == KEY_NUM_1 { "NUM 1"@ }
        else if code == KEY_NUM_2 { "NUM 2"@ }
        else if code == KEY_NUM_3 { "NUM 3"@ }
        else if code == KEY_NUM_0 { "NUM 0"@ }
        else if code == KEY_NUM_DECIMAL { "NUM ."@ }
        else if code == KEY_F11 { "F11"@ }
        else if code == KEY_F12 { "F12"@ }
        else if code == KEY_NUM_ENTER { "NUM ENTER"@ }
        else if code == KEY_R_CTRL { "R CTRL"@ }
        else if code == KEY_NUM_DIV { "NUM /"@ }
        else if code == KEY_PRT_SCR { "PRINT SCREEN"@ }
        else if code == KEY_ALT_GR { "ALT GR"@ }
        else if code == KEY_HOME { "HOME"@ }
        else if code == KEY_UP { "UP"@ }
        else if code == KEY_PG_UP { "PAGE UP"@ }
        else if code == KEY_LEFT { "LEFT"@ }
        else if code == KEY_RIGHT { "RIGHT"@ }
        else if code == KEY_END { "END"@ }
        else if code == KEY_DOWN { "DOWN"@ }
        else if code == KEY_PG_DOWN { "PAGE DOWN"@ }
        else if code == KEY_INS { "INSERT"@ }
        else if code == KEY_DEL { "DELETE"@ }
        else if code == KEY_PAUSE { "PAUSE"@ }
        else if code == KEY_L_SUPER { "L SUPER"@ }
        else if code == KEY_R_SUPER { "R SUPER"@ }
        else if code == KEY_MENU { "MENU"@ }
        else { "UNNAMED"@ }
    }

    /// Returns the name of the key for debugging and reference
    ///
    /// Do not use this for finding the symbol of the key as it does not take
    /// into account the keyboard layout or modifiers
    pub fn name(&self) -> (r: &'static str)
        ensures
            r@ == self.spec_name(),
    {
        let code = self.0;
        if code == KEY_ESC { "ESC" }
        else if code == KEY_1 { "1" }
        else if code == KEY_2 { "2" }
        else if code == KEY_3 { "3" }
        else if code == KEY_4 { "4" }
        else if code == KEY_5 { "5" }
        else if code == KEY_6 { "6" }
        else if code == KEY_7 { "7" }
        else if code == KEY_8 { "8" }
        else if code == KEY_9 { "9" }
        else if code == KEY_0 { "0" }
        else if code == KEY_HYPHEN { "-" }
        else if code == KEY_EQUALS { "=" }
        else if code == KEY_BACKSPACE { "BACKSPACE" }
        else if code == KEY_TAB { "TAB" }
        else if code == KEY_Q { "Q" }
        else if code == KEY_W { "W" }
        else if code == KEY_E { "E" }
        else if code == KEY_R { "R" }
        else if code == KEY_T { "T" }
        else if code == KEY_Y { "Y" }
        else if code == KEY_U { "U" }
        else if code == KEY_I { "I" }
        else if code == KEY_O { "O" }
        else if code == KEY_P { "P" }
        else if code == KEY_OP_BRACKET { "[" }
        else if code == KEY_CL_BRACKET { "]" }
        else if code == KEY_ENTER { "ENTER" }
        else if code == KEY_L_CTRL { "L CTRL" }
        else if code == KEY_A { "A" }
        else if code == KEY_S { "S" }
        else if code == KEY_D { "D" }
        else if code == KEY_F { "F" }
        else if code == KEY_G { "G" }
        else if code == KEY_H { "H" }
        else if code == KEY_J { "J" }
        else if code == KEY_K { "K" }
        else if code == KEY_L { "L" }
        else if code == KEY_COLON { ";" }
        else if code == KEY_QUOTE { "'" }
        else if code == KEY_BACKTICK { "`" }
        else if code == KEY_L_SHIFT { "L SHIFT" }
        else if code == KEY_HASH { "#" }
        else if code == KEY_Z { "Z" }
        else if code == KEY_X { "X" }
        else if code == KEY_C { "C" }
        else if code == KEY_V { "V" }
        else if code == KEY_B { "B" }
        else if code == KEY_N { "N" }
        else if code == KEY_M { "M" }
        else if code == KEY_COMMA { "," }
        else if code == KEY_PERIOD { "." }
        else if code == KEY_F_SLASH { "/" }
        else if code == KEY_R_SHIFT { "R SHIFT" }
        else if code == KEY_NUM_MUL { "NUM *" }
        else if code == KEY_ALT { "ALT" }
        else if code == KEY_SPACE { "SPACE" }
        else if code == KEY_CAPS_LOCK { "CAPS LOCK" }
        else if code == KEY_F1 { "F1" }
        else if code == KEY_F2 { "F2" }
        else if code == KEY_F3 { "F3" }
        else if code == KEY_F4 { "F4" }
        else if code == KEY_F5 { "F5" }
        else if code == KEY_F6 { "F6" }
        else if code == KEY_F7 { "F7" }
        else if code == KEY_F8 { "F8" }
        else if code == KEY_F9 { "F9" }
        else if code == KEY_F10 { "F10" }
        else if code == KEY_NUM_LOCK { "NUM LOCK" }
        else if code == KEY_SCROLL_LOCK { "SCROLL LOCK" }
        else if code == KEY_NUM_7 { "NUM 7" }
        else if code == KEY_NUM_8 { "NUM 8" }
        else if code == KEY_NUM_9 { "NUM 9" }
        else if code == KEY_NUM_SUB { "NUM -" }
        else if code == KEY_NUM_4 { "NUM 4" }
        else if code == KEY_NUM_5 { "NUM 5" }
        else if code == KEY_NUM_6 { "NUM 6" }
        else if code == KEY_NUM_ADD { "NUM +" }
        else if code == KEY_NUM_1 { "NUM 1" }
        else if code == KEY_NUM_2 { "NUM 2" }
        else if code == KEY_NUM_3 { "NUM 3" }
        else if code == KEY_NUM_0 { "NUM 0" }
        else if code == KEY_NUM_DECIMAL { "NUM ." }
        else if code == KEY_F11 { "F11" }
        else if code == KEY_F12 { "F12" }
        else if code == KEY_NUM_ENTER { "NUM ENTER" }
        else if code == KEY_R_CTRL { "R CTRL" }
        else if code == KEY_NUM_DIV { "NUM /" }
        else if code == KEY_PRT_SCR { "PRINT SCREEN" }
        else if code == KEY_ALT_GR { "ALT GR" }
        else if code == KEY_HOME { "HOME" }
        else if code == KEY_UP { "UP" }
        else if code == KEY_PG_UP { "PAGE UP" }
        else if code == KEY_LEFT { "LEFT" }
        else if code == KEY_RIGHT { "RIGHT" }
        else if code == KEY_END { "END" }
        else if code == KEY_DOWN { "DOWN" }
        else if code == KEY_PG_DOWN { "PAGE DOWN" }
        else if code == KEY_INS { "INSERT" }
        else if code == KEY_DEL { "DELETE" }
        else if code == KEY_PAUSE { "PAUSE" }
        else if code == KEY_L_SUPER { "L SUPER" }
        else if code == KEY_R_SUPER { "R SUPER" }
        else if code == KEY_MENU { "MENU" }
        else { "UNNAMED" }
    }
}

} // verus!
