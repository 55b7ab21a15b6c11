//! Decoding of raw hardware scancodes into physical keys.
//!
//! A scancode stream consists of single bytes; the reserved byte 0xE0 is an
//! "extended" prefix that makes the next byte's decoding escape-sensitive, and
//! the high bit of any non-prefix byte signals a key release.

use vstd::prelude::*;
use crate::keys::Key;
use crate::keys::KEY_ESC;
use crate::keys::KEY_1;
use crate::keys::KEY_2;
use crate::keys::KEY_3;
use crate::keys::KEY_4;
use crate::keys::KEY_5;
use crate::keys::KEY_6;
use crate::keys::KEY_7;
use crate::keys::KEY_8;
use crate::keys::KEY_9;
use crate::keys::KEY_0;
use crate::keys::KEY_HYPHEN;
use crate::keys::KEY_EQUALS;
use crate::keys::KEY_BACKSPACE;
use crate::keys::KEY_TAB;
use crate::keys::KEY_Q;
use crate::keys::KEY_W;
use crate::keys::KEY_E;
use crate::keys::KEY_R;
use crate::keys::KEY_T;
use crate::keys::KEY_Y;
use crate::keys::KEY_U;
use crate::keys::KEY_I;
use crate::keys::KEY_O;
use crate::keys::KEY_P;
use crate::keys::KEY_OP_BRACKET;
use crate::keys::KEY_CL_BRACKET;
use crate::keys::KEY_ENTER;
use crate::keys::KEY_L_CTRL;
use crate::keys::KEY_A;
use crate::keys::KEY_S;
use crate::keys::KEY_D;
use crate::keys::KEY_F;
use crate::keys::KEY_G;
use crate::keys::KEY_H;
use crate::keys::KEY_J;
use crate::keys::KEY_K;
use crate::keys::KEY_L;
use crate::keys::KEY_COLON;
use crate::keys::KEY_QUOTE;
use crate::keys::KEY_BACKTICK;
use crate::keys::KEY_L_SHIFT;
use crate::keys::KEY_HASH;
use crate::keys::KEY_Z;
use crate::keys::KEY_X;
use crate::keys::KEY_C;
use crate::keys::KEY_V;
use crate::keys::KEY_B;
use crate::keys::KEY_N;
use crate::keys::KEY_M;
use crate::keys::KEY_COMMA;
use crate::keys::KEY_PERIOD;
use crate::keys::KEY_F_SLASH;
use crate::keys::KEY_R_SHIFT;
use crate::keys::KEY_ALT;
use crate::keys::KEY_SPACE;
use crate::keys::KEY_CAPS_LOCK;
use crate::keys::KEY_F1;
use crate::keys::KEY_F2;
use crate::keys::KEY_F3;
use crate::keys::KEY_F4;
use crate::keys::KEY_F5;
use crate::keys::KEY_F6;
use crate::keys::KEY_F7;
use crate::keys::KEY_F8;
use crate::keys::KEY_F9;
use crate::keys::KEY_F10;
use crate::keys::KEY_NUM_LOCK;
use crate::keys::KEY_SCROLL_LOCK;
use crate::keys::KEY_NUM_7;
use crate::keys::KEY_NUM_8;
use crate::keys::KEY_NUM_9;
use crate::keys::KEY_NUM_SUB;
use crate::keys::KEY_NUM_4;
use crate::keys::KEY_NUM_5;
use crate::keys::KEY_NUM_6;
use crate::keys::KEY_NUM_ADD;
use crate::keys::KEY_NUM_1;
use crate::keys::KEY_NUM_2;
use crate::keys::KEY_NUM_3;
use crate::keys::KEY_NUM_0;
use crate::keys::KEY_NUM_DECIMAL;
use crate::keys::KEY_F11;
use crate::keys::KEY_F12;
use crate::keys::KEY_NUM_ENTER;
use crate::keys::KEY_R_CTRL;
use crate::keys::KEY_PRT_SCR;
use crate::keys::KEY_ALT_GR;
use crate::keys::KEY_HOME;
use crate::keys::KEY_UP;
use crate::keys::KEY_PG_UP;
use crate::keys::KEY_LEFT;
use crate::keys::KEY_RIGHT;
use crate::keys::KEY_END;
use crate::keys::KEY_DOWN;
use crate::keys::KEY_PG_DOWN;
use crate::keys::KEY_INS;
use crate::keys::KEY_DEL;
use crate::keys::KEY_L_SUPER;
use crate::keys::KEY_R_SUPER;
use crate::keys::KEY_MENU;

verus! {

/// The fixed, total table from an (escaped, code) pair to the physical key it
/// identifies; pairs with no defined mapping yield nothing.
pub open spec fn spec_scancode_to_key(escaped: bool, code: u8) -> Option<Key> {
    if escaped {
        if code == 0x1C { Some(Key(KEY_NUM_ENTER)) }
        else if code == 0x1D { Some(Key(KEY_R_CTRL)) }
        else if code == 0x38 { Some(Key(KEY_ALT_GR)) }
        else if code == 0x47 { Some(Key(KEY_HOME)) }
        else if code == 0x48 { Some(Key(KEY_UP)) }
        else if code == 0x49 { Some(Key(KEY_PG_UP)) }
        else if code == 0x4B { Some(Key(KEY_LEFT)) }
        else if code == 0x4D { Some(Key(KEY_RIGHT)) }
        else if code == 0x4F { Some(Key(KEY_END)) }
        else if code == 0x50 { Some(Key(KEY_DOWN)) }
        else if code == 0x51 { Some(Key(KEY_PG_DOWN)) }
        else if code == 0x52 { Some(Key(KEY_INS)) }
        else if code == 0x53 { Some(Key(KEY_DEL)) }
        else if code == 0x5B { Some(Key(KEY_L_SUPER)) }
        else if code == 0x5C { Some(Key(KEY_R_SUPER)) }
        else if code == 0x5D { Some(Key(KEY_MENU)) }
        else { None }
    } else {
        if code == 0x01 { Some(Key(KEY_ESC)) }
        else if code == 0x02 { Some(Key(KEY_1)) }
        else if code == 0x03 { Some(Key(KEY_2)) }
        else if code == 0x04 { Some(Key(KEY_3)) }
        else if code == 0x05 { Some(Key(KEY_4)) }
        else if code == 0x06 { Some(Key(KEY_5)) }
        else if code == 0x07 { Some(Key(KEY_6)) }
        else if code == 0x08 { Some(Key(KEY_7)) }
        else if code == 0x09 { Some(Key(KEY_8)) }
        else if code == 0x0A { Some(Key(KEY_9)) }
        else if code == 0x0B { Some(Key(KEY_0)) }
        else if code == 0x0C { Some(Key(KEY_HYPHEN)) }
        else if code == 0x0D { Some(Key(KEY_EQUALS)) }
        else if code == 0x0E { Some(Key(KEY_BACKSPACE)) }
        else if code == 0x0F { Some(Key(KEY_TAB)) }
        else if code == 0x10 { Some(Key(KEY_Q)) }
        else if code == 0x11 { Some(Key(KEY_W)) }
        else if code == 0x12 { Some(Key(KEY_E)) }
        else if code == 0x13 { Some(Key(KEY_R)) }
        else if code == 0x14 { Some(Key(KEY_T)) }
        else if code == 0x15 { Some(Key(KEY_Y)) }
        else if code == 0x16 { Some(Key(KEY_U)) }
        else if code == 0x17 { Some(Key(KEY_I)) }
        else if code == 0x18 { Some(Key(KEY_O)) }
        else if code == 0x19 { Some(Key(KEY_P)) }
        else if code == 0x1A { Some(Key(KEY_OP_BRACKET)) }
        else if code == 0x1B { Some(Key(KEY_CL_BRACKET)) }
        else if code == 0x1C { Some(Key(KEY_ENTER)) }
        else if code == 0x1D { Some(Key(KEY_L_CTRL)) }
        else if code == 0x1E { Some(Key(KEY_A)) }
        else if code == 0x1F { Some(Key(KEY_S)) }
        else if code == 0x20 { Some(Key(KEY_D)) }
        else if code == 0x21 { Some(Key(KEY_F)) }
        else if code == 0x22 { Some(Key(KEY_G)) }
        else if code == 0x23 { Some(Key(KEY_H)) }
        else if code == 0x24 { Some(Key(KEY_J)) }
        else if code == 0x25 { Some(Key(KEY_K)) }
        else if code == 0x26 { Some(Key(KEY_L)) }
        else if code == 0x27 { Some(Key(KEY_COLON)) }
        else if code == 0x28 { Some(Key(KEY_QUOTE)) }
        else if code == 0x29 { Some(Key(KEY_HASH)) }
        else if code == 0x2A { Some(Key(KEY_L_SHIFT)) }
        else if code == 0x2B { Some(Key(KEY_BACKTICK)) }
        else if code == 0x2C { Some(Key(KEY_Z)) }
        else if code == 0x2D { Some(Key(KEY_X)) }
        else if code == 0x2E { Some(Key(KEY_C)) }
        else if code == 0x2F { Some(Key(KEY_V)) }
        else if code == 0x30 { Some(Key(KEY_B)) }
        else if code == 0x31 { Some(Key(KEY_N)) }
        else if code == 0x32 { Some(Key(KEY_M)) }
        else if code == 0x33 { Some(Key(KEY_COMMA)) }
        else if code == 0x34 { Some(Key(KEY_PERIOD)) }
        else if code == 0x35 { Some(Key(KEY_F_SLASH)) }
        else if code == 0x36 { Some(Key(KEY_R_SHIFT)) }
        else if code == 0x37 { Some(Key(KEY_PRT_SCR)) }
        else if code == 0x38 { Some(Key(KEY_ALT)) }
        else if code == 0x39 { Some(Key(KEY_SPACE)) }
        else if code == 0x3A { Some(Key(KEY_CAPS_LOCK)) }
        else if code == 0x3B { Some(Key(KEY_F1)) }
        else if code == 0x3C { Some(Key(KEY_F2)) }
        else if code == 0x3D { Some(Key(KEY_F3)) }
        else if code == 0x3E { Some(Key(KEY_F4)) }
        else if code == 0x3F { Some(Key(KEY_F5)) }
        else if code == 0x40 { Some(Key(KEY_F6)) }
        else if code == 0x41 { Some(Key(KEY_F7)) }
        else if code == 0x42 { Some(Key(KEY_F8)) }
        else if code == 0x43 { Some(Key(KEY_F9)) }
        else if code == 0x44 { Some(Key(KEY_F10)) }
        else if code == 0x45 { Some(Key(KEY_NUM_LOCK)) }
        else if code == 0x46 { Some(Key(KEY_SCROLL_LOCK)) }
        else if code == 0x47 { Some(Key(KEY_NUM_7)) }
        else if code == 0x48 { Some(Key(KEY_NUM_8)) }
        else if code == 0x49 { Some(Key(KEY_NUM_9)) }
        else if code == 0x4A { Some(Key(KEY_NUM_SUB)) }
        else if code == 0x4B { Some(Key(KEY_NUM_4)) }
        else if code == 0x4C { Some(Key(KEY_NUM_5)) }
        else if code == 0x4D { Some(Key(KEY_NUM_6)) }
        else if code == 0x4E { Some(Key(KEY_NUM_ADD)) }
        else if code == 0x4F { Some(Key(KEY_NUM_1)) }
        else if code == 0x50 { Some(Key(KEY_NUM_2)) }
        else if code == 0x51 { Some(Key(KEY_NUM_3)) }
        else if code == 0x52 { Some(Key(KEY_NUM_0)) }
        else if code == 0x53 { Some(Key(KEY_NUM_DECIMAL)) }
        else if code == 0x57 { Some(Key(KEY_F11)) }
        else if code == 0x58 { Some(Key(KEY_F12)) }
        else { None }
    }
}

/// Maps one (escaped, code) pair through the fixed decoder table.
pub fn scancode_to_key(escaped: bool, scancode: u8) -> (k: Option<Key>)
    ensures
        k == spec_scancode_to_key(escaped, scancode),
{
    if escaped {
        if scancode == 0x1C { Some(Key(KEY_NUM_ENTER)) }
        else if scancode == 0x1D { Some(Key(KEY_R_CTRL)) }
        else if scancode == 0x38 { Some(Key(KEY_ALT_GR)) }
        else if scancode == 0x47 { Some(Key(KEY_HOME)) }
        else if scancode == 0x48 { Some(Key(KEY_UP)) }
        else if scancode == 0x49 { Some(Key(KEY_PG_UP)) }
        else if scancode == 0x4B { Some(Key(KEY_LEFT)) }
        else if scancode == 0x4D { Some(Key(KEY_RIGHT)) }
        else if scancode == 0x4F { Some(Key(KEY_END)) }
        else if scancode == 0x50 { Some(Key(KEY_DOWN)) }
        else if scancode == 0x51 { Some(Key(KEY_PG_DOWN)) }
        else if scancode == 0x52 { Some(Key(KEY_INS)) }
        else if scancode == 0x53 { Some(Key(KEY_DEL)) }
        else if scancode == 0x5B { Some(Key(KEY_L_SUPER)) }
        else if scancode == 0x5C { Some(Key(KEY_R_SUPER)) }
        else if scancode == 0x5D { Some(Key(KEY_MENU)) }
        else { None }
    } else {
        if scancode == 0x01 { Some(Key(KEY_ESC)) }
        else if scancode == 0x02 { Some(Key(KEY_1)) }
        else if scancode == 0x03 { Some(Key(KEY_2)) }
        else if scancode == 0x04 { Some(Key(KEY_3)) }
        else if scancode == 0x05 { Some(Key(KEY_4)) }
        else if scancode == 0x06 { Some(Key(KEY_5)) }
        else if scancode == 0x07 { Some(Key(KEY_6)) }
        else if scancode == 0x08 { Some(Key(KEY_7)) }
        else if scancode == 0x09 { Some(Key(KEY_8)) }
        else if scancode == 0x0A { Some(Key(KEY_9)) }
        else if scancode == 0x0B { Some(Key(KEY_0)) }
        else if scancode == 0x0C { Some(Key(KEY_HYPHEN)) }
        else if scancode == 0x0D { Some(Key(KEY_EQUALS)) }
        else if scancode == 0x0E { Some(Key(KEY_BACKSPACE)) }
        else if scancode == 0x0F { Some(Key(KEY_TAB)) }
        else if scancode == 0x10 { Some(Key(KEY_Q)) }
        else if scancode == 0x11 { Some(Key(KEY_W)) }
        else if scancode == 0x12 { Some(Key(KEY_E)) }
        else if scancode == 0x13 { Some(Key(KEY_R)) }
        else if scancode == 0x14 { Some(Key(KEY_T)) }
        else if scancode == 0x15 { Some(Key(KEY_Y)) }
        else if scancode == 0x16 { Some(Key(KEY_U)) }
        else if scancode == 0x17 { Some(Key(KEY_I)) }
        else if scancode == 0x18 { Some(Key(KEY_O)) }
        else if scancode == 0x19 { Some(Key(KEY_P)) }
        else if scancode == 0x1A { Some(Key(KEY_OP_BRACKET)) }
        else if scancode == 0x1B { Some(Key(KEY_CL_BRACKET)) }
        else if scancode == 0x1C { Some(Key(KEY_ENTER)) }
        else if scancode == 0x1D { Some(Key(KEY_L_CTRL)) }
        else if scancode == 0x1E { Some(Key(KEY_A)) }
        else if scancode == 0x1F { Some(Key(KEY_S)) }
        else if scancode == 0x20 { Some(Key(KEY_D)) }
        else if scancode == 0x21 { Some(Key(KEY_F)) }
        else if scancode == 0x22 { Some(Key(KEY_G)) }
        else if scancode == 0x23 { Some(Key(KEY_H)) }
        else if scancode == 0x24 { Some(Key(KEY_J)) }
        else if scancode == 0x25 { Some(Key(KEY_K)) }
        else if scancode == 0x26 { Some(Key(KEY_L)) }
        else if scancode == 0x27 { Some(Key(KEY_COLON)) }
        else if scancode == 0x28 { Some(Key(KEY_QUOTE)) }
        else if scancode == 0x29 { Some(Key(KEY_HASH)) }
        else if scancode == 0x2A { Some(Key(KEY_L_SHIFT)) }
        else if scancode == 0x2B { Some(Key(KEY_BACKTICK)) }
        else if scancode == 0x2C { Some(Key(KEY_Z)) }
        else if scancode == 0x2D { Some(Key(KEY_X)) }
        else if scancode == 0x2E { Some(Key(KEY_C)) }
        else if scancode == 0x2F { Some(Key(KEY_V)) }
        else if scancode == 0x30 { Some(Key(KEY_B)) }
        else if scancode == 0x31 { Some(Key(KEY_N)) }
        else if scancode == 0x32 { Some(Key(KEY_M)) }
        else if scancode == 0x33 { Some(Key(KEY_COMMA)) }
        else if scancode == 0x34 { Some(Key(KEY_PERIOD)) }
        else if scancode == 0x35 { Some(Key(KEY_F_SLASH)) }
        else if scancode == 0x36 { Some(Key(KEY_R_SHIFT)) }
        else if scancode == 0x37 { Some(Key(KEY_PRT_SCR)) }
        else if scancode == 0x38 { Some(Key(KEY_ALT)) }
        else if scancode == 0x39 { Some(Key(KEY_SPACE)) }
        else if scancode == 0x3A { Some(Key(KEY_CAPS_LOCK)) }
        else if scancode == 0x3B { Some(Key(KEY_F1)) }
        else if scancode == 0x3C { Some(Key(KEY_F2)) }
        else if scancode == 0x3D { Some(Key(KEY_F3)) }
        else if scancode == 0x3E { Some(Key(KEY_F4)) }
        else if scancode == 0x3F { Some(Key(KEY_F5)) }
        else if scancode == 0x40 { Some(Key(KEY_F6)) }
        else if scancode == 0x41 { Some(Key(KEY_F7)) }
        else if scancode == 0x42 { Some(Key(KEY_F8)) }
        else if scancode == 0x43 { Some(Key(KEY_F9)) }
        else if scancode == 0x44 { Some(Key(KEY_F10)) }
        else if scancode == 0x45 { Some(Key(KEY_NUM_LOCK)) }
        else if scancode == 0x46 { Some(Key(KEY_SCROLL_LOCK)) }
        else if scancode == 0x47 { Some(Key(KEY_NUM_7)) }
        else if scancode == 0x48 { Some(Key(KEY_NUM_8)) }
        else if scancode == 0x49 { Some(Key(KEY_NUM_9)) }
        else if scancode == 0x4A { Some(Key(KEY_NUM_SUB)) }
        else if scancode == 0x4B { Some(Key(KEY_NUM_4)) }
        else if scancode == 0x4C { Some(Key(KEY_NUM_5)) }
        else if scancode == 0x4D { Some(Key(KEY_NUM_6)) }
        else if scancode == 0x4E { Some(Key(KEY_NUM_ADD)) }
        else if scancode == 0x4F { Some(Key(KEY_NUM_1)) }
        else if scancode == 0x50 { Some(Key(KEY_NUM_2)) }
        else if scancode == 0x51 { Some(Key(KEY_NUM_3)) }
        else if scancode == 0x52 { Some(Key(KEY_NUM_0)) }
        else if scancode == 0x53 { Some(Key(KEY_NUM_DECIMAL)) }
        else if scancode == 0x57 { Some(Key(KEY_F11)) }
        else if scancode == 0x58 { Some(Key(KEY_F12)) }
        else { None }
    }
}

/// Translates a raw scancode byte stream into (key, released) transitions,
/// keeping the one bit of state that the "extended" prefix byte sets.
#[derive(Debug)]
pub struct ScancodeReader {
    /// True exactly when the previous byte was the extended prefix 0xE0.
    pub escaped: bool,
}

/// What one byte does to the reader: the escape flag afterwards, and the
/// decoded transition, if any.
pub open spec fn spec_feed(escaped: bool, byte: u8) -> (bool, Option<(Key, bool)>) {
    if byte == 0xE0 {
        (true, None)
    } else {
        let released = byte >= 0x80;
        let code = if released { (byte - 0x80) as u8 } else { byte };
        let out = match spec_scancode_to_key(escaped, code) {
            Some(k) => Some((k, released)),
            None => None,
        };
        (false, out)
    }
}

impl ScancodeReader {
    /// A fresh reader, with no pending escape.
    pub fn new() -> (r: ScancodeReader)
        ensures
            r.escaped == false,
    {
        ScancodeReader {
            escaped: false,
        }
    }

    /// Feeds one raw byte to the reader.
    ///
    /// The prefix byte 0xE0 only sets the escape flag and yields nothing; any
    /// other byte is decoded under the pending escape flag, which is cleared
    /// afterwards whether or not the table had an entry. Undefined
    /// (escaped, code) combinations are silently dropped.
    pub fn feed_scancode(&mut self, scancode: u8) -> (r: Option<(Key, bool)>)
        ensures
            final(self).escaped == spec_feed(old(self).escaped, scancode).0,
            r == spec_feed(old(self).escaped, scancode).1,
    {
        if scancode == 0xE0 {
            self.escaped = true;
            return None;
        }

        let released = scancode >= 0x80;
        let code = if released { scancode - 0x80 } else { scancode };

        let key = scancode_to_key(self.escaped, code);

        self.escaped = false;

        if let Some(key) = key {
            Some((key, released))
        } else {
            None
        }
    }
}

} // verus!

