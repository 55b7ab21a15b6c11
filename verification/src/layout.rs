//! Layout tables: immutable maps from a (group, level, key) position to the
//! displayable symbol at that position.

use vstd::prelude::*;
use std::collections::HashMap;
use crate::keys::Key;
use crate::keys::KEY_1;
use crate::keys::KEY_2;
use crate::keys::KEY_3;
use crate::keys::KEY_4;
use crate::keys::KEY_5;
use crate::keys::KEY_6;
use crate::keys::KEY_7;
use crate::keys::KEY_8;
use crate::keys::KEY_9;
use crate::keys::KEY_0;
use crate::keys::KEY_Q;
use crate::keys::KEY_W;
use crate::keys::KEY_E;
use crate::keys::KEY_R;
use crate::keys::KEY_T;
use crate::keys::KEY_Y;
use crate::keys::KEY_U;
use crate::keys::KEY_I;
use crate::keys::KEY_O;
use crate::keys::KEY_P;
use crate::keys::KEY_A;
use crate::keys::KEY_S;
use crate::keys::KEY_D;
use crate::keys::KEY_F;
use crate::keys::KEY_G;
use crate::keys::KEY_H;
use crate::keys::KEY_J;
use crate::keys::KEY_K;
use crate::keys::KEY_L;
use crate::keys::KEY_Z;
use crate::keys::KEY_X;
use crate::keys::KEY_C;
use crate::keys::KEY_V;
use crate::keys::KEY_B;
use crate::keys::KEY_N;
use crate::keys::KEY_M;
use crate::keys::KEY_HYPHEN;
use crate::keys::KEY_EQUALS;
use crate::keys::KEY_OP_BRACKET;
use crate::keys::KEY_CL_BRACKET;
use crate::keys::KEY_COLON;
use crate::keys::KEY_QUOTE;
use crate::keys::KEY_BACKTICK;
use crate::keys::KEY_HASH;
use crate::keys::KEY_COMMA;
use crate::keys::KEY_PERIOD;
use crate::keys::KEY_F_SLASH;
use crate::keys::KEY_NUM_MUL;
use crate::keys::KEY_NUM_DIV;
use crate::keys::KEY_NUM_7;
use crate::keys::KEY_NUM_8;
use crate::keys::KEY_NUM_9;
use crate::keys::KEY_NUM_4;
use crate::keys::KEY_NUM_5;
use crate::keys::KEY_NUM_6;
use crate::keys::KEY_NUM_1;
use crate::keys::KEY_NUM_2;
use crate::keys::KEY_NUM_3;
use crate::keys::KEY_NUM_0;
use crate::keys::KEY_NUM_DECIMAL;

verus! {

broadcast use vstd::std_specs::hash::group_hash_axioms;

/// The packed table index of a (group, level, keycode) position.
pub open spec fn spec_position(group: u8, level: u8, code: u8) -> u32 {
    ((group as u32) * 0x10000 + (level as u32) * 0x100 + (code as u32)) as u32
}

/// Packs a (group, level, keycode) position into its table index.
fn position(group: u8, level: u8, code: u8) -> (r: u32)
    ensures
        r == spec_position(group, level, code),
{
    (group as u32) * 0x10000 + (level as u32) * 0x100 + (code as u32)
}

/// A keyboard layout: whether the physical board has a real AltGr key, and the
/// sparse symbol table over (group, level, key) positions.
#[derive(Debug, Clone)]
pub struct Layout {
    pub has_alt_gr_key: bool,
    pub key_symbol_map: HashMap<u32, char>,
}

impl Layout {
    /// The symbol this layout maps the (group, level, key) position to, if any.
    pub open spec fn spec_symbol(self, group: u8, level: u8, code: u8) -> Option<char> {
        if self.key_symbol_map@.contains_key(spec_position(group, level, code)) {
            Some(self.key_symbol_map@[spec_position(group, level, code)])
        } else {
            None
        }
    }

    /// An empty layout table.
    pub fn new(has_alt_gr_key: bool) -> (l: Layout)
        ensures
            l.has_alt_gr_key == has_alt_gr_key,
            l.key_symbol_map@ == Map::<u32, char>::empty(),
    {
        Layout {
            has_alt_gr_key,
            key_symbol_map: HashMap::new(),
        }
    }

    /// Maps the (group, level, key) position to the given symbol.
    pub fn add_symbol(&mut self, group: u8, level: u8, key: Key, symbol: char)
        ensures
            final(self).has_alt_gr_key == old(self).has_alt_gr_key,
            final(self).key_symbol_map@ == old(self).key_symbol_map@.insert(
                spec_position(group, level, key.0),
                symbol,
            ),
    {
        self.key_symbol_map.insert(position(group, level, key.keycode()), symbol);
    }

    /// Looks the symbol up at a (group, level, key) position; most positions
    /// are unmapped and yield nothing.
    pub fn get_symbol(&self, group: u8, level: u8, key: Key) -> (r: Option<char>)
        ensures
            r == self.spec_symbol(group, level, key.0),
    {
        match self.key_symbol_map.get(&position(group, level, key.keycode())) {
            Some(c) => Some(*c),
            None => None,
        }
    }
}

/// The contents of the US reference layout table.
pub open spec fn us_map() -> Map<u32, char> {
    Map::<u32, char>::empty()
        .insert(spec_position(0, 0, KEY_1), '1')
        .insert(spec_position(0, 0, KEY_2), '2')
        .insert(spec_position(0, 0, KEY_3), '3')
        .insert(spec_position(0, 0, KEY_4), '4')
        .insert(spec_position(0, 0, KEY_5), '5')
        .insert(spec_position(0, 0, KEY_6), '6')
        .insert(spec_position(0, 0, KEY_7), '7')
        .insert(spec_position(0, 0, KEY_8), '8')
        .insert(spec_position(0, 0, KEY_9), '9')
        .insert(spec_position(0, 0, KEY_0), '0')
        .insert(spec_position(0, 0, KEY_Q), 'q')
        .insert(spec_position(0, 0, KEY_W), 'w')
        .insert(spec_position(0, 0, KEY_E), 'e')
        .insert(spec_position(0, 0, KEY_R), 'r')
        .insert(spec_position(0, 0, KEY_T), 't')
        .insert(spec_position(0, 0, KEY_Y), 'y')
        .insert(spec_position(0, 0, KEY_U), 'u')
        .insert(spec_position(0, 0, KEY_I), 'i')
        .insert(spec_position(0, 0, KEY_O), 'o')
        .insert(spec_position(0, 0, KEY_P), 'p')
        .insert(spec_position(0, 0, KEY_A), 'a')
        .insert(spec_position(0, 0, KEY_S), 's')
        .insert(spec_position(0, 0, KEY_D), 'd')
        .insert(spec_position(0, 0, KEY_F), 'f')
        .insert(spec_position(0, 0, KEY_G), 'g')
        .insert(spec_position(0, 0, KEY_H), 'h')
        .insert(spec_position(0, 0, KEY_J), 'j')
        .insert(spec_position(0, 0, KEY_K), 'k')
        .insert(spec_position(0, 0, KEY_L), 'l')
        .insert(spec_position(0, 0, KEY_Z), 'z')
        .insert(spec_position(0, 0, KEY_X), 'x')
        .insert(spec_position(0, 0, KEY_C), 'c')
        .insert(spec_position(0, 0, KEY_V), 'v')
        .insert(spec_position(0, 0, KEY_B), 'b')
        .insert(spec_position(0, 0, KEY_N), 'n')
        .insert(spec_position(0, 0, KEY_M), 'm')
        .insert(spec_position(0, 0, KEY_HYPHEN), '-')
        .insert(spec_position(0, 0, KEY_EQUALS), '=')
        .insert(spec_position(0, 0, KEY_OP_BRACKET), '[')
        .insert(spec_position(0, 0, KEY_CL_BRACKET), ']')
        .insert(spec_position(0, 0, KEY_COLON), ';')
        .insert(spec_position(0, 0, KEY_QUOTE), '\'')
        .insert(spec_position(0, 0, KEY_BACKTICK), '`')
        .insert(spec_position(0, 0, KEY_HASH), '\\')
        .insert(spec_position(0, 0, KEY_COMMA), ',')
        .insert(spec_position(0, 0, KEY_PERIOD), '.')
        .insert(spec_position(0, 0, KEY_F_SLASH), '/')
        .insert(spec_position(0, 0, KEY_NUM_MUL), '*')
        .insert(spec_position(0, 0, KEY_NUM_DIV), '/')
        .insert(spec_position(0, 1, KEY_1), '!')
        .insert(spec_position(0, 1, KEY_2), '@')
        .insert(spec_position(0, 1, KEY_3), '#')
        .insert(spec_position(0, 1, KEY_4), '$')
        .insert(spec_position(0, 1, KEY_5), '%')
        .insert(spec_position(0, 1, KEY_6), '^')
        .insert(spec_position(0, 1, KEY_7), '&')
        .insert(spec_position(0, 1, KEY_8), '*')
        .insert(spec_position(0, 1, KEY_9), '(')
        .insert(spec_position(0, 1, KEY_0), ')')
        .insert(spec_position(0, 1, KEY_Q), 'Q')
        .insert(spec_position(0, 1, KEY_W), 'W')
        .insert(spec_position(0, 1, KEY_E), 'E')
        .insert(spec_position(0, 1, KEY_R), 'R')
        .insert(spec_position(0, 1, KEY_T), 'T')
        .insert(spec_position(0, 1, KEY_Y), 'Y')
        .insert(spec_position(0, 1, KEY_U), 'U')
        .insert(spec_position(0, 1, KEY_I), 'I')
        .insert(spec_position(0, 1, KEY_O), 'O')
        .insert(spec_position(0, 1, KEY_P), 'P')
        .insert(spec_position(0, 1, KEY_A), 'A')
        .insert(spec_position(0, 1, KEY_S), 'S')
        .insert(spec_position(0, 1, KEY_D), 'D')
        .insert(spec_position(0, 1, KEY_F), 'F')
        .insert(spec_position(0, 1, KEY_G), 'G')
        .insert(spec_position(0, 1, KEY_H), 'H')
        .insert(spec_position(0, 1, KEY_J), 'J')
        .insert(spec_position(0, 1, KEY_K), 'K')
        .insert(spec_position(0, 1, KEY_L), 'L')
        .insert(spec_position(0, 1, KEY_Z), 'Z')
        .insert(spec_position(0, 1, KEY_X), 'X')
        .insert(spec_position(0, 1, KEY_C), 'C')
        .insert(spec_position(0, 1, KEY_V), 'V')
        .insert(spec_position(0, 1, KEY_B), 'B')
        .insert(spec_position(0, 1, KEY_N), 'N')
        .insert(spec_position(0, 1, KEY_M), 'M')
        .insert(spec_position(0, 1, KEY_HYPHEN), '_')
        .insert(spec_position(0, 1, KEY_EQUALS), '+')
        .insert(spec_position(0, 1, KEY_OP_BRACKET), '{')
        .insert(spec_position(0, 1, KEY_CL_BRACKET), '}')
        .insert(spec_position(0, 1, KEY_COLON), ':')
        .insert(spec_position(0, 1, KEY_QUOTE), '"')
        .insert(spec_position(0, 1, KEY_BACKTICK), '~')
        .insert(spec_position(0, 1, KEY_HASH), '|')
        .insert(spec_position(0, 1, KEY_COMMA), '<')
        .insert(spec_position(0, 1, KEY_PERIOD), '>')
        .insert(spec_position(0, 1, KEY_F_SLASH), '?')
        .insert(spec_position(0, 1, KEY_NUM_MUL), '*')
        .insert(spec_position(0, 1, KEY_NUM_DIV), '/')
        .insert(spec_position(0, 1, KEY_NUM_7), '7')
        .insert(spec_position(0, 1, KEY_NUM_8), '8')
        .insert(spec_position(0, 1, KEY_NUM_9), '9')
        .insert(spec_position(0, 1, KEY_NUM_4), '4')
        .insert(spec_position(0, 1, KEY_NUM_5), '5')
        .insert(spec_position(0, 1, KEY_NUM_6), '6')
        .insert(spec_position(0, 1, KEY_NUM_1), '1')
        .insert(spec_position(0, 1, KEY_NUM_2), '2')
        .insert(spec_position(0, 1, KEY_NUM_3), '3')
        .insert(spec_position(0, 1, KEY_NUM_0), '0')
        .insert(spec_position(0, 1, KEY_NUM_DECIMAL), '.')
}

/// The US reference layout.
pub fn us() -> (l: Layout)
    ensures
        l.has_alt_gr_key == false,
        l.key_symbol_map@ == us_map(),
{
    let mut l = Layout::new(false);
    l.add_symbol(0, 0, Key(KEY_1), '1');
    l.add_symbol(0, 0, Key(KEY_2), '2');
    l.add_symbol(0, 0, Key(KEY_3), '3');
    l.add_symbol(0, 0, Key(KEY_4), '4');
    l.add_symbol(0, 0, Key(KEY_5), '5');
    l.add_symbol(0, 0, Key(KEY_6), '6');
    l.add_symbol(0, 0, Key(KEY_7), '7');
    l.add_symbol(0, 0, Key(KEY_8), '8');
    l.add_symbol(0, 0, Key(KEY_9), '9');
    l.add_symbol(0, 0, Key(KEY_0), '0');
    l.add_symbol(0, 0, Key(KEY_Q), 'q');
    l.add_symbol(0, 0, Key(KEY_W), 'w');
    l.add_symbol(0, 0, Key(KEY_E), 'e');
    l.add_symbol(0, 0, Key(KEY_R), 'r');
    l.add_symbol(0, 0, Key(KEY_T), 't');
    l.add_symbol(0, 0, Key(KEY_Y), 'y');
    l.add_symbol(0, 0, Key(KEY_U), 'u');
    l.add_symbol(0, 0, Key(KEY_I), 'i');
    l.add_symbol(0, 0, Key(KEY_O), 'o');
    l.add_symbol(0, 0, Key(KEY_P), 'p');
    l.add_symbol(0, 0, Key(KEY_A), 'a');
    l.add_symbol(0, 0, Key(KEY_S), 's');
    l.add_symbol(0, 0, Key(KEY_D), 'd');
    l.add_symbol(0, 0, Key(KEY_F), 'f');
    l.add_symbol(0, 0, Key(KEY_G), 'g');
    l.add_symbol(0, 0, Key(KEY_H), 'h');
    l.add_symbol(0, 0, Key(KEY_J), 'j');
    l.add_symbol(0, 0, Key(KEY_K), 'k');
    l.add_symbol(0, 0, Key(KEY_L), 'l');
    l.add_symbol(0, 0, Key(KEY_Z), 'z');
    l.add_symbol(0, 0, Key(KEY_X), 'x');
    l.add_symbol(0, 0, Key(KEY_C), 'c');
    l.add_symbol(0, 0, Key(KEY_V), 'v');
    l.add_symbol(0, 0, Key(KEY_B), 'b');
    l.add_symbol(0, 0, Key(KEY_N), 'n');
    l.add_symbol(0, 0, Key(KEY_M), 'm');
    l.add_symbol(0, 0, Key(KEY_HYPHEN), '-');
    l.add_symbol(0, 0, Key(KEY_EQUALS), '=');
    l.add_symbol(0, 0, Key(KEY_OP_BRACKET), '[');
    l.add_symbol(0, 0, Key(KEY_CL_BRACKET), ']');
    l.add_symbol(0, 0, Key(KEY_COLON), ';');
    l.add_symbol(0, 0, Key(KEY_QUOTE), '\'');
    l.add_symbol(0, 0, Key(KEY_BACKTICK), '`');
    l.add_symbol(0, 0, Key(KEY_HASH), '\\');
    l.add_symbol(0, 0, Key(KEY_COMMA), ',');
    l.add_symbol(0, 0, Key(KEY_PERIOD), '.');
    l.add_symbol(0, 0, Key(KEY_F_SLASH), '/');
    l.add_symbol(0, 0, Key(KEY_NUM_MUL), '*');
    l.add_symbol(0, 0, Key(KEY_NUM_DIV), '/');
    l.add_symbol(0, 1, Key(KEY_1), '!');
    l.add_symbol(0, 1, Key(KEY_2), '@');
    l.add_symbol(0, 1, Key(KEY_3), '#');
    l.add_symbol(0, 1, Key(KEY_4), '$');
    l.add_symbol(0, 1, Key(KEY_5), '%');
    l.add_symbol(0, 1, Key(KEY_6), '^');
    l.add_symbol(0, 1, Key(KEY_7), '&');
    l.add_symbol(0, 1, Key(KEY_8), '*');
    l.add_symbol(0, 1, Key(KEY_9), '(');
    l.add_symbol(0, 1, Key(KEY_0), ')');
    l.add_symbol(0, 1, Key(KEY_Q), 'Q');
    l.add_symbol(0, 1, Key(KEY_W), 'W');
    l.add_symbol(0, 1, Key(KEY_E), 'E');
    l.add_symbol(0, 1, Key(KEY_R), 'R');
    l.add_symbol(0, 1, Key(KEY_T), 'T');
    l.add_symbol(0, 1, Key(KEY_Y), 'Y');
    l.add_symbol(0, 1, Key(KEY_U), 'U');
    l.add_symbol(0, 1, Key(KEY_I), 'I');
    l.add_symbol(0, 1, Key(KEY_O), 'O');
    l.add_symbol(0, 1, Key(KEY_P), 'P');
    l.add_symbol(0, 1, Key(KEY_A), 'A');
    l.add_symbol(0, 1, Key(KEY_S), 'S');
    l.add_symbol(0, 1, Key(KEY_D), 'D');
    l.add_symbol(0, 1, Key(KEY_F), 'F');
    l.add_symbol(0, 1, Key(KEY_G), 'G');
    l.add_symbol(0, 1, Key(KEY_H), 'H');
    l.add_symbol(0, 1, Key(KEY_J), 'J');
    l.add_symbol(0, 1, Key(KEY_K), 'K');
    l.add_symbol(0, 1, Key(KEY_L), 'L');
    l.add_symbol(0, 1, Key(KEY_Z), 'Z');
    l.add_symbol(0, 1, Key(KEY_X), 'X');
    l.add_symbol(0, 1, Key(KEY_C), 'C');
    l.add_symbol(0, 1, Key(KEY_V), 'V');
    l.add_symbol(0, 1, Key(KEY_B), 'B');
    l.add_symbol(0, 1, Key(KEY_N), 'N');
    l.add_symbol(0, 1, Key(KEY_M), 'M');
    l.add_symbol(0, 1, Key(KEY_HYPHEN), '_');
    l.add_symbol(0, 1, Key(KEY_EQUALS), '+');
    l.add_symbol(0, 1, Key(KEY_OP_BRACKET), '{');
    l.add_symbol(0, 1, Key(KEY_CL_BRACKET), '}');
    l.add_symbol(0, 1, Key(KEY_COLON), ':');
    l.add_symbol(0, 1, Key(KEY_QUOTE), '"');
    l.add_symbol(0, 1, Key(KEY_BACKTICK), '~');
    l.add_symbol(0, 1, Key(KEY_HASH), '|');
    l.add_symbol(0, 1, Key(KEY_COMMA), '<');
    l.add_symbol(0, 1, Key(KEY_PERIOD), '>');
    l.add_symbol(0, 1, Key(KEY_F_SLASH), '?');
    l.add_symbol(0, 1, Key(KEY_NUM_MUL), '*');
    l.add_symbol(0, 1, Key(KEY_NUM_DIV), '/');
    l.add_symbol(0, 1, Key(KEY_NUM_7), '7');
    l.add_symbol(0, 1, Key(KEY_NUM_8), '8');
    l.add_symbol(0, 1, Key(KEY_NUM_9), '9');
    l.add_symbol(0, 1, Key(KEY_NUM_4), '4');
    l.add_symbol(0, 1, Key(KEY_NUM_5), '5');
    l.add_symbol(0, 1, Key(KEY_NUM_6), '6');
    l.add_symbol(0, 1, Key(KEY_NUM_1), '1');
    l.add_symbol(0, 1, Key(KEY_NUM_2), '2');
    l.add_symbol(0, 1, Key(KEY_NUM_3), '3');
    l.add_symbol(0, 1, Key(KEY_NUM_0), '0');
    l.add_symbol(0, 1, Key(KEY_NUM_DECIMAL), '.');
    l
}

/// The contents of the GB reference (with an AltGr key) layout table.
pub open spec fn gb_map() -> Map<u32, char> {
    Map::<u32, char>::empty()
        .insert(spec_position(0, 0, KEY_1), '1')
        .insert(spec_position(0, 0, KEY_2), '2')
        .insert(spec_position(0, 0, KEY_3), '3')
        .insert(spec_position(0, 0, KEY_4), '4')
        .insert(spec_position(0, 0, KEY_5), '5')
        .insert(spec_position(0, 0, KEY_6), '6')
        .insert(spec_position(0, 0, KEY_7), '7')
        .insert(spec_position(0, 0, KEY_8), '8')
        .insert(spec_position(0, 0, KEY_9), '9')
        .insert(spec_position(0, 0, KEY_0), '0')
        .insert(spec_position(0, 0, KEY_Q), 'q')
        .insert(spec_position(0, 0, KEY_W), 'w')
        .insert(spec_position(0, 0, KEY_E), 'e')
        .insert(spec_position(0, 0, KEY_R), 'r')
        .insert(spec_position(0, 0, KEY_T), 't')
        .insert(spec_position(0, 0, KEY_Y), 'y')
        .insert(spec_position(0, 0, KEY_U), 'u')
        .insert(spec_position(0, 0, KEY_I), 'i')
        .insert(spec_position(0, 0, KEY_O), 'o')
        .insert(spec_position(0, 0, KEY_P), 'p')
        .insert(spec_position(0, 0, KEY_A), 'a')
        .insert(spec_position(0, 0, KEY_S), 's')
        .insert(spec_position(0, 0, KEY_D), 'd')
        .insert(spec_position(0, 0, KEY_F), 'f')
        .insert(spec_position(0, 0, KEY_G), 'g')
        .insert(spec_position(0, 0, KEY_H), 'h')
        .insert(spec_position(0, 0, KEY_J), 'j')
        .insert(spec_position(0, 0, KEY_K), 'k')
        .insert(spec_position(0, 0, KEY_L), 'l')
        .insert(spec_position(0, 0, KEY_Z), 'z')
        .insert(spec_position(0, 0, KEY_X), 'x')
        .insert(spec_position(0, 0, KEY_C), 'c')
        .insert(spec_position(0, 0, KEY_V), 'v')
        .insert(spec_position(0, 0, KEY_B), 'b')
        .insert(spec_position(0, 0, KEY_N), 'n')
        .insert(spec_position(0, 0, KEY_M), 'm')
        .insert(spec_position(0, 0, KEY_HYPHEN), '-')
        .insert(spec_position(0, 0, KEY_EQUALS), '=')
        .insert(spec_position(0, 0, KEY_OP_BRACKET), '[')
        .insert(spec_position(0, 0, KEY_CL_BRACKET), ']')
        .insert(spec_position(0, 0, KEY_COLON), ';')
        .insert(spec_position(0, 0, KEY_QUOTE), '\'')
        .insert(spec_position(0, 0, KEY_BACKTICK), '`')
        .insert(spec_position(0, 0, KEY_HASH), '#')
        .insert(spec_position(0, 0, KEY_COMMA), ',')
        .insert(spec_position(0, 0, KEY_PERIOD), '.')
        .insert(spec_position(0, 0, KEY_F_SLASH), '/')
        .insert(spec_position(0, 0, KEY_NUM_MUL), '*')
        .insert(spec_position(0, 0, KEY_NUM_DIV), '/')
        .insert(spec_position(0, 1, KEY_1), '!')
        .insert(spec_position(0, 1, KEY_2), '"')
        .insert(spec_position(0, 1, KEY_3), '£')
        .insert(spec_position(0, 1, KEY_4), '$')
        .insert(spec_position(0, 1, KEY_5), '%')
        .insert(spec_position(0, 1, KEY_6), '^')
        .insert(spec_position(0, 1, KEY_7), '&')
        .insert(spec_position(0, 1, KEY_8), '*')
        .insert(spec_position(0, 1, KEY_9), '(')
        .insert(spec_position(0, 1, KEY_0), ')')
        .insert(spec_position(0, 1, KEY_Q), 'Q')
        .insert(spec_position(0, 1, KEY_W), 'W')
        .insert(spec_position(0, 1, KEY_E), 'E')
        .insert(spec_position(0, 1, KEY_R), 'R')
        .insert(spec_position(0, 1, KEY_T), 'T')
        .insert(spec_position(0, 1, KEY_Y), 'Y')
        .insert(spec_position(0, 1, KEY_U), 'U')
        .insert(spec_position(0, 1, KEY_I), 'I')
        .insert(spec_position(0, 1, KEY_O), 'O')
        .insert(spec_position(0, 1, KEY_P), 'P')
        .insert(spec_position(0, 1, KEY_A), 'A')
        .insert(spec_position(0, 1, KEY_S), 'S')
        .insert(spec_position(0, 1, KEY_D), 'D')
        .insert(spec_position(0, 1, KEY_F), 'F')
        .insert(spec_position(0, 1, KEY_G), 'G')
        .insert(spec_position(0, 1, KEY_H), 'H')
        .insert(spec_position(0, 1, KEY_J), 'J')
        .insert(spec_position(0, 1, KEY_K), 'K')
        .insert(spec_position(0, 1, KEY_L), 'L')
        .insert(spec_position(0, 1, KEY_Z), 'Z')
        .insert(spec_position(0, 1, KEY_X), 'X')
        .insert(spec_position(0, 1, KEY_C), 'C')
        .insert(spec_position(0, 1, KEY_V), 'V')
        .insert(spec_position(0, 1, KEY_B), 'B')
        .insert(spec_position(0, 1, KEY_N), 'N')
        .insert(spec_position(0, 1, KEY_M), 'M')
        .insert(spec_position(0, 1, KEY_HYPHEN), '_')
        .insert(spec_position(0, 1, KEY_EQUALS), '+')
        .insert(spec_position(0, 1, KEY_OP_BRACKET), '{')
        .insert(spec_position(0, 1, KEY_CL_BRACKET), '}')
        .insert(spec_position(0, 1, KEY_COLON), ':')
        .insert(spec_position(0, 1, KEY_QUOTE), '@')
        .insert(spec_position(0, 1, KEY_BACKTICK), '¬')
        .insert(spec_position(0, 1, KEY_HASH), '~')
        .insert(spec_position(0, 1, KEY_COMMA), '<')
        .insert(spec_position(0, 1, KEY_PERIOD), '>')
        .insert(spec_position(0, 1, KEY_F_SLASH), '?')
        .insert(spec_position(0, 1, KEY_NUM_MUL), '*')
        .insert(spec_position(0, 1, KEY_NUM_DIV), '/')
        .insert(spec_position(0, 1, KEY_NUM_7), '7')
        .insert(spec_position(0, 1, KEY_NUM_8), '8')
        .insert(spec_position(0, 1, KEY_NUM_9), '9')
        .insert(spec_position(0, 1, KEY_NUM_4), '4')
        .insert(spec_position(0, 1, KEY_NUM_5), '5')
        .insert(spec_position(0, 1, KEY_NUM_6), '6')
        .insert(spec_position(0, 1, KEY_NUM_1), '1')
        .insert(spec_position(0, 1, KEY_NUM_2), '2')
        .insert(spec_position(0, 1, KEY_NUM_3), '3')
        .insert(spec_position(0, 1, KEY_NUM_0), '0')
        .insert(spec_position(0, 1, KEY_NUM_DECIMAL), '.')
        .insert(spec_position(1, 0, KEY_BACKTICK), '|')
        .insert(spec_position(1, 0, KEY_4), '€')
        .insert(spec_position(1, 0, KEY_E), 'é')
}

/// The GB reference (with an AltGr key) layout.
pub fn gb() -> (l: Layout)
    ensures
        l.has_alt_gr_key == true,
        l.key_symbol_map@ == gb_map(),
{
    let mut l = Layout::new(true);
    l.add_symbol(0, 0, Key(KEY_1), '1');
    l.add_symbol(0, 0, Key(KEY_2), '2');
    l.add_symbol(0, 0, Key(KEY_3), '3');
    l.add_symbol(0, 0, Key(KEY_4), '4');
    l.add_symbol(0, 0, Key(KEY_5), '5');
    l.add_symbol(0, 0, Key(KEY_6), '6');
    l.add_symbol(0, 0, Key(KEY_7), '7');
    l.add_symbol(0, 0, Key(KEY_8), '8');
    l.add_symbol(0, 0, Key(KEY_9), '9');
    l.add_symbol(0, 0, Key(KEY_0), '0');
    l.add_symbol(0, 0, Key(KEY_Q), 'q');
    l.add_symbol(0, 0, Key(KEY_W), 'w');
    l.add_symbol(0, 0, Key(KEY_E), 'e');
    l.add_symbol(0, 0, Key(KEY_R), 'r');
    l.add_symbol(0, 0, Key(KEY_T), 't');
    l.add_symbol(0, 0, Key(KEY_Y), 'y');
    l.add_symbol(0, 0, Key(KEY_U), 'u');
    l.add_symbol(0, 0, Key(KEY_I), 'i');
    l.add_symbol(0, 0, Key(KEY_O), 'o');
    l.add_symbol(0, 0, Key(KEY_P), 'p');
    l.add_symbol(0, 0, Key(KEY_A), 'a');
    l.add_symbol(0, 0, Key(KEY_S), 's');
    l.add_symbol(0, 0, Key(KEY_D), 'd');
    l.add_symbol(0, 0, Key(KEY_F), 'f');
    l.add_symbol(0, 0, Key(KEY_G), 'g');
    l.add_symbol(0, 0, Key(KEY_H), 'h');
    l.add_symbol(0, 0, Key(KEY_J), 'j');
    l.add_symbol(0, 0, Key(KEY_K), 'k');
    l.add_symbol(0, 0, Key(KEY_L), 'l');
    l.add_symbol(0, 0, Key(KEY_Z), 'z');
    l.add_symbol(0, 0, Key(KEY_X), 'x');
    l.add_symbol(0, 0, Key(KEY_C), 'c');
    l.add_symbol(0, 0, Key(KEY_V), 'v');
    l.add_symbol(0, 0, Key(KEY_B), 'b');
    l.add_symbol(0, 0, Key(KEY_N), 'n');
    l.add_symbol(0, 0, Key(KEY_M), 'm');
    l.add_symbol(0, 0, Key(KEY_HYPHEN), '-');
    l.add_symbol(0, 0, Key(KEY_EQUALS), '=');
    l.add_symbol(0, 0, Key(KEY_OP_BRACKET), '[');
    l.add_symbol(0, 0, Key(KEY_CL_BRACKET), ']');
    l.add_symbol(0, 0, Key(KEY_COLON), ';');
    l.add_symbol(0, 0, Key(KEY_QUOTE), '\'');
    l.add_symbol(0, 0, Key(KEY_BACKTICK), '`');
    l.add_symbol(0, 0, Key(KEY_HASH), '#');
    l.add_symbol(0, 0, Key(KEY_COMMA), ',');
    l.add_symbol(0, 0, Key(KEY_PERIOD), '.');
    l.add_symbol(0, 0, Key(KEY_F_SLASH), '/');
    l.add_symbol(0, 0, Key(KEY_NUM_MUL), '*');
    l.add_symbol(0, 0, Key(KEY_NUM_DIV), '/');
    l.add_symbol(0, 1, Key(KEY_1), '!');
    l.add_symbol(0, 1, Key(KEY_2), '"');
    l.add_symbol(0, 1, Key(KEY_3), '£');
    l.add_symbol(0, 1, Key(KEY_4), '$');
    l.add_symbol(0, 1, Key(KEY_5), '%');
    l.add_symbol(0, 1, Key(KEY_6), '^');
    l.add_symbol(0, 1, Key(KEY_7), '&');
    l.add_symbol(0, 1, Key(KEY_8), '*');
    l.add_symbol(0, 1, Key(KEY_9), '(');
    l.add_symbol(0, 1, Key(KEY_0), ')');
    l.add_symbol(0, 1, Key(KEY_Q), 'Q');
    l.add_symbol(0, 1, Key(KEY_W), 'W');
    l.add_symbol(0, 1, Key(KEY_E), 'E');
    l.add_symbol(0, 1, Key(KEY_R), 'R');
    l.add_symbol(0, 1, Key(KEY_T), 'T');
    l.add_symbol(0, 1, Key(KEY_Y), 'Y');
    l.add_symbol(0, 1, Key(KEY_U), 'U');
    l.add_symbol(0, 1, Key(KEY_I), 'I');
    l.add_symbol(0, 1, Key(KEY_O), 'O');
    l.add_symbol(0, 1, Key(KEY_P), 'P');
    l.add_symbol(0, 1, Key(KEY_A), 'A');
    l.add_symbol(0, 1, Key(KEY_S), 'S');
    l.add_symbol(0, 1, Key(KEY_D), 'D');
    l.add_symbol(0, 1, Key(KEY_F), 'F');
    l.add_symbol(0, 1, Key(KEY_G), 'G');
    l.add_symbol(0, 1, Key(KEY_H), 'H');
    l.add_symbol(0, 1, Key(KEY_J), 'J');
    l.add_symbol(0, 1, Key(KEY_K), 'K');
    l.add_symbol(0, 1, Key(KEY_L), 'L');
    l.add_symbol(0, 1, Key(KEY_Z), 'Z');
    l.add_symbol(0, 1, Key(KEY_X), 'X');
    l.add_symbol(0, 1, Key(KEY_C), 'C');
    l.add_symbol(0, 1, Key(KEY_V), 'V');
    l.add_symbol(0, 1, Key(KEY_B), 'B');
    l.add_symbol(0, 1, Key(KEY_N), 'N');
    l.add_symbol(0, 1, Key(KEY_M), 'M');
    l.add_symbol(0, 1, Key(KEY_HYPHEN), '_');
    l.add_symbol(0, 1, Key(KEY_EQUALS), '+');
    l.add_symbol(0, 1, Key(KEY_OP_BRACKET), '{');
    l.add_symbol(0, 1, Key(KEY_CL_BRACKET), '}');
    l.add_symbol(0, 1, Key(KEY_COLON), ':');
    l.add_symbol(0, 1, Key(KEY_QUOTE), '@');
    l.add_symbol(0, 1, Key(KEY_BACKTICK), '¬');
    l.add_symbol(0, 1, Key(KEY_HASH), '~');
    l.add_symbol(0, 1, Key(KEY_COMMA), '<');
    l.add_symbol(0, 1, Key(KEY_PERIOD), '>');
    l.add_symbol(0, 1, Key(KEY_F_SLASH), '?');
    l.add_symbol(0, 1, Key(KEY_NUM_MUL), '*');
    l.add_symbol(0, 1, Key(KEY_NUM_DIV), '/');
    l.add_symbol(0, 1, Key(KEY_NUM_7), '7');
    l.add_symbol(0, 1, Key(KEY_NUM_8), '8');
    l.add_symbol(0, 1, Key(KEY_NUM_9), '9');
    l.add_symbol(0, 1, Key(KEY_NUM_4), '4');
    l.add_symbol(0, 1, Key(KEY_NUM_5), '5');
    l.add_symbol(0, 1, Key(KEY_NUM_6), '6');
    l.add_symbol(0, 1, Key(KEY_NUM_1), '1');
    l.add_symbol(0, 1, Key(KEY_NUM_2), '2');
    l.add_symbol(0, 1, Key(KEY_NUM_3), '3');
    l.add_symbol(0, 1, Key(KEY_NUM_0), '0');
    l.add_symbol(0, 1, Key(KEY_NUM_DECIMAL), '.');
    l.add_symbol(1, 0, Key(KEY_BACKTICK), '|');
    l.add_symbol(1, 0, Key(KEY_4), '€');
    l.add_symbol(1, 0, Key(KEY_E), 'é');
    l
}

} // verus!
