//! The keyboard state machine: tracks held keys and lock flags, and derives
//! the logical action of every key transition.

use vstd::prelude::*;
use fixedbitset::FixedBitSet;
use crate::keys::Key;
use crate::keys::KeyType;
use crate::keys::KEY_L_SHIFT;
use crate::keys::KEY_R_SHIFT;
use crate::keys::KEY_L_CTRL;
use crate::keys::KEY_R_CTRL;
use crate::keys::KEY_ALT;
use crate::keys::KEY_ALT_GR;
use crate::keys::KEY_L_SUPER;
use crate::keys::KEY_R_SUPER;
use crate::keys::KEY_CAPS_LOCK;
use crate::keys::KEY_NUM_LOCK;
use crate::keys::KEY_SCROLL_LOCK;
use crate::keys::KEY_NUM_7;
use crate::keys::KEY_NUM_8;
use crate::keys::KEY_NUM_9;
use crate::keys::KEY_NUM_4;
use crate::keys::KEY_NUM_5;
use crate::keys::KEY_NUM_6;
use crate::keys::KEY_NUM_1;
use crate::keys::KEY_NUM_2;
use crate::keys::KEY_NUM_3;
use crate::keys::KEY_NUM_0;
use crate::keys::KEY_NUM_DECIMAL;
use crate::keys::KEY_HOME;
use crate::keys::KEY_UP;
use crate::keys::KEY_PG_UP;
use crate::keys::KEY_LEFT;
use crate::keys::KEY_RIGHT;
use crate::keys::KEY_END;
use crate::keys::KEY_DOWN;
use crate::keys::KEY_PG_DOWN;
use crate::keys::KEY_INS;
use crate::keys::KEY_DEL;
use crate::layout::Layout;
use crate::event::KeyboardEvent;
use crate::event::LogicalKeyboardEvent;

verus! {

// ---------------------------------------------------------------------------
// Trusted interface to fixedbitset's FixedBitSet, the container holding the
// physically pressed keys. Its contents are modelled as the set of indices
// whose bits are enabled, and its length as the number of bits it was created
// with.
// ---------------------------------------------------------------------------

#[verifier::external_type_specification]
#[verifier::external_body]
pub struct ExFixedBitSet(FixedBitSet);

/// The set of bit indices that are enabled in the bitset.
pub uninterp spec fn bitset_bits(b: FixedBitSet) -> Set<usize>;

/// The number of bits the bitset was created with.
pub uninterp spec fn bitset_len(b: FixedBitSet) -> usize;

/// Relies on FixedBitSet::with_capacity: a bitset with the given number of
/// bits, all initially clear.
pub assume_specification[ FixedBitSet::with_capacity ](bits: usize) -> (b: FixedBitSet)
    ensures
        bitset_len(b) == bits,
        bitset_bits(b) == Set::<usize>::empty(),
;

/// Relies on FixedBitSet::contains: whether the bit is enabled; bits outside
/// the capacity are always disabled.
pub assume_specification[ FixedBitSet::contains ](b: &FixedBitSet, bit: usize) -> (r: bool)
    ensures
        r == bitset_bits(*b).contains(bit),
;

/// Relies on FixedBitSet::set: enables or disables one bit; panics when the
/// bit is out of bounds.
pub assume_specification[ FixedBitSet::set ](b: &mut FixedBitSet, bit: usize, enabled: bool)
    requires
        bit < bitset_len(*old(b)),
    ensures
        bitset_len(*final(b)) == bitset_len(*old(b)),
        bitset_bits(*final(b)) == (if enabled {
            bitset_bits(*old(b)).insert(bit)
        } else {
            bitset_bits(*old(b)).remove(bit)
        }),
;

/// A bit-set of the logical modifier flags, derived on demand from the
/// physical key state and never persisted independently.
#[derive(Debug, Clone, Copy, PartialEq, Eq, Structural)]
pub struct Modifiers {
    pub shift: bool,
    pub ctrl: bool,
    pub alt: bool,
    pub alt_gr: bool,
    pub sup: bool,
}

impl Modifiers {
    /// The packed bit encoding of the modifier set.
    pub open spec fn spec_bits(self) -> u8 {
        (if self.shift { 1u8 } else { 0u8 })
            | (if self.ctrl { 2u8 } else { 0u8 })
            | (if self.alt { 4u8 } else { 0u8 })
            | (if self.alt_gr { 8u8 } else { 0u8 })
            | (if self.sup { 16u8 } else { 0u8 })
    }

    /// Returns the packed bit encoding of the modifier set
    pub fn to_bits(&self) -> (bits: u8)
        ensures
            bits == self.spec_bits(),
    {
        (if self.shift { 1u8 } else { 0u8 })
            | (if self.ctrl { 2u8 } else { 0u8 })
            | (if self.alt { 4u8 } else { 0u8 })
            | (if self.alt_gr { 8u8 } else { 0u8 })
            | (if self.sup { 16u8 } else { 0u8 })
    }
}

/// The persistent lock-key flags, toggled only by presses of the matching
/// control keys while lock toggling is enabled.
#[derive(Debug, Clone, Copy, PartialEq, Eq, Structural)]
pub struct LockKeyState {
    pub caps_lock: bool,
    pub num_lock: bool,
    pub scroll_lock: bool,
}

// ---------------------------------------------------------------------------
// The mathematical model: every derived quantity is a function of the set of
// held keycodes, the lock flags, and the layout, so that the contracts below
// can speak about them without mentioning the containers that hold them.
// ---------------------------------------------------------------------------

/// Whether the key with the given keycode is held, in a set of held keycodes.
pub open spec fn spec_held(bits: Set<usize>, code: u8) -> bool {
    bits.contains(code as usize)
}

/// Either shift key is held.
pub open spec fn spec_shift(bits: Set<usize>) -> bool {
    spec_held(bits, KEY_L_SHIFT) || spec_held(bits, KEY_R_SHIFT)
}

/// Either control key is held.
pub open spec fn spec_ctrl(bits: Set<usize>) -> bool {
    spec_held(bits, KEY_L_CTRL) || spec_held(bits, KEY_R_CTRL)
}

/// The alt key is held; on layouts without a real AltGr key, that key is
/// treated as a second alt.
pub open spec fn spec_alt(bits: Set<usize>, has_alt_gr_key: bool) -> bool {
    spec_held(bits, KEY_ALT) || (!has_alt_gr_key && spec_held(bits, KEY_ALT_GR))
}

/// Either super key is held.
pub open spec fn spec_sup(bits: Set<usize>) -> bool {
    spec_held(bits, KEY_L_SUPER) || spec_held(bits, KEY_R_SUPER)
}

/// The AltGr key is held and the layout really has one.
pub open spec fn spec_alt_gr(bits: Set<usize>, has_alt_gr_key: bool) -> bool {
    has_alt_gr_key && spec_held(bits, KEY_ALT_GR)
}

/// The full modifier set derived from a set of held keycodes.
pub open spec fn spec_modifiers(bits: Set<usize>, has_alt_gr_key: bool) -> Modifiers {
    Modifiers {
        shift: spec_shift(bits),
        ctrl: spec_ctrl(bits),
        alt: spec_alt(bits, has_alt_gr_key),
        alt_gr: spec_alt_gr(bits, has_alt_gr_key),
        sup: spec_sup(bits),
    }
}

/// The selected symbol group: only AltGr-based group switching exists.
pub open spec fn spec_group(bits: Set<usize>, has_alt_gr_key: bool) -> u8 {
    if spec_alt_gr(bits, has_alt_gr_key) { 1 } else { 0 }
}

/// The level selected on a key of the given type: shift and caps lock cancel
/// each other on alphabetic keys, caps lock never affects numerals and
/// punctuation, and the numpad level follows num lock alone (level 0 when num
/// lock is off).
pub open spec fn spec_key_level(bits: Set<usize>, locks: LockKeyState, key_type: KeyType) -> u8 {
    let shifted = match key_type {
        KeyType::Alphabetic => spec_shift(bits) != locks.caps_lock,
        KeyType::Numeric => spec_shift(bits),
        KeyType::Punctuation => spec_shift(bits),
        KeyType::Numpad => !locks.num_lock,
        KeyType::Control => false,
    };
    if shifted { 1 } else { 0 }
}

/// The set of held keycodes after one transition: a press holds the key, a
/// release clears it, and a repeated transition leaves the set as it was.
pub open spec fn spec_bits_after(bits: Set<usize>, code: u8, pressed: bool) -> Set<usize> {
    if pressed {
        bits.insert(code as usize)
    } else {
        bits.remove(code as usize)
    }
}

/// The lock flags after one transition: a press of a lock key toggles its
/// flag while lock toggling is enabled; nothing else changes them, and a
/// release never does.
pub open spec fn spec_locks_after(
    locks: LockKeyState,
    enabled: bool,
    key: Key,
    pressed: bool,
) -> LockKeyState {
    if pressed && enabled {
        if key.0 == KEY_CAPS_LOCK {
            LockKeyState {
                caps_lock: !locks.caps_lock,
                num_lock: locks.num_lock,
                scroll_lock: locks.scroll_lock,
            }
        } else if key.0 == KEY_SCROLL_LOCK {
            LockKeyState {
                caps_lock: locks.caps_lock,
                num_lock: locks.num_lock,
                scroll_lock: !locks.scroll_lock,
            }
        } else if key.0 == KEY_NUM_LOCK {
            LockKeyState {
                caps_lock: locks.caps_lock,
                num_lock: !locks.num_lock,
                scroll_lock: locks.scroll_lock,
            }
        } else {
            locks
        }
    } else {
        locks
    }
}

/// The navigation key a numpad key stands for while num lock is off; the
/// centre key stands for nothing.
pub open spec fn spec_numpad_remap(code: u8) -> Option<u8> {
    if code == KEY_NUM_7 { Some(KEY_HOME) }
    else if code == KEY_NUM_8 { Some(KEY_UP) }
    else if code == KEY_NUM_9 { Some(KEY_PG_UP) }
    else if code == KEY_NUM_4 { Some(KEY_LEFT) }
    else if code == KEY_NUM_5 { None }
    else if code == KEY_NUM_6 { Some(KEY_RIGHT) }
    else if code == KEY_NUM_1 { Some(KEY_END) }
    else if code == KEY_NUM_2 { Some(KEY_DOWN) }
    else if code == KEY_NUM_3 { Some(KEY_PG_DOWN) }
    else if code == KEY_NUM_0 { Some(KEY_INS) }
    else if code == KEY_NUM_DECIMAL { Some(KEY_DEL) }
    else { None }
}

/// The logical action of one transition, over the set of held keycodes as it
/// stands after the transition and the lock flags as they stood before it.
///
/// Releases never produce an action. A press of a typeable key produces a
/// command when a command modifier is held, else the layout symbol at the
/// resolved group and level, if one is mapped. A press of a control key
/// always produces a command. A numpad press produces the level-1 symbol
/// while num lock is on, else a navigation command through the remap table.
pub open spec fn spec_action(
    bits: Set<usize>,
    locks: LockKeyState,
    layout: Layout,
    key: Key,
    pressed: bool,
) -> Option<LogicalKeyboardEvent> {
    if !pressed {
        None
    } else {
        match key.spec_key_type() {
            None => None,
            Some(key_type) => match key_type {
                KeyType::Alphabetic | KeyType::Numeric | KeyType::Punctuation => {
                    if spec_ctrl(bits) || spec_alt(bits, layout.has_alt_gr_key)
                        || spec_sup(bits) {
                        Some(LogicalKeyboardEvent::Command(
                            spec_modifiers(bits, layout.has_alt_gr_key),
                            key,
                        ))
                    } else {
                        match layout.spec_symbol(
                            spec_group(bits, layout.has_alt_gr_key),
                            spec_key_level(bits, locks, key_type),
                            key.0,
                        ) {
                            Some(symbol) => Some(LogicalKeyboardEvent::Symbol(symbol)),
                            None => None,
                        }
                    }
                },
                KeyType::Control => Some(LogicalKeyboardEvent::Command(
                    spec_modifiers(bits, layout.has_alt_gr_key),
                    key,
                )),
                KeyType::Numpad => {
                    if locks.num_lock {
                        match layout.spec_symbol(
                            spec_group(bits, layout.has_alt_gr_key),
                            1,
                            key.0,
                        ) {
                            Some(symbol) => Some(LogicalKeyboardEvent::Symbol(symbol)),
                            None => None,
                        }
                    } else {
                        match spec_numpad_remap(key.0) {
                            Some(code) => Some(LogicalKeyboardEvent::Command(
                                spec_modifiers(bits, layout.has_alt_gr_key),
                                Key(code),
                            )),
                            None => None,
                        }
                    }
                },
            },
        }
    }
}

/// The keyboard state machine. The physical-key bitset is the single source
/// of truth for the modifier queries, which are always recomputed from it.
#[derive(Debug)]
pub struct KeyboardState {
    /// Tracks the physical state of each key
    pub pressed_keys: FixedBitSet,

    /// Tracks which lock keys are currently active
    pub lock_keys: LockKeyState,

    /// The keyboard layout
    pub layout: Layout,

    /// When set to true the lock key states will toggle when the keys are pressed
    ///
    /// This allows the toggling to be disabled so the keys could be used for
    /// something else (eg a full screen game). default: true
    pub lock_keys_enabled: bool,
}

impl KeyboardState {
    /// The pressed-key bitset has one bit for every possible keycode.
    pub open spec fn wf(self) -> bool {
        bitset_len(self.pressed_keys) == 256
    }

    /// The set of keycodes whose keys are physically held.
    pub open spec fn spec_pressed_set(self) -> Set<usize> {
        bitset_bits(self.pressed_keys)
    }

    /// Creates a new KeyboardState instance
    pub fn new(layout: Layout) -> (s: KeyboardState)
        ensures
            s.wf(),
            s.spec_pressed_set() == Set::<usize>::empty(),
            s.lock_keys == (LockKeyState { caps_lock: false, num_lock: false, scroll_lock: false }),
            s.layout == layout,
            s.lock_keys_enabled == true,
    {
        KeyboardState {
            pressed_keys: FixedBitSet::with_capacity(256),
            lock_keys: LockKeyState { caps_lock: false, num_lock: false, scroll_lock: false },
            layout,
            lock_keys_enabled: true,
        }
    }

    /// Returns true if the specified key is currently pressed
    pub fn key_pressed(&self, key: Key) -> (r: bool)
        ensures
            r == spec_held(self.spec_pressed_set(), key.0),
    {
        self.pressed_keys.contains(key.keycode() as usize)
    }

    /// Returns true if either shift key is pressed
    pub fn shift(&self) -> (r: bool)
        ensures
            r == spec_shift(self.spec_pressed_set()),
    {
        self.key_pressed(Key(KEY_L_SHIFT)) || self.key_pressed(Key(KEY_R_SHIFT))
    }

    /// Returns true if either control key is pressed
    pub fn ctrl(&self) -> (r: bool)
        ensures
            r == spec_ctrl(self.spec_pressed_set()),
    {
        self.key_pressed(Key(KEY_L_CTRL)) || self.key_pressed(Key(KEY_R_CTRL))
    }

    /// Returns true if the alt key is pressed
    /// Note: If has_alt_gr_key is false, that key would be treated as an alt key instead
    pub fn alt(&self) -> (r: bool)
        ensures
            r == spec_alt(self.spec_pressed_set(), self.layout.has_alt_gr_key),
    {
        self.key_pressed(Key(KEY_ALT))
            || (!self.layout.has_alt_gr_key && self.key_pressed(Key(KEY_ALT_GR)))
    }

    /// Returns true if either super key is pressed
    ///
    /// Note: The super keys are also known as the "Windows key" (Windows) or
    /// "Command key" (Macintosh)
    pub fn sup(&self) -> (r: bool)
        ensures
            r == spec_sup(self.spec_pressed_set()),
    {
        self.key_pressed(Key(KEY_L_SUPER)) || self.key_pressed(Key(KEY_R_SUPER))
    }

    /// Returns true if the alt gr (Alternate Graphic) key is pressed
    pub fn alt_gr(&self) -> (r: bool)
        ensures
            r == spec_alt_gr(self.spec_pressed_set(), self.layout.has_alt_gr_key),
    {
        self.layout.has_alt_gr_key && self.key_pressed(Key(KEY_ALT_GR))
    }

    /// Returns the logical modifier states derived from the held keys
    pub fn get_modifiers(&self) -> (m: Modifiers)
        ensures
            m == spec_modifiers(self.spec_pressed_set(), self.layout.has_alt_gr_key),
    {
        Modifiers {
            shift: self.shift(),
            ctrl: self.ctrl(),
            alt: self.alt(),
            alt_gr: self.alt_gr(),
            sup: self.sup(),
        }
    }

    /// Returns true if the caps lock is currently active
    pub fn caps_lock(&self) -> (r: bool)
        ensures
            r == self.lock_keys.caps_lock,
    {
        self.lock_keys.caps_lock
    }

    /// Returns true if the num lock is currently active
    pub fn num_lock(&self) -> (r: bool)
        ensures
            r == self.lock_keys.num_lock,
    {
        self.lock_keys.num_lock
    }

    /// Returns true if the scroll lock is currently active
    pub fn scroll_lock(&self) -> (r: bool)
        ensures
            r == self.lock_keys.scroll_lock,
    {
        self.lock_keys.scroll_lock
    }

    /// Returns the currently selected key group
    ///
    /// Note: Only AltGr based group switching has been implemented so far
    pub fn get_group(&self) -> (g: u8)
        ensures
            g == spec_group(self.spec_pressed_set(), self.layout.has_alt_gr_key),
    {
        if self.alt_gr() { 1 } else { 0 }
    }

    /// Returns the level that is selected on the specified key type
    ///
    /// Note: The symbol/action of each level is indicated by row on the keytop
    ///
    /// Different key types need to behave differently with regards to level switching:
    ///  * Alphabetic keys can be shifted by using either the shift key or caps lock
    ///    (when both are used at the same time, they will negate each other)
    ///  * Numeral and punctuation keys are not shifted by the caps lock
    ///  * Numpad keys are shifted by the num lock only
    pub fn get_key_level(&self, key_type: &KeyType) -> (level: u8)
        ensures
            level == spec_key_level(self.spec_pressed_set(), self.lock_keys, *key_type),
    {
        let shifted = match *key_type {
            KeyType::Alphabetic => self.shift() ^ self.caps_lock(),
            KeyType::Numeric => self.shift(),
            KeyType::Punctuation => self.shift(),
            KeyType::Numpad => !self.num_lock(),
            KeyType::Control => false,
        };

        if shifted { 1 } else { 0 }
    }

    /// Should be called whenever a key is pressed or released
    ///
    /// This alters the state and returns a KeyboardEvent: the transition is
    /// recorded in the pressed-key bitset (a transition that matches the
    /// current state is flagged as a repeat instead), a press of a lock key
    /// toggles its flag while lock toggling is enabled, and the logical
    /// action is derived from the new physical state and the old lock flags.
    #[verifier::rlimit(100)]
    pub fn actuate_key(&mut self, key: Key, pressed: bool) -> (event: KeyboardEvent)
        requires
            old(self).wf(),
        ensures
            final(self).wf(),
            final(self).layout == old(self).layout,
            final(self).lock_keys_enabled == old(self).lock_keys_enabled,
            final(self).spec_pressed_set() == spec_bits_after(
                old(self).spec_pressed_set(),
                key.0,
                pressed,
            ),
            final(self).lock_keys == spec_locks_after(
                old(self).lock_keys,
                old(self).lock_keys_enabled,
                key,
                pressed,
            ),
            event.key == key,
            event.pressed == pressed,
            event.repeat == (spec_held(old(self).spec_pressed_set(), key.0) == pressed),
            event.logical == spec_action(
                spec_bits_after(old(self).spec_pressed_set(), key.0, pressed),
                old(self).lock_keys,
                old(self).layout,
                key,
                pressed,
            ),
    {
        let mut logical: Option<LogicalKeyboardEvent> = None;

        let mut repeat = false;
        if pressed {
            if self.key_pressed(key) {
                repeat = true;
            } else {
                self.pressed_keys.set(key.keycode() as usize, true);
            }
        } else {
            if !self.key_pressed(key) {
                repeat = true;
            } else {
                self.pressed_keys.set(key.keycode() as usize, false);
            }
        }

        if let Some(key_type) = key.key_type() {
            match key_type {
                KeyType::Alphabetic | KeyType::Numeric | KeyType::Punctuation => {
                    if pressed {
                        // If a "control" modifier is also pressed, emit a command
                        // This handles cases like Ctrl+c and Alt+Tab
                        if self.ctrl() || self.alt() || self.sup() {
                            logical = Some(LogicalKeyboardEvent::Command(
                                self.get_modifiers(),
                                key,
                            ));
                        } else {
                            // Get symbol from layout and return it if one exists
                            // This handles general typing
                            let group = self.get_group();
                            let key_level = self.get_key_level(&key_type);

                            if let Some(symbol) = self.layout.get_symbol(group, key_level, key) {
                                logical = Some(LogicalKeyboardEvent::Symbol(symbol));
                            }
                        }
                    }
                },
                KeyType::Control => {
                    if pressed {
                        if self.lock_keys_enabled {
                            if key.keycode() == KEY_CAPS_LOCK {
                                self.lock_keys.caps_lock = !self.lock_keys.caps_lock;
                            } else if key.keycode() == KEY_SCROLL_LOCK {
                                self.lock_keys.scroll_lock = !self.lock_keys.scroll_lock;
                            } else if key.keycode() == KEY_NUM_LOCK {
                                self.lock_keys.num_lock = !self.lock_keys.num_lock;
                            }
                        }

                        logical = Some(LogicalKeyboardEvent::Command(
                            self.get_modifiers(),
                            key,
                        ));
                    }
                },
                KeyType::Numpad => {
                    if self.num_lock() {
                        if pressed {
                            // Get symbol from layout
                            let group = self.get_group();

                            if let Some(symbol) = self.layout.get_symbol(group, 1, key) {
                                logical = Some(LogicalKeyboardEvent::Symbol(symbol));
                            }
                        }
                    } else {
                        if pressed {
                            // Remap to the equivalent navigation key
                            let code = key.keycode();
                            let newkey: Option<u8> =
                                if code == KEY_NUM_7 { Some(KEY_HOME) }
                                else if code == KEY_NUM_8 { Some(KEY_UP) }
                                else if code == KEY_NUM_9 { Some(KEY_PG_UP) }
                                else if code == KEY_NUM_4 { Some(KEY_LEFT) }
                                else if code == KEY_NUM_5 { None }
                                else if code == KEY_NUM_6 { Some(KEY_RIGHT) }
                                else if code == KEY_NUM_1 { Some(KEY_END) }
                                else if code == KEY_NUM_2 { Some(KEY_DOWN) }
                                else if code == KEY_NUM_3 { Some(KEY_PG_DOWN) }
                                else if code == KEY_NUM_0 { Some(KEY_INS) }
                                else if code == KEY_NUM_DECIMAL { Some(KEY_DEL) }
                                else { None };

                            if let Some(newcode) = newkey {
                                logical = Some(LogicalKeyboardEvent::Command(
                                    self.get_modifiers(),
                                    Key(newcode),
                                ));
                            }
                        }
                    }
                },
            }
        }

        KeyboardEvent {
            key,
            pressed,
            repeat,
            logical,
        }
    }
}

// ---------------------------------------------------------------------------
// Laws of the state machine.
// ---------------------------------------------------------------------------

/// Law: on an alphabetic key press with no command modifier held, the level
/// is the exclusive or of shift and caps lock — shift with caps lock off
/// selects the layout's level-1 symbol, and shift together with caps lock
/// falls back to the level-0 symbol.
pub proof fn lemma_shift_caps_cancellation(
    bits: Set<usize>,
    locks: LockKeyState,
    layout: Layout,
    key: Key,
)
    requires
        key.spec_key_type() == Some(KeyType::Alphabetic),
        !spec_ctrl(bits),
        !spec_alt(bits, layout.has_alt_gr_key),
        !spec_sup(bits),
    ensures
        spec_key_level(bits, locks, KeyType::Alphabetic) == (
            if spec_shift(bits) != locks.caps_lock { 1u8 } else { 0u8 }
        ),
        spec_shift(bits) && !locks.caps_lock ==> spec_action(bits, locks, layout, key, true) == (
            match layout.spec_symbol(spec_group(bits, layout.has_alt_gr_key), 1, key.0) {
                Some(symbol) => Some(LogicalKeyboardEvent::Symbol(symbol)),
                None => None::<LogicalKeyboardEvent>,
            }
        ),
        spec_shift(bits) && locks.caps_lock ==> spec_action(bits, locks, layout, key, true) == (
            match layout.spec_symbol(spec_group(bits, layout.has_alt_gr_key), 0, key.0) {
                Some(symbol) => Some(LogicalKeyboardEvent::Symbol(symbol)),
                None => None::<LogicalKeyboardEvent>,
            }
        ),
{
}

/// Law: the action of a numeral or punctuation key press does not depend on
/// the caps lock flag — two lock states that agree on everything but caps
/// lock give the same action.
pub proof fn lemma_caps_lock_ignores_numerals(
    bits: Set<usize>,
    locks_a: LockKeyState,
    locks_b: LockKeyState,
    layout: Layout,
    key: Key,
)
    requires
        key.spec_key_type() == Some(KeyType::Numeric)
            || key.spec_key_type() == Some(KeyType::Punctuation),
        locks_a.num_lock == locks_b.num_lock,
        locks_a.scroll_lock == locks_b.scroll_lock,
    ensures
        spec_action(bits, locks_a, layout, key, true) == spec_action(
            bits,
            locks_b,
            layout,
            key,
            true,
        ),
{
}

/// Law: a release never changes the lock flags, and two press/release pairs
/// of the same key in sequence reproduce the lock state they started from —
/// lock keys toggle only on press, and toggling twice undoes itself.
pub proof fn lemma_lock_state_round_trip(locks: LockKeyState, enabled: bool, key: Key)
    ensures
        spec_locks_after(locks, enabled, key, false) == locks,
        ({
            let once = spec_locks_after(
                spec_locks_after(locks, enabled, key, true),
                enabled,
                key,
                false,
            );
            let twice = spec_locks_after(spec_locks_after(once, enabled, key, true), enabled, key, false);
            twice == locks
        }),
{
}

/// Law: after a press the key is recorded as held, so a second press of the
/// same key without an intervening release is reported as a repeat, and it
/// leaves the set of held keys exactly as the first press left it.
pub proof fn lemma_second_press_is_repeat(bits: Set<usize>, code: u8)
    ensures
        spec_held(spec_bits_after(bits, code, true), code),
        spec_bits_after(spec_bits_after(bits, code, true), code, true) == spec_bits_after(
            bits,
            code,
            true,
        ),
{
}

/// The lock flags after a number of press/release pairs of one key, with no
/// intervening different key.
pub open spec fn spec_locks_after_pairs(
    locks: LockKeyState,
    enabled: bool,
    key: Key,
    pairs: nat,
) -> LockKeyState
    decreases pairs,
{
    if pairs == 0 {
        locks
    } else {
        spec_locks_after_pairs(
            spec_locks_after(spec_locks_after(locks, enabled, key, true), enabled, key, false),
            enabled,
            key,
            (pairs - 1) as nat,
        )
    }
}

/// Law: any even number of press/release pairs of one key reproduces the lock
/// state they started from.
pub proof fn lemma_even_lock_pairs_identity(
    locks: LockKeyState,
    enabled: bool,
    key: Key,
    pairs: nat,
)
    ensures
        spec_locks_after_pairs(locks, enabled, key, 2 * pairs) == locks,
    decreases pairs,
{
    if pairs > 0 {
        let after_one = spec_locks_after(
            spec_locks_after(locks, enabled, key, true),
            enabled,
            key,
            false,
        );
        let after_two = spec_locks_after(
            spec_locks_after(after_one, enabled, key, true),
            enabled,
            key,
            false,
        );
        lemma_lock_state_round_trip(locks, enabled, key);
        assert(after_two == locks);
        assert(spec_locks_after_pairs(locks, enabled, key, 2 * pairs)
            == spec_locks_after_pairs(after_one, enabled, key, (2 * pairs - 1) as nat));
        assert(spec_locks_after_pairs(after_one, enabled, key, (2 * pairs - 1) as nat)
            == spec_locks_after_pairs(after_two, enabled, key, (2 * pairs - 2) as nat));
        lemma_even_lock_pairs_identity(locks, enabled, key, (pairs - 1) as nat);
    }
}

/// The lock flags after a whole sequence of (key, pressed) transitions.
pub open spec fn spec_locks_after_events(
    locks: LockKeyState,
    enabled: bool,
    events: Seq<(Key, bool)>,
) -> LockKeyState
    decreases events.len(),
{
    if events.len() == 0 {
        locks
    } else {
        spec_locks_after_events(
            spec_locks_after(locks, enabled, events[0].0, events[0].1),
            enabled,
            events.skip(1),
        )
    }
}

/// Law: while lock toggling is disabled, no sequence of transitions changes
/// the lock flags at all; in particular they stay permanently false on a
/// machine that started with them clear.
pub proof fn lemma_disabled_lock_keys_never_toggle(locks: LockKeyState, events: Seq<(Key, bool)>)
    ensures
        spec_locks_after_events(locks, false, events) == locks,
    decreases events.len(),
{
    if events.len() > 0 {
        lemma_disabled_lock_keys_never_toggle(locks, events.skip(1));
    }
}

/// Law: a press of a control-class key always produces a command carrying the
/// current modifiers, whatever the lock flags are and whether or not lock
/// toggling is enabled.
pub proof fn lemma_control_press_always_commands(
    bits: Set<usize>,
    locks: LockKeyState,
    layout: Layout,
    key: Key,
)
    requires
        key.spec_key_type() == Some(KeyType::Control),
    ensures
        spec_action(bits, locks, layout, key, true) == Some(LogicalKeyboardEvent::Command(
            spec_modifiers(bits, layout.has_alt_gr_key),
            key,
        )),
{
}

} // verus!

