//! Detection of global key combinations.
//!
//! A [`KeyboardState`] follows which keys are held down. Striking a key that is no
//! modifier produces the combination: the held modifiers in a fixed order, each followed
//! by `+`, and then the name of the key that was struck.

use crate::keys::{key_code, key_name, key_to_code, key_to_string, lemma_key_code_injective, Key};
use std::collections::HashMap;
use vstd::prelude::*;
use vstd::string::*;

verus! {

broadcast use vstd::std_specs::hash::group_hash_axioms;

/// A button of the mouse. `Unknown` carries the raw platform code.
#[derive(Clone, Copy, Debug, PartialEq, Eq, Structural, Hash)]
pub enum Button {
    Left,
    Right,
    Middle,
    Unknown(u8),
}

/// An input event, either observed by the keyboard hook or to be played back.
///
/// A pointer movement carries no coordinates here: they are fractional, and whoever
/// plays the event back supplies them.
#[derive(Clone, Copy, Debug, PartialEq, Eq, Structural, Hash)]
pub enum EventType {
    KeyPress(Key),
    KeyRelease(Key),
    ButtonPress(Button),
    ButtonRelease(Button),
    MouseMove,
    Wheel { delta_x: i64, delta_y: i64 },
}

/// The number of modifier keys.
pub const MODIFIER_KEY_COUNT: usize = 8;

/// The modifier keys, in the order in which a combination lists them.
pub open spec fn modifier_keys() -> Seq<Key> {
    seq![
        Key::MetaLeft,
        Key::MetaRight,
        Key::ControlLeft,
        Key::ControlRight,
        Key::Alt,
        Key::AltGr,
        Key::ShiftLeft,
        Key::ShiftRight,
    ]
}

/// Whether a key is one of the modifier keys.
pub open spec fn is_modifier(key: Key) -> bool {
    modifier_keys().contains(key)
}

/// What the modifiers at the positions `from..to` contribute to a combination: for each
/// one that is held, in order, its name and a `+`.
pub open spec fn modifier_prefix(pressed: Set<Key>, from: int, to: int) -> Seq<char>
    decreases to - from,
{
    if from >= to {
        Seq::empty()
    } else {
        let last = modifier_keys()[to - 1];
        modifier_prefix(pressed, from, to - 1) + if pressed.contains(last) {
            key_name(last) + "+"@
        } else {
            Seq::empty()
        }
    }
}

/// The combination that striking `key` produces while the keys in `pressed` are held.
pub open spec fn combination(pressed: Set<Key>, key: Key) -> Seq<char> {
    modifier_prefix(pressed, 0, MODIFIER_KEY_COUNT as int) + key_name(key)
}

/// Whether pressing `key` while the keys in `pressed` are held produces a combination:
/// the key was not held already, is no modifier and has a variant of its own.
pub open spec fn emits(pressed: Set<Key>, key: Key) -> bool {
    !pressed.contains(key) && !is_modifier(key) && key !is Unknown
}

/// Returns the modifier key at position `index` of the fixed order.
pub fn modifier_key_at(index: usize) -> (key: Key)
    requires
        index < MODIFIER_KEY_COUNT,
    ensures
        key == modifier_keys()[index as int],
{
    if index == 0 {
        Key::MetaLeft
    } else if index == 1 {
        Key::MetaRight
    } else if index == 2 {
        Key::ControlLeft
    } else if index == 3 {
        Key::ControlRight
    } else if index == 4 {
        Key::Alt
    } else if index == 5 {
        Key::AltGr
    } else if index == 6 {
        Key::ShiftLeft
    } else {
        Key::ShiftRight
    }
}

/// Tells whether `key` is a modifier key.
pub fn is_modifier_key(key: Key) -> (modifier: bool)
    ensures
        modifier == is_modifier(key),
{
    let mut index: usize = 0;
    while index < MODIFIER_KEY_COUNT
        invariant
            index <= MODIFIER_KEY_COUNT,
            forall|j: int| 0 <= j < index ==> modifier_keys()[j] != key,
        decreases MODIFIER_KEY_COUNT - index,
    {
        if modifier_key_at(index) == key {
            return true;
        }
        index += 1;
    }
    false
}

/// Returns the label of the window that combinations are announced to.
pub fn keypress_window() -> (label: String)
    ensures
        label@ == "Overfloat"@,
{
    "Overfloat".to_owned()
}

/// Returns the name of the channel on which combinations are announced.
pub fn keypress_channel() -> (channel: String)
    ensures
        channel@ == "Overfloat://GlobalKeypress"@,
{
    "Overfloat://GlobalKeypress".to_owned()
}

/// The keys that are currently held down.
pub struct KeyboardState {
    pressed_keys: HashMap<u64, bool>,
}

impl View for KeyboardState {
    type V = Set<Key>;

    /// The set of keys that are held. A key that was never seen is not held.
    closed spec fn view(&self) -> Set<Key> {
        Set::new(
            |key: Key|
                self.pressed_keys@.contains_key(key_code(key)) && self.pressed_keys@[key_code(
                    key,
                )],
        )
    }
}

impl KeyboardState {
    /// A state in which no key is held.
    pub fn new() -> (state: KeyboardState)
        ensures
            state@ == Set::<Key>::empty(),
    {
        let state = KeyboardState { pressed_keys: HashMap::new() };
        assert(state@ =~= Set::<Key>::empty());
        state
    }

    /// Tells whether `key` is held.
    pub fn is_pressed(&self, key: Key) -> (pressed: bool)
        ensures
            pressed == self@.contains(key),
    {
        let code = key_to_code(key);
        match self.pressed_keys.get(&code) {
            Some(pressed) => *pressed,
            None => false,
        }
    }

    /// Builds the combination for `key` from the modifiers that are held.
    fn combination_string(&self, key: Key) -> (text: String)
        ensures
            text@ == combination(self@, key),
    {
        let mut text = String::new();
        let mut index: usize = 0;
        while index < MODIFIER_KEY_COUNT
            invariant
                index <= MODIFIER_KEY_COUNT,
                text@ == modifier_prefix(self@, 0, index as int),
            decreases MODIFIER_KEY_COUNT - index,
        {
            let modifier = modifier_key_at(index);
            if self.is_pressed(modifier) {
                let name = key_to_string(modifier);
                text.append(name.as_str());
                text.append("+");
                assert(text@ == modifier_prefix(self@, 0, index as int) + (key_name(modifier)
                    + "+"@));
            } else {
                assert(text@ == modifier_prefix(self@, 0, index as int) + Seq::<char>::empty());
            }
            index += 1;
        }
        let name = key_to_string(key);
        text.append(name.as_str());
        text
    }

    /// Records that `key` went down, and returns the combination to announce, if any.
    ///
    /// A key that is held already changes nothing and announces nothing, which absorbs
    /// the repeats that the system sends while a key stays down. A modifier, and a key
    /// without a variant of its own, is recorded and announces nothing.
    pub fn keydown(&mut self, key: Key) -> (emitted: Option<String>)
        ensures
            final(self)@ == old(self)@.insert(key),
            emitted is Some <==> emits(old(self)@, key),
            emitted matches Some(text) ==> text@ == combination(final(self)@, key),
    {
        if self.is_pressed(key) {
            assert(self@ =~= old(self)@.insert(key));
            return None;
        }
        let code = key_to_code(key);
        self.pressed_keys.insert(code, true);
        proof {
            assert forall|other: Key| self@.contains(other) == old(self)@.insert(key).contains(
                other,
            ) by {
                if key_code(other) == key_code(key) {
                    lemma_key_code_injective(other, key);
                }
            }
            assert(self@ =~= old(self)@.insert(key));
        }
        if is_modifier_key(key) {
            return None;
        }
        if let Key::Unknown(_) = key {
            return None;
        }
        Some(self.combination_string(key))
    }

    /// Records that `key` went up. Releasing a key that is not held changes nothing.
    pub fn keyup(&mut self, key: Key)
        ensures
            final(self)@ == old(self)@.remove(key),
    {
        let code = key_to_code(key);
        self.pressed_keys.insert(code, false);
        proof {
            assert forall|other: Key| self@.contains(other) == old(self)@.remove(key).contains(
                other,
            ) by {
                if key_code(other) == key_code(key) {
                    lemma_key_code_injective(other, key);
                }
            }
            assert(self@ =~= old(self)@.remove(key));
        }
    }

    /// Feeds one event of the keyboard hook to the state, and returns the combination to
    /// announce, if the event produced one. Events of the mouse are ignored.
    pub fn handle_key_press_event(&mut self, event_type: EventType) -> (emitted: Option<String>)
        ensures
            final(self)@ == next_pressed(old(self)@, event_type),
            emitted is Some <==> (event_type matches EventType::KeyPress(key) && emits(
                old(self)@,
                key,
            )),
            emitted matches Some(text) ==> (event_type matches EventType::KeyPress(key)
                && text@ == combination(final(self)@, key)),
    {
        match event_type {
            EventType::KeyPress(key) => self.keydown(key),
            EventType::KeyRelease(key) => {
                self.keyup(key);
                None
            },
            _ => None,
        }
    }
}

/// The keys that are held after an event, given those held before it.
pub open spec fn next_pressed(pressed: Set<Key>, event_type: EventType) -> Set<Key> {
    match event_type {
        EventType::KeyPress(key) => pressed.insert(key),
        EventType::KeyRelease(key) => pressed.remove(key),
        _ => pressed,
    }
}

/// The contribution of a range of modifiers is that of its two parts, one after the other.
pub proof fn lemma_modifier_prefix_split(pressed: Set<Key>, from: int, mid: int, to: int)
    requires
        from <= mid <= to,
    ensures
        modifier_prefix(pressed, from, to) == modifier_prefix(pressed, from, mid)
            + modifier_prefix(pressed, mid, to),
    decreases to - mid,
{
    let head = modifier_prefix(pressed, from, mid);
    if mid == to {
        assert(head + Seq::<char>::empty() =~= head);
    } else {
        lemma_modifier_prefix_split(pressed, from, mid, to - 1);
        let last = modifier_keys()[to - 1];
        let tail = if pressed.contains(last) {
            key_name(last) + "+"@
        } else {
            Seq::<char>::empty()
        };
        let middle = modifier_prefix(pressed, mid, to - 1);
        assert((head + middle) + tail =~= head + (middle + tail));
    }
}

/// Two sets of held keys that agree on the modifiers at the positions `from..to` give the
/// same contribution there.
pub proof fn lemma_modifier_prefix_agrees(held: Set<Key>, other: Set<Key>, from: int, to: int)
    requires
        0 <= from,
        to <= MODIFIER_KEY_COUNT,
        forall|i: int| from <= i < to ==> held.contains(modifier_keys()[i]) == other.contains(
            modifier_keys()[i],
        ),
    ensures
        modifier_prefix(held, from, to) == modifier_prefix(other, from, to),
    decreases to - from,
{
    if from < to {
        lemma_modifier_prefix_agrees(held, other, from, to - 1);
    }
}

/// A combination depends on the held keys only through the modifiers among them: two
/// sets of held keys with the same modifiers give the same text for every key, whatever
/// else is held and in whatever order the keys went down.
pub proof fn lemma_combination_depends_on_modifiers(held: Set<Key>, other: Set<Key>, key: Key)
    requires
        forall|modifier: Key|
            is_modifier(modifier) ==> held.contains(modifier) == other.contains(modifier),
    ensures
        combination(held, key) == combination(other, key),
{
    assert forall|i: int| 0 <= i < MODIFIER_KEY_COUNT implies held.contains(modifier_keys()[i])
        == other.contains(modifier_keys()[i]) by {
        assert(is_modifier(modifier_keys()[i]));
    }
    lemma_modifier_prefix_agrees(held, other, 0, MODIFIER_KEY_COUNT as int);
}

/// The keys that are held after two presses do not depend on the order of the presses.
pub proof fn lemma_press_order_is_irrelevant(pressed: Set<Key>, first: Key, second: Key)
    ensures
        next_pressed(next_pressed(pressed, EventType::KeyPress(first)), EventType::KeyPress(second))
            == next_pressed(
            next_pressed(pressed, EventType::KeyPress(second)),
            EventType::KeyPress(first),
        ),
{
    assert(pressed.insert(first).insert(second) =~= pressed.insert(second).insert(first));
}

/// A held modifier stands in the combination, with its `+`, after what the modifiers
/// before it in the fixed order contribute and before what those after it contribute;
/// the name of the key that was struck comes last.
pub proof fn lemma_held_modifier_precedes_key(pressed: Set<Key>, index: int, key: Key)
    requires
        0 <= index < MODIFIER_KEY_COUNT,
        pressed.contains(modifier_keys()[index]),
    ensures
        combination(pressed, key) == modifier_prefix(pressed, 0, index) + key_name(
            modifier_keys()[index],
        ) + "+"@ + modifier_prefix(pressed, index + 1, MODIFIER_KEY_COUNT as int) + key_name(key),
{
    let count = MODIFIER_KEY_COUNT as int;
    let before = modifier_prefix(pressed, 0, index);
    let own = key_name(modifier_keys()[index]) + "+"@;
    let after = modifier_prefix(pressed, index + 1, count);
    lemma_modifier_prefix_split(pressed, 0, index + 1, count);
    assert(modifier_prefix(pressed, 0, index + 1) == before + own);
    assert(before + own =~= before + key_name(modifier_keys()[index]) + "+"@);
}

/// Pressing a modifier and then a key that is no modifier, has a variant of its own and
/// is not held announces one combination, in which the modifier precedes the key.
pub proof fn lemma_modifier_then_key(pressed: Set<Key>, index: int, key: Key)
    requires
        0 <= index < MODIFIER_KEY_COUNT,
        emits(pressed, key),
    ensures
        ({
            let modifier = modifier_keys()[index];
            let held = next_pressed(pressed, EventType::KeyPress(modifier));
            let after = next_pressed(held, EventType::KeyPress(key));
            &&& !emits(pressed, modifier)
            &&& emits(held, key)
            &&& combination(after, key) == modifier_prefix(after, 0, index) + key_name(modifier)
                + "+"@ + modifier_prefix(after, index + 1, MODIFIER_KEY_COUNT as int) + key_name(
                key,
            )
            &&& !emits(after, key)
        }),
{
    let modifier = modifier_keys()[index];
    assert(is_modifier(modifier));
    let after = pressed.insert(modifier).insert(key);
    lemma_held_modifier_precedes_key(after, index, key);
}

/// While a key stays down, pressing it again announces nothing and changes nothing.
pub proof fn lemma_repeat_is_absorbed(pressed: Set<Key>, key: Key)
    ensures
        ({
            let held = next_pressed(pressed, EventType::KeyPress(key));
            !emits(held, key) && next_pressed(held, EventType::KeyPress(key)) == held
        }),
{
    assert(pressed.insert(key).insert(key) =~= pressed.insert(key));
}

/// Releasing a key that is not held changes nothing: what any later key press announces
/// is what it would have announced without the release.
pub proof fn lemma_release_of_unheld_key(pressed: Set<Key>, key: Key)
    requires
        !pressed.contains(key),
    ensures
        next_pressed(pressed, EventType::KeyRelease(key)) == pressed,
{
    assert(pressed.remove(key) =~= pressed);
}

} // verus!
