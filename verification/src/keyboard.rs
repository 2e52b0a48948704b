//! Keyboard input: how a key event of the toolkit becomes one for the handler.

use vstd::prelude::*;

use crate::input::{get_modifiers, ModifierType, Modifiers};

verus! {

/// A key that has a name of its own, by its number in the table of named keys.
#[derive(Clone, Copy, Debug, PartialEq, Eq, Structural)]
pub struct NamedKey {
    pub id: u32,
}

/// The meaning of a key.
#[derive(Debug, PartialEq, Eq)]
pub enum KbKey {
    /// A key with a name.
    Named(NamedKey),
    /// A key that types text.
    Character(String),
    /// A key of which nothing is known.
    Unidentified,
}

/// Whether a key went down or up.
#[derive(Clone, Copy, Debug, PartialEq, Eq, Structural)]
pub enum KeyState {
    Down,
    Up,
}

/// One entry of the keymap for a hardware key: the value that the key has in a group and level.
#[derive(Clone, Copy, Debug, PartialEq, Eq, Structural)]
pub struct KeymapEntry {
    pub keyval: u32,
    pub group: i32,
    pub level: i32,
}

/// A key event as the toolkit reports it.
#[derive(Debug, PartialEq, Eq)]
pub struct KeyInput {
    /// The value of the key under the active modifiers.
    pub keyval: u32,
    /// The key itself.
    pub hardware_keycode: u16,
    pub state: ModifierType,
    /// The character that the value stands for, if any.
    pub text: Option<char>,
    /// The named key that the value stands for, if any.
    pub named: Option<NamedKey>,
    /// What the keymap holds of the hardware key.
    pub keymap: Vec<KeymapEntry>,
}

/// What the handler is told of a key.
#[derive(Debug, PartialEq, Eq)]
pub struct KeyEvent {
    pub state: KeyState,
    pub key: KbKey,
    /// The hardware key, which determines the key code.
    pub hardware_keycode: u16,
    /// The value that determines where on the keyboard the key is.
    pub location_keyval: u32,
    pub mods: Modifiers,
    pub repeat: bool,
    pub is_composing: bool,
}

/// The entry `a` is for no later group and level than `b`: groups come first, then levels.
pub open spec fn not_after(a: KeymapEntry, b: KeymapEntry) -> bool {
    a.group < b.group || (a.group == b.group && a.level <= b.level)
}

/// The entry at `i` is for the lowest group and level that the keymap holds, and is the first
/// such entry.
pub open spec fn is_lowest(keymap: Seq<KeymapEntry>, i: int) -> bool {
    &&& 0 <= i < keymap.len()
    &&& forall|j: int| 0 <= j < keymap.len() ==> not_after(keymap[i], #[trigger] keymap[j])
    &&& forall|j: int| 0 <= j < i ==> !not_after(#[trigger] keymap[j], keymap[i])
}

/// `keyval` is the value that the key has in the lowest group and level of its keymap.
pub open spec fn is_lowest_keyval(keymap: Seq<KeymapEntry>, keyval: u32) -> bool {
    exists|i: int| #[trigger] is_lowest(keymap, i) && keyval == keymap[i].keyval
}

/// Maps a hardware key to the value that it has in the lowest group and level of its keymap. A
/// key of which the keymap holds nothing has none.
pub fn hardware_keycode_to_keyval(keymap: &Vec<KeymapEntry>) -> (r: Option<u32>)
    ensures
        r is None <==> keymap@.len() == 0,
        r matches Some(keyval) ==> is_lowest_keyval(keymap@, keyval),
{
    if keymap.len() == 0 {
        return None;
    }
    let mut lowest: usize = 0;
    let mut i: usize = 1;
    while i < keymap.len()
        invariant
            lowest < i <= keymap.len(),
            is_lowest(keymap@.take(i as int), lowest as int),
        decreases keymap.len() - i,
    {
        let entry = keymap[i];
        let best = keymap[lowest];
        let ghost seen = keymap@.take(i as int);
        assert(keymap@.take(i + 1) == seen.push(entry));
        assert(seen[lowest as int] == best);
        if entry.group < best.group || (entry.group == best.group && entry.level < best.level) {
            lowest = i;
        }
        i = i + 1;
    }
    assert(keymap@.take(i as int) == keymap@);
    Some(keymap[lowest].keyval)
}

/// Of a key of which the keymap holds something, exactly one value is the one in the lowest
/// group and level.
pub proof fn law_lowest_keyval_is_unique(keymap: Seq<KeymapEntry>, a: u32, b: u32)
    requires
        is_lowest_keyval(keymap, a),
        is_lowest_keyval(keymap, b),
    ensures
        a == b,
{
    let i = choose|i: int| #[trigger] is_lowest(keymap, i) && a == keymap[i].keyval;
    let j = choose|j: int| #[trigger] is_lowest(keymap, j) && b == keymap[j].keyval;
    assert(not_after(keymap[i], keymap[j]) && not_after(keymap[j], keymap[i]));
}

/// The character is one that a key can type: no control character and not the deletion.
pub open spec fn is_typed(c: char) -> bool {
    c >= ' ' && c != '\x7f'
}

/// `key` is the meaning of a key with this name and text. The name comes first.
pub open spec fn is_meaning(key: KbKey, named: Option<NamedKey>, text: Option<char>) -> bool {
    match named {
        Some(name) => key == KbKey::Named(name),
        None => match text {
            Some(c) => if is_typed(c) {
                key matches KbKey::Character(s) && s@ == seq![c]
            } else {
                key is Unidentified
            },
            None => key is Unidentified,
        },
    }
}

/// `keyval` says where on the keyboard the key is: it is the value in the lowest group and level,
/// so that modifiers do not move a key, or, for a key that is not in the keymap, the value of the
/// event.
pub open spec fn is_location(keyval: u32, input: KeyInput) -> bool {
    if input.keymap@.len() == 0 {
        keyval == input.keyval
    } else {
        is_lowest_keyval(input.keymap@, keyval)
    }
}

/// `event` is what the handler is to be told of `input`.
pub open spec fn tells(event: KeyEvent, input: KeyInput, repeat: bool, state: KeyState) -> bool {
    &&& event.state == state
    &&& is_meaning(event.key, input.named, input.text)
    &&& event.hardware_keycode == input.hardware_keycode
    &&& is_location(event.location_keyval, input)
    &&& event.mods == crate::input::modifiers_of(input.state)
    &&& event.repeat == repeat
    &&& !event.is_composing
}

/// `char::to_string`: the string that holds the character and nothing else.
#[verifier::external_body]
fn text_of(c: char) -> (s: String)
    ensures
        s@ == seq![c],
{
    c.to_string()
}

/// What the handler is told of a key.
pub fn make_key_event(input: &KeyInput, repeat: bool, state: KeyState) -> (r: KeyEvent)
    ensures
        tells(r, *input, repeat, state),
{
    let location_keyval: u32 = match hardware_keycode_to_keyval(&input.keymap) {
        Some(keyval) => keyval,
        None => input.keyval,
    };
    let key = match input.named {
        Some(name) => KbKey::Named(name),
        None => match input.text {
            Some(c) => if c >= ' ' && c != '\x7f' {
                KbKey::Character(text_of(c))
            } else {
                KbKey::Unidentified
            },
            None => KbKey::Unidentified,
        },
    };
    KeyEvent {
        state,
        key,
        hardware_keycode: input.hardware_keycode,
        location_keyval,
        mods: get_modifiers(input.state),
        repeat,
        is_composing: false,
    }
}

}
