//! What the handler is told of the mouse, the wheel and the keys, in terms of what the toolkit
//! reports.

use vstd::prelude::*;

use crate::cursor::{Cursor, CursorSource, ImageFormat};
use crate::geometry::{Real, Scale};
use crate::input::{
    ButtonEvent, EventType, ModifierType, Modifiers, MouseButton, MouseButtons, MouseEvent,
    PointerEvent, ScrollDirection, ScrollEvent, WheelDelta,
};
use crate::keyboard::{KbKey, KeyEvent, KeyInput, KeyState, KeymapEntry};

verus! {

// Bits.

/// The state in which all is set that is set in one of the two.
pub open spec fn both(s: ModifierType, t: ModifierType) -> ModifierType {
    ModifierType { bits: s.bits | t.bits }
}

/// `mods` holds each modifier if and only if its own bit is set.
pub open spec fn mods_are(mods: Modifiers, s: ModifierType) -> bool {
    &&& mods.shift <==> s.bits & 0x1 != 0
    &&& mods.caps_lock <==> s.bits & 0x2 != 0
    &&& mods.ctrl <==> s.bits & 0x4 != 0
    &&& mods.alt <==> s.bits & 0x8 != 0
    &&& mods.num_lock <==> s.bits & 0x10 != 0
    &&& mods.meta <==> s.bits & 0x1000_0000 != 0
}

/// Each button is reported as held if and only if its own bit is set.
pub open spec fn buttons_are(buttons: Set<MouseButton>, s: ModifierType) -> bool {
    &&& buttons.contains(MouseButton::Left) <==> s.bits & 0x100 != 0
    &&& buttons.contains(MouseButton::Middle) <==> s.bits & 0x200 != 0
    &&& buttons.contains(MouseButton::Right) <==> s.bits & 0x400 != 0
    &&& buttons.contains(MouseButton::X1) <==> s.bits & 0x800 != 0
    &&& buttons.contains(MouseButton::X2) <==> s.bits & 0x1000 != 0
    &&& !buttons.contains(MouseButton::NoButton)
}

/// A mask of one bit is either set whole or not at all.
proof fn lemma_single_bits(b: u32)
    ensures
        (b & 0x1 == 0x1) == (b & 0x1 != 0),
        (b & 0x2 == 0x2) == (b & 0x2 != 0),
        (b & 0x4 == 0x4) == (b & 0x4 != 0),
        (b & 0x8 == 0x8) == (b & 0x8 != 0),
        (b & 0x10 == 0x10) == (b & 0x10 != 0),
        (b & 0x100 == 0x100) == (b & 0x100 != 0),
        (b & 0x200 == 0x200) == (b & 0x200 != 0),
        (b & 0x400 == 0x400) == (b & 0x400 != 0),
        (b & 0x800 == 0x800) == (b & 0x800 != 0),
        (b & 0x1000 == 0x1000) == (b & 0x1000 != 0),
        (b & 0x1000_0000 == 0x1000_0000) == (b & 0x1000_0000 != 0),
{
    assert((b & 0x1 == 0x1) == (b & 0x1 != 0) && (b & 0x2 == 0x2) == (b & 0x2 != 0) && (b & 0x4
        == 0x4) == (b & 0x4 != 0) && (b & 0x8 == 0x8) == (b & 0x8 != 0) && (b & 0x10 == 0x10) == (b
        & 0x10 != 0)) by (bit_vector);
    assert((b & 0x100 == 0x100) == (b & 0x100 != 0) && (b & 0x200 == 0x200) == (b & 0x200 != 0) && (
    b & 0x400 == 0x400) == (b & 0x400 != 0) && (b & 0x800 == 0x800) == (b & 0x800 != 0) && (b
        & 0x1000 == 0x1000) == (b & 0x1000 != 0)) by (bit_vector);
    assert((b & 0x1000_0000 == 0x1000_0000) == (b & 0x1000_0000 != 0)) by (bit_vector);
}

/// A bit is set in the union of two states if and only if it is set in one of them.
proof fn lemma_bit_of_union(b: u32, c: u32, mask: u32)
    ensures
        (b | c) & mask != 0 <==> b & mask != 0 || c & mask != 0,
{
    assert((b | c) & mask != 0 <==> b & mask != 0 || c & mask != 0) by (bit_vector);
}

/// Each modifier is reported if and only if its own bit is set, whatever the other bits are.
pub proof fn law_each_modifier_has_its_bit(s: ModifierType)
    ensures
        mods_are(crate::input::modifiers_of(s), s),
{
    lemma_single_bits(s.bits);
}

/// Each button is reported as held if and only if its own bit is set, whatever the other bits
/// are.
pub proof fn law_each_button_has_its_bit(s: ModifierType)
    ensures
        buttons_are(crate::input::held_buttons(s), s),
{
    lemma_single_bits(s.bits);
}

/// The modifiers and the buttons of two states together are those of the one and those of the
/// other.
pub proof fn law_states_add_up(s: ModifierType, t: ModifierType)
    ensures
        ({
            let (a, b, all) = (
                crate::input::modifiers_of(s),
                crate::input::modifiers_of(t),
                crate::input::modifiers_of(both(s, t)),
            );
            &&& all.shift == (a.shift || b.shift)
            &&& all.alt == (a.alt || b.alt)
            &&& all.ctrl == (a.ctrl || b.ctrl)
            &&& all.meta == (a.meta || b.meta)
            &&& all.caps_lock == (a.caps_lock || b.caps_lock)
            &&& all.num_lock == (a.num_lock || b.num_lock)
        }),
        crate::input::held_buttons(both(s, t)) == crate::input::held_buttons(s).union(
            crate::input::held_buttons(t),
        ),
{
    let all = both(s, t);
    law_each_modifier_has_its_bit(s);
    law_each_modifier_has_its_bit(t);
    law_each_modifier_has_its_bit(all);
    law_each_button_has_its_bit(s);
    law_each_button_has_its_bit(t);
    law_each_button_has_its_bit(all);
    lemma_bit_of_union(s.bits, t.bits, 0x1);
    lemma_bit_of_union(s.bits, t.bits, 0x2);
    lemma_bit_of_union(s.bits, t.bits, 0x4);
    lemma_bit_of_union(s.bits, t.bits, 0x8);
    lemma_bit_of_union(s.bits, t.bits, 0x10);
    lemma_bit_of_union(s.bits, t.bits, 0x100);
    lemma_bit_of_union(s.bits, t.bits, 0x200);
    lemma_bit_of_union(s.bits, t.bits, 0x400);
    lemma_bit_of_union(s.bits, t.bits, 0x800);
    lemma_bit_of_union(s.bits, t.bits, 0x1000);
    lemma_bit_of_union(s.bits, t.bits, 0x1000_0000);
    let (a, b, c) = (
        crate::input::held_buttons(s),
        crate::input::held_buttons(t),
        crate::input::held_buttons(all),
    );
    assert forall|button: MouseButton| c.contains(button) == a.union(b).contains(button) by {
        match button {
            MouseButton::NoButton => {},
            MouseButton::Left => {},
            MouseButton::Right => {},
            MouseButton::Middle => {},
            MouseButton::X1 => {},
            MouseButton::X2 => {},
        }
    }
    assert(c =~= a.union(b));
}

/// A set of buttons is known by what is in it: each button has its own place, and what is no
/// button is in no set.
pub proof fn law_button_sets_are_faithful(a: MouseButtons, b: MouseButtons)
    ensures
        a@ == b@ <==> a == b,
        a@.contains(MouseButton::Left) <==> a.left,
        a@.contains(MouseButton::Right) <==> a.right,
        a@.contains(MouseButton::Middle) <==> a.middle,
        a@.contains(MouseButton::X1) <==> a.x1,
        a@.contains(MouseButton::X2) <==> a.x2,
        !a@.contains(MouseButton::NoButton),
{
    assert(a@.contains(MouseButton::Left) == a.left);
    assert(a@.contains(MouseButton::Right) == a.right);
    assert(a@.contains(MouseButton::Middle) == a.middle);
    assert(a@.contains(MouseButton::X1) == a.x1);
    assert(a@.contains(MouseButton::X2) == a.x2);
    assert(b@.contains(MouseButton::Left) == b.left);
    assert(b@.contains(MouseButton::Right) == b.right);
    assert(b@.contains(MouseButton::Middle) == b.middle);
    assert(b@.contains(MouseButton::X1) == b.x1);
    assert(b@.contains(MouseButton::X2) == b.x2);
}

// Buttons.

/// The number is one that stands for a button. Those between are turns of the wheel.
pub open spec fn is_button_number(number: u32) -> bool {
    1 <= number <= 3 || 8 <= number <= 9
}

/// The bit that is set while the button with this number is held: the three buttons of every
/// mouse have the first three, and the two at the side follow.
pub open spec fn bit_of_number(number: u32) -> u32 {
    if number == 1 {
        0x100
    } else if number == 2 {
        0x200
    } else if number == 3 {
        0x400
    } else if number == 8 {
        0x800
    } else {
        0x1000
    }
}

/// A number stands for a button if and only if it is one of five. A button is reported as held by
/// the bit of the number that reports it as pressed, two numbers never stand for one button, and
/// none stands for no button.
pub proof fn law_number_and_bit_are_of_one_button(number: u32, other: u32, s: ModifierType)
    ensures
        crate::input::button_of(number) is Some <==> is_button_number(number),
        crate::input::button_of(number) matches Some(button) ==> {
            &&& button != MouseButton::NoButton
            &&& crate::input::held_buttons(s).contains(button) <==> s.bits & bit_of_number(number)
                != 0
            &&& crate::input::button_of(other) == Some(button) <==> other == number
        },
{
    law_each_button_has_its_bit(s);
}

/// The handler is told of a press unless it is no button's or repeats one as the second or third
/// of a series, and its clicks are counted only where it is an ordinary press.
pub proof fn law_which_presses_are_told(event: ButtonEvent)
    ensures
        crate::input::press_is_told(event) <==> {
            &&& is_button_number(event.button)
            &&& event.event_type != EventType::DoubleButtonPress
            &&& event.event_type != EventType::TripleButtonPress
        },
        crate::input::press_is_counted(event) <==> {
            &&& is_button_number(event.button)
            &&& event.event_type == EventType::ButtonPress
        },
        crate::input::press_is_counted(event) ==> crate::input::press_is_told(event),
        crate::input::click_count(event.event_type) <= 3,
        crate::input::click_count(event.event_type) >= 2 <==> event.event_type
            == EventType::DoubleButtonPress || event.event_type == EventType::TripleButtonPress,
        crate::input::click_count(event.event_type) == 3 <==> event.event_type
            == EventType::TripleButtonPress,
{
}

/// What the handler is told of a press comes from where the pointer is, under the window's scale,
/// with the modifiers whose bits are set. The pressed button is held besides those whose bits are
/// set, the clicks are those of the counter for an ordinary press and none otherwise, and no
/// wheel turned.
pub proof fn law_press(e: MouseEvent, event: ButtonEvent, clicks: u8, scale: Scale)
    requires
        crate::input::is_press(e, event, clicks, scale),
    ensures
        e.position == event.position,
        e.scale == scale,
        mods_are(e.mods, event.state),
        !e.focus,
        is_button_number(event.button),
        e.button != MouseButton::NoButton,
        forall|s: ModifierType|
            crate::input::held_buttons(s).contains(e.button) <==> (#[trigger] s.bits)
                & bit_of_number(event.button) != 0,
        forall|button: MouseButton|
            e.buttons@.contains(button) <==> button == e.button || crate::input::held_buttons(
                event.state,
            ).contains(button),
        buttons_are(crate::input::held_buttons(event.state), event.state),
        e.count == if event.event_type == EventType::ButtonPress {
            clicks
        } else {
            0
        },
        e.wheel_delta == (WheelDelta::Units { x: 0, y: 0 }),
{
    law_each_modifier_has_its_bit(event.state);
    law_each_button_has_its_bit(event.state);
    law_which_presses_are_told(event);
    assert forall|s: ModifierType|
        crate::input::held_buttons(s).contains(e.button) <==> (#[trigger] s.bits) & bit_of_number(
            event.button,
        ) != 0 by {
        law_number_and_bit_are_of_one_button(event.button, event.button, s);
    }
}

/// What the handler is told of a release: as of a press, but the released button is not held, and
/// there are no clicks.
pub proof fn law_release(e: MouseEvent, event: ButtonEvent, scale: Scale)
    requires
        crate::input::is_release(e, event, scale),
    ensures
        e.position == event.position,
        e.scale == scale,
        mods_are(e.mods, event.state),
        !e.focus,
        is_button_number(event.button),
        forall|s: ModifierType|
            crate::input::held_buttons(s).contains(e.button) <==> (#[trigger] s.bits)
                & bit_of_number(event.button) != 0,
        forall|button: MouseButton|
            e.buttons@.contains(button) <==> button != e.button && crate::input::held_buttons(
                event.state,
            ).contains(button),
        buttons_are(crate::input::held_buttons(event.state), event.state),
        e.count == 0,
        e.wheel_delta == (WheelDelta::Units { x: 0, y: 0 }),
{
    law_each_modifier_has_its_bit(event.state);
    law_each_button_has_its_bit(event.state);
    law_number_and_bit_are_of_one_button(event.button, event.button, event.state);
    assert forall|s: ModifierType|
        crate::input::held_buttons(s).contains(e.button) <==> (#[trigger] s.bits) & bit_of_number(
            event.button,
        ) != 0 by {
        law_number_and_bit_are_of_one_button(event.button, event.button, s);
    }
}

/// What the handler is told of a pointer that moved or left: where it is, what is held, and
/// nothing else.
pub proof fn law_motion(e: MouseEvent, event: PointerEvent, scale: Scale)
    requires
        crate::input::is_motion(e, event, scale),
    ensures
        e.position == event.position,
        e.scale == scale,
        mods_are(e.mods, event.state),
        buttons_are(e.buttons@, event.state),
        !e.focus,
        e.button == MouseButton::NoButton,
        e.count == 0,
        e.wheel_delta == (WheelDelta::Units { x: 0, y: 0 }),
{
    law_each_modifier_has_its_bit(event.state);
    law_each_button_has_its_bit(event.state);
}

// The wheel.

/// A turn of so many units, to the right and downwards.
pub open spec fn is_units(delta: Option<WheelDelta>, right: int, down: int) -> bool {
    delta matches Some(WheelDelta::Units { x, y }) && x == right && y == down
}

/// One tick of the wheel is 120 units, downwards and to the right being positive, and a turn the
/// other way is as much less than nothing. Without shift a vertical turn is vertical; with shift
/// it is as far, but horizontal. A horizontal turn is horizontal either way. Of a direction that
/// is not documented nothing is told, and the deltas matter to none of these.
pub proof fn law_tick(dx: Real, dy: Real, shift: bool)
    ensures
        is_units(crate::input::wheel_delta(ScrollDirection::Down, dx, dy, false), 0, 120),
        is_units(crate::input::wheel_delta(ScrollDirection::Up, dx, dy, false), 0, -120),
        is_units(crate::input::wheel_delta(ScrollDirection::Down, dx, dy, true), 120, 0),
        is_units(crate::input::wheel_delta(ScrollDirection::Up, dx, dy, true), -120, 0),
        is_units(crate::input::wheel_delta(ScrollDirection::Right, dx, dy, shift), 120, 0),
        is_units(crate::input::wheel_delta(ScrollDirection::Left, dx, dy, shift), -120, 0),
        crate::input::wheel_delta(ScrollDirection::Unknown, dx, dy, shift) is None,
{
}

/// Smooth scrolling hands both deltas on as they are, whatever they are, and is horizontal if and
/// only if shift is held; so with shift held nothing vertical remains.
pub proof fn law_smooth_scrolling(dx: Real, dy: Real, shift: bool)
    ensures
        crate::input::wheel_delta(ScrollDirection::Smooth, dx, dy, shift) matches Some(
            WheelDelta::Smooth { dx: x, dy: y, horizontal },
        ) && x == dx && y == dy && (horizontal <==> shift),
{
}

/// What the handler is told of the wheel: where the pointer is, what is held, and a turn that is
/// sideways by the bit of the shift key alone.
pub proof fn law_turn(e: MouseEvent, event: ScrollEvent, scale: Scale)
    requires
        crate::input::is_turn(e, event, scale),
    ensures
        e.position == event.position,
        e.scale == scale,
        mods_are(e.mods, event.state),
        buttons_are(e.buttons@, event.state),
        !e.focus,
        e.button == MouseButton::NoButton,
        e.count == 0,
        event.direction != ScrollDirection::Unknown,
        event.direction == ScrollDirection::Smooth ==> (e.wheel_delta matches WheelDelta::Smooth {
            dx,
            dy,
            horizontal,
        } && dx == event.delta_x && dy == event.delta_y && (horizontal <==> event.state.bits & 0x1
            != 0)),
        event.direction != ScrollDirection::Smooth ==> (e.wheel_delta matches WheelDelta::Units {
            x,
            y,
        } && (y == 0 <==> event.direction == ScrollDirection::Left || event.direction
            == ScrollDirection::Right || event.state.bits & 0x1 != 0) && (x == 0 <==> y != 0) && (x
            + y == 120 <==> event.direction == ScrollDirection::Down || event.direction
            == ScrollDirection::Right) && (x + y == 120 || x + y == -120)),
{
    law_each_modifier_has_its_bit(event.state);
    law_each_button_has_its_bit(event.state);
    law_tick(event.delta_x, event.delta_y, true);
    law_tick(event.delta_x, event.delta_y, false);
    law_smooth_scrolling(event.delta_x, event.delta_y, e.mods.shift);
}

/// The handler is told of a turn of the wheel if and only if its direction is a documented one.
pub proof fn law_which_turns_are_told(event: ScrollEvent)
    ensures
        crate::input::wheel_of(event) is Some <==> event.direction != ScrollDirection::Unknown,
{
}

// Keys.

/// A key types text if and only if its character is no control character: those below the space,
/// and the deletion.
pub proof fn law_typed_characters(c: char)
    ensures
        crate::keyboard::is_typed(c) <==> 0x20 <= c as u32 && c as u32 != 0x7f,
{
}

/// What the handler is told of a key. A name comes before text, text is the one character that
/// the key types, and a key with neither is not identified. The modifiers are those whose bits
/// are set.
pub proof fn law_key(e: KeyEvent, input: KeyInput, repeat: bool, state: KeyState)
    requires
        crate::keyboard::tells(e, input, repeat, state),
    ensures
        e.state == state,
        e.repeat == repeat,
        !e.is_composing,
        e.hardware_keycode == input.hardware_keycode,
        mods_are(e.mods, input.state),
        input.named matches Some(name) ==> e.key == KbKey::Named(name),
        e.key matches KbKey::Named(name) ==> input.named == Some(name),
        e.key matches KbKey::Character(text) ==> {
            &&& input.named is None
            &&& text@.len() == 1
            &&& input.text == Some(text@[0])
            &&& 0x20 <= text@[0] as u32 && text@[0] as u32 != 0x7f
        },
        input.named is None ==> (input.text matches Some(c) ==> (e.key is Unidentified <==> (
        c as u32) < 0x20 || c as u32 == 0x7f)),
        input.named is None && input.text is None ==> e.key is Unidentified,
{
    law_each_modifier_has_its_bit(input.state);
    if let Some(c) = input.text {
        law_typed_characters(c);
    }
}

/// Where a key is on the keyboard does not depend on the modifiers: two events of a key that is in
/// the keymap are told with one place, whatever their values are. It is the value of an entry
/// that no other entry comes before, by group and then by level, and of those the first. A key
/// that is not in the keymap has the place of its value.
pub proof fn law_place_of_a_key(
    a: KeyEvent,
    b: KeyEvent,
    first: KeyInput,
    second: KeyInput,
    repeats: (bool, bool),
    states: (KeyState, KeyState),
)
    requires
        crate::keyboard::tells(a, first, repeats.0, states.0),
        crate::keyboard::tells(b, second, repeats.1, states.1),
        first.keymap@ == second.keymap@,
    ensures
        first.keymap@.len() > 0 ==> a.location_keyval == b.location_keyval,
        first.keymap@.len() > 0 ==> exists|i: int|
            #![trigger first.keymap@[i]]
            {
                &&& 0 <= i < first.keymap@.len()
                &&& a.location_keyval == first.keymap@[i].keyval
                &&& forall|j: int|
                    0 <= j < first.keymap@.len() && j != i ==> comes_before(
                        first.keymap@[i],
                        i,
                        #[trigger] first.keymap@[j],
                        j,
                    )
            },
        first.keymap@.len() == 0 ==> a.location_keyval == first.keyval,
{
    if first.keymap@.len() > 0 {
        let keymap = first.keymap@;
        crate::keyboard::law_lowest_keyval_is_unique(keymap, a.location_keyval, b.location_keyval);
        let i = choose|i: int|
            #[trigger] crate::keyboard::is_lowest(keymap, i) && a.location_keyval
                == keymap[i].keyval;
        assert(crate::keyboard::is_lowest(keymap, i));
        assert forall|j: int| 0 <= j < keymap.len() && j != i implies comes_before(
            keymap[i],
            i,
            #[trigger] keymap[j],
            j,
        ) by {
            assert(crate::keyboard::not_after(keymap[i], keymap[j]));
            if j < i {
                assert(!crate::keyboard::not_after(keymap[j], keymap[i]));
            }
        }
        assert(a.location_keyval == keymap[i].keyval);
    }
}

/// The entry `a`, at `i`, is for an earlier group and level than `b`, at `j`, or for the same ones
/// and stands before it.
pub open spec fn comes_before(a: KeymapEntry, i: int, b: KeymapEntry, j: int) -> bool {
    ||| a.group < b.group
    ||| a.group == b.group && a.level < b.level
    ||| a.group == b.group && a.level == b.level && i < j
}

// Cursors.

/// Every cursor with a name has the one that it has in CSS, and a custom cursor is itself.
pub proof fn law_cursor_names(source: CursorSource, cursor: Cursor)
    requires
        crate::cursor::is_source(source, cursor),
    ensures
        cursor matches Cursor::Custom(custom) ==> (source matches CursorSource::Custom(c) && c
            == custom),
        !(cursor is Custom) ==> source is Theme,
        source matches CursorSource::Theme(name) ==> {
            &&& cursor == Cursor::Arrow ==> name@ == "default"@
            &&& cursor == Cursor::IBeam ==> name@ == "text"@
            &&& cursor == Cursor::Pointer ==> name@ == "pointer"@
            &&& cursor == Cursor::Crosshair ==> name@ == "crosshair"@
            &&& cursor == Cursor::OpenHand ==> name@ == "grab"@
            &&& cursor == Cursor::NotAllowed ==> name@ == "not-allowed"@
            &&& cursor == Cursor::ResizeLeftRight ==> name@ == "ew-resize"@
            &&& cursor == Cursor::ResizeUpDown ==> name@ == "ns-resize"@
        },
{
}

/// Two cursors that the toolkit has from one source are the same cursor.
pub proof fn law_cursors_differ(source: CursorSource, a: Cursor, b: Cursor)
    requires
        crate::cursor::is_source(source, a),
        crate::cursor::is_source(source, b),
    ensures
        a == b,
{
    reveal_strlit("default");
    reveal_strlit("text");
    reveal_strlit("pointer");
    reveal_strlit("crosshair");
    reveal_strlit("grab");
    reveal_strlit("not-allowed");
    reveal_strlit("ew-resize");
    reveal_strlit("ns-resize");
    law_cursor_names(source, a);
    law_cursor_names(source, b);
    assert("default"@.len() == 7 && "pointer"@.len() == 7);
    assert("text"@.len() == 4 && "grab"@.len() == 4 && "not-allowed"@.len() == 11);
    assert("crosshair"@.len() == 9 && "ew-resize"@.len() == 9 && "ns-resize"@.len() == 9);
    assert("ew-resize"@[0] == 'e' && "ns-resize"@[0] == 'n' && "crosshair"@[0] == 'c');
    assert("default"@[0] == 'd' && "pointer"@[0] == 'p');
    assert("text"@[0] == 't' && "grab"@[0] == 'g');
}

/// An image is laid out without gaps: a row of one pixel more is longer by the bytes of a pixel,
/// a row without pixels takes none, and the sides are kept. A pixel takes a byte for each of its
/// channels, of which an image without alpha has three; every other image is taken to have alpha.
/// This holds of images whose rows are no longer than a machine integer.
pub proof fn law_image_layout(width: usize, height: usize, format: ImageFormat)
    requires
        (width + 1) * format.pixel_bytes() <= i32::MAX,
        height <= i32::MAX,
        width < usize::MAX,
    ensures
        ({
            let (narrow, wide) = (
                crate::cursor::layout_of(width, height, format),
                crate::cursor::layout_of((width + 1) as usize, height, format),
            );
            &&& wide.row_stride - narrow.row_stride == format.pixel_bytes()
            &&& width == 0 ==> narrow.row_stride == 0
            &&& narrow.width == width
            &&& narrow.height == height
            &&& narrow.bits_per_sample == 8
            &&& narrow.has_alpha <==> format != ImageFormat::Rgb
        }),
        format.pixel_bytes() == 3 <==> format == ImageFormat::Rgb,
        format.pixel_bytes() == 1 <==> format == ImageFormat::Grayscale,
        format.pixel_bytes() == 4 <==> format == ImageFormat::RgbaSeparate || format
            == ImageFormat::RgbaPremul,
{
    let n = format.pixel_bytes() as int;
    assert((width + 1) * n == width * n + n) by (nonlinear_arith);
    assert(0 <= width * n <= (width + 1) * n) by (nonlinear_arith)
        requires
            n >= 0,
            width >= 0,
    ;
    assert(width <= width * n) by (nonlinear_arith)
        requires
            n >= 1,
            width >= 0,
    ;
}

// Numbers.

/// A pattern stands for no number if and only if all bits of its exponent are set and some bit of
/// its fraction is. Any other pattern stands for the number that it equals; two different ones
/// stand for equal numbers only if both are zero but for the sign.
pub proof fn law_equal_numbers(a: Real, b: Real)
    ensures
        a.is_nan() <==> a.bits & 0x7ff0_0000_0000_0000 == 0x7ff0_0000_0000_0000 && a.bits
            & 0x000f_ffff_ffff_ffff != 0,
        a.same_number(a) <==> !a.is_nan(),
        a.same_number(b) <==> b.same_number(a),
        a.is_nan() ==> !a.same_number(b),
        a.same_number(b) && a.bits != b.bits ==> a.bits & 0x7fff_ffff_ffff_ffff == 0 && b.bits
            & 0x7fff_ffff_ffff_ffff == 0,
        a.bits & 0x7fff_ffff_ffff_ffff == 0 && b.bits & 0x7fff_ffff_ffff_ffff == 0
            ==> a.same_number(b),
{
    let (x, y) = (a.bits, b.bits);
    assert(x % 0x8000_0000_0000_0000 == x & 0x7fff_ffff_ffff_ffff) by (bit_vector);
    assert(y % 0x8000_0000_0000_0000 == y & 0x7fff_ffff_ffff_ffff) by (bit_vector);
    assert((x & 0x7fff_ffff_ffff_ffff) > 0x7ff0_0000_0000_0000 <==> (x & 0x7ff0_0000_0000_0000
        == 0x7ff0_0000_0000_0000 && x & 0x000f_ffff_ffff_ffff != 0)) by (bit_vector);
}

/// Two scales are equal if and only if both of their factors are.
pub proof fn law_equal_scales(a: Scale, b: Scale)
    ensures
        a.same_scale(b) <==> a.x.same_number(b.x) && a.y.same_number(b.y),
        a.same_scale(b) <==> b.same_scale(a),
{
    law_equal_numbers(a.x, b.x);
    law_equal_numbers(a.y, b.y);
}

}
