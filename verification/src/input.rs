//! Pointer input: what the toolkit reports of the mouse, and what the handler is told.

use vstd::prelude::*;

use crate::geometry::{Point, Real, Scale};

verus! {

pub const SHIFT_MASK: u32 = 0x1;

pub const LOCK_MASK: u32 = 0x2;

pub const CONTROL_MASK: u32 = 0x4;

pub const MOD1_MASK: u32 = 0x8;

pub const MOD2_MASK: u32 = 0x10;

pub const BUTTON1_MASK: u32 = 0x100;

pub const BUTTON2_MASK: u32 = 0x200;

pub const BUTTON3_MASK: u32 = 0x400;

pub const BUTTON4_MASK: u32 = 0x800;

pub const BUTTON5_MASK: u32 = 0x1000;

pub const META_MASK: u32 = 0x1000_0000;

/// The modifier state of a toolkit event, one bit for each modifier or held button.
#[derive(Clone, Copy, Debug, PartialEq, Eq, Structural)]
pub struct ModifierType {
    pub bits: u32,
}

impl ModifierType {
    /// Every bit of `mask` is set.
    pub open spec fn has(self, mask: u32) -> bool {
        self.bits & mask == mask
    }

    /// Whether every bit of `mask` is set.
    pub fn contains(&self, mask: u32) -> (r: bool)
        ensures
            r == self.has(mask),
    {
        self.bits & mask == mask
    }
}

/// A mouse button.
#[derive(Clone, Copy, Debug, PartialEq, Eq, Structural)]
pub enum MouseButton {
    /// No button.
    NoButton,
    Left,
    Right,
    Middle,
    X1,
    X2,
}

/// A set of mouse buttons.
#[derive(Clone, Copy, Debug, PartialEq, Eq, Structural)]
pub struct MouseButtons {
    pub left: bool,
    pub right: bool,
    pub middle: bool,
    pub x1: bool,
    pub x2: bool,
}

impl View for MouseButtons {
    type V = Set<MouseButton>;

    open spec fn view(&self) -> Set<MouseButton> {
        Set::new(|button: MouseButton| self.holds(button))
    }
}

impl MouseButtons {
    /// The button is in the set. [`MouseButton::NoButton`] is in none.
    pub open spec fn holds(self, button: MouseButton) -> bool {
        match button {
            MouseButton::NoButton => false,
            MouseButton::Left => self.left,
            MouseButton::Right => self.right,
            MouseButton::Middle => self.middle,
            MouseButton::X1 => self.x1,
            MouseButton::X2 => self.x2,
        }
    }

    /// The set without a button.
    pub fn new() -> (r: MouseButtons)
        ensures
            r@ == Set::<MouseButton>::empty(),
    {
        MouseButtons { left: false, right: false, middle: false, x1: false, x2: false }
    }

    /// Whether the button is in the set.
    pub fn contains(&self, button: MouseButton) -> (r: bool)
        ensures
            r == self@.contains(button),
    {
        match button {
            MouseButton::NoButton => false,
            MouseButton::Left => self.left,
            MouseButton::Right => self.right,
            MouseButton::Middle => self.middle,
            MouseButton::X1 => self.x1,
            MouseButton::X2 => self.x2,
        }
    }

    /// Adds a button to the set; [`MouseButton::NoButton`] adds nothing.
    pub fn insert(&mut self, button: MouseButton)
        ensures
            final(self)@ == if button == MouseButton::NoButton {
                old(self)@
            } else {
                old(self)@.insert(button)
            },
    {
        match button {
            MouseButton::NoButton => {},
            MouseButton::Left => {
                self.left = true;
            },
            MouseButton::Right => {
                self.right = true;
            },
            MouseButton::Middle => {
                self.middle = true;
            },
            MouseButton::X1 => {
                self.x1 = true;
            },
            MouseButton::X2 => {
                self.x2 = true;
            },
        }
    }

    /// The set with the button added.
    pub fn with(self, button: MouseButton) -> (r: MouseButtons)
        ensures
            r@ == if button == MouseButton::NoButton {
                self@
            } else {
                self@.insert(button)
            },
    {
        let mut r = self;
        r.insert(button);
        r
    }

    /// The set with the button taken out.
    pub fn without(self, button: MouseButton) -> (r: MouseButtons)
        ensures
            r@ == self@.remove(button),
    {
        let r = MouseButtons {
            left: self.left && button != MouseButton::Left,
            right: self.right && button != MouseButton::Right,
            middle: self.middle && button != MouseButton::Middle,
            x1: self.x1 && button != MouseButton::X1,
            x2: self.x2 && button != MouseButton::X2,
        };
        assert(r@ =~= self@.remove(button));
        r
    }
}

/// The keyboard modifiers that are active.
#[derive(Clone, Copy, Debug, PartialEq, Eq, Structural)]
pub struct Modifiers {
    pub shift: bool,
    pub alt: bool,
    pub ctrl: bool,
    pub meta: bool,
    pub caps_lock: bool,
    pub num_lock: bool,
}

/// The button that the toolkit's button number stands for. Numbers 4 to 7 are reported as
/// scrolling, never as a button.
pub open spec fn button_of(number: u32) -> Option<MouseButton> {
    if number == 1 {
        Some(MouseButton::Left)
    } else if number == 2 {
        Some(MouseButton::Middle)
    } else if number == 3 {
        Some(MouseButton::Right)
    } else if number == 8 {
        Some(MouseButton::X1)
    } else if number == 9 {
        Some(MouseButton::X2)
    } else {
        None
    }
}

/// The button that the toolkit's button number stands for.
pub fn get_mouse_button(button: u32) -> (r: Option<MouseButton>)
    ensures
        r == button_of(button),
{
    match button {
        1 => Some(MouseButton::Left),
        2 => Some(MouseButton::Middle),
        3 => Some(MouseButton::Right),
        8 => Some(MouseButton::X1),
        9 => Some(MouseButton::X2),
        _ => None,
    }
}

/// The bit by which an event's modifier state reports a button as held.
pub open spec fn button_mask(button: MouseButton) -> Option<u32> {
    match button {
        MouseButton::NoButton => None,
        MouseButton::Left => Some(BUTTON1_MASK),
        MouseButton::Middle => Some(BUTTON2_MASK),
        MouseButton::Right => Some(BUTTON3_MASK),
        MouseButton::X1 => Some(BUTTON4_MASK),
        MouseButton::X2 => Some(BUTTON5_MASK),
    }
}

/// The buttons that a modifier state reports as held.
pub open spec fn held_buttons(modifiers: ModifierType) -> Set<MouseButton> {
    Set::new(
        |button: MouseButton|
            match button_mask(button) {
                Some(mask) => modifiers.has(mask),
                None => false,
            },
    )
}

/// The buttons that a modifier state reports as held.
pub fn get_mouse_buttons_from_modifiers(modifiers: ModifierType) -> (r: MouseButtons)
    ensures
        r@ == held_buttons(modifiers),
{
    let mut buttons = MouseButtons::new();
    if modifiers.contains(BUTTON1_MASK) {
        buttons.insert(MouseButton::Left);
    }
    if modifiers.contains(BUTTON2_MASK) {
        buttons.insert(MouseButton::Middle);
    }
    if modifiers.contains(BUTTON3_MASK) {
        buttons.insert(MouseButton::Right);
    }
    if modifiers.contains(BUTTON4_MASK) {
        buttons.insert(MouseButton::X1);
    }
    if modifiers.contains(BUTTON5_MASK) {
        buttons.insert(MouseButton::X2);
    }
    assert(buttons@ =~= held_buttons(modifiers));
    buttons
}

/// The keyboard modifiers that a modifier state reports.
pub open spec fn modifiers_of(modifiers: ModifierType) -> Modifiers {
    Modifiers {
        shift: modifiers.has(SHIFT_MASK),
        alt: modifiers.has(MOD1_MASK),
        ctrl: modifiers.has(CONTROL_MASK),
        meta: modifiers.has(META_MASK),
        caps_lock: modifiers.has(LOCK_MASK),
        num_lock: modifiers.has(MOD2_MASK),
    }
}

/// The keyboard modifiers that a modifier state reports. Num lock is read from the bit that
/// usually stands for it.
pub fn get_modifiers(modifiers: ModifierType) -> (r: Modifiers)
    ensures
        r == modifiers_of(modifiers),
{
    Modifiers {
        shift: modifiers.contains(SHIFT_MASK),
        alt: modifiers.contains(MOD1_MASK),
        ctrl: modifiers.contains(CONTROL_MASK),
        meta: modifiers.contains(META_MASK),
        caps_lock: modifiers.contains(LOCK_MASK),
        num_lock: modifiers.contains(MOD2_MASK),
    }
}

/// The kinds of button event that the toolkit reports.
#[derive(Clone, Copy, Debug, PartialEq, Eq, Structural)]
pub enum EventType {
    ButtonPress,
    DoubleButtonPress,
    TripleButtonPress,
    ButtonRelease,
    /// Any other kind of event.
    Other,
}

/// How many presses an event of this kind stands for.
pub open spec fn click_count(event_type: EventType) -> u8 {
    match event_type {
        EventType::ButtonPress => 1,
        EventType::DoubleButtonPress => 2,
        EventType::TripleButtonPress => 3,
        EventType::ButtonRelease => 0,
        EventType::Other => 0,
    }
}

/// How many presses an event of this kind stands for.
pub fn get_mouse_click_count(event_type: EventType) -> (r: u8)
    ensures
        r == click_count(event_type),
{
    match event_type {
        EventType::ButtonPress => 1,
        EventType::DoubleButtonPress => 2,
        EventType::TripleButtonPress => 3,
        EventType::ButtonRelease => 0,
        EventType::Other => 0,
    }
}

/// The double-click interval that the toolkit's setting asks for; a negative setting asks for
/// none and leaves the interval as it was.
pub fn double_click_interval(setting_ms: i32) -> (r: Option<u64>)
    ensures
        setting_ms >= 0 ==> r == Some(setting_ms as u64),
        setting_ms < 0 ==> r is None,
{
    if setting_ms >= 0 {
        Some(setting_ms as u64)
    } else {
        None
    }
}

/// The direction of a scroll event.
#[derive(Clone, Copy, Debug, PartialEq, Eq, Structural)]
pub enum ScrollDirection {
    Up,
    Down,
    Left,
    Right,
    Smooth,
    /// A direction that the toolkit does not document.
    Unknown,
}

/// One tick of a scroll wheel.
pub const WHEEL_TICK: i32 = 120;

/// How far a wheel was turned.
#[derive(Clone, Copy, Debug, PartialEq, Eq, Structural)]
pub enum WheelDelta {
    /// A number of units, a tick being 120 of them.
    Units { x: i32, y: i32 },
    /// Fractions of a tick. Where `horizontal` is set the vertical part is added to the
    /// horizontal one and nothing remains of it.
    Smooth { dx: Real, dy: Real, horizontal: bool },
}

/// What the wheel did. With shift held a vertical turn counts as a horizontal one.
pub open spec fn wheel_delta(
    direction: ScrollDirection,
    delta_x: Real,
    delta_y: Real,
    shift: bool,
) -> Option<WheelDelta> {
    match direction {
        ScrollDirection::Up => Some(
            if shift {
                WheelDelta::Units { x: (-120) as i32, y: 0 }
            } else {
                WheelDelta::Units { x: 0, y: (-120) as i32 }
            },
        ),
        ScrollDirection::Down => Some(
            if shift {
                WheelDelta::Units { x: 120, y: 0 }
            } else {
                WheelDelta::Units { x: 0, y: 120 }
            },
        ),
        ScrollDirection::Left => Some(WheelDelta::Units { x: (-120) as i32, y: 0 }),
        ScrollDirection::Right => Some(WheelDelta::Units { x: 120, y: 0 }),
        ScrollDirection::Smooth => Some(
            WheelDelta::Smooth { dx: delta_x, dy: delta_y, horizontal: shift },
        ),
        ScrollDirection::Unknown => None,
    }
}

/// What the wheel did, if the direction is one that the toolkit documents.
pub fn get_wheel_delta(direction: ScrollDirection, delta_x: Real, delta_y: Real, shift: bool) -> (r:
    Option<WheelDelta>)
    ensures
        r == wheel_delta(direction, delta_x, delta_y, shift),
{
    match direction {
        ScrollDirection::Up => Some(
            if shift {
                WheelDelta::Units { x: -WHEEL_TICK, y: 0 }
            } else {
                WheelDelta::Units { x: 0, y: -WHEEL_TICK }
            },
        ),
        ScrollDirection::Down => Some(
            if shift {
                WheelDelta::Units { x: WHEEL_TICK, y: 0 }
            } else {
                WheelDelta::Units { x: 0, y: WHEEL_TICK }
            },
        ),
        ScrollDirection::Left => Some(WheelDelta::Units { x: -WHEEL_TICK, y: 0 }),
        ScrollDirection::Right => Some(WheelDelta::Units { x: WHEEL_TICK, y: 0 }),
        ScrollDirection::Smooth => Some(
            WheelDelta::Smooth { dx: delta_x, dy: delta_y, horizontal: shift },
        ),
        ScrollDirection::Unknown => None,
    }
}

/// A press or release of a button, as the toolkit reports it. The position is in pixels.
#[derive(Clone, Copy, Debug, PartialEq, Eq, Structural)]
pub struct ButtonEvent {
    pub button: u32,
    pub event_type: EventType,
    pub state: ModifierType,
    pub position: Point,
}

/// The pointer moved or left, as the toolkit reports it. The position is in pixels.
#[derive(Clone, Copy, Debug, PartialEq, Eq, Structural)]
pub struct PointerEvent {
    pub state: ModifierType,
    pub position: Point,
}

/// The wheel turned, as the toolkit reports it. The position is in pixels; the deltas are
/// meaningful for smooth scrolling.
#[derive(Clone, Copy, Debug, PartialEq, Eq, Structural)]
pub struct ScrollEvent {
    pub direction: ScrollDirection,
    pub delta_x: Real,
    pub delta_y: Real,
    pub state: ModifierType,
    pub position: Point,
}

/// What the handler is told of the pointer. The position is in pixels, to be divided by the
/// scale that goes with it.
#[derive(Clone, Copy, Debug, PartialEq, Eq, Structural)]
pub struct MouseEvent {
    pub position: Point,
    pub scale: Scale,
    pub buttons: MouseButtons,
    pub mods: Modifiers,
    pub count: u8,
    pub focus: bool,
    pub button: MouseButton,
    pub wheel_delta: WheelDelta,
}

/// The event says where the pointer is, which buttons it holds and which modifiers are active.
pub open spec fn describes(
    event: MouseEvent,
    position: Point,
    scale: Scale,
    state: ModifierType,
    buttons: Set<MouseButton>,
) -> bool {
    &&& event.position == position
    &&& event.scale == scale
    &&& event.buttons@ == buttons
    &&& event.mods == modifiers_of(state)
    &&& !event.focus
}

/// Turning nothing.
pub open spec fn no_wheel() -> WheelDelta {
    WheelDelta::Units { x: 0, y: 0 }
}

/// Whether the handler is told of this press. The toolkit repeats a press that it takes for the
/// second or third of a series; those repetitions are dropped.
pub open spec fn press_is_told(event: ButtonEvent) -> bool {
    &&& button_of(event.button) is Some
    &&& click_count(event.event_type) <= 1
}

/// Whether the clicks up to this press are to be counted.
pub open spec fn press_is_counted(event: ButtonEvent) -> bool {
    &&& button_of(event.button) is Some
    &&& click_count(event.event_type) == 1
}

/// `e` is what the handler is told of a press: the button is among those that are held, and
/// the clicks are told where they are counted.
pub open spec fn is_press(e: MouseEvent, event: ButtonEvent, clicks: u8, scale: Scale) -> bool {
    &&& describes(
        e,
        event.position,
        scale,
        event.state,
        held_buttons(event.state).insert(e.button),
    )
    &&& Some(e.button) == button_of(event.button)
    &&& e.count == if press_is_counted(event) {
        clicks
    } else {
        0
    }
    &&& e.wheel_delta == no_wheel()
}

/// `e` is what the handler is told of a release: the button is not among those that are held.
pub open spec fn is_release(e: MouseEvent, event: ButtonEvent, scale: Scale) -> bool {
    &&& describes(
        e,
        event.position,
        scale,
        event.state,
        held_buttons(event.state).remove(e.button),
    )
    &&& Some(e.button) == button_of(event.button)
    &&& e.count == 0
    &&& e.wheel_delta == no_wheel()
}

/// `e` is what the handler is told of a pointer that moved or left.
pub open spec fn is_motion(e: MouseEvent, event: PointerEvent, scale: Scale) -> bool {
    &&& describes(e, event.position, scale, event.state, held_buttons(event.state))
    &&& e.button == MouseButton::NoButton
    &&& e.count == 0
    &&& e.wheel_delta == no_wheel()
}

/// What the wheel did in this event.
pub open spec fn wheel_of(event: ScrollEvent) -> Option<WheelDelta> {
    wheel_delta(
        event.direction,
        event.delta_x,
        event.delta_y,
        modifiers_of(event.state).shift,
    )
}

/// `e` is what the handler is told of a wheel that turned.
pub open spec fn is_turn(e: MouseEvent, event: ScrollEvent, scale: Scale) -> bool {
    &&& describes(e, event.position, scale, event.state, held_buttons(event.state))
    &&& e.button == MouseButton::NoButton
    &&& e.count == 0
    &&& Some(e.wheel_delta) == wheel_of(event)
}

/// Whether the clicks up to this press are to be counted.
pub fn needs_click_count(event: &ButtonEvent) -> (r: bool)
    ensures
        r == press_is_counted(*event),
{
    match get_mouse_button(event.button) {
        Some(_) => get_mouse_click_count(event.event_type) == 1,
        None => false,
    }
}

/// What the handler is told of a press. `clicks` is what the click counter said, for a press
/// that is counted; other presses are told with a count of zero.
pub fn mouse_down(event: &ButtonEvent, clicks: u8, scale: Scale) -> (r: Option<MouseEvent>)
    ensures
        r is Some <==> press_is_told(*event),
        r matches Some(e) ==> is_press(e, *event, clicks, scale),
{
    match get_mouse_button(event.button) {
        Some(button) => {
            let gtk_count: u8 = get_mouse_click_count(event.event_type);
            let count: u8 = if gtk_count == 1 {
                clicks
            } else {
                0
            };
            if gtk_count == 0 || gtk_count == 1 {
                Some(
                    MouseEvent {
                        position: event.position,
                        scale,
                        buttons: get_mouse_buttons_from_modifiers(event.state).with(button),
                        mods: get_modifiers(event.state),
                        count,
                        focus: false,
                        button,
                        wheel_delta: WheelDelta::Units { x: 0, y: 0 },
                    },
                )
            } else {
                None
            }
        },
        None => None,
    }
}

/// What the handler is told of a release.
pub fn mouse_up(event: &ButtonEvent, scale: Scale) -> (r: Option<MouseEvent>)
    ensures
        r is Some <==> button_of(event.button) is Some,
        r matches Some(e) ==> is_release(e, *event, scale),
{
    match get_mouse_button(event.button) {
        Some(button) => Some(
            MouseEvent {
                position: event.position,
                scale,
                buttons: get_mouse_buttons_from_modifiers(event.state).without(button),
                mods: get_modifiers(event.state),
                count: 0,
                focus: false,
                button,
                wheel_delta: WheelDelta::Units { x: 0, y: 0 },
            },
        ),
        None => None,
    }
}

/// What the handler is told of a pointer that moved or left.
pub fn mouse_move(event: &PointerEvent, scale: Scale) -> (r: MouseEvent)
    ensures
        is_motion(r, *event, scale),
{
    MouseEvent {
        position: event.position,
        scale,
        buttons: get_mouse_buttons_from_modifiers(event.state),
        mods: get_modifiers(event.state),
        count: 0,
        focus: false,
        button: MouseButton::NoButton,
        wheel_delta: WheelDelta::Units { x: 0, y: 0 },
    }
}

/// What the handler is told of a wheel that turned.
pub fn mouse_wheel(event: &ScrollEvent, scale: Scale) -> (r: Option<MouseEvent>)
    ensures
        r is Some <==> wheel_of(*event) is Some,
        r matches Some(e) ==> is_turn(e, *event, scale),
{
    let mods = get_modifiers(event.state);
    match get_wheel_delta(event.direction, event.delta_x, event.delta_y, mods.shift) {
        Some(wheel_delta) => Some(
            MouseEvent {
                position: event.position,
                scale,
                buttons: get_mouse_buttons_from_modifiers(event.state),
                mods,
                count: 0,
                focus: false,
                button: MouseButton::NoButton,
                wheel_delta,
            },
        ),
        None => None,
    }
}

}
