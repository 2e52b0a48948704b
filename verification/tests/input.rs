use gtk_window::calls::HandlerCall;
use gtk_window::cursor::{
    make_gdk_cursor, pixbuf_layout, Cursor, CursorSource, CustomCursor, ImageFormat, PixbufLayout,
};
use gtk_window::geometry::{Point, PxSize, Real, Scale, ScaledArea};
use gtk_window::input::{
    double_click_interval, get_modifiers, get_mouse_button, get_mouse_buttons_from_modifiers,
    get_mouse_click_count, needs_click_count, ButtonEvent, EventType, ModifierType, Modifiers,
    MouseButton, MouseButtons, MouseEvent, PointerEvent, ScrollDirection, ScrollEvent, WheelDelta,
};
use gtk_window::keyboard::{
    hardware_keycode_to_keyval, make_key_event, KbKey, KeyEvent, KeyInput, KeyState, KeymapEntry,
    NamedKey,
};
use gtk_window::tokens::TextFieldToken;
use gtk_window::window::WindowState;

/// Both are made up of the same parts.
fn same<T: std::fmt::Debug>(a: T, b: T) {
    assert_eq!(format!("{:?}", a), format!("{:?}", b));
}

fn number(x: f64) -> Real {
    Real { bits: x.to_bits() }
}

fn scale() -> Scale {
    Scale { x: number(2.0), y: number(2.0) }
}

fn window() -> WindowState {
    let size_px = PxSize { width: 500, height: 400 };
    WindowState::new(scale(), ScaledArea { size_px, scale: scale() }, false, None, None)
}

fn at(x: f64, y: f64) -> Point {
    Point { x: number(x), y: number(y) }
}

fn bits(bits: u32) -> ModifierType {
    ModifierType { bits }
}

fn no_mods() -> Modifiers {
    Modifiers {
        shift: false,
        alt: false,
        ctrl: false,
        meta: false,
        caps_lock: false,
        num_lock: false,
    }
}

fn press(button: u32, event_type: EventType, state: u32) -> ButtonEvent {
    ButtonEvent { button, event_type, state: bits(state), position: at(3.0, 4.0) }
}

#[test]
fn buttons_by_number() {
    assert_eq!(get_mouse_button(1), Some(MouseButton::Left));
    assert_eq!(get_mouse_button(2), Some(MouseButton::Middle));
    assert_eq!(get_mouse_button(3), Some(MouseButton::Right));
    assert_eq!(get_mouse_button(8), Some(MouseButton::X1));
    assert_eq!(get_mouse_button(9), Some(MouseButton::X2));
    for n in [0, 4, 5, 6, 7, 10, u32::MAX] {
        assert_eq!(get_mouse_button(n), None);
    }
}

#[test]
fn buttons_from_modifier_bits() {
    assert_eq!(get_mouse_buttons_from_modifiers(bits(0)), MouseButtons::new());
    let all = [
        (0x100, MouseButton::Left),
        (0x200, MouseButton::Middle),
        (0x400, MouseButton::Right),
        (0x800, MouseButton::X1),
        (0x1000, MouseButton::X2),
    ];
    for (mask, button) in all {
        let held = get_mouse_buttons_from_modifiers(bits(mask));
        for (_, other) in all {
            assert_eq!(held.contains(other), other == button);
        }
    }
    let held = get_mouse_buttons_from_modifiers(bits(0x1f00));
    for (_, button) in all {
        assert!(held.contains(button));
    }
    assert!(!held.contains(MouseButton::NoButton));
}

#[test]
fn button_sets() {
    let mut set = MouseButtons::new();
    set.insert(MouseButton::NoButton);
    assert_eq!(set, MouseButtons::new());
    set.insert(MouseButton::X1);
    assert!(set.contains(MouseButton::X1));
    assert!(set.with(MouseButton::Left).contains(MouseButton::Left));
    assert_eq!(set.without(MouseButton::X1), MouseButtons::new());
    assert_eq!(set.without(MouseButton::Left), set);
}

#[test]
fn modifiers_from_bits() {
    assert_eq!(get_modifiers(bits(0)), no_mods());
    assert_eq!(get_modifiers(bits(0x1)), Modifiers { shift: true, ..no_mods() });
    assert_eq!(get_modifiers(bits(0x2)), Modifiers { caps_lock: true, ..no_mods() });
    assert_eq!(get_modifiers(bits(0x4)), Modifiers { ctrl: true, ..no_mods() });
    assert_eq!(get_modifiers(bits(0x8)), Modifiers { alt: true, ..no_mods() });
    assert_eq!(get_modifiers(bits(0x10)), Modifiers { num_lock: true, ..no_mods() });
    assert_eq!(get_modifiers(bits(0x1000_0000)), Modifiers { meta: true, ..no_mods() });
    assert_eq!(get_modifiers(bits(0x20)), no_mods());
}

#[test]
fn click_counts() {
    assert_eq!(get_mouse_click_count(EventType::ButtonPress), 1);
    assert_eq!(get_mouse_click_count(EventType::DoubleButtonPress), 2);
    assert_eq!(get_mouse_click_count(EventType::TripleButtonPress), 3);
    assert_eq!(get_mouse_click_count(EventType::ButtonRelease), 0);
    assert_eq!(get_mouse_click_count(EventType::Other), 0);
    assert_eq!(double_click_interval(400), Some(400));
    assert_eq!(double_click_interval(0), Some(0));
    assert_eq!(double_click_interval(-1), None);
}

#[test]
fn press_holds_the_button() {
    let w = window();
    let event = press(1, EventType::ButtonPress, 0x401);
    assert!(needs_click_count(&event));
    let told = w.button_press(&event, 2);
    let expected = MouseEvent {
        position: at(3.0, 4.0),
        scale: scale(),
        buttons: MouseButtons::new().with(MouseButton::Right).with(MouseButton::Left),
        mods: Modifiers { shift: true, ..no_mods() },
        count: 2,
        focus: false,
        button: MouseButton::Left,
        wheel_delta: WheelDelta::Units { x: 0, y: 0 },
    };
    same(told, Some(HandlerCall::MouseDown(expected)));
}

#[test]
fn repeated_presses_are_dropped() {
    let w = window();
    same(w.button_press(&press(1, EventType::DoubleButtonPress, 0), 2), None);
    same(w.button_press(&press(1, EventType::TripleButtonPress, 0), 3), None);
    same(w.button_press(&press(4, EventType::ButtonPress, 0), 1), None);
    assert!(!needs_click_count(&press(1, EventType::DoubleButtonPress, 0)));
    assert!(!needs_click_count(&press(4, EventType::ButtonPress, 0)));
}

#[test]
fn odd_presses_are_not_counted() {
    let w = window();
    let event = press(3, EventType::Other, 0);
    assert!(!needs_click_count(&event));
    match w.button_press(&event, 5) {
        Some(HandlerCall::MouseDown(e)) => {
            assert_eq!(e.count, 0);
            assert_eq!(e.button, MouseButton::Right);
        }
        other => panic!("{:?}", other),
    }
}

#[test]
fn release_frees_the_button() {
    let w = window();
    match w.button_release(&press(1, EventType::ButtonRelease, 0x500)) {
        Some(HandlerCall::MouseUp(e)) => {
            assert_eq!(e.button, MouseButton::Left);
            assert_eq!(e.buttons, MouseButtons::new().with(MouseButton::Right));
            assert_eq!(e.count, 0);
        }
        other => panic!("{:?}", other),
    }
    same(w.button_release(&press(7, EventType::ButtonRelease, 0)), None);
}

#[test]
fn motion_is_told() {
    let w = window();
    let event = PointerEvent { state: bits(0x104), position: at(1.0, 2.0) };
    let expected = MouseEvent {
        position: at(1.0, 2.0),
        scale: scale(),
        buttons: MouseButtons::new().with(MouseButton::Left),
        mods: Modifiers { ctrl: true, ..no_mods() },
        count: 0,
        focus: false,
        button: MouseButton::NoButton,
        wheel_delta: WheelDelta::Units { x: 0, y: 0 },
    };
    same(w.motion(&event), HandlerCall::MouseMove(expected));
}

fn turned(direction: ScrollDirection, state: u32) -> Option<WheelDelta> {
    let event = ScrollEvent {
        direction,
        delta_x: number(0.5),
        delta_y: number(-1.0),
        state: bits(state),
        position: at(0.0, 0.0),
    };
    match window().scroll(&event) {
        Some(HandlerCall::Wheel(e)) => Some(e.wheel_delta),
        None => None,
        other => panic!("{:?}", other),
    }
}

#[test]
fn wheel_turns_by_120() {
    assert_eq!(turned(ScrollDirection::Up, 0), Some(WheelDelta::Units { x: 0, y: -120 }));
    assert_eq!(turned(ScrollDirection::Down, 0), Some(WheelDelta::Units { x: 0, y: 120 }));
    assert_eq!(turned(ScrollDirection::Left, 0), Some(WheelDelta::Units { x: -120, y: 0 }));
    assert_eq!(turned(ScrollDirection::Right, 0), Some(WheelDelta::Units { x: 120, y: 0 }));
    assert_eq!(turned(ScrollDirection::Unknown, 0), None);
}

#[test]
fn shift_turns_the_wheel_sideways() {
    assert_eq!(turned(ScrollDirection::Up, 1), Some(WheelDelta::Units { x: -120, y: 0 }));
    assert_eq!(turned(ScrollDirection::Down, 1), Some(WheelDelta::Units { x: 120, y: 0 }));
    assert_eq!(turned(ScrollDirection::Left, 1), turned(ScrollDirection::Left, 0));
    assert_eq!(turned(ScrollDirection::Right, 1), turned(ScrollDirection::Right, 0));
}

#[test]
fn smooth_scrolling_hands_the_deltas_on() {
    let (dx, dy) = (number(0.5), number(-1.0));
    assert_eq!(
        turned(ScrollDirection::Smooth, 0),
        Some(WheelDelta::Smooth { dx, dy, horizontal: false })
    );
    assert_eq!(
        turned(ScrollDirection::Smooth, 1),
        Some(WheelDelta::Smooth { dx, dy, horizontal: true })
    );
}

fn key(hardware_keycode: u16) -> KeyInput {
    KeyInput {
        keyval: 0x41,
        hardware_keycode,
        state: bits(1),
        text: Some('A'),
        named: None,
        keymap: vec![
            KeymapEntry { keyval: 0x41, group: 0, level: 1 },
            KeymapEntry { keyval: 0x61, group: 0, level: 0 },
            KeymapEntry { keyval: 0x62, group: 0, level: 0 },
        ],
    }
}

#[test]
fn keymap_lookup() {
    assert_eq!(hardware_keycode_to_keyval(&vec![]), None);
    assert_eq!(hardware_keycode_to_keyval(&key(38).keymap), Some(0x61));
    let shifted = vec![
        KeymapEntry { keyval: 1, group: 1, level: 0 },
        KeymapEntry { keyval: 2, group: 0, level: 1 },
    ];
    assert_eq!(hardware_keycode_to_keyval(&shifted), Some(2));
    let entry = |keyval: u32, group: i32, level: i32| KeymapEntry { keyval, group, level };
    assert_eq!(hardware_keycode_to_keyval(&vec![entry(0x41, 0, 1)]), Some(0x41));
    let mixed = vec![entry(1, 1, 0), entry(2, 0, 2), entry(3, 0, 1), entry(4, 0, 1), entry(5, 2, 0)];
    assert_eq!(hardware_keycode_to_keyval(&mixed), Some(3));
}

#[test]
fn modifiers_do_not_move_a_key() {
    let keymap = vec![KeymapEntry { keyval: 0x62, group: 0, level: 1 }];
    let input = KeyInput { keymap, ..key(38) };
    assert_eq!(make_key_event(&input, false, KeyState::Up).location_keyval, 0x62);
}

#[test]
fn key_events_type_characters() {
    let event = make_key_event(&key(38), true, KeyState::Down);
    let expected = KeyEvent {
        state: KeyState::Down,
        key: KbKey::Character("A".to_string()),
        hardware_keycode: 38,
        location_keyval: 0x61,
        mods: Modifiers { shift: true, ..no_mods() },
        repeat: true,
        is_composing: false,
    };
    assert_eq!(event, expected);
}

fn meaning(named: Option<u32>, text: Option<char>) -> KbKey {
    let input = KeyInput { named: named.map(|id| NamedKey { id }), text, ..key(38) };
    make_key_event(&input, false, KeyState::Up).key
}

#[test]
fn meanings_of_keys() {
    assert_eq!(meaning(Some(7), Some('a')), KbKey::Named(NamedKey { id: 7 }));
    assert_eq!(meaning(None, Some(' ')), KbKey::Character(" ".to_string()));
    assert_eq!(meaning(None, Some('\u{e9}')), KbKey::Character("\u{e9}".to_string()));
    assert_eq!(meaning(None, Some('\u{1f}')), KbKey::Unidentified);
    assert_eq!(meaning(None, Some('\u{7f}')), KbKey::Unidentified);
    assert_eq!(meaning(None, None), KbKey::Unidentified);
}

#[test]
fn location_falls_back_to_the_keyval() {
    let input = KeyInput { keymap: vec![], ..key(38) };
    assert_eq!(make_key_event(&input, false, KeyState::Up).location_keyval, 0x41);
}

fn repeats(call: HandlerCall) -> bool {
    match call {
        HandlerCall::KeyDown(_, e) => e.repeat,
        other => panic!("{:?}", other),
    }
}

#[test]
fn held_keys_repeat() {
    let mut w = window();
    assert!(!repeats(w.key_press(&key(38))));
    assert!(repeats(w.key_press(&key(38))));
    assert!(!repeats(w.key_press(&key(39))));
    assert!(!repeats(w.key_press(&key(38))));
    w.key_release(&key(39));
    assert!(repeats(w.key_press(&key(38))));
    w.key_release(&key(38));
    assert!(!repeats(w.key_press(&key(38))));
}

#[test]
fn keys_go_to_the_focused_field() {
    let mut w = window();
    w.active_text_input = Some(TextFieldToken { id: 3 });
    match w.key_press(&key(38)) {
        HandlerCall::KeyDown(field, e) => {
            assert_eq!(field, Some(TextFieldToken { id: 3 }));
            assert_eq!(e.state, KeyState::Down);
        }
        other => panic!("{:?}", other),
    }
    match w.key_release(&key(38)) {
        HandlerCall::KeyUp(e) => {
            assert_eq!(e.state, KeyState::Up);
            assert!(!e.repeat);
        }
        other => panic!("{:?}", other),
    }
}

#[test]
fn cursors_have_names() {
    let names = [
        (Cursor::Arrow, "default"),
        (Cursor::IBeam, "text"),
        (Cursor::Pointer, "pointer"),
        (Cursor::Crosshair, "crosshair"),
        (Cursor::OpenHand, "grab"),
        (Cursor::NotAllowed, "not-allowed"),
        (Cursor::ResizeLeftRight, "ew-resize"),
        (Cursor::ResizeUpDown, "ns-resize"),
    ];
    for (cursor, name) in names {
        assert_eq!(make_gdk_cursor(&cursor), CursorSource::Theme(name));
    }
    let custom = CustomCursor { key: 5 };
    assert_eq!(make_gdk_cursor(&Cursor::Custom(custom)), CursorSource::Custom(custom));
}

#[test]
fn cursor_images_are_laid_out() {
    let layout = |has_alpha: bool, row_stride: i32| PixbufLayout {
        has_alpha,
        bits_per_sample: 8,
        width: 10,
        height: 20,
        row_stride,
    };
    assert_eq!(pixbuf_layout(10, 20, ImageFormat::Grayscale), layout(true, 10));
    assert_eq!(pixbuf_layout(10, 20, ImageFormat::Rgb), layout(false, 30));
    assert_eq!(pixbuf_layout(10, 20, ImageFormat::RgbaSeparate), layout(true, 40));
    assert_eq!(pixbuf_layout(10, 20, ImageFormat::RgbaPremul), layout(true, 40));
}
