//! What the handler is told of the events that reach a window.

use vstd::prelude::*;

use crate::calls::HandlerCall;
use crate::handle::{WindowHandle, Windows};
use crate::input::{
    mouse_down, mouse_move, mouse_up, mouse_wheel, ButtonEvent, PointerEvent, ScrollEvent,
};
use crate::keyboard::{make_key_event, KeyInput, KeyState};
use crate::tokens::{TextFieldToken, TimerToken};
use crate::window::{WindowModel, WindowState};

verus! {

impl WindowState {
    /// A button was pressed. `clicks` is what the click counter said, for a press that is
    /// counted.
    pub fn button_press(&self, event: &ButtonEvent, clicks: u8) -> (r: Option<HandlerCall>)
        ensures
            r is Some <==> crate::input::press_is_told(*event),
            r matches Some(call) ==> call matches HandlerCall::MouseDown(e) && crate::input::is_press(
                e,
                *event,
                clicks,
                self@.scale,
            ),
    {
        match mouse_down(event, clicks, self.scale) {
            Some(e) => Some(HandlerCall::MouseDown(e)),
            None => None,
        }
    }

    /// A button was released.
    pub fn button_release(&self, event: &ButtonEvent) -> (r: Option<HandlerCall>)
        ensures
            r is Some <==> crate::input::button_of(event.button) is Some,
            r matches Some(call) ==> call matches HandlerCall::MouseUp(e) && crate::input::is_release(
                e,
                *event,
                self@.scale,
            ),
    {
        match mouse_up(event, self.scale) {
            Some(e) => Some(HandlerCall::MouseUp(e)),
            None => None,
        }
    }

    /// The pointer moved in the window, or left it.
    pub fn motion(&self, event: &PointerEvent) -> (r: HandlerCall)
        ensures
            r matches HandlerCall::MouseMove(e) && crate::input::is_motion(
                e,
                *event,
                self@.scale,
            ),
    {
        HandlerCall::MouseMove(mouse_move(event, self.scale))
    }

    /// The wheel was turned.
    pub fn scroll(&self, event: &ScrollEvent) -> (r: Option<HandlerCall>)
        ensures
            r is Some <==> crate::input::wheel_of(*event) is Some,
            r matches Some(call) ==> call matches HandlerCall::Wheel(e) && crate::input::is_turn(
                e,
                *event,
                self@.scale,
            ),
    {
        match mouse_wheel(event, self.scale) {
            Some(e) => Some(HandlerCall::Wheel(e)),
            None => None,
        }
    }

    /// A key went down. It repeats if it was the last to go down and has not gone up since.
    pub fn key_press(&mut self, input: &KeyInput) -> (r: HandlerCall)
        ensures
            final(self)@ == key_pressed(old(self)@, input.hardware_keycode),
            r matches HandlerCall::KeyDown(field, _) && field == keys_go_to(old(self)@),
            r matches HandlerCall::KeyDown(field, e) && field == old(self)@.active_text_input
                && crate::keyboard::tells(
                e,
                *input,
                key_repeats(old(self)@, input.hardware_keycode),
                KeyState::Down,
            ),
    {
        let repeat = match self.current_keycode {
            Some(keycode) => keycode == input.hardware_keycode,
            None => false,
        };
        self.current_keycode = Some(input.hardware_keycode);
        HandlerCall::KeyDown(self.active_text_input, make_key_event(input, repeat, KeyState::Down))
    }

    /// A key went up.
    pub fn key_release(&mut self, input: &KeyInput) -> (r: HandlerCall)
        ensures
            final(self)@ == key_released(old(self)@, input.hardware_keycode),
            r matches HandlerCall::KeyUp(e) && crate::keyboard::tells(
                e,
                *input,
                false,
                KeyState::Up,
            ),
    {
        if let Some(keycode) = self.current_keycode {
            if keycode == input.hardware_keycode {
                self.current_keycode = None;
            }
        }
        HandlerCall::KeyUp(make_key_event(input, false, KeyState::Up))
    }

    /// Whether a request of the system to close the window is turned down: only the client can
    /// close the window.
    pub fn inhibits_close(&self) -> (r: bool)
        ensures
            r == !self@.closing,
    {
        !self.closing
    }
}

/// What the handler is told when the window got the focus, or lost it.
pub fn focus_call(got: bool) -> (r: HandlerCall)
    ensures
        r == if got {
            HandlerCall::GotFocus
        } else {
            HandlerCall::LostFocus
        },
{
    if got {
        HandlerCall::GotFocus
    } else {
        HandlerCall::LostFocus
    }
}

/// What the handler is told when the window is destroyed.
pub fn destroy_call() -> (r: HandlerCall)
    ensures
        r == HandlerCall::Destroy,
{
    HandlerCall::Destroy
}

/// What the handler is told when the timer with this token has run down.
pub fn timer_call(token: TimerToken) -> (r: HandlerCall)
    ensures
        r == HandlerCall::Timer(token),
{
    HandlerCall::Timer(token)
}

/// How far a request of the system to close a window has come.
#[derive(Clone, Copy, Debug, PartialEq, Eq, Structural)]
pub enum CloseRequest {
    /// Nothing has happened.
    Begin,
    /// The handler is being told.
    Tell,
    /// The request has been answered.
    Done,
}

/// What is to be done about a request of the system to close a window.
#[derive(Debug)]
pub enum CloseAction {
    /// Tell the handler, if it may be called.
    Tell(HandlerCall),
    /// Answer the request: turn it down, or let the window be closed.
    Answer { inhibit: bool },
}

/// What a request does next, by the state that the window is in then; a dropped window has none.
/// The handler is told first, and may ask for the window to be closed. A dropped window may be
/// closed.
pub open spec fn close_next(window: Option<WindowModel>, request: CloseRequest) -> (
    CloseRequest,
    CloseAction,
) {
    match (window, request) {
        (Some(_), CloseRequest::Begin) => (
            CloseRequest::Tell,
            CloseAction::Tell(HandlerCall::RequestClose),
        ),
        (Some(m), _) => (CloseRequest::Done, CloseAction::Answer { inhibit: !m.closing }),
        (None, _) => (CloseRequest::Done, CloseAction::Answer { inhibit: false }),
    }
}

impl WindowHandle {
    /// Goes on with a request of the system to close the window.
    pub fn close_step(&self, windows: &Windows, request: &mut CloseRequest) -> (r: CloseAction)
        requires
            !(*old(request) is Done),
        ensures
            (*final(request), r) == close_next(windows@.state_of(*self), *old(request)),
    {
        match windows.get(self) {
            Some(state) => match *request {
                CloseRequest::Begin => {
                    *request = CloseRequest::Tell;
                    CloseAction::Tell(HandlerCall::RequestClose)
                },
                _ => {
                    *request = CloseRequest::Done;
                    CloseAction::Answer { inhibit: state.inhibits_close() }
                },
            },
            None => {
                *request = CloseRequest::Done;
                CloseAction::Answer { inhibit: false }
            },
        }
    }
}

/// The key is the one that went down last and has not gone up since.
pub open spec fn key_repeats(m: WindowModel, keycode: u16) -> bool {
    m.current_keycode == Some(keycode)
}

/// The text field that keys go to, if there is one.
pub open spec fn keys_go_to(m: WindowModel) -> Option<TextFieldToken> {
    m.active_text_input
}

/// The state once the key went down.
pub open spec fn key_pressed(m: WindowModel, keycode: u16) -> WindowModel {
    WindowModel { current_keycode: Some(keycode), ..m }
}

/// The state once the key went up.
pub open spec fn key_released(m: WindowModel, keycode: u16) -> WindowModel {
    WindowModel {
        current_keycode: if m.current_keycode == Some(keycode) {
            None
        } else {
            m.current_keycode
        },
        ..m
    }
}

}
