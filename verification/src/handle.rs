//! Windows, and the handles by which they are reached.

use vstd::prelude::*;

use crate::cursor::{
    make_gdk_cursor, pixbuf_layout, Cursor, CursorDesc, CursorImage, CursorSource,
};
use crate::geometry::{Patch, Point, Rect, Scale, Size};
use crate::tokens::{Counter, FileDialogToken, IdleToken, TextFieldToken, TimerToken};
use crate::window::{
    DeferredOp, FileDialogOptions, IdleKind, Menu, WindowModel, WindowState,
};

verus! {

/// A reference to a window that does not keep it alive. There is no `==` on handles: whether two
/// of them reach the same window depends on which windows have been dropped, and
/// [`WindowHandle::same_window`] says it.
#[derive(Clone, Copy, Debug)]
pub struct WindowHandle {
    /// The place of the window; a handle without one reaches nothing.
    pub slot: Option<usize>,
}

impl Default for WindowHandle {
    /// A handle that reaches nothing.
    fn default() -> (r: WindowHandle)
        ensures
            r.slot is None,
    {
        WindowHandle { slot: None }
    }
}

/// The windows of an application, and the counters of its tokens. A window's place is not given
/// to another one when the window is dropped.
#[derive(Debug)]
pub struct Windows {
    pub slots: Vec<Option<WindowState>>,
    pub text_fields: Counter,
    pub timers: Counter,
    pub file_dialogs: Counter,
}

/// The windows of an application, as a value.
#[verifier::ext_equal]
pub struct WindowsModel {
    pub slots: Seq<Option<WindowModel>>,
    pub text_fields: Counter,
    pub timers: Counter,
    pub file_dialogs: Counter,
}

/// What is in a place, as a value.
pub open spec fn slot_model(slot: Option<WindowState>) -> Option<WindowModel> {
    match slot {
        Some(state) => Some(state@),
        None => None,
    }
}

impl View for Windows {
    type V = WindowsModel;

    open spec fn view(&self) -> WindowsModel {
        WindowsModel {
            slots: self.slots@.map_values(|slot: Option<WindowState>| slot_model(slot)),
            text_fields: self.text_fields,
            timers: self.timers,
            file_dialogs: self.file_dialogs,
        }
    }
}

/// The parent of the window in this place, if it was ever a window, is older.
pub open spec fn parent_is_older(parent: Option<WindowHandle>, place: int) -> bool {
    parent matches Some(handle) ==> handle.slot matches Some(i) ==> i < place
}

impl WindowsModel {
    /// The window of the handle has not been dropped.
    pub open spec fn is_live(self, handle: WindowHandle) -> bool {
        match handle.slot {
            Some(i) => i < self.slots.len() && self.slots[i as int] is Some,
            None => false,
        }
    }

    /// The handle is one that was given out, or reaches nothing.
    pub open spec fn knows(self, handle: WindowHandle) -> bool {
        handle.slot matches Some(i) ==> i < self.slots.len()
    }

    /// The state of the window of the handle.
    pub open spec fn state(self, handle: WindowHandle) -> WindowModel {
        self.slots[handle.slot.unwrap() as int].unwrap()
    }

    /// The state of the window of the handle, unless it has been dropped.
    pub open spec fn state_of(self, handle: WindowHandle) -> Option<WindowModel> {
        if self.is_live(handle) {
            Some(self.state(handle))
        } else {
            None
        }
    }

    /// The windows, where the one of the handle has this state.
    pub open spec fn with_state(self, handle: WindowHandle, state: WindowModel) -> WindowsModel {
        WindowsModel {
            slots: self.slots.update(handle.slot.unwrap() as int, Some(state)),
            ..self
        }
    }

    /// The windows, where there is one more.
    pub open spec fn with_window(self, state: WindowModel) -> WindowsModel {
        WindowsModel { slots: self.slots.push(Some(state)), ..self }
    }

    /// The windows, where the one of the handle, if it exists, has been dropped.
    pub open spec fn without(self, handle: WindowHandle) -> WindowsModel {
        if self.is_live(handle) {
            WindowsModel { slots: self.slots.update(handle.slot.unwrap() as int, None), ..self }
        } else {
            self
        }
    }

    /// Every window is in order, and its parent is older than itself.
    pub open spec fn wf(self) -> bool {
        forall|i: int|
            0 <= i < self.slots.len() && (#[trigger] self.slots[i]) is Some ==> {
                &&& self.slots[i].unwrap().wf()
                &&& parent_is_older(self.slots[i].unwrap().parent, i)
            }
    }
}

impl Windows {
    /// No windows.
    pub fn new() -> (r: Windows)
        ensures
            r@.slots == Seq::<Option<WindowModel>>::empty(),
            r@.text_fields.issued == 0,
            r@.timers.issued == 0,
            r@.file_dialogs.issued == 0,
            r@.wf(),
    {
        Windows {
            slots: Vec::new(),
            text_fields: Counter::new(),
            timers: Counter::new(),
            file_dialogs: Counter::new(),
        }
    }

    /// Adds a window.
    pub fn insert(&mut self, state: WindowState) -> (r: WindowHandle)
        requires
            old(self)@.wf(),
            state@.wf(),
            state@.parent matches Some(parent) ==> old(self)@.knows(parent),
        ensures
            r.slot matches Some(i) && i == old(self)@.slots.len(),
            final(self)@ =~= old(self)@.with_window(state@),
            final(self)@.wf(),
            final(self)@.is_live(r),
            final(self)@.state(r) == state@,
    {
        let ghost model = state@;
        let slot: usize = self.slots.len();
        self.slots.push(Some(state));
        assert(self@.slots =~= old(self)@.slots.push(Some(model)));
        WindowHandle { slot: Some(slot) }
    }

    /// Drops the window of the handle.
    pub fn remove(&mut self, handle: &WindowHandle)
        requires
            old(self)@.wf(),
        ensures
            final(self)@ =~= old(self)@.without(*handle),
            final(self)@.wf(),
    {
        if let Some(i) = handle.slot {
            if i < self.slots.len() {
                self.slots.set(i, None);
            }
        }
    }

    /// The state of the window of the handle, unless it has been dropped.
    pub fn get(&self, handle: &WindowHandle) -> (r: Option<&WindowState>)
        ensures
            r is Some <==> self@.is_live(*handle),
            r matches Some(state) ==> state@ == self@.state(*handle),
    {
        match handle.slot {
            Some(i) => if i < self.slots.len() {
                self.slots[i].as_ref()
            } else {
                None
            },
            None => None,
        }
    }

    /// The state of the window of the handle, to be changed, unless it has been dropped.
    pub fn get_mut(&mut self, handle: &WindowHandle) -> (r: Option<&mut WindowState>)
        ensures
            match r {
                Some(state) => {
                    &&& old(self)@.is_live(*handle)
                    &&& state@ == old(self)@.state(*handle)
                    &&& final(self)@ =~= old(self)@.with_state(*handle, final(state)@)
                },
                None => !old(self)@.is_live(*handle) && final(self)@ == old(self)@,
            },
    {
        match handle.slot {
            Some(i) => if i < self.slots.len() {
                self.slots[i].as_mut()
            } else {
                None
            },
            None => None,
        }
    }
}

/// What the toolkit is asked to do with a window.
#[derive(Debug, PartialEq, Eq)]
pub enum WindowAction {
    ShowAll,
    SetResizable(bool),
    SetDecorated(bool),
    SetTitle(String),
    /// Resize the window to this size, multiplied by the scale and rounded.
    Resize(Size, Scale),
    Maximize,
    Unmaximize,
    Iconify,
    Deiconify,
    Close,
    Present,
}

/// Whether a window fills the screen, is an icon, or is neither.
#[derive(Clone, Copy, Debug, PartialEq, Eq, Structural)]
pub enum SizeState {
    Maximized,
    Minimized,
    Restored,
}

/// The bit by which the state of a toolkit window says that it is an icon.
pub const ICONIFIED: u32 = 0x2;

/// Whether a window fills the screen, is an icon, or is neither, by what the toolkit reports:
/// whether it is maximized, and the state of its parent window, if it has one.
pub open spec fn size_state(maximized: bool, parent_state: Option<u32>) -> SizeState {
    if maximized {
        SizeState::Maximized
    } else {
        match parent_state {
            Some(bits) if bits & ICONIFIED == ICONIFIED => SizeState::Minimized,
            _ => SizeState::Restored,
        }
    }
}

/// What brings a window from one size state to another. It always ends with the window
/// unmaximized.
pub open spec fn size_state_actions(requested: SizeState, current: SizeState) -> Seq<WindowAction> {
    let change = if requested == current {
        seq![]
    } else {
        match (requested, current) {
            (SizeState::Maximized, _) => seq![WindowAction::Maximize],
            (SizeState::Minimized, _) => seq![WindowAction::Iconify],
            (SizeState::Restored, SizeState::Maximized) => seq![WindowAction::Unmaximize],
            (SizeState::Restored, SizeState::Minimized) => seq![WindowAction::Deiconify],
            (SizeState::Restored, SizeState::Restored) => seq![],
        }
    };
    change.push(WindowAction::Unmaximize)
}

/// A window that takes part in a position: its position on the screen counts, under its scale.
#[derive(Clone, Copy, Debug)]
pub struct PositionStep {
    pub window: WindowHandle,
    pub scale: Scale,
}

/// The windows whose positions on the screen make up the position of a window: the window
/// itself, its parent, and so on up to one that has no parent or whose parent is gone. Each
/// position is that of the toolkit, less that of the next window, divided by the scale.
pub open spec fn position_chain(m: WindowsModel, handle: WindowHandle) -> Seq<PositionStep>
    decreases
            (match handle.slot {
                Some(i) => i as int + 1,
                None => 0,
            }),
{
    if !m.is_live(handle) {
        seq![]
    } else {
        let state = m.state(handle);
        let above = match state.parent {
            Some(parent) => if parent_is_older(state.parent, handle.slot.unwrap() as int) {
                position_chain(m, parent)
            } else {
                seq![]
            },
            None => seq![],
        };
        seq![PositionStep { window: handle, scale: state.scale }] + above
    }
}

/// The windows whose positions make up the position of a window's parent.
pub open spec fn parent_chain(m: WindowsModel, handle: WindowHandle) -> Seq<PositionStep> {
    match m.state(handle).parent {
        Some(parent) => position_chain(m, parent),
        None => seq![],
    }
}

/// How a window is moved: the position of its parent is added to the one that was asked for, and
/// the sum is multiplied by the scale.
#[derive(Debug)]
pub struct MovePlan {
    pub position: Point,
    pub parent: Vec<PositionStep>,
    pub scale: Scale,
}

/// Why something could not be done.
#[derive(Clone, Copy, Debug, PartialEq, Eq, Structural)]
pub enum ShellError {
    /// The window is gone.
    WindowDropped,
}

/// How long it is until a deadline, both on the same clock. Nothing for a deadline that is past.
pub open spec fn interval(deadline: u64, now: u64) -> u64 {
    if deadline >= now {
        (deadline - now) as u64
    } else {
        0
    }
}

/// How long a timer of the window waits, unless the window has been dropped.
pub open spec fn timer_wait(m: WindowsModel, handle: WindowHandle, deadline: u64, now: u64) -> Option<
    u64,
> {
    if m.is_live(handle) {
        Some(interval(deadline, now))
    } else {
        None
    }
}

/// The scale that the window's measures go by, unless the window has been dropped.
pub open spec fn scale_of(m: WindowsModel, handle: WindowHandle) -> Option<Scale> {
    if m.is_live(handle) {
        Some(m.state(handle).scale)
    } else {
        None
    }
}

/// A handle by which idle work is added to a window.
#[derive(Clone, Copy, Debug)]
pub struct IdleHandle {
    pub window: WindowHandle,
}

impl WindowHandle {
    /// The handles reach the same window, or both reach none.
    pub open spec fn is_same(self, m: WindowsModel, other: WindowHandle) -> bool {
        if m.is_live(self) && m.is_live(other) {
            self.slot == other.slot
        } else {
            !m.is_live(self) && !m.is_live(other)
        }
    }

    /// Whether the handles reach the same window; those of dropped windows all count as the
    /// same.
    pub fn same_window(&self, windows: &Windows, other: &WindowHandle) -> (r: bool)
        ensures
            r == self.is_same(windows@, *other),
    {
        match (windows.get(self), windows.get(other)) {
            (None, None) => true,
            (Some(_), Some(_)) => match (self.slot, other.slot) {
                (Some(i), Some(j)) => i == j,
                _ => false,
            },
            (_, _) => false,
        }
    }

    /// Shows the window.
    pub fn show(&self, windows: &Windows) -> (r: Option<WindowAction>)
        ensures
            r == if windows@.is_live(*self) {
                Some(WindowAction::ShowAll)
            } else {
                None
            },
    {
        match windows.get(self) {
            Some(_) => Some(WindowAction::ShowAll),
            None => None,
        }
    }

    /// Lets the user resize the window, or not.
    pub fn resizable(&self, windows: &Windows, resizable: bool) -> (r: Option<WindowAction>)
        ensures
            r == if windows@.is_live(*self) {
                Some(WindowAction::SetResizable(resizable))
            } else {
                None
            },
    {
        match windows.get(self) {
            Some(_) => Some(WindowAction::SetResizable(resizable)),
            None => None,
        }
    }

    /// Shows the title bar, or hides it.
    pub fn show_titlebar(&self, windows: &Windows, show_titlebar: bool) -> (r: Option<WindowAction>)
        ensures
            r == if windows@.is_live(*self) {
                Some(WindowAction::SetDecorated(show_titlebar))
            } else {
                None
            },
    {
        match windows.get(self) {
            Some(_) => Some(WindowAction::SetDecorated(show_titlebar)),
            None => None,
        }
    }

    /// Brings the window to the front and gives it the focus.
    pub fn bring_to_front_and_focus(&self, windows: &Windows) -> (r: Option<WindowAction>)
        ensures
            r == if windows@.is_live(*self) {
                Some(WindowAction::Present)
            } else {
                None
            },
    {
        match windows.get(self) {
            Some(_) => Some(WindowAction::Present),
            None => None,
        }
    }

    /// Sets the title of the window.
    pub fn set_title(&self, windows: &Windows, title: String) -> (r: Option<WindowAction>)
        ensures
            r == if windows@.is_live(*self) {
                Some(WindowAction::SetTitle(title))
            } else {
                None
            },
    {
        match windows.get(self) {
            Some(_) => Some(WindowAction::SetTitle(title)),
            None => None,
        }
    }

    /// Moves the window to a position relative to its parent, in display points.
    pub fn set_position(&self, windows: &Windows, position: Point) -> (r: Option<MovePlan>)
        requires
            windows@.wf(),
        ensures
            r is Some <==> windows@.is_live(*self),
            r matches Some(plan) ==> {
                let state = windows@.state(*self);
                &&& plan.position == position
                &&& plan.scale == state.scale
                &&& plan.parent@ == parent_chain(windows@, *self)
                &&& plan.parent@ == match state.parent {
                    Some(parent) => position_chain(windows@, parent),
                    None => seq![],
                }
            },
    {
        match windows.get(self) {
            Some(state) => {
                let parent = match state.parent {
                    Some(parent) => parent.get_position(windows),
                    None => Vec::new(),
                };
                Some(MovePlan { position, parent, scale: state.scale })
            },
            None => None,
        }
    }

    /// What makes up the position of the window. That of a dropped window is the origin.
    pub fn get_position(&self, windows: &Windows) -> (r: Vec<PositionStep>)
        requires
            windows@.wf(),
        ensures
            r@ == position_chain(windows@, *self),
    {
        let mut chain: Vec<PositionStep> = Vec::new();
        let mut current: WindowHandle = *self;
        loop
            invariant
                windows@.wf(),
                chain@ + position_chain(windows@, current) == position_chain(windows@, *self),
            decreases
                    (match current.slot {
                        Some(i) => i as int + 1,
                        None => 0,
                    }),
        {
            match windows.get(&current) {
                Some(state) => {
                    let ghost above = position_chain(windows@, current).drop_first();
                    let ghost shown = chain@;
                    chain.push(PositionStep { window: current, scale: state.scale });
                    current = match state.parent {
                        Some(parent) => parent,
                        None => WindowHandle { slot: None },
                    };
                    assert(position_chain(windows@, current) == above);
                    assert(chain@ + above == shown + (seq![chain@.last()] + above));
                },
                None => {
                    return chain;
                },
            }
        }
    }

    /// The scale by which the sizes that the toolkit reports of the window and of its drawing
    /// area are divided to get the insets of the content. A dropped window has none.
    pub fn content_insets(&self, windows: &Windows) -> (r: Option<Scale>)
        ensures
            r == if windows@.is_live(*self) {
                Some(windows@.state(*self).scale)
            } else {
                None
            },
            r == scale_of(windows@, *self),
    {
        match windows.get(self) {
            Some(state) => Some(state.scale),
            None => None,
        }
    }

    /// Resizes the window.
    pub fn set_size(&self, windows: &Windows, size: Size) -> (r: Option<WindowAction>)
        ensures
            r == if windows@.is_live(*self) {
                Some(WindowAction::Resize(size, windows@.state(*self).scale))
            } else {
                None
            },
            r matches Some(WindowAction::Resize(_, scale)) ==> scale_of(windows@, *self) == Some(
                scale,
            ),
    {
        match windows.get(self) {
            Some(state) => Some(WindowAction::Resize(size, state.scale)),
            None => None,
        }
    }

    /// The scale by which the size that the toolkit reports of the window is divided. A dropped
    /// window has no size.
    pub fn get_size(&self, windows: &Windows) -> (r: Option<Scale>)
        ensures
            r == if windows@.is_live(*self) {
                Some(windows@.state(*self).scale)
            } else {
                None
            },
            r == scale_of(windows@, *self),
    {
        match windows.get(self) {
            Some(state) => Some(state.scale),
            None => None,
        }
    }

    /// Maximizes, minimizes or restores the window.
    pub fn set_window_state(
        &self,
        windows: &Windows,
        requested: SizeState,
        maximized: bool,
        parent_state: Option<u32>,
    ) -> (r: Vec<WindowAction>)
        ensures
            r@ == if windows@.is_live(*self) {
                size_state_actions(requested, size_state(maximized, parent_state))
            } else {
                seq![]
            },
    {
        let current = self.get_window_state(windows, maximized, parent_state);
        let mut actions: Vec<WindowAction> = Vec::new();
        if windows.get(self).is_some() {
            if requested != current {
                match (requested, current) {
                    (SizeState::Maximized, _) => actions.push(WindowAction::Maximize),
                    (SizeState::Minimized, _) => actions.push(WindowAction::Iconify),
                    (SizeState::Restored, SizeState::Maximized) => actions.push(
                        WindowAction::Unmaximize,
                    ),
                    (SizeState::Restored, SizeState::Minimized) => actions.push(
                        WindowAction::Deiconify,
                    ),
                    (SizeState::Restored, SizeState::Restored) => {},
                }
            }
            actions.push(WindowAction::Unmaximize);
        }
        actions
    }

    /// Whether the window fills the screen, is an icon, or is neither, by what the toolkit
    /// reports of it. A dropped window is neither.
    pub fn get_window_state(
        &self,
        windows: &Windows,
        maximized: bool,
        parent_state: Option<u32>,
    ) -> (r: SizeState)
        ensures
            r == if windows@.is_live(*self) {
                size_state(maximized, parent_state)
            } else {
                SizeState::Restored
            },
    {
        if windows.get(self).is_some() {
            if maximized {
                return SizeState::Maximized;
            } else if let Some(bits) = parent_state {
                if bits & ICONIFIED == ICONIFIED {
                    return SizeState::Minimized;
                }
            }
        }
        SizeState::Restored
    }

    /// Closes the window.
    pub fn close(&self, windows: &mut Windows) -> (r: Option<WindowAction>)
        requires
            old(windows)@.wf(),
        ensures
            r == if old(windows)@.is_live(*self) {
                Some(WindowAction::Close)
            } else {
                None
            },
            final(windows)@ == if old(windows)@.is_live(*self) {
                old(windows)@.with_state(*self, asked_to_close(old(windows)@.state(*self)))
            } else {
                old(windows)@
            },
            final(windows)@.wf(),
    {
        match windows.get_mut(self) {
            Some(state) => {
                state.closing = true;
                Some(WindowAction::Close)
            },
            None => None,
        }
    }

    /// Asks for a paint without marking anything as invalid. Whether the drawing area is to be
    /// redrawn at once.
    pub fn request_anim_frame(&self, windows: &mut Windows) -> (r: bool)
        requires
            old(windows)@.wf(),
        ensures
            r == (old(windows)@.is_live(*self) && !old(windows)@.state(*self).in_draw),
            final(windows)@ == if old(windows)@.is_live(*self) {
                old(windows)@.with_state(
                    *self,
                    crate::draw::frame_asked(old(windows)@.state(*self)),
                )
            } else {
                old(windows)@
            },
            final(windows)@.wf(),
    {
        match windows.get_mut(self) {
            Some(state) => state.request_anim_frame(),
            None => false,
        }
    }

    /// Marks all of the window as invalid. Whether it is to be redrawn; if it is, the region is in
    /// use until [`WindowState::invalidate_done`].
    pub fn invalidate(&self, windows: &mut Windows) -> (r: bool)
        requires
            old(windows)@.wf(),
        ensures
            r == (old(windows)@.is_live(*self) && !old(windows)@.state(*self).invalid_borrowed),
            final(windows)@ == if old(windows)@.is_live(*self) {
                let state = old(windows)@.state(*self);
                old(windows)@.with_state(
                    *self,
                    crate::draw::marked(state, Patch::Area(state.area, state.scale)),
                )
            } else {
                old(windows)@
            },
            old(windows)@.is_live(*self) ==> final(windows)@.state(*self) == crate::draw::marked(
                old(windows)@.state(*self),
                crate::draw::whole_of(old(windows)@.state(*self)),
            ),
            final(windows)@.wf(),
    {
        match windows.get_mut(self) {
            Some(state) => state.invalidate_area(state.area),
            None => false,
        }
    }

    /// Marks a rectangle, given in display points relative to the drawing area, as invalid.
    /// Whether the window is to be redrawn; if it is, the region is in use until
    /// [`WindowState::invalidate_done`].
    pub fn invalidate_rect(&self, windows: &mut Windows, rect: Rect) -> (r: bool)
        requires
            old(windows)@.wf(),
        ensures
            r == (old(windows)@.is_live(*self) && !old(windows)@.state(*self).invalid_borrowed),
            final(windows)@ == if old(windows)@.is_live(*self) {
                let state = old(windows)@.state(*self);
                old(windows)@.with_state(
                    *self,
                    crate::draw::marked(state, Patch::Rect(rect, state.scale)),
                )
            } else {
                old(windows)@
            },
            final(windows)@.wf(),
    {
        match windows.get_mut(self) {
            Some(state) => state.invalidate_rect(rect),
            None => false,
        }
    }

    /// A token for a text field. It is a new one, whether the window exists or not.
    pub fn add_text_field(&self, windows: &mut Windows) -> (r: TextFieldToken)
        requires
            old(windows)@.text_fields.issued < u64::MAX,
        ensures
            r == (TextFieldToken { id: old(windows)@.text_fields.following() }),
            final(windows)@ == text_field_added(old(windows)@),
    {
        TextFieldToken { id: windows.text_fields.next() }
    }

    /// Takes the focus from a text field, if it has it.
    pub fn remove_text_field(&self, windows: &mut Windows, token: TextFieldToken)
        requires
            old(windows)@.wf(),
        ensures
            final(windows)@ == if old(windows)@.is_live(*self) {
                old(windows)@.with_state(*self, unfocused(old(windows)@.state(*self), token))
            } else {
                old(windows)@
            },
            final(windows)@.wf(),
    {
        if let Some(state) = windows.get_mut(self) {
            if let Some(active) = state.active_text_input {
                if active == token {
                    state.active_text_input = None;
                }
            }
        }
    }

    /// Gives the focus to a text field, or to none.
    pub fn set_focused_text_field(
        &self,
        windows: &mut Windows,
        active_field: Option<TextFieldToken>,
    )
        requires
            old(windows)@.wf(),
        ensures
            final(windows)@ == if old(windows)@.is_live(*self) {
                old(windows)@.with_state(*self, focused(old(windows)@.state(*self), active_field))
            } else {
                old(windows)@
            },
            final(windows)@.wf(),
    {
        if let Some(state) = windows.get_mut(self) {
            state.active_text_input = active_field;
        }
    }

    /// Asks for a timer: its token, and how long to wait, in the unit of the clock. The timer of
    /// a dropped window never runs.
    pub fn request_timer(&self, windows: &mut Windows, deadline: u64, now: u64) -> (r: (
        TimerToken,
        Option<u64>,
    ))
        requires
            old(windows)@.timers.issued < u64::MAX,
        ensures
            r.0 == (TimerToken { id: old(windows)@.timers.following() }),
            r.1 == if old(windows)@.is_live(*self) {
                Some(interval(deadline, now))
            } else {
                None
            },
            r.1 == timer_wait(old(windows)@, *self, deadline, now),
            final(windows)@ == timer_requested(old(windows)@),
    {
        let wait: u64 = if deadline >= now {
            deadline - now
        } else {
            0
        };
        let token = TimerToken { id: windows.timers.next() };
        if windows.get(self).is_some() {
            (token, Some(wait))
        } else {
            (token, None)
        }
    }

    /// The cursor that the toolkit is to show over the window, which must be on a screen.
    pub fn set_cursor(&self, windows: &Windows, cursor: &Cursor, on_screen: bool) -> (r: Option<
        CursorSource,
    >)
        ensures
            r is Some <==> windows@.is_live(*self) && on_screen,
            r matches Some(source) ==> crate::cursor::is_source(source, *cursor),
    {
        match windows.get(self) {
            Some(_) => if on_screen {
                Some(make_gdk_cursor(cursor))
            } else {
                None
            },
            None => None,
        }
    }

    /// What the toolkit is to make a cursor for the window from. The window must be on a screen.
    pub fn make_cursor(&self, windows: &Windows, desc: &CursorDesc, on_screen: bool) -> (r: Option<
        CursorImage,
    >)
        requires
            windows@.is_live(*self) && on_screen ==> desc.width * desc.format.pixel_bytes()
                <= usize::MAX,
        ensures
            r == if windows@.is_live(*self) && on_screen {
                Some(
                    CursorImage {
                        layout: crate::cursor::layout_of(desc.width, desc.height, desc.format),
                        hot: desc.hot,
                    },
                )
            } else {
                None
            },
    {
        match windows.get(self) {
            Some(_) => if on_screen {
                let layout = pixbuf_layout(desc.width, desc.height, desc.format);
                Some(CursorImage { layout, hot: desc.hot })
            } else {
                None
            },
            None => None,
        }
    }

    /// Asks for a dialog to open a file. The handler is told what was chosen, by the token. A
    /// dropped window gets none.
    pub fn open_file(&self, windows: &mut Windows, options: FileDialogOptions) -> (r: Option<
        FileDialogToken,
    >)
        requires
            old(windows)@.wf(),
            old(windows)@.is_live(*self) ==> old(windows)@.file_dialogs.issued < u64::MAX,
        ensures
            r == if old(windows)@.is_live(*self) {
                Some(FileDialogToken { id: old(windows)@.file_dialogs.following() })
            } else {
                None
            },
            final(windows)@ =~= open_requested(old(windows)@, *self, options),
            final(windows)@.wf(),
    {
        if windows.get(self).is_none() {
            return None;
        }
        let token = FileDialogToken { id: windows.file_dialogs.next() };
        if let Some(state) = windows.get_mut(self) {
            state.defer(DeferredOp::Open(options, token));
        }
        Some(token)
    }

    /// Asks for a dialog to save a file. The handler is told what was chosen, by the token. A
    /// dropped window gets none.
    pub fn save_as(&self, windows: &mut Windows, options: FileDialogOptions) -> (r: Option<
        FileDialogToken,
    >)
        requires
            old(windows)@.wf(),
            old(windows)@.is_live(*self) ==> old(windows)@.file_dialogs.issued < u64::MAX,
        ensures
            r == if old(windows)@.is_live(*self) {
                Some(FileDialogToken { id: old(windows)@.file_dialogs.following() })
            } else {
                None
            },
            final(windows)@ =~= save_requested(old(windows)@, *self, options),
            final(windows)@.wf(),
    {
        if windows.get(self).is_none() {
            return None;
        }
        let token = FileDialogToken { id: windows.file_dialogs.next() };
        if let Some(state) = windows.get_mut(self) {
            state.defer(DeferredOp::SaveAs(options, token));
        }
        Some(token)
    }

    /// A handle by which idle work is added to the window.
    pub fn get_idle_handle(&self, windows: &Windows) -> (r: Option<IdleHandle>)
        ensures
            r == if windows@.is_live(*self) {
                Some(IdleHandle { window: *self })
            } else {
                None
            },
    {
        match windows.get(self) {
            Some(_) => Some(IdleHandle { window: *self }),
            None => None,
        }
    }

    /// The scale of the window.
    pub fn get_scale(&self, windows: &Windows) -> (r: Result<Scale, ShellError>)
        ensures
            r == if windows@.is_live(*self) {
                Ok(windows@.state(*self).scale)
            } else {
                Err(ShellError::WindowDropped)
            },
            r is Ok <==> scale_of(windows@, *self) is Some,
            r matches Ok(scale) ==> scale_of(windows@, *self) == Some(scale),
    {
        match windows.get(self) {
            Some(state) => Ok(state.scale),
            None => Err(ShellError::WindowDropped),
        }
    }

    /// Gives the window a menu bar, in place of the one that it has, if any: what is to be done
    /// with the window's box, in this order.
    pub fn set_menu(&self, windows: &mut Windows, menu: Menu) -> (r: Vec<MenuStep>)
        requires
            old(windows)@.wf(),
        ensures
            r@ == if old(windows)@.is_live(*self) {
                menu_steps(old(windows)@.state(*self), menu)
            } else {
                seq![]
            },
            final(windows)@ == if old(windows)@.is_live(*self) {
                old(windows)@.with_state(*self, menu_given(old(windows)@.state(*self), menu))
            } else {
                old(windows)@
            },
            final(windows)@.wf(),
    {
        let mut steps: Vec<MenuStep> = Vec::new();
        if let Some(state) = windows.get_mut(self) {
            if state.menu.is_some() {
                steps.push(MenuStep::RemoveFirst);
            }
            steps.push(MenuStep::PackStart(menu));
            steps.push(MenuStep::ShowAll);
            state.menu = Some(menu);
        }
        steps
    }

    /// Shows a menu, as soon as the handler is free. It pops up where the pointer is, whatever
    /// position is asked for.
    pub fn show_context_menu(&self, windows: &mut Windows, menu: Menu, _pos: Point)
        requires
            old(windows)@.wf(),
        ensures
            final(windows)@ == if old(windows)@.is_live(*self) {
                old(windows)@.with_state(
                    *self,
                    put_off(
                        old(windows)@.state(*self),
                        DeferredOp::ContextMenu(menu, *self),
                    ),
                )
            } else {
                old(windows)@
            },
            final(windows)@.wf(),
    {
        if let Some(state) = windows.get_mut(self) {
            state.defer(DeferredOp::ContextMenu(menu, *self));
        }
    }
}

/// The state once the client asked for the window to be closed.
pub open spec fn asked_to_close(m: WindowModel) -> WindowModel {
    WindowModel { closing: true, ..m }
}

/// The state once the focus was given to a text field, or to none.
pub open spec fn focused(m: WindowModel, field: Option<TextFieldToken>) -> WindowModel {
    WindowModel { active_text_input: field, ..m }
}

/// The state once the text field is gone: if it had the focus, none has it.
pub open spec fn unfocused(m: WindowModel, field: TextFieldToken) -> WindowModel {
    if m.active_text_input == Some(field) {
        focused(m, None)
    } else {
        m
    }
}

/// What is to be done with the box that holds the window's menu bar and its drawing area. The
/// menu bar, if there is one, is the first thing in it.
#[derive(Clone, Copy, Debug, PartialEq, Eq, Structural)]
pub enum MenuStep {
    /// Deactivate the first thing in the box, which is a menu bar, and take it out.
    RemoveFirst,
    /// Put a menu bar made from this menu first.
    PackStart(Menu),
    /// Show that menu bar and all that is in it.
    ShowAll,
}

/// What gives a window a menu bar.
pub open spec fn menu_steps(m: WindowModel, menu: Menu) -> Seq<MenuStep> {
    let removed = if m.menu is Some {
        seq![MenuStep::RemoveFirst]
    } else {
        seq![]
    };
    removed + seq![MenuStep::PackStart(menu), MenuStep::ShowAll]
}

/// The state once the window has a menu bar made from this menu.
pub open spec fn menu_given(m: WindowModel, menu: Menu) -> WindowModel {
    WindowModel { menu: Some(menu), ..m }
}

/// The state once the operation is put off.
pub open spec fn put_off(m: WindowModel, op: DeferredOp) -> WindowModel {
    WindowModel { deferred_queue: m.deferred_queue.push(op), ..m }
}

/// The windows once a token for a text field was given out.
pub open spec fn text_field_added(m: WindowsModel) -> WindowsModel {
    WindowsModel { text_fields: m.text_fields.advanced(), ..m }
}

/// The windows once a token for a timer was given out.
pub open spec fn timer_requested(m: WindowsModel) -> WindowsModel {
    WindowsModel { timers: m.timers.advanced(), ..m }
}

/// The windows once a dialog to open a file was asked for, by a new token. It is put off.
pub open spec fn open_requested(
    m: WindowsModel,
    handle: WindowHandle,
    options: FileDialogOptions,
) -> WindowsModel {
    if m.is_live(handle) {
        let token = FileDialogToken { id: m.file_dialogs.following() };
        let state = put_off(m.state(handle), DeferredOp::Open(options, token));
        WindowsModel {
            file_dialogs: m.file_dialogs.advanced(),
            ..m.with_state(handle, state)
        }
    } else {
        m
    }
}

/// The windows once a dialog to save a file was asked for, by a new token. It is put off.
pub open spec fn save_requested(
    m: WindowsModel,
    handle: WindowHandle,
    options: FileDialogOptions,
) -> WindowsModel {
    if m.is_live(handle) {
        let token = FileDialogToken { id: m.file_dialogs.following() };
        let state = put_off(m.state(handle), DeferredOp::SaveAs(options, token));
        WindowsModel {
            file_dialogs: m.file_dialogs.advanced(),
            ..m.with_state(handle, state)
        }
    } else {
        m
    }
}

/// The state once there is more idle work.
pub open spec fn with_idle(m: WindowModel, kind: IdleKind) -> WindowModel {
    WindowModel { idle_queue: m.idle_queue.push(kind), ..m }
}

impl IdleHandle {
    /// Adds idle work to the window, unless it has been dropped. Whether the toolkit is to be
    /// asked for an idle call.
    fn add_idle(&self, windows: &mut Windows, kind: IdleKind) -> (r: bool)
        requires
            old(windows)@.wf(),
        ensures
            r == (old(windows)@.is_live(self.window) && old(windows)@.state(
                self.window,
            ).idle_queue.len() == 0),
            r == (old(windows)@.is_live(self.window) && crate::window::asks_for_idle_call(
                old(windows)@.state(self.window),
            )),
            final(windows)@ == if old(windows)@.is_live(self.window) {
                old(windows)@.with_state(
                    self.window,
                    with_idle(old(windows)@.state(self.window), kind),
                )
            } else {
                old(windows)@
            },
            final(windows)@.wf(),
    {
        match windows.get_mut(&self.window) {
            Some(state) => state.add_idle(kind),
            None => false,
        }
    }

    /// Adds a callback, which is called once when the toolkit is idle. It is not if the
    /// window has been dropped. Whether the toolkit is to be asked for an idle call.
    pub fn add_idle_callback(&self, windows: &mut Windows, callback: u64) -> (r: bool)
        requires
            old(windows)@.wf(),
        ensures
            r == (old(windows)@.is_live(self.window) && old(windows)@.state(
                self.window,
            ).idle_queue.len() == 0),
            r == (old(windows)@.is_live(self.window) && crate::window::asks_for_idle_call(
                old(windows)@.state(self.window),
            )),
            final(windows)@ == if old(windows)@.is_live(self.window) {
                old(windows)@.with_state(
                    self.window,
                    with_idle(old(windows)@.state(self.window), IdleKind::Callback(callback)),
                )
            } else {
                old(windows)@
            },
            final(windows)@.wf(),
    {
        self.add_idle(windows, IdleKind::Callback(callback))
    }

    /// Adds a token, of which the handler is told once when the toolkit is idle. It is not if
    /// the window has been dropped. Whether the toolkit is to be asked for an idle call.
    pub fn add_idle_token(&self, windows: &mut Windows, token: IdleToken) -> (r: bool)
        requires
            old(windows)@.wf(),
        ensures
            r == (old(windows)@.is_live(self.window) && old(windows)@.state(
                self.window,
            ).idle_queue.len() == 0),
            r == (old(windows)@.is_live(self.window) && crate::window::asks_for_idle_call(
                old(windows)@.state(self.window),
            )),
            final(windows)@ == if old(windows)@.is_live(self.window) {
                old(windows)@.with_state(
                    self.window,
                    with_idle(old(windows)@.state(self.window), IdleKind::Token(token)),
                )
            } else {
                old(windows)@
            },
            final(windows)@.wf(),
    {
        self.add_idle(windows, IdleKind::Token(token))
    }
}

}
