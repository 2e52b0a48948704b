//! The state of a window and what each event does to it.
//!
//! The handler of a window may call back into the window while it is being called. So the state
//! records which of its parts are in use: the handler, the surface and the invalid region. A
//! call of the handler begins with [`WindowState::with_handler`], which says whether the call
//! may be made, and ends with [`WindowState::finish_call`], which hands out the operations that
//! were put off while the handler was busy.

use vstd::prelude::*;

use crate::geometry::{Patch, PxSize, Region, Scale, ScaledArea};
use crate::handle::WindowHandle;
use crate::tokens::{FileDialogToken, IdleToken, TextFieldToken};

verus! {

/// The options of a file dialog, by their number among those that the application holds.
#[derive(Clone, Copy, Debug, PartialEq, Eq, Structural)]
pub struct FileDialogOptions {
    pub key: u64,
}

/// A menu, by its number among those that the application holds.
#[derive(Clone, Copy, Debug, PartialEq, Eq, Structural)]
pub struct Menu {
    pub key: u64,
}

/// An operation that is put off until the handler is free, so that it does not run inside a
/// call of the handler. The one exception: where a call is attempted inside another one, what
/// was put off until then is done at once, and so inside the outer call.
#[derive(Clone, Copy, Debug)]
pub enum DeferredOp {
    SaveAs(FileDialogOptions, FileDialogToken),
    Open(FileDialogOptions, FileDialogToken),
    ContextMenu(Menu, WindowHandle),
}

/// Work for the time when nothing else is to be done.
#[derive(Clone, Copy, Debug, PartialEq, Eq, Structural)]
pub enum IdleKind {
    /// A callback, by its number among those that the application holds.
    Callback(u64),
    /// A token, of which the handler is told.
    Token(IdleToken),
}

/// In what way the surface is in use.
#[derive(Clone, Copy, Debug, PartialEq, Eq, Structural)]
pub enum SurfaceUse {
    Free,
    /// The handler paints on it.
    Shared,
    /// It is being replaced.
    Exclusive,
}

/// The state of a window.
#[derive(Debug)]
pub struct WindowState {
    pub scale: Scale,
    pub area: ScaledArea,
    pub is_transparent: bool,
    /// Requests of the system to close the window are honoured only once this is set, which
    /// happens when the client asks for the window to be closed.
    pub closing: bool,
    pub has_surface: bool,
    /// The size of the surface in pixels. It may be larger than the drawing area.
    pub surface_size: PxSize,
    pub surface_use: SurfaceUse,
    /// What is to be painted again.
    pub invalid: Region,
    pub invalid_borrowed: bool,
    pub handler_borrowed: bool,
    pub idle_queue: Vec<IdleKind>,
    /// The key that went down last and has not gone up since.
    pub current_keycode: Option<u16>,
    pub active_text_input: Option<TextFieldToken>,
    pub deferred_queue: Vec<DeferredOp>,
    /// A frame was asked for while one was being drawn.
    pub request_animation: bool,
    /// A frame is being drawn.
    pub in_draw: bool,
    pub parent: Option<WindowHandle>,
    /// The menu of the window's menu bar, if it has one.
    pub menu: Option<Menu>,
}

/// What the state of a window is, as a value.
pub struct WindowModel {
    pub scale: Scale,
    pub area: ScaledArea,
    pub is_transparent: bool,
    pub closing: bool,
    pub has_surface: bool,
    pub surface_size: PxSize,
    pub surface_use: SurfaceUse,
    pub invalid: Seq<Patch>,
    pub invalid_borrowed: bool,
    pub handler_borrowed: bool,
    pub idle_queue: Seq<IdleKind>,
    pub current_keycode: Option<u16>,
    pub active_text_input: Option<TextFieldToken>,
    pub deferred_queue: Seq<DeferredOp>,
    pub request_animation: bool,
    pub in_draw: bool,
    pub parent: Option<WindowHandle>,
    pub menu: Option<Menu>,
}

impl View for WindowState {
    type V = WindowModel;

    open spec fn view(&self) -> WindowModel {
        WindowModel {
            scale: self.scale,
            area: self.area,
            is_transparent: self.is_transparent,
            closing: self.closing,
            has_surface: self.has_surface,
            surface_size: self.surface_size,
            surface_use: self.surface_use,
            invalid: self.invalid@,
            invalid_borrowed: self.invalid_borrowed,
            handler_borrowed: self.handler_borrowed,
            idle_queue: self.idle_queue@,
            current_keycode: self.current_keycode,
            active_text_input: self.active_text_input,
            deferred_queue: self.deferred_queue@,
            request_animation: self.request_animation,
            in_draw: self.in_draw,
            parent: self.parent,
            menu: self.menu,
        }
    }
}

impl WindowModel {
    /// A surface that is painted on exists, and the handler is what paints on it. A surface
    /// that is being replaced is gone.
    pub open spec fn wf(self) -> bool {
        &&& self.surface_use is Shared ==> self.has_surface && self.handler_borrowed
        &&& self.surface_use is Exclusive ==> !self.has_surface
    }
}

/// Whether a call of the handler may be made.
#[derive(Clone, Copy, Debug, PartialEq, Eq, Structural)]
pub enum HandlerEntry {
    /// No: the surface or the invalid region is in use.
    Refused,
    /// No: the handler itself is in use.
    Busy,
    /// Yes, and the handler is in use from now on.
    Entered,
}

/// Whether a call of the handler may be made.
pub open spec fn entry_of(m: WindowModel) -> HandlerEntry {
    if m.invalid_borrowed || !(m.surface_use is Free) {
        HandlerEntry::Refused
    } else if m.handler_borrowed {
        HandlerEntry::Busy
    } else {
        HandlerEntry::Entered
    }
}

/// The state once the call was let in, or not.
pub open spec fn entered(m: WindowModel) -> WindowModel {
    WindowModel { handler_borrowed: m.handler_borrowed || entry_of(m) is Entered, ..m }
}

/// The state after a call of the handler, or the attempt at one.
pub open spec fn finished(m: WindowModel, entry: HandlerEntry) -> WindowModel {
    match entry {
        HandlerEntry::Refused => m,
        HandlerEntry::Busy => WindowModel { deferred_queue: Seq::empty(), ..m },
        HandlerEntry::Entered => WindowModel {
            deferred_queue: Seq::empty(),
            handler_borrowed: false,
            ..m
        },
    }
}

/// A window that nothing has happened to.
pub open spec fn fresh(
    scale: Scale,
    area: ScaledArea,
    is_transparent: bool,
    parent: Option<WindowHandle>,
    menu: Option<Menu>,
) -> WindowModel {
    WindowModel {
        scale,
        area,
        is_transparent,
        closing: false,
        has_surface: false,
        surface_size: PxSize { width: 0, height: 0 },
        surface_use: SurfaceUse::Free,
        invalid: Seq::empty(),
        invalid_borrowed: false,
        handler_borrowed: false,
        idle_queue: Seq::empty(),
        current_keycode: None,
        active_text_input: None,
        deferred_queue: Seq::empty(),
        request_animation: false,
        in_draw: false,
        parent,
        menu,
    }
}

impl WindowState {
    /// A window that nothing has happened to.
    pub fn new(
        scale: Scale,
        area: ScaledArea,
        is_transparent: bool,
        parent: Option<WindowHandle>,
        menu: Option<Menu>,
    ) -> (r: WindowState)
        ensures
            r@ == fresh(scale, area, is_transparent, parent, menu),
            r@.wf(),
    {
        WindowState {
            scale,
            area,
            is_transparent,
            closing: false,
            has_surface: false,
            surface_size: PxSize { width: 0, height: 0 },
            surface_use: SurfaceUse::Free,
            invalid: Region::empty(),
            invalid_borrowed: false,
            handler_borrowed: false,
            idle_queue: Vec::new(),
            current_keycode: None,
            active_text_input: None,
            deferred_queue: Vec::new(),
            request_animation: false,
            in_draw: false,
            parent,
            menu,
        }
    }

    /// Begins a call of the handler, if it may be made.
    pub fn with_handler(&mut self) -> (r: HandlerEntry)
        requires
            old(self)@.wf(),
        ensures
            r == entry_of(old(self)@),
            final(self)@ == entered(old(self)@),
            final(self)@.wf(),
    {
        if self.invalid_borrowed || self.surface_use != SurfaceUse::Free {
            return HandlerEntry::Refused;
        }
        if self.with_handler_and_dont_check_the_other_borrows() {
            HandlerEntry::Entered
        } else {
            HandlerEntry::Busy
        }
    }

    /// Takes the handler into use, unless it is in use already.
    pub fn with_handler_and_dont_check_the_other_borrows(&mut self) -> (r: bool)
        ensures
            r == !old(self)@.handler_borrowed,
            final(self)@ == (WindowModel { handler_borrowed: true, ..old(self)@ }),
    {
        let free = !self.handler_borrowed;
        self.handler_borrowed = true;
        free
    }

    /// Ends a call of the handler that began with this entry, and hands out the operations that
    /// are to be done now. They are handed out too where the handler was busy, but not where
    /// the call was refused.
    pub fn finish_call(&mut self, entry: HandlerEntry) -> (r: Vec<DeferredOp>)
        requires
            old(self)@.wf(),
            entry is Entered ==> old(self)@.handler_borrowed && !(old(self)@.surface_use is Shared),
        ensures
            final(self)@ == finished(old(self)@, entry),
            final(self)@.wf(),
            r@ == if entry is Refused {
                Seq::empty()
            } else {
                old(self)@.deferred_queue
            },
    {
        match entry {
            HandlerEntry::Refused => Vec::new(),
            HandlerEntry::Busy => self.run_deferred(),
            HandlerEntry::Entered => {
                self.handler_borrowed = false;
                self.run_deferred()
            },
        }
    }

    /// Puts an operation off.
    pub fn defer(&mut self, op: DeferredOp)
        ensures
            final(self)@ == (WindowModel {
                deferred_queue: old(self)@.deferred_queue.push(op),
                ..old(self)@
            }),
    {
        self.deferred_queue.push(op);
    }

    /// Hands out the operations that were put off, in the order in which they were.
    pub fn run_deferred(&mut self) -> (r: Vec<DeferredOp>)
        ensures
            r@ == old(self)@.deferred_queue,
            final(self)@ == (WindowModel { deferred_queue: Seq::empty(), ..old(self)@ }),
    {
        let mut queue: Vec<DeferredOp> = Vec::new();
        std::mem::swap(&mut queue, &mut self.deferred_queue);
        queue
    }
}

/// The state once the toolkit was idle: the work is taken out where it can be done.
pub open spec fn idle_run(m: WindowModel) -> WindowModel {
    WindowModel {
        idle_queue: if entry_of(m) is Entered {
            Seq::empty()
        } else {
            m.idle_queue
        },
        ..entered(m)
    }
}

/// The toolkit is to be asked for an idle call when work is added in this state.
pub open spec fn asks_for_idle_call(m: WindowModel) -> bool {
    m.idle_queue.len() == 0
}

/// The attempt at a call did not come through and is to be made again.
pub open spec fn is_repeated(entry: HandlerEntry) -> bool {
    !(entry is Entered)
}

/// How long to wait before idle work is tried again.
pub const IDLE_RETRY_MS: u64 = 16;

impl WindowState {
    /// Adds idle work. Whether the toolkit is to be asked for an idle call: one is pending
    /// already where there was work before.
    pub fn add_idle(&mut self, kind: IdleKind) -> (r: bool)
        ensures
            r == (old(self)@.idle_queue.len() == 0),
            r == asks_for_idle_call(old(self)@),
            final(self)@ == (WindowModel {
                idle_queue: old(self)@.idle_queue.push(kind),
                ..old(self)@
            }),
    {
        let schedule = self.idle_queue.len() == 0;
        self.idle_queue.push(kind);
        schedule
    }

    /// The toolkit is idle. Begins a call of the handler, in which the work that is handed out
    /// is to be done, in this order; none is where the call may not be made.
    pub fn run_idle(&mut self) -> (r: (HandlerEntry, Vec<IdleKind>))
        requires
            old(self)@.wf(),
        ensures
            r.0 == entry_of(old(self)@),
            r.1@ == if r.0 is Entered {
                old(self)@.idle_queue
            } else {
                Seq::empty()
            },
            final(self)@ == idle_run(old(self)@),
            final(self)@.wf(),
    {
        let mut queue: Vec<IdleKind> = Vec::new();
        let entry = self.with_handler();
        if entry == HandlerEntry::Entered {
            std::mem::swap(&mut queue, &mut self.idle_queue);
        }
        (entry, queue)
    }
}

/// After how many milliseconds idle work is tried again, if its call could not be made. It is
/// not tried at once, which would keep the processor busy.
pub fn idle_retry(entry: HandlerEntry) -> (r: Option<u64>)
    ensures
        r == if entry is Entered {
            None
        } else {
            Some(16u64)
        },
        r is Some <==> is_repeated(entry),
{
    match entry {
        HandlerEntry::Entered => None,
        _ => Some(IDLE_RETRY_MS),
    }
}

/// Whether a timer is to go on: it does until the handler could be told once.
pub fn timer_continues(entry: HandlerEntry) -> (r: bool)
    ensures
        r == !(entry is Entered),
        r == is_repeated(entry),
{
    match entry {
        HandlerEntry::Entered => false,
        _ => true,
    }
}

}
