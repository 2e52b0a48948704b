//! How a window is drawn.
//!
//! The drawing area paints into a context that is clipped already, before the handler has said
//! what it wants to paint. So the whole drawing area is always invalidated, the region that is
//! really invalid is kept in the window's state, and the handler paints that region on a
//! surface of its own, which is then copied.
//!
//! A draw is a [`DrawPass`]. [`WindowState::draw_step`] says what is to be done next; whoever
//! does it comes back with the [`DrawEvent`] that says what came of it. Other events may reach
//! the window between two steps.

use vstd::prelude::*;

use crate::calls::HandlerCall;
use crate::geometry::{Patch, PxSize, Rect, Region, Scale, ScaledArea};
use crate::surface::{next_size, Content, SurfaceError, SurfaceOutcome, MAX_DIMENSION};
use crate::window::{SurfaceUse, WindowModel, WindowState};

verus! {

/// What is to be done about the surface.
#[derive(Clone, Copy, Debug, PartialEq, Eq, Structural)]
pub enum ResizePlan {
    /// The surface will do.
    Keep,
    /// Another surface is to be made, once the old one, if there is one, is finished.
    Recreate { finish_old: bool, content: Content, size: PxSize },
}

/// The size of the surface for a drawing area of this size.
pub open spec fn surface_size_for(width: i32, height: i32) -> PxSize {
    PxSize {
        width: crate::surface::rounded_size(width as int) as i32,
        height: crate::surface::rounded_size(height as int) as i32,
    }
}

/// Dimensions for which the size of the surface can be computed.
pub open spec fn can_round(width: i32, height: i32) -> bool {
    width <= MAX_DIMENSION && height <= MAX_DIMENSION
}

/// What is to be done about the surface for a drawing area of this size.
pub open spec fn resize_plan(m: WindowModel, width: i32, height: i32) -> ResizePlan {
    let size = surface_size_for(width, height);
    if m.has_surface && m.surface_size == size {
        ResizePlan::Keep
    } else {
        ResizePlan::Recreate {
            finish_old: m.has_surface,
            content: if m.is_transparent {
                Content::ColorAlpha
            } else {
                Content::Color
            },
            size,
        }
    }
}

/// The state once the plan is made.
pub open spec fn resizing(m: WindowModel, width: i32, height: i32) -> WindowModel {
    match resize_plan(m, width, height) {
        ResizePlan::Keep => m,
        ResizePlan::Recreate { size, .. } => WindowModel {
            has_surface: false,
            surface_size: size,
            surface_use: SurfaceUse::Exclusive,
            ..m
        },
    }
}

/// The state once a surface was made, or not.
pub open spec fn resized(m: WindowModel, outcome: SurfaceOutcome) -> WindowModel {
    WindowModel {
        has_surface: outcome is Created,
        surface_use: SurfaceUse::Free,
        ..m
    }
}

/// What is reported of the attempt to make a surface.
pub open spec fn outcome_result(outcome: SurfaceOutcome) -> Result<(), SurfaceError> {
    match outcome {
        SurfaceOutcome::Created => Ok(()),
        SurfaceOutcome::Failed => Err(SurfaceError::CreateFailed),
        SurfaceOutcome::NoWindow => Err(SurfaceError::NoWindow),
    }
}

/// Why there is no surface after the attempt to make one, if there is none.
pub open spec fn failure_of(outcome: SurfaceOutcome) -> Option<SurfaceError> {
    match outcome_result(outcome) {
        Ok(_) => None,
        Err(error) => Some(error),
    }
}

/// The state once a frame was asked for: it is remembered where one is being drawn.
pub open spec fn frame_asked(m: WindowModel) -> WindowModel {
    WindowModel { request_animation: m.request_animation || m.in_draw, ..m }
}

/// A frame that is asked for is drawn at once.
pub open spec fn is_drawn_at_once(m: WindowModel) -> bool {
    !m.in_draw
}

/// The end of a frame is followed by another frame.
pub open spec fn is_followed(m: WindowModel) -> bool {
    m.request_animation
}

/// All of the window, as it is marked as invalid.
pub open spec fn whole_of(m: WindowModel) -> Patch {
    Patch::Area(m.area, m.scale)
}

/// The state once a frame began.
pub open spec fn frame_begun(m: WindowModel) -> WindowModel {
    WindowModel { in_draw: true, ..m }
}

/// The state once a frame ended.
pub open spec fn frame_ended(m: WindowModel) -> WindowModel {
    WindowModel { in_draw: false, request_animation: false, ..m }
}

/// The state once a patch was marked as invalid, which cannot be done while the region is in use.
/// The region is in use from then on.
pub open spec fn marked(m: WindowModel, patch: Patch) -> WindowModel {
    if m.invalid_borrowed {
        m
    } else {
        WindowModel { invalid: m.invalid.push(patch), invalid_borrowed: true, ..m }
    }
}

/// The state once the invalid region is no longer in use.
pub open spec fn mark_over(m: WindowModel) -> WindowModel {
    WindowModel { invalid_borrowed: false, ..m }
}

/// The state once the screen changed to one, if any, that can show transparency, or not.
pub open spec fn on_screen(m: WindowModel, rgba_visual: Option<bool>) -> WindowModel {
    match rgba_visual {
        Some(has) => WindowModel { is_transparent: has, ..m },
        None => m,
    }
}

impl WindowState {
    /// Decides whether the surface will do for a drawing area of this size, and takes it out of
    /// use where it will not.
    pub fn resize_surface(&mut self, width: i32, height: i32) -> (r: ResizePlan)
        requires
            old(self)@.wf(),
            old(self)@.surface_use is Free,
            can_round(width, height),
        ensures
            r == resize_plan(old(self)@, width, height),
            final(self)@ == resizing(old(self)@, width, height),
            final(self)@.wf(),
    {
        let size = PxSize { width: next_size(width), height: next_size(height) };
        if self.has_surface && self.surface_size == size {
            return ResizePlan::Keep;
        }
        let finish_old = self.has_surface;
        let content = if self.is_transparent {
            Content::ColorAlpha
        } else {
            Content::Color
        };
        self.surface_size = size;
        self.has_surface = false;
        self.surface_use = SurfaceUse::Exclusive;
        ResizePlan::Recreate { finish_old, content, size }
    }

    /// Takes note of what became of the attempt to make a surface.
    pub fn finish_resize(&mut self, outcome: SurfaceOutcome) -> (r: Result<(), SurfaceError>)
        requires
            old(self)@.surface_use is Exclusive,
        ensures
            r == outcome_result(outcome),
            final(self)@ == resized(old(self)@, outcome),
            final(self)@.wf(),
    {
        self.surface_use = SurfaceUse::Free;
        match outcome {
            SurfaceOutcome::Created => {
                self.has_surface = true;
                Ok(())
            },
            SurfaceOutcome::Failed => {
                self.has_surface = false;
                Err(SurfaceError::CreateFailed)
            },
            SurfaceOutcome::NoWindow => {
                self.has_surface = false;
                Err(SurfaceError::NoWindow)
            },
        }
    }

    /// Queues a paint without marking anything as invalid. Whether the drawing area is to be
    /// redrawn at once; if not, a frame is being drawn and another is to follow it.
    pub fn request_anim_frame(&mut self) -> (r: bool)
        ensures
            r == !old(self)@.in_draw,
            r == is_drawn_at_once(old(self)@),
            final(self)@ == frame_asked(old(self)@),
    {
        if self.in_draw {
            self.request_animation = true;
            false
        } else {
            true
        }
    }

    /// A frame begins.
    pub fn before_paint(&mut self)
        ensures
            final(self)@ == frame_begun(old(self)@),
    {
        self.in_draw = true;
    }

    /// A frame ends. Whether the drawing area is to be redrawn.
    pub fn after_paint(&mut self) -> (r: bool)
        ensures
            r == old(self)@.request_animation,
            r == is_followed(old(self)@),
            final(self)@ == frame_ended(old(self)@),
    {
        self.in_draw = false;
        if self.request_animation {
            self.request_animation = false;
            true
        } else {
            false
        }
    }

    /// Marks a patch as invalid. Whether the window is to be redrawn.
    fn mark_invalid(&mut self, patch: Patch) -> (r: bool)
        ensures
            r == !old(self)@.invalid_borrowed,
            final(self)@ == marked(old(self)@, patch),
    {
        if self.invalid_borrowed {
            false
        } else {
            self.invalid.add_patch(patch);
            self.invalid_borrowed = true;
            true
        }
    }

    /// Marks a rectangle, given in display points, as invalid, under the scale that the window
    /// has now. Whether the window is to be redrawn; if it is, the region is in use until
    /// [`WindowState::invalidate_done`].
    pub fn invalidate_rect(&mut self, rect: Rect) -> (r: bool)
        ensures
            r == !old(self)@.invalid_borrowed,
            final(self)@ == marked(old(self)@, Patch::Rect(rect, old(self)@.scale)),
    {
        self.mark_invalid(Patch::Rect(rect, self.scale))
    }

    /// Marks all of a drawing area as invalid, under the scale that the window has now. Whether
    /// the window is to be redrawn; if it is, the region is in use until
    /// [`WindowState::invalidate_done`].
    pub fn invalidate_area(&mut self, area: ScaledArea) -> (r: bool)
        ensures
            r == !old(self)@.invalid_borrowed,
            final(self)@ == marked(old(self)@, Patch::Area(area, old(self)@.scale)),
    {
        self.mark_invalid(Patch::Area(area, self.scale))
    }

    /// The redraw that a mark called for is queued.
    pub fn invalidate_done(&mut self)
        ensures
            final(self)@ == mark_over(old(self)@),
    {
        self.invalid_borrowed = false;
    }

    /// The screen changed. The window is transparent if the screen, where there is one, can show
    /// it so.
    pub fn screen_changed(&mut self, rgba_visual: Option<bool>)
        ensures
            final(self)@ == on_screen(old(self)@, rgba_visual),
    {
        if let Some(has) = rgba_visual {
            self.is_transparent = has;
        }
    }
}

/// How far a draw has come.
#[derive(Clone, Copy, Debug, PartialEq, Eq, Structural)]
pub enum DrawPhase {
    /// Nothing has happened.
    Begin,
    /// The handler is being told the scale.
    TellScale,
    /// The drawing area is being measured.
    Measure,
    /// The surface is being made.
    Resurface,
    /// The handler is being told the size.
    TellSize,
    /// All of the window has been marked as invalid, and its redraw is being queued.
    InvalidateAll,
    /// The handler is preparing to paint.
    Prepare,
    /// The handler is painting.
    Paint,
    /// The draw is over.
    Done,
}

/// A draw in progress.
#[derive(Clone, Copy, Debug, PartialEq, Eq, Structural)]
pub struct DrawPass {
    pub phase: DrawPhase,
    /// The scale that this draw goes by, whatever the window's has become since.
    pub scale: Scale,
    pub scale_changed: bool,
    /// The area as this draw last measured it.
    pub area: ScaledArea,
    /// Why the surface that this draw called for could not be made, if it could not.
    pub failure: Option<SurfaceError>,
}

/// What came of the last step.
#[derive(Clone, Copy, Debug, PartialEq, Eq, Structural)]
pub enum DrawEvent {
    /// The draw begins; the screen reports this scale, if there is a window on one.
    Begun(Option<Scale>),
    /// The handler was told, or could not be.
    Told,
    /// The drawing area has this size.
    Measured(PxSize),
    Resurfaced(SurfaceOutcome),
    /// The redraw of the window is queued.
    Invalidated,
    Painted,
}

/// What is to be done next.
#[derive(Debug)]
pub enum DrawAction {
    /// Tell the handler, if it may be called.
    Tell(HandlerCall),
    /// Measure the drawing area.
    Measure,
    /// Make a surface.
    Resurface { finish_old: bool, content: Content, size: PxSize },
    /// Redraw the window, all of which has been marked as invalid.
    RedrawWindow,
    /// Have the handler paint this region under this scale, then copy the surface.
    Paint { invalid: Region, scale: Scale },
    /// Nothing: there is no surface to paint on.
    NoSurface,
    /// Nothing: the handler is in use.
    Busy,
    /// Nothing: the draw is over.
    Done,
}

/// What is to be done next, as a value.
pub enum DrawActionModel {
    Tell(HandlerCall),
    Measure,
    Resurface { finish_old: bool, content: Content, size: PxSize },
    RedrawWindow,
    Paint { invalid: Seq<Patch>, scale: Scale },
    NoSurface,
    Busy,
    Done,
}

impl View for DrawAction {
    type V = DrawActionModel;

    open spec fn view(&self) -> DrawActionModel {
        match *self {
            DrawAction::Tell(call) => DrawActionModel::Tell(call),
            DrawAction::Measure => DrawActionModel::Measure,
            DrawAction::Resurface { finish_old, content, size } => DrawActionModel::Resurface {
                finish_old,
                content,
                size,
            },
            DrawAction::RedrawWindow => DrawActionModel::RedrawWindow,
            DrawAction::Paint { invalid, scale } => DrawActionModel::Paint {
                invalid: invalid@,
                scale,
            },
            DrawAction::NoSurface => DrawActionModel::NoSurface,
            DrawAction::Busy => DrawActionModel::Busy,
            DrawAction::Done => DrawActionModel::Done,
        }
    }
}

/// The surface must be looked at: there is none, or the scale or the size is another one.
pub open spec fn needs_resize(m: WindowModel, pass: DrawPass, size: PxSize) -> bool {
    ||| !m.has_surface && !(m.surface_use is Exclusive)
    ||| pass.scale_changed
    ||| m.area.size_px != size
}

/// The event answers what the draw waits for. The surface is not looked at while it is in use,
/// nor for a size that cannot be rounded.
pub open spec fn fits(m: WindowModel, pass: DrawPass, event: DrawEvent) -> bool {
    match event {
        DrawEvent::Begun(_) => pass.phase is Begin,
        DrawEvent::Told => pass.phase is TellScale || pass.phase is TellSize
            || pass.phase is Prepare,
        DrawEvent::Measured(size) => pass.phase is Measure && (needs_resize(m, pass, size)
            ==> m.surface_use is Free && can_round(size.width, size.height)),
        DrawEvent::Resurfaced(_) => pass.phase is Resurface && m.surface_use is Exclusive,
        DrawEvent::Invalidated => pass.phase is InvalidateAll && m.invalid_borrowed,
        DrawEvent::Painted => pass.phase is Paint && m.surface_use is Shared,
    }
}

/// The end of a draw: the handler paints what is invalid, if there is a surface and it is free.
/// What was invalid is so no longer, whether it was painted or not.
pub open spec fn painting(m: WindowModel, pass: DrawPass) -> (
    WindowModel,
    DrawPass,
    DrawActionModel,
) {
    let invalid = if m.invalid_borrowed {
        Seq::empty()
    } else {
        m.invalid
    };
    let collected = if m.invalid_borrowed {
        m
    } else {
        WindowModel { invalid: Seq::empty(), ..m }
    };
    let over = DrawPass { phase: DrawPhase::Done, ..pass };
    if !m.has_surface || m.surface_use is Exclusive {
        (collected, over, DrawActionModel::NoSurface)
    } else if m.handler_borrowed {
        (collected, over, DrawActionModel::Busy)
    } else {
        (
            WindowModel {
                handler_borrowed: true,
                surface_use: SurfaceUse::Shared,
                ..collected
            },
            DrawPass { phase: DrawPhase::Paint, ..pass },
            DrawActionModel::Paint { invalid, scale: pass.scale },
        )
    }
}

/// What a draw does on an event: the state, how far it has come, and what is to be done next.
pub open spec fn draw_next(m: WindowModel, pass: DrawPass, event: DrawEvent) -> (
    WindowModel,
    DrawPass,
    DrawActionModel,
) {
    match event {
        DrawEvent::Begun(reported) => match reported {
            Some(scale) if !m.scale.same_scale(scale) => (
                WindowModel { scale, ..m },
                DrawPass { phase: DrawPhase::TellScale, scale, scale_changed: true, ..pass },
                DrawActionModel::Tell(HandlerCall::Scale(scale)),
            ),
            _ => (
                m,
                DrawPass {
                    phase: DrawPhase::Measure,
                    scale: m.scale,
                    scale_changed: false,
                    ..pass
                },
                DrawActionModel::Measure,
            ),
        },
        DrawEvent::Told => match pass.phase {
            DrawPhase::TellScale => (
                m,
                DrawPass { phase: DrawPhase::Measure, ..pass },
                DrawActionModel::Measure,
            ),
            DrawPhase::TellSize => if m.invalid_borrowed {
                (
                    m,
                    DrawPass { phase: DrawPhase::Prepare, ..pass },
                    DrawActionModel::Tell(HandlerCall::PreparePaint),
                )
            } else {
                (
                    marked(m, Patch::Area(pass.area, m.scale)),
                    DrawPass { phase: DrawPhase::InvalidateAll, ..pass },
                    DrawActionModel::RedrawWindow,
                )
            },
            _ => painting(m, pass),
        },
        DrawEvent::Measured(size) => if needs_resize(m, pass, size) {
            let area = ScaledArea { size_px: size, scale: pass.scale };
            let measured = WindowModel { area, ..m };
            let next = resizing(measured, size.width, size.height);
            match resize_plan(measured, size.width, size.height) {
                ResizePlan::Keep => (
                    next,
                    DrawPass { phase: DrawPhase::TellSize, area, ..pass },
                    DrawActionModel::Tell(HandlerCall::AreaSize(area)),
                ),
                ResizePlan::Recreate { finish_old, content, size } => (
                    next,
                    DrawPass { phase: DrawPhase::Resurface, area, ..pass },
                    DrawActionModel::Resurface { finish_old, content, size },
                ),
            }
        } else {
            (
                m,
                DrawPass { phase: DrawPhase::Prepare, ..pass },
                DrawActionModel::Tell(HandlerCall::PreparePaint),
            )
        },
        DrawEvent::Resurfaced(outcome) => (
            resized(m, outcome),
            DrawPass { phase: DrawPhase::TellSize, failure: failure_of(outcome), ..pass },
            DrawActionModel::Tell(HandlerCall::AreaSize(pass.area)),
        ),
        DrawEvent::Invalidated => (
            mark_over(m),
            DrawPass { phase: DrawPhase::Prepare, ..pass },
            DrawActionModel::Tell(HandlerCall::PreparePaint),
        ),
        DrawEvent::Painted => (
            WindowModel { handler_borrowed: false, surface_use: SurfaceUse::Free, ..m },
            DrawPass { phase: DrawPhase::Done, ..pass },
            DrawActionModel::Done,
        ),
    }
}

impl WindowState {
    /// A draw that has not begun.
    pub fn new_draw(&self) -> (r: DrawPass)
        ensures
            r == (DrawPass {
                phase: DrawPhase::Begin,
                scale: self@.scale,
                scale_changed: false,
                area: self@.area,
                failure: None,
            }),
    {
        DrawPass {
            phase: DrawPhase::Begin,
            scale: self.scale,
            scale_changed: false,
            area: self.area,
            failure: None,
        }
    }

    /// Whether the surface must be looked at, now that the drawing area has this size.
    pub fn resize_needed(&self, pass: &DrawPass, size: PxSize) -> (r: bool)
        ensures
            r == needs_resize(self@, *pass, size),
    {
        (!self.has_surface && self.surface_use != SurfaceUse::Exclusive) || pass.scale_changed
            || self.area.size_px != size
    }

    /// What is invalid; it is so no longer. Nothing while the region is in use.
    fn collect_invalid(&mut self) -> (r: Region)
        ensures
            r@ == if old(self)@.invalid_borrowed {
                Seq::empty()
            } else {
                old(self)@.invalid
            },
            final(self)@ == if old(self)@.invalid_borrowed {
                old(self)@
            } else {
                WindowModel { invalid: Seq::empty(), ..old(self)@ }
            },
    {
        let mut region = Region::empty();
        if !self.invalid_borrowed {
            std::mem::swap(&mut region, &mut self.invalid);
        }
        region
    }

    /// The end of a draw: has the handler paint what is invalid.
    fn begin_paint(&mut self, pass: &mut DrawPass) -> (r: DrawAction)
        requires
            old(self)@.wf(),
        ensures
            (final(self)@, *final(pass), r@) == painting(old(self)@, *old(pass)),
            final(self)@.wf(),
    {
        let invalid = self.collect_invalid();
        if !self.has_surface || self.surface_use == SurfaceUse::Exclusive {
            pass.phase = DrawPhase::Done;
            DrawAction::NoSurface
        } else if self.with_handler_and_dont_check_the_other_borrows() {
            self.surface_use = SurfaceUse::Shared;
            pass.phase = DrawPhase::Paint;
            DrawAction::Paint { invalid, scale: pass.scale }
        } else {
            pass.phase = DrawPhase::Done;
            DrawAction::Busy
        }
    }

    /// Goes on with a draw, now that `event` has come of the last step.
    pub fn draw_step(&mut self, pass: &mut DrawPass, event: DrawEvent) -> (r: DrawAction)
        requires
            old(self)@.wf(),
            fits(old(self)@, *old(pass), event),
        ensures
            (final(self)@, *final(pass), r@) == draw_next(old(self)@, *old(pass), event),
            final(self)@.wf(),
    {
        match event {
            DrawEvent::Begun(reported) => {
                pass.scale = self.scale;
                pass.scale_changed = false;
                if let Some(scale) = reported {
                    if !self.scale.equals(&scale) {
                        self.scale = scale;
                        pass.scale = scale;
                        pass.scale_changed = true;
                        pass.phase = DrawPhase::TellScale;
                        return DrawAction::Tell(HandlerCall::Scale(scale));
                    }
                }
                pass.phase = DrawPhase::Measure;
                DrawAction::Measure
            },
            DrawEvent::Told => match pass.phase {
                DrawPhase::TellScale => {
                    pass.phase = DrawPhase::Measure;
                    DrawAction::Measure
                },
                DrawPhase::TellSize => {
                    if self.invalidate_area(pass.area) {
                        pass.phase = DrawPhase::InvalidateAll;
                        DrawAction::RedrawWindow
                    } else {
                        pass.phase = DrawPhase::Prepare;
                        DrawAction::Tell(HandlerCall::PreparePaint)
                    }
                },
                _ => self.begin_paint(pass),
            },
            DrawEvent::Measured(size) => {
                if self.resize_needed(pass, size) {
                    let area = ScaledArea { size_px: size, scale: pass.scale };
                    self.area = area;
                    pass.area = area;
                    match self.resize_surface(size.width, size.height) {
                        ResizePlan::Keep => {
                            pass.phase = DrawPhase::TellSize;
                            DrawAction::Tell(HandlerCall::AreaSize(area))
                        },
                        ResizePlan::Recreate { finish_old, content, size } => {
                            pass.phase = DrawPhase::Resurface;
                            DrawAction::Resurface { finish_old, content, size }
                        },
                    }
                } else {
                    pass.phase = DrawPhase::Prepare;
                    DrawAction::Tell(HandlerCall::PreparePaint)
                }
            },
            DrawEvent::Resurfaced(outcome) => {
                pass.failure = match self.finish_resize(outcome) {
                    Ok(()) => None,
                    Err(error) => Some(error),
                };
                pass.phase = DrawPhase::TellSize;
                DrawAction::Tell(HandlerCall::AreaSize(pass.area))
            },
            DrawEvent::Invalidated => {
                self.invalidate_done();
                pass.phase = DrawPhase::Prepare;
                DrawAction::Tell(HandlerCall::PreparePaint)
            },
            DrawEvent::Painted => {
                self.handler_borrowed = false;
                self.surface_use = SurfaceUse::Free;
                pass.phase = DrawPhase::Done;
                DrawAction::Done
            },
        }
    }
}

}
