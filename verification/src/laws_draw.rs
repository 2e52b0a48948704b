//! What each operation on a window's state changes, and what it leaves as it is.

use vstd::prelude::*;
use vstd::arithmetic::div_mod::lemma_fundamental_div_mod;

use crate::calls::HandlerCall;
use crate::draw::{DrawAction, DrawActionModel, DrawEvent, DrawPass, DrawPhase, ResizePlan};
use crate::geometry::{Patch, PxSize, Scale, ScaledArea};
use crate::handle::WindowHandle;
use crate::surface::{Content, SurfaceError, SurfaceOutcome};
use crate::tokens::TextFieldToken;
use crate::window::{
    DeferredOp, HandlerEntry, IdleKind, Menu, SurfaceUse, WindowModel, WindowState,
};

verus! {

// Views.

/// The view of a window's state leaves nothing out: states with one view agree in every part.
pub proof fn law_state_is_seen_whole(a: WindowState, b: WindowState)
    ensures
        a@ == b@ ==> {
            &&& a.scale == b.scale
            &&& a.area == b.area
            &&& a.is_transparent == b.is_transparent
            &&& a.closing == b.closing
            &&& a.has_surface == b.has_surface
            &&& a.surface_size == b.surface_size
            &&& a.surface_use == b.surface_use
            &&& a.invalid.patches@ == b.invalid.patches@
            &&& a.invalid_borrowed == b.invalid_borrowed
            &&& a.handler_borrowed == b.handler_borrowed
            &&& a.idle_queue@ == b.idle_queue@
            &&& a.current_keycode == b.current_keycode
            &&& a.active_text_input == b.active_text_input
            &&& a.deferred_queue@ == b.deferred_queue@
            &&& a.request_animation == b.request_animation
            &&& a.in_draw == b.in_draw
            &&& a.parent == b.parent
            &&& a.menu == b.menu
        },
        a@.closing == a.closing,
        a@.has_surface == a.has_surface,
        a@.is_transparent == a.is_transparent,
        a@.handler_borrowed == a.handler_borrowed,
        a@.invalid_borrowed == a.invalid_borrowed,
        a@.in_draw == a.in_draw,
        a@.request_animation == a.request_animation,
        a@.scale == a.scale,
        a@.area == a.area,
        a@.surface_size == a.surface_size,
        a@.surface_use == a.surface_use,
        a@.invalid == a.invalid.patches@,
        a@.idle_queue == a.idle_queue@,
        a@.deferred_queue == a.deferred_queue@,
        a@.current_keycode == a.current_keycode,
        a@.active_text_input == a.active_text_input,
        a@.parent == a.parent,
        a@.menu == a.menu,
{
}

/// The view of what is to be done next tells the same.
pub proof fn law_action_is_seen_whole(a: DrawAction)
    ensures
        a matches DrawAction::Tell(call) ==> a@ == DrawActionModel::Tell(call),
        a is Measure <==> a@ is Measure,
        a matches DrawAction::Resurface { finish_old, content, size } ==> a@ == (
        DrawActionModel::Resurface { finish_old, content, size }),
        a is RedrawWindow <==> a@ is RedrawWindow,
        a matches DrawAction::Paint { invalid, scale } ==> a@ == (DrawActionModel::Paint {
            invalid: invalid.patches@,
            scale,
        }),
        a is NoSurface <==> a@ is NoSurface,
        a is Busy <==> a@ is Busy,
        a is Done <==> a@ is Done,
        a is Tell <==> a@ is Tell,
        a is Resurface <==> a@ is Resurface,
        a is Paint <==> a@ is Paint,
{
}

/// A state is in order if what paints is the handler, on a surface that exists, and a surface that
/// is being replaced is gone; nothing else is asked of it.
pub proof fn law_order(m: WindowModel)
    ensures
        m.wf() <==> {
            &&& m.surface_use == SurfaceUse::Shared ==> m.has_surface
            &&& m.surface_use == SurfaceUse::Shared ==> m.handler_borrowed
            &&& m.surface_use == SurfaceUse::Exclusive ==> !m.has_surface
        },
{
}

// New windows.

/// Nothing has happened to a new window: it has the scale, the area, the transparency, the parent
/// and the menu that it was given, no surface, nothing to paint, nothing waiting, and none of its
/// parts is in use. So its handler can be called at once.
pub proof fn law_new_window(
    scale: Scale,
    area: ScaledArea,
    transparent: bool,
    parent: Option<WindowHandle>,
    menu: Option<Menu>,
)
    ensures
        ({
            let m = crate::window::fresh(scale, area, transparent, parent, menu);
            &&& m.scale == scale && m.area == area && m.is_transparent == transparent
            &&& m.parent == parent && m.menu == menu
            &&& !m.closing && !m.has_surface && !m.in_draw && !m.request_animation
            &&& !m.handler_borrowed && !m.invalid_borrowed && m.surface_use == SurfaceUse::Free
            &&& m.surface_size.width == 0 && m.surface_size.height == 0
            &&& m.invalid.len() == 0 && m.idle_queue.len() == 0 && m.deferred_queue.len() == 0
            &&& m.current_keycode is None && m.active_text_input is None
            &&& m.wf()
            &&& crate::window::entry_of(m) is Entered
        }),
{
}

// Calls of the handler.

/// A call of the handler is let in if and only if neither the handler nor the surface nor the
/// invalid region is in use. It is refused, rather than put off because the handler is busy, if
/// and only if one of the latter two is.
pub proof fn law_when_a_call_is_let_in(m: WindowModel)
    ensures
        crate::window::entry_of(m) == HandlerEntry::Entered <==> !m.handler_borrowed
            && !m.invalid_borrowed && m.surface_use == SurfaceUse::Free,
        crate::window::entry_of(m) == HandlerEntry::Refused <==> m.invalid_borrowed
            || m.surface_use != SurfaceUse::Free,
        crate::window::entered(m) == if crate::window::entry_of(m) == HandlerEntry::Entered {
            WindowModel { handler_borrowed: true, ..m }
        } else {
            m
        },
{
}

/// The end of a call frees the handler if the call was let in, and leaves it as it was otherwise;
/// it empties the queue of deferred operations unless the call was refused, and hands out all of
/// them where it empties it. The rest stays as it is.
pub proof fn law_end_of_a_call(m: WindowModel, entry: HandlerEntry)
    ensures
        ({
            let end = crate::window::finished(m, entry);
            let handed = crate::deferred::handed_out(m, entry);
            &&& end == WindowModel {
                handler_borrowed: end.handler_borrowed,
                deferred_queue: end.deferred_queue,
                ..m
            }
            &&& entry == HandlerEntry::Entered ==> !end.handler_borrowed
            &&& entry != HandlerEntry::Entered ==> end.handler_borrowed == m.handler_borrowed
            &&& handed + end.deferred_queue == m.deferred_queue
            &&& entry == HandlerEntry::Refused ==> handed.len() == 0
            &&& entry != HandlerEntry::Refused ==> end.deferred_queue.len() == 0
        }),
{
    assert(crate::deferred::handed_out(m, entry) + crate::window::finished(m, entry).deferred_queue
        =~= m.deferred_queue);
}

/// What is put off, and what is added as idle work, goes to the end of its own queue and changes
/// nothing else.
pub proof fn law_queues_grow_at_the_end(m: WindowModel, op: DeferredOp, kind: IdleKind)
    ensures
        ({
            let n = crate::handle::put_off(m, op);
            &&& n.deferred_queue.drop_last() == m.deferred_queue
            &&& n.deferred_queue.len() == m.deferred_queue.len() + 1
            &&& n.deferred_queue.last() == op
            &&& n == WindowModel { deferred_queue: n.deferred_queue, ..m }
        }),
        ({
            let n = crate::handle::with_idle(m, kind);
            &&& n.idle_queue.drop_last() == m.idle_queue
            &&& n.idle_queue.len() == m.idle_queue.len() + 1
            &&& n.idle_queue.last() == kind
            &&& n == WindowModel { idle_queue: n.idle_queue, ..m }
        }),
{
    assert(crate::handle::put_off(m, op).deferred_queue.drop_last() =~= m.deferred_queue);
    assert(crate::handle::with_idle(m, kind).idle_queue.drop_last() =~= m.idle_queue);
}

/// When the toolkit is idle, the idle work is taken out and the handler taken into use if it can
/// be called; otherwise nothing changes.
pub proof fn law_idle_call(m: WindowModel)
    ensures
        ({
            let n = crate::window::idle_run(m);
            let free = !m.handler_borrowed && !m.invalid_borrowed && m.surface_use
                == SurfaceUse::Free;
            &&& free ==> n.idle_queue.len() == 0 && n.handler_borrowed
            &&& free ==> n == WindowModel {
                idle_queue: n.idle_queue,
                handler_borrowed: n.handler_borrowed,
                ..m
            }
            &&& !free ==> n == m
        }),
{
}

/// Where there is idle work exactly one call of the toolkit is pending, and where there is none,
/// none is. Adding work asks for one if none is pending, and for no second one; a call that comes
/// through takes all of the work, and one that does not is made again.
pub proof fn law_one_idle_call_is_pending(m: WindowModel, calls: nat, kind: IdleKind)
    requires
        m.idle_queue.len() > 0 ==> calls == 1,
        m.idle_queue.len() == 0 ==> calls == 0,
    ensures
        crate::handle::with_idle(m, kind).idle_queue.len() > 0,
        crate::window::asks_for_idle_call(m) <==> calls == 0,
        calls == 1 ==> ({
            let n = crate::window::idle_run(m);
            n.idle_queue.len() > 0 <==> crate::window::is_repeated(crate::window::entry_of(m))
        }),
{
}

/// An attempt to call the handler is made again if and only if it was not let in.
pub proof fn law_attempts_are_repeated(m: WindowModel)
    ensures
        crate::window::is_repeated(crate::window::entry_of(m)) <==> m.handler_borrowed
            || m.invalid_borrowed || m.surface_use != SurfaceUse::Free,
{
}

// Frames.

/// A frame that is asked for is drawn: at once, or after the one that is being drawn, and not
/// both. Where none was asked for, none follows.
pub proof fn law_each_frame_is_drawn_once(m: WindowModel)
    ensures
        crate::draw::is_drawn_at_once(m) <==> !m.in_draw,
        !m.request_animation ==> (crate::draw::is_drawn_at_once(m) <==> !crate::draw::is_followed(
            crate::draw::frame_asked(m),
        )),
        !m.request_animation ==> !crate::draw::is_followed(crate::draw::frame_begun(m)),
        !crate::draw::is_followed(crate::draw::frame_begun(crate::draw::frame_ended(m))),
        crate::draw::is_followed(m) ==> crate::draw::is_followed(crate::draw::frame_asked(m)),
{
}

/// A frame that is asked for is remembered while one is being drawn, and only then; that a frame
/// begins or ends changes nothing but that one is being drawn, and at the end nothing is
/// remembered.
pub proof fn law_frames(m: WindowModel)
    ensures
        !m.in_draw ==> crate::draw::frame_asked(m) == m,
        m.in_draw ==> crate::draw::frame_asked(m).request_animation,
        (WindowModel { request_animation: m.request_animation, ..crate::draw::frame_asked(m) }) == m,
        crate::draw::frame_begun(m).in_draw,
        (WindowModel { in_draw: m.in_draw, ..crate::draw::frame_begun(m) }) == m,
        !crate::draw::frame_ended(m).in_draw,
        !crate::draw::frame_ended(m).request_animation,
        !m.in_draw && !m.request_animation ==> crate::draw::frame_ended(
            crate::draw::frame_begun(m),
        ) == m,
        (WindowModel {
            in_draw: m.in_draw,
            request_animation: m.request_animation,
            ..crate::draw::frame_ended(m)
        }) == m,
{
}

// Keys and fields.

/// A key that goes down is the one that is down; a key that goes up is not, and another one stays
/// down. Nothing else changes, and neither does it when a text field gets or loses the focus.
pub proof fn law_keys_and_fields(
    m: WindowModel,
    keycode: u16,
    field: Option<TextFieldToken>,
    gone: TextFieldToken,
)
    ensures
        ({
            let (down, up) = (
                crate::events::key_pressed(m, keycode),
                crate::events::key_released(m, keycode),
            );
            &&& down.current_keycode == Some(keycode)
            &&& up.current_keycode != Some(keycode)
            &&& m.current_keycode != Some(keycode) ==> up == m
            &&& (WindowModel { current_keycode: m.current_keycode, ..down }) == m
            &&& (WindowModel { current_keycode: m.current_keycode, ..up }) == m
            &&& crate::events::key_repeats(m, keycode) <==> m.current_keycode == Some(keycode)
        }),
        ({
            let (got, lost) = (crate::handle::focused(m, field), crate::handle::unfocused(m, gone));
            &&& got.active_text_input == field
            &&& crate::events::keys_go_to(got) == field
            &&& crate::events::keys_go_to(lost) != Some(gone)
            &&& lost.active_text_input != Some(gone)
            &&& m.active_text_input != Some(gone) ==> lost == m
            &&& (WindowModel { active_text_input: m.active_text_input, ..got }) == m
            &&& (WindowModel { active_text_input: m.active_text_input, ..lost }) == m
        }),
{
}

/// The client's wish to close the window, and a menu, are kept as they are given, and change
/// nothing else. The screen decides on transparency if there is one, and changes nothing else.
pub proof fn law_wishes(m: WindowModel, menu: Menu, rgba_visual: Option<bool>)
    ensures
        crate::handle::asked_to_close(m).closing,
        (WindowModel { closing: m.closing, ..crate::handle::asked_to_close(m) }) == m,
        crate::handle::menu_given(m, menu).menu == Some(menu),
        (WindowModel { menu: m.menu, ..crate::handle::menu_given(m, menu) }) == m,
        ({
            let n = crate::draw::on_screen(m, rgba_visual);
            &&& rgba_visual matches Some(has) ==> n.is_transparent == has
            &&& rgba_visual is None ==> n == m
            &&& (WindowModel { is_transparent: m.is_transparent, ..n }) == m
        }),
{
}

// The invalid region.

/// A patch that is marked goes to the end of what is invalid, and the region is in use until the
/// mark is over; then nothing but that patch has changed. While the region is in use nothing can
/// be marked.
pub proof fn law_marks(m: WindowModel, patch: Patch)
    ensures
        m.invalid_borrowed ==> crate::draw::marked(m, patch) == m,
        !m.invalid_borrowed ==> ({
            let n = crate::draw::marked(m, patch);
            let end = crate::draw::mark_over(n);
            &&& n.invalid_borrowed
            &&& n.invalid.drop_last() == m.invalid && n.invalid.len() == m.invalid.len() + 1
            &&& n.invalid.last() == patch
            &&& !end.invalid_borrowed
            &&& (WindowModel { invalid: m.invalid, ..end }) == m
            &&& end.invalid == n.invalid
        }),
        !crate::draw::mark_over(m).invalid_borrowed,
        (WindowModel { invalid_borrowed: m.invalid_borrowed, ..crate::draw::mark_over(m) }) == m,
{
    if !m.invalid_borrowed {
        assert(crate::draw::marked(m, patch).invalid.drop_last() =~= m.invalid);
    }
}

/// All of a window is all of its drawing area, in both dimensions, under the scale that the window
/// has.
pub proof fn law_all_of_a_window(m: WindowModel)
    ensures
        crate::draw::whole_of(m) matches Patch::Area(area, scale) && area.size_px.width
            == m.area.size_px.width && area.size_px.height == m.area.size_px.height && area.scale
            == m.area.scale && scale == m.scale,
{
}

// The surface.

/// `n` is what the dimension `x` is rounded up to: the multiple of its accuracy that is not below
/// it and less than the accuracy above it.
pub open spec fn is_rounded_up(n: int, x: int) -> bool {
    &&& n % crate::surface::accuracy(x) == 0
    &&& x <= n < x + crate::surface::accuracy(x)
}

/// A dimension is rounded up to exactly one number.
proof fn lemma_rounded_up(n: int, x: int)
    requires
        x <= i32::MAX,
    ensures
        is_rounded_up(n, x) <==> n == crate::surface::rounded_size(x),
{
    let a = crate::surface::accuracy(x);
    let r = crate::surface::rounded_size(x);
    crate::surface::law_rounded_size_bounds(x);
    crate::surface::law_accuracy_is_a_power_of_two(x);
    vstd::arithmetic::power2::lemma_pow2_pos(
        choose|k: nat| 5 <= k <= 30 && a == #[trigger] vstd::arithmetic::power2::pow2(k),
    );
    if is_rounded_up(n, x) {
        lemma_fundamental_div_mod(n, a);
        lemma_fundamental_div_mod(r, a);
        let (p, q) = (n / a, r / a);
        assert(n == a * p && r == a * q);
        assert(p == q) by (nonlinear_arith)
            requires
                -a < a * p - a * q < a,
                a > 0,
        ;
    }
}

/// The surface is kept if and only if there is one whose width and height are both those that the
/// dimensions are rounded up to. Otherwise one of just that size is called for; the old one, if
/// there is one, is finished before, and the new one has an alpha channel if and only if the
/// window is transparent.
pub proof fn law_surface_plan(m: WindowModel, width: i32, height: i32)
    requires
        width <= 0x6000_0000,
        height <= 0x6000_0000,
    ensures
        crate::draw::can_round(width, height),
        crate::draw::resize_plan(m, width, height) == ResizePlan::Keep <==> m.has_surface
            && is_rounded_up(m.surface_size.width as int, width as int) && is_rounded_up(
            m.surface_size.height as int,
            height as int,
        ),
        crate::draw::resize_plan(m, width, height) matches ResizePlan::Recreate {
            finish_old,
            content,
            size,
        } ==> {
            &&& finish_old == m.has_surface
            &&& content == Content::ColorAlpha <==> m.is_transparent
            &&& is_rounded_up(size.width as int, width as int)
            &&& is_rounded_up(size.height as int, height as int)
        },
{
    lemma_rounded_up(m.surface_size.width as int, width as int);
    lemma_rounded_up(m.surface_size.height as int, height as int);
    let size = crate::draw::surface_size_for(width, height);
    lemma_fits(width);
    lemma_fits(height);
    lemma_rounded_up(size.width as int, width as int);
    lemma_rounded_up(size.height as int, height as int);
}

/// A dimension that can be rounded is rounded to a machine integer.
proof fn lemma_fits(x: i32)
    requires
        x <= 0x6000_0000,
    ensures
        i32::MIN <= crate::surface::rounded_size(x as int) <= i32::MAX,
{
    crate::surface::law_rounded_size_bounds(x as int);
    crate::surface::law_rounded_size_monotone(x as int, 0x6000_0000);
    crate::surface::lemma_largest_is_rounded();
}

/// No dimension above the largest that can be rounded is rounded.
pub proof fn law_what_can_be_rounded(width: i32, height: i32)
    ensures
        crate::draw::can_round(width, height) <==> width <= 0x6000_0000 && height <= 0x6000_0000,
{
}

/// While a surface is being made there is none and it is in use. Then there is one if and only if
/// it was made, it is free, and it has the size that was called for. Nothing else changes, and
/// nothing at all where the surface is kept.
pub proof fn law_surface_is_replaced(
    m: WindowModel,
    width: i32,
    height: i32,
    outcome: SurfaceOutcome,
)
    ensures
        ({
            let plan = crate::draw::resize_plan(m, width, height);
            let during = crate::draw::resizing(m, width, height);
            let end = crate::draw::resized(during, outcome);
            &&& plan == ResizePlan::Keep ==> during == m
            &&& plan matches ResizePlan::Recreate { size, .. } ==> {
                &&& !during.has_surface
                &&& during.surface_use == SurfaceUse::Exclusive
                &&& during.surface_size == size
                &&& end.surface_size == size
            }
            &&& end.has_surface <==> outcome == SurfaceOutcome::Created
            &&& end.surface_use == SurfaceUse::Free
            &&& (WindowModel {
                has_surface: m.has_surface,
                surface_size: m.surface_size,
                surface_use: m.surface_use,
                ..end
            }) == m
            &&& (WindowModel {
                has_surface: m.has_surface,
                surface_size: m.surface_size,
                surface_use: m.surface_use,
                ..during
            }) == m
        }),
{
}

/// A failure is reported if and only if no surface was made, and each reason is told apart.
pub proof fn law_failures(outcome: SurfaceOutcome)
    ensures
        crate::draw::outcome_result(outcome) is Ok <==> outcome == SurfaceOutcome::Created,
        crate::draw::outcome_result(outcome) == Err::<(), SurfaceError>(SurfaceError::NoWindow)
            <==> outcome == SurfaceOutcome::NoWindow,
        crate::draw::outcome_result(outcome) == Err::<(), SurfaceError>(SurfaceError::CreateFailed)
            <==> outcome == SurfaceOutcome::Failed,
        crate::draw::failure_of(outcome) is None <==> outcome == SurfaceOutcome::Created,
        crate::draw::failure_of(outcome) == Some(SurfaceError::NoWindow) <==> outcome
            == SurfaceOutcome::NoWindow,
{
}

// Draws.

/// What answers a draw that has come so far. The size that was measured is taken unless the
/// surface would have to be replaced while it is in use, or for a size that cannot be rounded.
pub proof fn law_what_answers_a_draw(
    m: WindowModel,
    pass: DrawPass,
    scale: Option<Scale>,
    size: PxSize,
    outcome: SurfaceOutcome,
)
    ensures
        crate::draw::fits(m, pass, DrawEvent::Begun(scale)) <==> pass.phase == DrawPhase::Begin,
        crate::draw::fits(m, pass, DrawEvent::Told) <==> pass.phase == DrawPhase::TellScale
            || pass.phase == DrawPhase::TellSize || pass.phase == DrawPhase::Prepare,
        pass.phase == DrawPhase::Measure && m.surface_use == SurfaceUse::Free && size.width
            <= 0x6000_0000 && size.height <= 0x6000_0000 ==> crate::draw::fits(
            m,
            pass,
            DrawEvent::Measured(size),
        ),
        pass.phase == DrawPhase::Measure && m.has_surface && !pass.scale_changed
            && m.area.size_px.width == size.width && m.area.size_px.height == size.height
            ==> crate::draw::fits(m, pass, DrawEvent::Measured(size)),
        crate::draw::fits(m, pass, DrawEvent::Measured(size)) ==> pass.phase == DrawPhase::Measure,
        crate::draw::fits(m, pass, DrawEvent::Resurfaced(outcome)) <==> pass.phase
            == DrawPhase::Resurface && m.surface_use == SurfaceUse::Exclusive,
        crate::draw::fits(m, pass, DrawEvent::Invalidated) <==> pass.phase
            == DrawPhase::InvalidateAll && m.invalid_borrowed,
        crate::draw::fits(m, pass, DrawEvent::Painted) <==> pass.phase == DrawPhase::Paint
            && m.surface_use == SurfaceUse::Shared,
{
}

/// A draw begins with a look at the scale of the screen. If that is reported and equals no number
/// that the window's scale is, the window takes it and the handler is told that very scale;
/// otherwise nothing changes. Either way the draw goes by the scale that the window then has, and
/// measures the drawing area next, once the handler was told.
pub proof fn law_draw_begins(
    m: WindowModel,
    pass: DrawPass,
    reported: Option<Scale>,
    told: WindowModel,
)
    ensures
        ({
            let (next, after, action) = crate::draw::draw_next(
                m,
                pass,
                DrawEvent::Begun(reported),
            );
            let changed = reported matches Some(scale) && !(m.scale.x.same_number(scale.x)
                && m.scale.y.same_number(scale.y));
            &&& (WindowModel { scale: m.scale, ..next }) == m
            &&& next.scale == if changed {
                reported.unwrap()
            } else {
                m.scale
            }
            &&& after.scale == next.scale
            &&& after.scale_changed == changed
            &&& changed ==> action == DrawActionModel::Tell(HandlerCall::Scale(reported.unwrap()))
            &&& !changed ==> action is Measure && after.phase == DrawPhase::Measure
            &&& changed ==> {
                let (same, later, then) = crate::draw::draw_next(told, after, DrawEvent::Told);
                &&& same == told
                &&& then is Measure
                &&& later == DrawPass { phase: DrawPhase::Measure, ..after }
            }
        }),
{
}

/// After a draw has measured the drawing area, the window's area has exactly that size, in both
/// dimensions.
pub proof fn law_area_is_what_was_measured(m: WindowModel, pass: DrawPass, size: PxSize)
    ensures
        ({
            let next = crate::draw::draw_next(m, pass, DrawEvent::Measured(size)).0;
            &&& next.area.size_px.width == size.width
            &&& next.area.size_px.height == size.height
        }),
{
}

/// Whenever the measured width or the measured height differs from the area's, or the scale has
/// changed, or there is no surface, the handler is told the new size, under the scale of the
/// draw, before it is told to prepare: at once, or when a surface has been made or could not be.
/// Then all of that area is marked as invalid and the window redrawn, and only then the handler
/// prepares. `made`, `told` and `drawn` are the states that the window is in by then.
pub proof fn law_change_is_told(
    m: WindowModel,
    pass: DrawPass,
    size: PxSize,
    outcome: SurfaceOutcome,
    made: WindowModel,
    told: WindowModel,
    drawn: WindowModel,
)
    requires
        size.width != m.area.size_px.width || size.height != m.area.size_px.height
            || pass.scale_changed || (!m.has_surface && m.surface_use != SurfaceUse::Exclusive),
    ensures
        ({
            let area = ScaledArea { size_px: size, scale: pass.scale };
            let (next, waiting, first) = crate::draw::draw_next(
                m,
                pass,
                DrawEvent::Measured(size),
            );
            let (_, resurfaced, second) = crate::draw::draw_next(
                made,
                waiting,
                DrawEvent::Resurfaced(outcome),
            );
            let tell = DrawActionModel::Tell(HandlerCall::AreaSize(area));
            let telling = if first is Resurface {
                resurfaced
            } else {
                waiting
            };
            let (marked, redrawing, third) = crate::draw::draw_next(
                told,
                telling,
                DrawEvent::Told,
            );
            let (_, preparing, fourth) = crate::draw::draw_next(
                drawn,
                redrawing,
                DrawEvent::Invalidated,
            );
            let prepare = DrawActionModel::Tell(HandlerCall::PreparePaint);
            &&& next.area == area
            &&& first == tell || (first is Resurface && second == tell)
            &&& first is Resurface <==> waiting.phase == DrawPhase::Resurface
            &&& telling.phase == DrawPhase::TellSize
            &&& !told.invalid_borrowed ==> {
                &&& marked.invalid == told.invalid.push(Patch::Area(area, told.scale))
                &&& marked.invalid_borrowed
                &&& third is RedrawWindow
                &&& redrawing.phase == DrawPhase::InvalidateAll
                &&& fourth == prepare
                &&& preparing.phase == DrawPhase::Prepare
            }
            &&& told.invalid_borrowed ==> marked == told && third == prepare
        }),
{
}

/// The surface that a draw calls for is the one for the size that it measured, and it calls for
/// none if the one that is there will do.
pub proof fn law_draw_calls_for_the_surface(m: WindowModel, pass: DrawPass, size: PxSize)
    requires
        size.width <= 0x6000_0000,
        size.height <= 0x6000_0000,
    ensures
        ({
            let (next, waiting, action) = crate::draw::draw_next(
                m,
                pass,
                DrawEvent::Measured(size),
            );
            &&& action matches DrawActionModel::Resurface { finish_old, content, size: made } ==> {
                &&& is_rounded_up(made.width as int, size.width as int)
                &&& is_rounded_up(made.height as int, size.height as int)
                &&& finish_old == m.has_surface
                &&& content == Content::ColorAlpha <==> m.is_transparent
                &&& next.surface_size == made
                &&& next.surface_use == SurfaceUse::Exclusive
                &&& !next.has_surface
            }
            &&& action matches DrawActionModel::Tell(HandlerCall::AreaSize(_)) ==> {
                &&& m.has_surface
                &&& is_rounded_up(m.surface_size.width as int, size.width as int)
                &&& is_rounded_up(m.surface_size.height as int, size.height as int)
                &&& (WindowModel { area: m.area, ..next }) == m
            }
            &&& action is Resurface || action is Tell
        }),
{
    let measured = WindowModel {
        area: ScaledArea { size_px: size, scale: pass.scale },
        ..m
    };
    law_surface_plan(measured, size.width, size.height);
}

/// A draw keeps what it found out: its scale from its beginning, the area from when it measured
/// it, and the reason for which it has no surface.
pub proof fn law_draw_remembers(m: WindowModel, pass: DrawPass, event: DrawEvent)
    ensures
        ({
            let (next, after, action) = crate::draw::draw_next(m, pass, event);
            &&& !(event is Begun) ==> after.scale == pass.scale && after.scale_changed
                == pass.scale_changed
            &&& !(event is Begun) ==> next.scale == m.scale
            &&& !(event is Measured) ==> after.area == pass.area && next.area == m.area
            &&& event matches DrawEvent::Resurfaced(outcome) ==> {
                &&& after.failure is None <==> outcome == SurfaceOutcome::Created
                &&& after.failure == Some(SurfaceError::NoWindow) <==> outcome
                    == SurfaceOutcome::NoWindow
                &&& next.has_surface <==> outcome == SurfaceOutcome::Created
                &&& next.surface_use == SurfaceUse::Free
                &&& next.invalid == m.invalid && next.handler_borrowed == m.handler_borrowed
            }
            &&& !(event is Resurfaced) ==> after.failure == pass.failure
        }),
{
}

/// When the handler has prepared, it paints if and only if there is a surface that is not being
/// replaced and it is free: all that is invalid, under the scale of the draw, and from then on it
/// and the surface are in use. Without a surface, or while the handler is in use, the draw says
/// which it was and is over. What was invalid is so no longer in any case, unless the region is
/// in use: then nothing of it is painted and all of it stays.
pub proof fn law_end_of_a_draw(m: WindowModel, pass: DrawPass)
    requires
        pass.phase == DrawPhase::Prepare,
    ensures
        ({
            let (next, after, action) = crate::draw::draw_next(m, pass, DrawEvent::Told);
            let surface = m.has_surface && m.surface_use != SurfaceUse::Exclusive;
            let region = if m.invalid_borrowed {
                Seq::<Patch>::empty()
            } else {
                m.invalid
            };
            &&& action is NoSurface <==> !surface
            &&& action is Busy <==> surface && m.handler_borrowed
            &&& action is Paint <==> surface && !m.handler_borrowed
            &&& action matches DrawActionModel::Paint { invalid, scale } ==> {
                &&& invalid == region
                &&& scale == pass.scale
                &&& next.handler_borrowed && next.surface_use == SurfaceUse::Shared
                &&& after.phase == DrawPhase::Paint
            }
            &&& !(action is Paint) ==> {
                &&& next.handler_borrowed == m.handler_borrowed
                &&& next.surface_use == m.surface_use
                &&& after.phase == DrawPhase::Done
            }
            &&& region + next.invalid == m.invalid
            &&& !m.invalid_borrowed ==> next.invalid.len() == 0
            &&& (WindowModel {
                invalid: m.invalid,
                handler_borrowed: m.handler_borrowed,
                surface_use: m.surface_use,
                ..next
            }) == m
        }),
        ({
            let (next, after, action) = crate::draw::draw_next(
                m,
                DrawPass { phase: DrawPhase::Paint, ..pass },
                DrawEvent::Painted,
            );
            &&& action is Done && after.phase == DrawPhase::Done
            &&& !next.handler_borrowed && next.surface_use == SurfaceUse::Free
            &&& (WindowModel {
                handler_borrowed: m.handler_borrowed,
                surface_use: m.surface_use,
                ..next
            }) == m
        }),
        ({
            let (next, after, action) = crate::draw::draw_next(
                m,
                DrawPass { phase: DrawPhase::InvalidateAll, ..pass },
                DrawEvent::Invalidated,
            );
            &&& action == DrawActionModel::Tell(HandlerCall::PreparePaint)
            &&& after.phase == DrawPhase::Prepare
            &&& !next.invalid_borrowed
            &&& (WindowModel { invalid_borrowed: m.invalid_borrowed, ..next }) == m
        }),
{
    let next = crate::draw::draw_next(m, pass, DrawEvent::Told).0;
    if m.invalid_borrowed {
        assert(Seq::<Patch>::empty() + next.invalid =~= m.invalid);
    } else {
        assert(m.invalid + next.invalid =~= m.invalid);
    }
}

}
