//! What holds of a window across several of its operations.

use vstd::prelude::*;

use crate::calls::HandlerCall;
use crate::draw::{DrawEvent, DrawPass, DrawPhase};
use crate::geometry::{Patch, PxSize, Real, Scale};
use crate::handle::{SizeState, WindowAction, WindowHandle, WindowsModel};
use crate::input::{ButtonEvent, MouseEvent, ScrollDirection};
use crate::surface::SurfaceOutcome;
use crate::tokens::TextFieldToken;
use crate::window::{DeferredOp, HandlerEntry, IdleKind, WindowModel};

verus! {

// Calls of the handler.

/// Calls of the handler do not nest: once one was let in, no other is until it has ended, and
/// none is let in while the handler paints.
pub proof fn law_calls_do_not_nest(m: WindowModel)
    ensures
        m.handler_borrowed ==> !(crate::window::entry_of(m) is Entered),
        !(crate::window::entry_of(crate::window::entered(m)) is Entered),
        m.wf() && m.surface_use is Shared ==> crate::window::entry_of(m) is Refused,
{
}

/// A call that was let in leaves nothing behind but an empty queue: the handler is free again.
pub proof fn law_call_ends(m: WindowModel)
    requires
        crate::window::entry_of(m) is Entered,
    ensures
        crate::window::finished(crate::window::entered(m), HandlerEntry::Entered) == (WindowModel {
            deferred_queue: Seq::empty(),
            ..m
        }),
        crate::window::entry_of(
            crate::window::finished(crate::window::entered(m), HandlerEntry::Entered),
        ) is Entered,
{
}

/// An operation that is put off is handed out once. It stays in the queue while calls are
/// refused; the first call that is not refused hands it out, after those that were put off
/// before, and no later one hands it out again.
pub proof fn law_deferred_once(m: WindowModel, op: DeferredOp, entry: HandlerEntry)
    requires
        !(entry is Refused),
    ensures
        ({
            let queued = crate::handle::put_off(m, op);
            &&& crate::window::finished(queued, HandlerEntry::Refused) == queued
            &&& crate::deferred::handed_out(queued, HandlerEntry::Refused).len() == 0
            &&& crate::deferred::handed_out(queued, entry) == m.deferred_queue.push(op)
            &&& crate::deferred::handed_out(
                crate::window::finished(queued, entry),
                entry,
            ).len() == 0
        }),
{
}

/// Deferred operations are done while the handler is free, except those that are handed out when
/// a call was attempted inside another one.
pub proof fn law_deferred_is_done_outside_calls(m: WindowModel, entry: HandlerEntry)
    requires
        !(entry is Busy),
    ensures
        crate::deferred::handed_out(m, entry).len() > 0 ==> !crate::window::finished(
            m,
            entry,
        ).handler_borrowed,
{
}

/// A request for a file is answered by its own token: what is done for a deferred request is
/// its own dialog, and what the handler is told of that bears the token that was given out.
pub proof fn law_request_is_answered(
    waiting: Seq<DeferredOp>,
    call: HandlerCall,
    path: Option<Vec<u8>>,
)
    requires
        waiting.len() > 0,
        crate::deferred::next_of(waiting).1 is FileDialog,
        crate::deferred::next_of(waiting).1->FileDialog_0.is_answered_by(call, path),
    ensures
        match waiting[0] {
            DeferredOp::Open(_, token) => call matches HandlerCall::OpenFile(t, _) && t == token,
            DeferredOp::SaveAs(_, token) => call matches HandlerCall::SaveAs(t, _) && t == token,
            DeferredOp::ContextMenu(..) => false,
        },
        crate::deferred::next_of(waiting).0 == waiting.drop_first(),
{
}

// Drawing.

/// How many steps of a draw are still to come at most.
pub open spec fn steps_left(phase: DrawPhase) -> nat {
    match phase {
        DrawPhase::Begin => 8,
        DrawPhase::TellScale => 7,
        DrawPhase::Measure => 6,
        DrawPhase::Resurface => 5,
        DrawPhase::TellSize => 4,
        DrawPhase::InvalidateAll => 3,
        DrawPhase::Prepare => 2,
        DrawPhase::Paint => 1,
        DrawPhase::Done => 0,
    }
}

/// Every step of a draw brings it nearer to its end.
pub proof fn law_draw_ends(m: WindowModel, pass: DrawPass, event: DrawEvent)
    requires
        crate::draw::fits(m, pass, event),
    ensures
        steps_left(crate::draw::draw_next(m, pass, event).1.phase) < steps_left(pass.phase),
{
}

/// A draw is over only once it has said so, and then nothing fits it any more.
pub proof fn law_draw_is_over(m: WindowModel, pass: DrawPass, event: DrawEvent)
    requires
        crate::draw::fits(m, pass, event),
    ensures
        ({
            let (next, after, action) = crate::draw::draw_next(m, pass, event);
            after.phase is Done <==> action is Done || action is Busy || action is NoSurface
        }),
        !(pass.phase is Done),
{
}

/// Drawing keeps what it is not about: the queues, the keys, the focus, the pending frame, the
/// parent, the menu, and the client's wish to close the window.
pub proof fn law_draw_keeps_the_rest(m: WindowModel, pass: DrawPass, event: DrawEvent)
    ensures
        ({
            let next = crate::draw::draw_next(m, pass, event).0;
            next == WindowModel {
                scale: next.scale,
                area: next.area,
                has_surface: next.has_surface,
                surface_size: next.surface_size,
                surface_use: next.surface_use,
                invalid: next.invalid,
                invalid_borrowed: next.invalid_borrowed,
                handler_borrowed: next.handler_borrowed,
                ..m
            }
        }),
{
}

/// The handler paints exactly what is invalid, and from then on nothing is.
pub proof fn law_paint_covers_invalid(m: WindowModel, pass: DrawPass, event: DrawEvent)
    requires
        crate::draw::fits(m, pass, event),
        !m.invalid_borrowed,
        crate::draw::draw_next(m, pass, event).2 is Paint,
    ensures
        crate::draw::draw_next(m, pass, event).2->Paint_invalid == m.invalid,
        crate::draw::draw_next(m, pass, event).0.invalid == Seq::<Patch>::empty(),
{
}

/// A draw does not begin to paint inside a call of the handler, nor without a surface, and it
/// gives back what it took: when the painting is over, the handler and the surface are free.
pub proof fn law_paint_takes_and_gives_back(m: WindowModel, pass: DrawPass, event: DrawEvent)
    requires
        m.wf(),
        crate::draw::fits(m, pass, event),
    ensures
        ({
            let (next, after, action) = crate::draw::draw_next(m, pass, event);
            &&& action is Paint ==> !m.handler_borrowed && m.has_surface && m.surface_use is Free
            &&& action is Paint ==> next.handler_borrowed && next.surface_use is Shared
            &&& event is Painted ==> !next.handler_borrowed && next.surface_use is Free
            &&& !(action is Paint) && !(event is Painted) ==> next.handler_borrowed
                == m.handler_borrowed
            &&& m.handler_borrowed && !(m.surface_use is Shared) ==> !(next.surface_use is Shared)
        }),
{
}

/// Dimensions that can be rounded are rounded to ones that fit into a machine integer.
proof fn lemma_rounded_fits(x: i32)
    requires
        x <= 0x6000_0000,
    ensures
        i32::MIN <= crate::surface::rounded_size(x as int) <= 0x6000_0000,
        crate::surface::rounded_size(x as int) >= x,
{
    crate::surface::law_rounded_size_bounds(x as int);
    crate::surface::law_rounded_size_monotone(x as int, 0x6000_0000);
    crate::surface::lemma_largest_is_rounded();
}

/// Nothing is painted on a surface that is smaller than the drawing area.
pub proof fn law_surface_covers_area(m: WindowModel)
    requires
        crate::history::surface_suits(m),
        m.has_surface,
    ensures
        m.area.size_px.width <= m.surface_size.width,
        m.area.size_px.height <= m.surface_size.height,
{
    lemma_rounded_fits(m.area.size_px.width);
    lemma_rounded_fits(m.area.size_px.height);
}

/// A surface that was made for a drawing area is kept as long as the area keeps its size, and
/// also when the area takes the size of the surface itself.
pub proof fn law_surface_is_kept(m: WindowModel, width: i32, height: i32)
    requires
        crate::draw::can_round(width, height),
        crate::draw::resize_plan(m, width, height) is Recreate,
    ensures
        ({
            let made = crate::draw::resized(
                crate::draw::resizing(m, width, height),
                SurfaceOutcome::Created,
            );
            &&& made.has_surface
            &&& crate::draw::resize_plan(made, width, height) is Keep
            &&& crate::draw::resize_plan(
                made,
                made.surface_size.width,
                made.surface_size.height,
            ) is Keep
        }),
{
    lemma_rounded_fits(width);
    lemma_rounded_fits(height);
    crate::surface::law_rounded_size_idempotent(width as int);
    crate::surface::law_rounded_size_idempotent(height as int);
}

/// A surface that could not be made is asked for again: there is none, so the next draw looks
/// at the surface whatever the size is.
pub proof fn law_failed_surface_is_retried(
    m: WindowModel,
    outcome: SurfaceOutcome,
    pass: DrawPass,
    size: PxSize,
)
    requires
        !(outcome is Created),
    ensures
        crate::draw::needs_resize(crate::draw::resized(m, outcome), pass, size),
        crate::draw::resize_plan(
            crate::draw::resized(m, outcome),
            size.width,
            size.height,
        ) is Recreate,
{
}

/// The window follows the scale that its screen reports, without being built anew, and the
/// handler is told once: a draw under the same report tells it nothing.
pub proof fn law_scale_follows_the_screen(
    m: WindowModel,
    pass: DrawPass,
    scale: Scale,
    later: DrawPass,
)
    requires
        pass.phase is Begin,
        later.phase is Begin,
        !scale.x.is_nan(),
        !scale.y.is_nan(),
    ensures
        ({
            let (next, after, action) = crate::draw::draw_next(
                m,
                pass,
                DrawEvent::Begun(Some(scale)),
            );
            &&& next.scale.same_scale(scale)
            &&& after.scale == next.scale
            &&& after.scale_changed <==> !m.scale.same_scale(scale)
            &&& after.scale_changed <==> action is Tell
            &&& crate::draw::draw_next(
                next,
                later,
                DrawEvent::Begun(Some(scale)),
            ).2 is Measure
        }),
{
}

/// A window whose size and scale are what they were keeps its surface, and its handler is not
/// told the size again.
pub proof fn law_steady_window_is_only_painted(m: WindowModel, pass: DrawPass, size: PxSize)
    requires
        m.has_surface,
        m.area.size_px == size,
        !pass.scale_changed,
        pass.phase is Measure,
    ensures
        ({
            let (next, after, action) = crate::draw::draw_next(
                m,
                pass,
                DrawEvent::Measured(size),
            );
            &&& next == m
            &&& after.phase is Prepare
            &&& action == crate::draw::DrawActionModel::Tell(HandlerCall::PreparePaint)
        }),
{
}

/// A window that is measured at another size, or under another scale, is painted all over
/// again: before the handler prepares to paint, all of the area is marked as invalid, unless the
/// region is in use.
pub proof fn law_resized_window_is_painted_anew(
    m: WindowModel,
    pass: DrawPass,
    size: PxSize,
    outcome: SurfaceOutcome,
    told: WindowModel,
)
    requires
        pass.phase is Measure,
        crate::draw::needs_resize(m, pass, size),
        crate::draw::fits(m, pass, DrawEvent::Measured(size)),
    ensures
        ({
            let area = crate::geometry::ScaledArea { size_px: size, scale: pass.scale };
            let (measured, waiting, first) = crate::draw::draw_next(
                m,
                pass,
                DrawEvent::Measured(size),
            );
            let (sized, telling, second) = if first is Tell {
                (measured, waiting, first)
            } else {
                crate::draw::draw_next(measured, waiting, DrawEvent::Resurfaced(outcome))
            };
            &&& sized.area == area
            &&& second == crate::draw::DrawActionModel::Tell(HandlerCall::AreaSize(area))
            &&& !told.invalid_borrowed ==> {
                let (all, _, third) = crate::draw::draw_next(told, telling, DrawEvent::Told);
                &&& all.invalid == told.invalid.push(Patch::Area(area, told.scale))
                &&& third is RedrawWindow
            }
        }),
{
}

// Frames.

/// A frame that is asked for while one is being drawn follows it, and only once.
pub proof fn law_frame_follows(m: WindowModel)
    requires
        m.in_draw,
    ensures
        ({
            let asked = crate::draw::frame_asked(m);
            let ended = crate::draw::frame_ended(asked);
            &&& asked.request_animation
            &&& !ended.in_draw
            &&& !ended.request_animation
            &&& !crate::draw::frame_ended(crate::draw::frame_begun(ended)).request_animation
            &&& ended == crate::draw::frame_ended(m)
        }),
{
}

// Keys.

/// A key repeats while it is held: pressed again it repeats, and released and pressed again it
/// does not.
pub proof fn law_key_repeats_while_held(m: WindowModel, keycode: u16)
    ensures
        crate::events::key_repeats(crate::events::key_pressed(m, keycode), keycode),
        !crate::events::key_repeats(
            crate::events::key_released(crate::events::key_pressed(m, keycode), keycode),
            keycode,
        ),
        !crate::events::key_repeats(crate::events::key_released(m, keycode), keycode),
{
}

/// Only the key that went down last repeats, and releasing another one does not change that.
pub proof fn law_last_key_repeats(m: WindowModel, keycode: u16, other: u16)
    requires
        keycode != other,
    ensures
        !crate::events::key_repeats(
            crate::events::key_pressed(crate::events::key_pressed(m, other), keycode),
            other,
        ),
        crate::events::key_repeats(
            crate::events::key_released(crate::events::key_pressed(m, keycode), other),
            keycode,
        ),
{
}

/// Keys go to the text field that was given the focus last. Taking a field away takes the focus
/// from it and from no other field, and pressing and releasing keys does not move the focus.
pub proof fn law_focus_stays(
    m: WindowModel,
    field: TextFieldToken,
    other: TextFieldToken,
    keycode: u16,
)
    ensures
        crate::handle::focused(m, Some(field)).active_text_input == Some(field),
        crate::handle::unfocused(crate::handle::focused(m, Some(field)), field)
            == crate::handle::focused(m, None),
        other != field ==> crate::handle::unfocused(
            crate::handle::focused(m, Some(field)),
            other,
        ) == crate::handle::focused(m, Some(field)),
        crate::events::key_pressed(m, keycode).active_text_input == m.active_text_input,
        crate::events::key_released(m, keycode).active_text_input == m.active_text_input,
{
}

// The mouse.

/// A button that is pressed is among those that are held, and one that is released is not.
pub proof fn law_button_is_held(
    down: MouseEvent,
    up: MouseEvent,
    event: ButtonEvent,
    clicks: u8,
    scale: Scale,
)
    requires
        crate::input::is_press(down, event, clicks, scale),
        crate::input::is_release(up, event, scale),
    ensures
        down.buttons@.contains(down.button),
        !up.buttons@.contains(up.button),
        down.button == up.button,
        down.buttons@.remove(down.button) == up.buttons@,
{
    assert(down.buttons@.remove(down.button) =~= up.buttons@);
}

/// With shift held, a vertical turn of the wheel is the horizontal one; a horizontal turn stays
/// what it is.
pub proof fn law_shift_turns_the_wheel(delta_x: Real, delta_y: Real, shift: bool)
    ensures
        crate::input::wheel_delta(ScrollDirection::Up, delta_x, delta_y, true)
            == crate::input::wheel_delta(ScrollDirection::Left, delta_x, delta_y, shift),
        crate::input::wheel_delta(ScrollDirection::Down, delta_x, delta_y, true)
            == crate::input::wheel_delta(ScrollDirection::Right, delta_x, delta_y, shift),
{
}

// Idle work.

/// The toolkit will call if there is idle work: `calls` are pending.
pub open spec fn idle_is_served(m: WindowModel, calls: nat) -> bool {
    m.idle_queue.len() > 0 ==> calls > 0
}

/// Idle work is never forgotten. Where there is work, a call of the toolkit is pending; adding
/// work asks for one if there was none, and a call that does not come through leaves the work
/// and is repeated.
pub proof fn law_idle_work_is_served(m: WindowModel, calls: nat, kind: IdleKind)
    requires
        idle_is_served(m, calls),
    ensures
        ({
            let asked: nat = if m.idle_queue.len() == 0 {
                1
            } else {
                0
            };
            idle_is_served(crate::handle::with_idle(m, kind), calls + asked)
        }),
        calls > 0 ==> ({
            let repeated: nat = if crate::window::entry_of(m) is Entered {
                0
            } else {
                1
            };
            idle_is_served(crate::window::idle_run(m), (calls - 1 + repeated) as nat)
        }),
        !(crate::window::entry_of(m) is Entered) ==> crate::window::idle_run(m).idle_queue
            == m.idle_queue,
{
}

// Handles.

/// To reach the same window is an equivalence. All handles of dropped windows are equivalent.
pub proof fn law_same_window_is_equivalence(
    m: WindowsModel,
    a: WindowHandle,
    b: WindowHandle,
    c: WindowHandle,
)
    ensures
        a.is_same(m, a),
        a.is_same(m, b) == b.is_same(m, a),
        a.is_same(m, b) && b.is_same(m, c) ==> a.is_same(m, c),
        !m.is_live(a) && !m.is_live(b) ==> a.is_same(m, b),
        a.is_same(m, b) && m.is_live(a) ==> m.state(a) == m.state(b),
{
}

/// What happens to one window does not happen to another.
pub proof fn law_windows_are_separate(
    m: WindowsModel,
    handle: WindowHandle,
    other: WindowHandle,
    state: WindowModel,
)
    requires
        m.is_live(handle),
        handle.slot != other.slot,
    ensures
        m.with_state(handle, state).is_live(other) == m.is_live(other),
        m.is_live(other) ==> m.with_state(handle, state).state(other) == m.state(other),
        m.with_state(handle, state).state(handle) == state,
{
}

/// The position of a window is made up of windows that exist, each older than the one before;
/// there is at most one for each window that was ever built.
pub proof fn law_position_is_finite(m: WindowsModel, handle: WindowHandle)
    requires
        m.wf(),
    ensures
        ({
            let chain = crate::handle::position_chain(m, handle);
            &&& forall|i: int|
                #![trigger chain[i]]
                0 <= i < chain.len() ==> m.is_live(chain[i].window) && chain[i].scale == m.state(
                    chain[i].window,
                ).scale
            &&& chain.len() <= m.slots.len()
            &&& handle.slot matches Some(i) ==> chain.len() <= i + 1
            &&& m.is_live(handle) <==> chain.len() > 0
        }),
    decreases
            (match handle.slot {
                Some(i) => i as int + 1,
                None => 0,
            }),
{
    if m.is_live(handle) {
        if let Some(parent) = m.state(handle).parent {
            law_position_is_finite(m, parent);
        }
    }
}

/// Whatever size state is asked for, the window ends up unmaximized, and asking for the state
/// that it is in does nothing else.
pub proof fn law_window_is_unmaximized(requested: SizeState, current: SizeState)
    ensures
        ({
            let actions = crate::handle::size_state_actions(requested, current);
            &&& actions.last() == WindowAction::Unmaximize
            &&& requested == current ==> actions == seq![WindowAction::Unmaximize]
            &&& requested != current ==> actions.len() == 2
        }),
{
    assert(crate::handle::size_state_actions(requested, requested) =~= seq![
        WindowAction::Unmaximize,
    ]);
}

}
