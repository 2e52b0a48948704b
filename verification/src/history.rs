//! What holds of a window over everything that may happen to it.
//!
//! A history is a sequence of steps, each of which is one of the operations on a window's state.
//! [`run`] is the state that it leads to. The laws here hold of every history, however long.

use vstd::prelude::*;

use crate::calls::HandlerCall;
use crate::draw::{DrawActionModel, DrawEvent, DrawPass, DrawPhase};
use crate::geometry::Patch;
use crate::events::{CloseAction, CloseRequest};
use crate::handle::{MenuStep, WindowHandle, WindowsModel};
use crate::surface::SurfaceOutcome;
use crate::tokens::{Counter, TextFieldToken};
use crate::window::{
    DeferredOp, FileDialogOptions, HandlerEntry, IdleKind, Menu, WindowModel,
};

verus! {

/// Something that happens to a window.
pub enum Step {
    /// A call of the handler is attempted.
    Enter,
    /// The handler is taken into use without a look at the rest.
    Take,
    /// A call of the handler, or the attempt at one, ends.
    Finish(HandlerEntry),
    Defer(DeferredOp),
    RunDeferred,
    AddIdle(IdleKind),
    RunIdle,
    AskFrame,
    BeginFrame,
    EndFrame,
    /// A patch is marked as invalid.
    Mark(Patch),
    /// The invalid region is no longer in use.
    MarkOver,
    ScreenChanged(Option<bool>),
    /// The surface is looked at for the drawing area as it is.
    Resize,
    Resized(SurfaceOutcome),
    Draw(DrawPass, DrawEvent),
    PressKey(u16),
    ReleaseKey(u16),
    Focus(Option<TextFieldToken>),
    Unfocus(TextFieldToken),
    /// The client asks for the window to be closed.
    Close,
    SetMenu(Menu),
}

/// What a draw does on an event, as [`crate::draw::draw_next`] says: the state, how far it has
/// come, and what is to be done next.
#[verifier::opaque]
pub open spec fn turned(m: WindowModel, pass: DrawPass, event: DrawEvent) -> (
    WindowModel,
    DrawPass,
    DrawActionModel,
) {
    crate::draw::draw_next(m, pass, event)
}

/// The event answers what the draw waits for, as [`crate::draw::fits`] says.
#[verifier::opaque]
pub open spec fn answers(m: WindowModel, pass: DrawPass, event: DrawEvent) -> bool {
    crate::draw::fits(m, pass, event)
}

/// The step may be taken in this state.
#[verifier::opaque]
pub open spec fn may(m: WindowModel, step: Step) -> bool {
    match step {
        Step::Finish(entry) => entry is Entered ==> m.handler_borrowed && !(m.surface_use is Shared),
        Step::Resize => m.surface_use is Free && crate::draw::can_round(
            m.area.size_px.width,
            m.area.size_px.height,
        ),
        Step::Resized(_) => m.surface_use is Exclusive,
        Step::Draw(pass, event) => answers(m, pass, event),
        _ => true,
    }
}

/// The state after the step.
#[verifier::opaque]
pub open spec fn after(m: WindowModel, step: Step) -> WindowModel {
    match step {
        Step::Enter => crate::window::entered(m),
        Step::Take => WindowModel { handler_borrowed: true, ..m },
        Step::Finish(entry) => crate::window::finished(m, entry),
        Step::Defer(op) => crate::handle::put_off(m, op),
        Step::RunDeferred => WindowModel { deferred_queue: Seq::empty(), ..m },
        Step::AddIdle(kind) => crate::handle::with_idle(m, kind),
        Step::RunIdle => crate::window::idle_run(m),
        Step::AskFrame => crate::draw::frame_asked(m),
        Step::BeginFrame => crate::draw::frame_begun(m),
        Step::EndFrame => crate::draw::frame_ended(m),
        Step::Mark(patch) => crate::draw::marked(m, patch),
        Step::MarkOver => crate::draw::mark_over(m),
        Step::ScreenChanged(rgba_visual) => crate::draw::on_screen(m, rgba_visual),
        Step::Resize => crate::draw::resizing(m, m.area.size_px.width, m.area.size_px.height),
        Step::Resized(outcome) => crate::draw::resized(m, outcome),
        Step::Draw(pass, event) => turned(m, pass, event).0,
        Step::PressKey(keycode) => crate::events::key_pressed(m, keycode),
        Step::ReleaseKey(keycode) => crate::events::key_released(m, keycode),
        Step::Focus(field) => crate::handle::focused(m, field),
        Step::Unfocus(field) => crate::handle::unfocused(m, field),
        Step::Close => crate::handle::asked_to_close(m),
        Step::SetMenu(menu) => crate::handle::menu_given(m, menu),
    }
}

/// The state that a history leads to.
pub open spec fn run(m: WindowModel, steps: Seq<Step>) -> WindowModel
    decreases steps.len(),
{
    if steps.len() == 0 {
        m
    } else {
        after(run(m, steps.drop_last()), steps.last())
    }
}

/// Every step of the history may be taken when its turn comes.
pub open spec fn goes(m: WindowModel, steps: Seq<Step>) -> bool
    decreases steps.len(),
{
    steps.len() > 0 ==> goes(m, steps.drop_last()) && may(
        run(m, steps.drop_last()),
        steps.last(),
    )
}

/// What one step does to those parts of the state that few steps are about.
proof fn lemma_one_step(m: WindowModel, step: Step)
    ensures
        after(m, step).parent == m.parent,
        after(m, step).closing == (m.closing || step is Close),
        after(m, step).current_keycode == match step {
            Step::PressKey(keycode) => Some(keycode),
            Step::ReleaseKey(keycode) => if m.current_keycode == Some(keycode) {
                None
            } else {
                m.current_keycode
            },
            _ => m.current_keycode,
        },
        after(m, step).menu == match step {
            Step::SetMenu(menu) => Some(menu),
            _ => m.menu,
        },
{
    reveal(after);
    if let Step::Draw(pass, event) = step {
        reveal(turned);
        crate::laws::law_draw_keeps_the_rest(m, pass, event);
    }
}

/// What one step does to the queues.
proof fn lemma_one_step_queues(m: WindowModel, step: Step)
    ensures
        after(m, step).idle_queue == match step {
            Step::AddIdle(kind) => m.idle_queue.push(kind),
            Step::RunIdle => if crate::window::entry_of(m) is Entered {
                Seq::empty()
            } else {
                m.idle_queue
            },
            _ => m.idle_queue,
        },
        after(m, step).deferred_queue == match step {
            Step::Defer(op) => m.deferred_queue.push(op),
            Step::RunDeferred => Seq::empty(),
            Step::Finish(entry) => if entry is Refused {
                m.deferred_queue
            } else {
                Seq::empty()
            },
            _ => m.deferred_queue,
        },
{
    reveal(after);
    if let Step::Draw(pass, event) = step {
        reveal(turned);
        crate::laws::law_draw_keeps_the_rest(m, pass, event);
    }
}

/// A step of a draw leaves an orderly window in order.
proof fn lemma_draw_step_order(m: WindowModel, pass: DrawPass, event: DrawEvent)
    requires
        answers(m, pass, event),
        m.wf(),
        surface_suits(m),
    ensures
        turned(m, pass, event).0.wf(),
        surface_suits(turned(m, pass, event).0),
{
    reveal(answers);
    reveal(turned);
}

/// One step leaves an orderly window in order.
proof fn lemma_one_step_order(m: WindowModel, step: Step)
    requires
        may(m, step),
        m.wf(),
        surface_suits(m),
    ensures
        after(m, step).wf(),
        surface_suits(after(m, step)),
{
    reveal(after);
    reveal(may);
    match step {
        Step::Draw(pass, event) => {
            lemma_draw_step_order(m, pass, event);
        },
        Step::Resize => {},
        Step::Resized(_) => {},
        _ => {
            let next = after(m, step);
            assert(next.area == m.area && next.has_surface == m.has_surface);
            assert(next.surface_size == m.surface_size && next.surface_use == m.surface_use);
        },
    }
}

/// What a step of a draw does to the invalid region.
proof fn lemma_draw_step_invalid(m: WindowModel, pass: DrawPass, event: DrawEvent)
    requires
        answers(m, pass, event),
    ensures
        turned(m, pass, event).0.invalid == if draw_is_taking(m, pass, event) {
            Seq::empty()
        } else {
            m.invalid + draw_marks(m, pass, event)
        },
{
    reveal(answers);
    reveal(turned);
    if !draw_is_taking(m, pass, event) {
        assert(turned(m, pass, event).0.invalid =~= m.invalid + draw_marks(m, pass, event));
    }
}

/// What one step does to the invalid region.
proof fn lemma_one_step_invalid(m: WindowModel, step: Step)
    requires
        may(m, step),
    ensures
        after(m, step).invalid == match step {
            Step::Mark(patch) => if m.invalid_borrowed {
                m.invalid
            } else {
                m.invalid.push(patch)
            },
            Step::Draw(pass, event) => if draw_is_taking(m, pass, event) {
                Seq::empty()
            } else {
                m.invalid + draw_marks(m, pass, event)
            },
            _ => m.invalid,
        },
{
    reveal(after);
    reveal(may);
    if let Step::Draw(pass, event) = step {
        lemma_draw_step_invalid(m, pass, event);
    }
}

// Order.

/// The surface is the one for the drawing area.
pub open spec fn surface_suits(m: WindowModel) -> bool {
    m.has_surface || m.surface_use is Exclusive ==> {
        &&& crate::draw::can_round(m.area.size_px.width, m.area.size_px.height)
        &&& m.surface_size == crate::draw::surface_size_for(
            m.area.size_px.width,
            m.area.size_px.height,
        )
    }
}

/// A new window has no surface that could be wrong, and whatever happens to a window leaves it in
/// order and its surface, if it has one, the one for its drawing area.
pub proof fn law_surface_suits(m: WindowModel, steps: Seq<Step>)
    requires
        goes(m, steps),
        m.wf(),
        surface_suits(m),
    ensures
        surface_suits(
            crate::window::fresh(m.scale, m.area, m.is_transparent, m.parent, m.menu),
        ),
        surface_suits(run(m, steps)),
        run(m, steps).wf(),
    decreases steps.len(),
{
    if steps.len() > 0 {
        law_surface_suits(m, steps.drop_last());
        lemma_one_step_order(run(m, steps.drop_last()), steps.last());
    }
}

/// Whatever happens to a window, its parent stays the same.
pub proof fn law_parent_stays(m: WindowModel, steps: Seq<Step>)
    ensures
        run(m, steps).parent == m.parent,
    decreases steps.len(),
{
    if steps.len() > 0 {
        law_parent_stays(m, steps.drop_last());
        lemma_one_step(run(m, steps.drop_last()), steps.last());
    }
}

// Closing.

/// The client asks, somewhere in the history, for the window to be closed.
pub open spec fn asks_to_close(steps: Seq<Step>) -> bool {
    exists|i: int| 0 <= i < steps.len() && (#[trigger] steps[i]) is Close
}

/// Requests of the system to close a window are honoured if and only if the client has asked for
/// the window to be closed: a new window turns them down, nothing but the client's wish changes
/// that, and nothing takes the wish back.
pub proof fn law_only_the_client_closes(m: WindowModel, steps: Seq<Step>)
    ensures
        !crate::window::fresh(m.scale, m.area, m.is_transparent, m.parent, m.menu).closing,
        run(m, steps).closing <==> m.closing || asks_to_close(steps),
    decreases steps.len(),
{
    if steps.len() > 0 {
        let before = steps.drop_last();
        law_only_the_client_closes(m, before);
        lemma_one_step(run(m, before), steps.last());
        assert(forall|i: int| 0 <= i < before.len() ==> before[i] == steps[i]);
        assert(steps[steps.len() - 1] == steps.last());
        if asks_to_close(before) {
            let i = choose|i: int| 0 <= i < before.len() && (#[trigger] before[i]) is Close;
            assert(steps[i] is Close);
        }
    }
}

// Keys.

/// From `start` on, no key goes down and this one does not go up.
pub open spec fn undisturbed(steps: Seq<Step>, start: int, keycode: u16) -> bool {
    forall|j: int|
        start <= j < steps.len() ==> !((#[trigger] steps[j]) is PressKey) && steps[j]
            != Step::ReleaseKey(keycode)
}

/// The key goes down at `i`; no other does after that, and it does not go up again.
pub open spec fn pressed_last(steps: Seq<Step>, i: int, keycode: u16) -> bool {
    &&& 0 <= i < steps.len()
    &&& steps[i] == Step::PressKey(keycode)
    &&& undisturbed(steps, i + 1, keycode)
}

/// Over any history, the press of a key repeats if and only if the latest press before it was of
/// that key and the key has not gone up since.
pub proof fn law_press_repeats(m: WindowModel, steps: Seq<Step>, keycode: u16)
    ensures
        crate::events::key_repeats(run(m, steps), keycode) <==> {
            ||| exists|i: int| #[trigger] pressed_last(steps, i, keycode)
            ||| crate::events::key_repeats(m, keycode) && undisturbed(steps, 0, keycode)
        },
    decreases steps.len(),
{
    if steps.len() > 0 {
        let before = steps.drop_last();
        let n = before.len() as int;
        law_press_repeats(m, before, keycode);
        lemma_one_step(run(m, before), steps.last());
        assert(forall|i: int| 0 <= i < n ==> before[i] == steps[i]);
        assert(steps[n] == steps.last());
        let quiet = !(steps[n] is PressKey) && steps[n] != Step::ReleaseKey(keycode);
        assert forall|start: int| 0 <= start <= n implies undisturbed(steps, start, keycode) == (
        undisturbed(before, start, keycode) && quiet) by {
            if undisturbed(steps, start, keycode) {
                assert(forall|j: int| start <= j < n ==> before[j] == steps[j]);
            }
        }
        if steps[n] == Step::PressKey(keycode) {
            assert(pressed_last(steps, n, keycode));
        }
        assert forall|i: int| 0 <= i < n implies pressed_last(steps, i, keycode) == (pressed_last(
            before,
            i,
            keycode,
        ) && quiet) by {}
        if exists|i: int| #[trigger] pressed_last(before, i, keycode) {
            let i = choose|i: int| #[trigger] pressed_last(before, i, keycode);
            assert(pressed_last(steps, i, keycode) == quiet);
        }
    }
}

// Queues.

/// The idle work that a history adds, in order.
pub open spec fn idle_added(steps: Seq<Step>) -> Seq<IdleKind>
    decreases steps.len(),
{
    if steps.len() == 0 {
        seq![]
    } else {
        match steps.last() {
            Step::AddIdle(kind) => idle_added(steps.drop_last()).push(kind),
            _ => idle_added(steps.drop_last()),
        }
    }
}

/// The idle work that a history hands out, in order.
pub open spec fn idle_handed_out(m: WindowModel, steps: Seq<Step>) -> Seq<IdleKind>
    decreases steps.len(),
{
    if steps.len() == 0 {
        seq![]
    } else {
        let before = run(m, steps.drop_last());
        let earlier = idle_handed_out(m, steps.drop_last());
        if steps.last() is RunIdle && crate::window::entry_of(before) is Entered {
            earlier + before.idle_queue
        } else {
            earlier
        }
    }
}

/// Idle work is handed out exactly once, in the order in which it was added: what was waiting and
/// what was added since is what was handed out and what is still waiting.
pub proof fn law_idle_work_is_done_once(m: WindowModel, steps: Seq<Step>)
    ensures
        m.idle_queue + idle_added(steps) == idle_handed_out(m, steps) + run(m, steps).idle_queue,
    decreases steps.len(),
{
    if steps.len() > 0 {
        law_idle_work_is_done_once(m, steps.drop_last());
        lemma_one_step_queues(run(m, steps.drop_last()), steps.last());
        let earlier = m.idle_queue + idle_added(steps.drop_last());
        if let Step::AddIdle(kind) = steps.last() {
            assert(m.idle_queue + idle_added(steps) =~= earlier.push(kind));
        }
        assert(m.idle_queue + idle_added(steps) =~= idle_handed_out(m, steps) + run(
            m,
            steps,
        ).idle_queue);
    }
}

/// The operations that a history puts off, in order.
pub open spec fn deferred(steps: Seq<Step>) -> Seq<DeferredOp>
    decreases steps.len(),
{
    if steps.len() == 0 {
        seq![]
    } else {
        match steps.last() {
            Step::Defer(op) => deferred(steps.drop_last()).push(op),
            _ => deferred(steps.drop_last()),
        }
    }
}

/// The deferred operations that a history hands out, in order.
pub open spec fn deferred_handed_out(m: WindowModel, steps: Seq<Step>) -> Seq<DeferredOp>
    decreases steps.len(),
{
    if steps.len() == 0 {
        seq![]
    } else {
        let before = run(m, steps.drop_last());
        let earlier = deferred_handed_out(m, steps.drop_last());
        match steps.last() {
            Step::Finish(entry) => earlier + crate::deferred::handed_out(before, entry),
            Step::RunDeferred => earlier + before.deferred_queue,
            _ => earlier,
        }
    }
}

/// Deferred operations are handed out exactly once, in the order in which they were put off: what
/// was waiting and what was put off since is what was handed out and what is still waiting.
pub proof fn law_deferred_is_handed_out_once(m: WindowModel, steps: Seq<Step>)
    ensures
        m.deferred_queue + deferred(steps) == deferred_handed_out(m, steps) + run(
            m,
            steps,
        ).deferred_queue,
    decreases steps.len(),
{
    if steps.len() > 0 {
        law_deferred_is_handed_out_once(m, steps.drop_last());
        lemma_one_step_queues(run(m, steps.drop_last()), steps.last());
        let earlier = m.deferred_queue + deferred(steps.drop_last());
        if let Step::Defer(op) = steps.last() {
            assert(m.deferred_queue + deferred(steps) =~= earlier.push(op));
        }
        assert(m.deferred_queue + deferred(steps) =~= deferred_handed_out(m, steps) + run(
            m,
            steps,
        ).deferred_queue);
    }
}

// Menus.

/// The menu bars in a window's box, after one thing was done with it.
pub open spec fn bars_after(bars: Seq<Menu>, step: MenuStep) -> Seq<Menu> {
    match step {
        MenuStep::RemoveFirst => bars.drop_first(),
        MenuStep::PackStart(menu) => bars.push(menu),
        MenuStep::ShowAll => bars,
    }
}

/// The menu bars in a window's box, after these things were done with it, in this order.
pub open spec fn bars_after_all(bars: Seq<Menu>, steps: Seq<MenuStep>) -> Seq<Menu>
    decreases steps.len(),
{
    if steps.len() == 0 {
        bars
    } else {
        bars_after(bars_after_all(bars, steps.drop_last()), steps.last())
    }
}

/// The menu bar that the state speaks of.
pub open spec fn bar_of(m: WindowModel) -> Seq<Menu> {
    match m.menu {
        Some(menu) => seq![menu],
        None => seq![],
    }
}

/// The menu bars in a window's box after a history, where it began with the one that the state
/// speaks of.
pub open spec fn bars(m: WindowModel, steps: Seq<Step>) -> Seq<Menu>
    decreases steps.len(),
{
    if steps.len() == 0 {
        bar_of(m)
    } else {
        let before = steps.drop_last();
        match steps.last() {
            Step::SetMenu(menu) => bars_after_all(
                bars(m, before),
                crate::handle::menu_steps(run(m, before), menu),
            ),
            _ => bars(m, before),
        }
    }
}

/// The menu that a history gives last, if it gives any.
pub open spec fn last_menu(steps: Seq<Step>) -> Option<Menu>
    decreases steps.len(),
{
    if steps.len() == 0 {
        None
    } else {
        match steps.last() {
            Step::SetMenu(menu) => Some(menu),
            _ => last_menu(steps.drop_last()),
        }
    }
}

/// What gives a window a menu bar leaves that one in its box, whatever bar was there before.
pub proof fn law_menu_replaces_menu(m: WindowModel, menu: Menu)
    ensures
        bars_after_all(bar_of(m), crate::handle::menu_steps(m, menu)) == seq![menu],
        bar_of(crate::handle::menu_given(m, menu)) == seq![menu],
        crate::handle::menu_steps(m, menu).last() is ShowAll,
{
    let steps = crate::handle::menu_steps(m, menu);
    reveal_with_fuel(bars_after_all, 4);
    assert(steps.drop_last().last() == MenuStep::PackStart(menu));
    if m.menu is Some {
        assert(steps.drop_last().drop_last() =~= seq![MenuStep::RemoveFirst]);
    } else {
        assert(steps.drop_last().drop_last() =~= seq![]);
    }
    assert(bars_after_all(bar_of(m), steps) =~= seq![menu]);
}

/// Whatever happens to a window, it has at most one menu bar: the one of the menu given last, or,
/// where none was given, the one that it had.
pub proof fn law_one_menu_bar(m: WindowModel, steps: Seq<Step>)
    ensures
        bars(m, steps) == bar_of(run(m, steps)),
        bars(m, steps).len() <= 1,
        bars(m, steps) == match last_menu(steps) {
            Some(menu) => seq![menu],
            None => bar_of(m),
        },
    decreases steps.len(),
{
    if steps.len() > 0 {
        law_one_menu_bar(m, steps.drop_last());
        lemma_one_step(run(m, steps.drop_last()), steps.last());
        if let Step::SetMenu(menu) = steps.last() {
            law_menu_replaces_menu(run(m, steps.drop_last()), menu);
        }
    }
}

// The invalid region.

/// What a step of a draw marks as invalid by itself.
pub open spec fn draw_marks(m: WindowModel, pass: DrawPass, event: DrawEvent) -> Seq<Patch> {
    if event is Told && pass.phase is TellSize && !m.invalid_borrowed {
        seq![Patch::Area(pass.area, m.scale)]
    } else {
        seq![]
    }
}

/// The step of a draw takes out what is invalid.
pub open spec fn draw_is_taking(m: WindowModel, pass: DrawPass, event: DrawEvent) -> bool {
    event is Told && pass.phase is Prepare && !m.invalid_borrowed
}

/// What a step of a draw takes out of the invalid region.
pub open spec fn draw_takes(m: WindowModel, pass: DrawPass, event: DrawEvent) -> Seq<Patch> {
    if draw_is_taking(m, pass, event) {
        m.invalid
    } else {
        seq![]
    }
}

/// All that a history marks as invalid, in order.
pub open spec fn marks(m: WindowModel, steps: Seq<Step>) -> Seq<Patch>
    decreases steps.len(),
{
    if steps.len() == 0 {
        seq![]
    } else {
        let before = run(m, steps.drop_last());
        let earlier = marks(m, steps.drop_last());
        match steps.last() {
            Step::Mark(patch) => if before.invalid_borrowed {
                earlier
            } else {
                earlier.push(patch)
            },
            Step::Draw(pass, event) => earlier + draw_marks(before, pass, event),
            _ => earlier,
        }
    }
}

/// All that a history takes out of the invalid region to paint it, in order.
pub open spec fn takes(m: WindowModel, steps: Seq<Step>) -> Seq<Patch>
    decreases steps.len(),
{
    if steps.len() == 0 {
        seq![]
    } else {
        let before = run(m, steps.drop_last());
        let earlier = takes(m, steps.drop_last());
        match steps.last() {
            Step::Draw(pass, event) => earlier + draw_takes(before, pass, event),
            _ => earlier,
        }
    }
}

/// What is marked as invalid is taken out to be painted exactly once: what was invalid and what
/// was marked since is what draws have taken out and what is still invalid.
pub proof fn law_invalid_is_taken_once(m: WindowModel, steps: Seq<Step>)
    requires
        goes(m, steps),
    ensures
        m.invalid + marks(m, steps) == takes(m, steps) + run(m, steps).invalid,
    decreases steps.len(),
{
    if steps.len() > 0 {
        let before = run(m, steps.drop_last());
        law_invalid_is_taken_once(m, steps.drop_last());
        lemma_one_step_invalid(before, steps.last());
        let taken = takes(m, steps.drop_last());
        match steps.last() {
            Step::Mark(patch) => {
                assert(taken + before.invalid.push(patch) =~= (taken + before.invalid).push(patch));
                assert(m.invalid + marks(m, steps.drop_last()).push(patch) =~= (m.invalid + marks(
                    m,
                    steps.drop_last(),
                )).push(patch));
            },
            Step::Draw(pass, event) => {
                assert(m.invalid + marks(m, steps) =~= taken + before.invalid + draw_marks(
                    before,
                    pass,
                    event,
                ));
            },
            _ => {},
        }
        assert(m.invalid + marks(m, steps) =~= takes(m, steps) + run(m, steps).invalid);
    }
}

// A whole draw.

/// One turn of a draw: what happens to the window before it, and what came of the last step.
pub struct Turn {
    pub between: Seq<Step>,
    pub event: DrawEvent,
}

/// The state and the draw after the first `n` turns.
pub open spec fn drawn(m: WindowModel, pass: DrawPass, turns: Seq<Turn>, n: nat) -> (
    WindowModel,
    DrawPass,
)
    decreases n, 0nat,
{
    if n == 0 {
        (m, pass)
    } else {
        let k = (n - 1) as nat;
        let next = turned(
            met(m, pass, turns, k),
            drawn(m, pass, turns, k).1,
            turns[k as int].event,
        );
        (next.0, next.1)
    }
}

/// The state in which turn `k` meets the window.
pub open spec fn met(m: WindowModel, pass: DrawPass, turns: Seq<Turn>, k: nat) -> WindowModel
    decreases k, 1nat,
{
    run(drawn(m, pass, turns, k).0, turns[k as int].between)
}

/// What turn `k` says is to be done next.
pub open spec fn said(m: WindowModel, pass: DrawPass, turns: Seq<Turn>, k: nat) -> DrawActionModel {
    turned(
        met(m, pass, turns, k),
        drawn(m, pass, turns, k).1,
        turns[k as int].event,
    ).2
}

/// No step of the history is one of a draw.
pub open spec fn is_draw_free(steps: Seq<Step>) -> bool {
    forall|i: int| 0 <= i < steps.len() ==> !((#[trigger] steps[i]) is Draw)
}

/// The turns are those of one draw from beginning to end, with no other draw inside it.
pub open spec fn is_whole_draw(m: WindowModel, pass: DrawPass, turns: Seq<Turn>) -> bool {
    &&& pass.phase is Begin
    &&& drawn(m, pass, turns, turns.len()).1.phase is Done
    &&& forall|k: nat|
        #![trigger met(m, pass, turns, k)]
        k < turns.len() ==> {
            &&& is_draw_free(turns[k as int].between)
            &&& goes(drawn(m, pass, turns, k).0, turns[k as int].between)
            &&& answers(
                met(m, pass, turns, k),
                drawn(m, pass, turns, k).1,
                turns[k as int].event,
            )
        }
}

/// All that is marked as invalid in the first `n` turns, in order.
pub open spec fn turn_marks(m: WindowModel, pass: DrawPass, turns: Seq<Turn>, n: nat) -> Seq<Patch>
    decreases n,
{
    if n == 0 {
        seq![]
    } else {
        let k = (n - 1) as nat;
        turn_marks(m, pass, turns, k) + marks(
            drawn(m, pass, turns, k).0,
            turns[k as int].between,
        ) + draw_marks(
            met(m, pass, turns, k),
            drawn(m, pass, turns, k).1,
            turns[k as int].event,
        )
    }
}

/// The handler can be had to paint: there is a surface, and neither is in use.
pub open spec fn can_paint(m: WindowModel) -> bool {
    m.has_surface && !(m.surface_use is Exclusive) && !m.handler_borrowed
}

/// The handler has not been told yet to prepare to paint.
pub open spec fn is_early(phase: DrawPhase) -> bool {
    !(phase is Prepare) && !(phase is Paint) && !(phase is Done)
}

/// A history without draws only adds to what is invalid.
proof fn lemma_marks_are_added(m: WindowModel, steps: Seq<Step>)
    requires
        goes(m, steps),
        is_draw_free(steps),
    ensures
        run(m, steps).invalid == m.invalid + marks(m, steps),
    decreases steps.len(),
{
    if steps.len() > 0 {
        let before = steps.drop_last();
        assert(forall|i: int| 0 <= i < before.len() ==> before[i] == steps[i]);
        assert(!(steps[steps.len() - 1] is Draw));
        lemma_marks_are_added(m, before);
        lemma_one_step_invalid(run(m, before), steps.last());
        assert(run(m, steps).invalid =~= m.invalid + marks(m, steps));
    } else {
        assert(run(m, steps).invalid =~= m.invalid + marks(m, steps));
    }
}

/// A turn before the handler is told to prepare only adds to what is invalid, and it either says
/// to tell the handler now or leaves that to a later one.
proof fn lemma_early_turn(m: WindowModel, pass: DrawPass, event: DrawEvent)
    requires
        answers(m, pass, event),
        is_early(pass.phase),
    ensures
        ({
            let (next, draw, action) = turned(m, pass, event);
            &&& next.invalid == m.invalid + draw_marks(m, pass, event)
            &&& is_early(draw.phase) || draw.phase is Prepare
            &&& draw.phase is Prepare <==> action == DrawActionModel::Tell(HandlerCall::PreparePaint)
            &&& !(action is Paint)
        }),
{
    lemma_draw_step_invalid(m, pass, event);
    reveal(turned);
    reveal(answers);
}

/// The turn after the handler prepared has it paint, if it can be had, or ends the draw.
proof fn lemma_paint_turn(m: WindowModel, pass: DrawPass, event: DrawEvent)
    requires
        answers(m, pass, event),
        pass.phase is Prepare,
    ensures
        ({
            let (next, draw, action) = turned(m, pass, event);
            &&& action is Paint <==> can_paint(m)
            &&& action != DrawActionModel::Tell(HandlerCall::PreparePaint)
            &&& can_paint(m) ==> draw.phase is Paint
            &&& !can_paint(m) ==> draw.phase is Done
            &&& can_paint(m) && !m.invalid_borrowed ==> action->Paint_invalid == m.invalid
            &&& !m.invalid_borrowed ==> next.invalid == Seq::<Patch>::empty()
        }),
{
    reveal(turned);
    reveal(answers);
}

/// The turn after the handler painted ends the draw and leaves the invalid region alone.
proof fn lemma_last_turn(m: WindowModel, pass: DrawPass, event: DrawEvent)
    requires
        answers(m, pass, event),
        pass.phase is Paint,
    ensures
        ({
            let (next, draw, action) = turned(m, pass, event);
            &&& draw.phase is Done
            &&& action is Done
            &&& next.invalid == m.invalid
        }),
{
    reveal(turned);
    reveal(answers);
}

/// Nothing answers a draw that is over.
proof fn lemma_no_turn(m: WindowModel, pass: DrawPass, event: DrawEvent)
    requires
        pass.phase is Done,
    ensures
        !answers(m, pass, event),
{
    reveal(answers);
}

/// The turn in which the handler is told to prepare, looked for from turn `k` on.
proof fn lemma_prepares(m: WindowModel, pass: DrawPass, turns: Seq<Turn>, k: nat) -> (i: nat)
    requires
        is_whole_draw(m, pass, turns),
        k <= turns.len(),
        forall|j: nat| j <= k ==> is_early((#[trigger] drawn(m, pass, turns, j)).1.phase),
        drawn(m, pass, turns, k).0.invalid == m.invalid + turn_marks(m, pass, turns, k),
    ensures
        k <= i < turns.len(),
        forall|j: nat| j <= i ==> is_early((#[trigger] drawn(m, pass, turns, j)).1.phase),
        drawn(m, pass, turns, i + 1).1.phase is Prepare,
        drawn(m, pass, turns, i + 1).0.invalid == m.invalid + turn_marks(m, pass, turns, i + 1),
    decreases turns.len() - k,
{
    let (here, draw) = drawn(m, pass, turns, k);
    assert(is_early(draw.phase));
    assert(k < turns.len());
    let before = met(m, pass, turns, k);
    let event = turns[k as int].event;
    lemma_marks_are_added(here, turns[k as int].between);
    assert(answers(before, draw, event));
    lemma_early_turn(before, draw, event);
    let next = drawn(m, pass, turns, k + 1);
    assert(next.0 == turned(before, draw, event).0);
    assert(next.0.invalid =~= m.invalid + turn_marks(m, pass, turns, k + 1));
    if is_early(next.1.phase) {
        lemma_prepares(m, pass, turns, k + 1)
    } else {
        k
    }
}

/// In a whole draw the handler is told once to prepare to paint, in turn `i`, and right after
/// that it paints, once, if and only if there is a surface and it can be had. It paints all that
/// was invalid when the draw began, and all that was marked since, by the draw itself or by the
/// handler while it prepared; what it marks while it paints stays for the next draw. This holds
/// of the region unless it is in use when the painting begins.
pub proof fn law_whole_draw(m: WindowModel, pass: DrawPass, turns: Seq<Turn>) -> (i: nat)
    requires
        is_whole_draw(m, pass, turns),
    ensures
        i + 1 < turns.len(),
        forall|j: nat|
            j < turns.len() ==> ((#[trigger] said(m, pass, turns, j)) == DrawActionModel::Tell(
                HandlerCall::PreparePaint,
            ) <==> j == i),
        forall|j: nat|
            j < turns.len() ==> ((#[trigger] said(m, pass, turns, j)) is Paint <==> j == i + 1
                && can_paint(met(m, pass, turns, i + 1))),
        turns.len() == i + if can_paint(met(m, pass, turns, i + 1)) {
            3int
        } else {
            2
        },
        can_paint(met(m, pass, turns, i + 1)) && !met(m, pass, turns, i + 1).invalid_borrowed ==> {
            &&& said(m, pass, turns, i + 1)->Paint_invalid == m.invalid + turn_marks(
                m,
                pass,
                turns,
                i + 1,
            ) + marks(drawn(m, pass, turns, i + 1).0, turns[(i + 1) as int].between)
            &&& drawn(m, pass, turns, turns.len()).0.invalid == marks(
                drawn(m, pass, turns, i + 2).0,
                turns[(i + 2) as int].between,
            )
        },
{
    assert(drawn(m, pass, turns, 0).0.invalid =~= m.invalid + turn_marks(m, pass, turns, 0));
    let i = lemma_prepares(m, pass, turns, 0);
    let prepare = DrawActionModel::Tell(HandlerCall::PreparePaint);
    assert forall|j: nat| j <= i implies ((#[trigger] said(m, pass, turns, j)) == prepare <==> j
        == i) && !(said(m, pass, turns, j) is Paint) by {
        let before = met(m, pass, turns, j);
        lemma_early_turn(before, drawn(m, pass, turns, j).1, turns[j as int].event);
        assert(drawn(m, pass, turns, j + 1).1 == turned(
            before,
            drawn(m, pass, turns, j).1,
            turns[j as int].event,
        ).1);
        if j < i {
            assert(is_early(drawn(m, pass, turns, j + 1).1.phase));
        }
    }
    let p = i + 1;
    assert(p < turns.len());
    let ready = met(m, pass, turns, p);
    lemma_paint_turn(ready, drawn(m, pass, turns, p).1, turns[p as int].event);
    lemma_marks_are_added(drawn(m, pass, turns, p).0, turns[p as int].between);
    let e = i + 2;
    if can_paint(ready) {
        assert(drawn(m, pass, turns, e).1.phase is Paint);
        assert(e < turns.len());
        let painted = met(m, pass, turns, e);
        lemma_last_turn(painted, drawn(m, pass, turns, e).1, turns[e as int].event);
        lemma_marks_are_added(drawn(m, pass, turns, e).0, turns[e as int].between);
        let end = e + 1;
        assert(drawn(m, pass, turns, end).1.phase is Done);
        if end < turns.len() {
            let over = met(m, pass, turns, end);
            lemma_no_turn(over, drawn(m, pass, turns, end).1, turns[end as int].event);
        }
        if !ready.invalid_borrowed {
            assert(drawn(m, pass, turns, e).0.invalid == Seq::<Patch>::empty());
            assert(drawn(m, pass, turns, end).0.invalid =~= marks(
                drawn(m, pass, turns, e).0,
                turns[e as int].between,
            ));
        }
    } else {
        assert(drawn(m, pass, turns, e).1.phase is Done);
        if e < turns.len() {
            let over = met(m, pass, turns, e);
            lemma_no_turn(over, drawn(m, pass, turns, e).1, turns[e as int].event);
        }
    }
    i
}

// Runs of deferred operations.

/// How a run of deferred operations goes on.
pub enum RunStep {
    /// The next operation is asked for.
    Proceed,
    /// The handler was told what came of the last one, and these operations were handed out after
    /// that.
    Told(Seq<DeferredOp>),
}

/// What is waiting when the step looks for an operation to do.
pub open spec fn waiting_at(waiting: Seq<DeferredOp>, step: RunStep) -> Seq<DeferredOp> {
    match step {
        RunStep::Proceed => waiting,
        RunStep::Told(ops) => crate::deferred::resumed(ops, waiting),
    }
}

/// What is waiting after these steps.
pub open spec fn waiting_after(waiting: Seq<DeferredOp>, steps: Seq<RunStep>) -> Seq<DeferredOp>
    decreases steps.len(),
{
    if steps.len() == 0 {
        waiting
    } else {
        crate::deferred::next_of(
            waiting_at(waiting_after(waiting, steps.drop_last()), steps.last()),
        ).0
    }
}

/// The operations that these steps have begun to do, in order.
pub open spec fn done(waiting: Seq<DeferredOp>, steps: Seq<RunStep>) -> Seq<DeferredOp>
    decreases steps.len(),
{
    if steps.len() == 0 {
        seq![]
    } else {
        let here = waiting_at(waiting_after(waiting, steps.drop_last()), steps.last());
        let earlier = done(waiting, steps.drop_last());
        if here.len() > 0 {
            earlier.push(here[0])
        } else {
            earlier
        }
    }
}

/// The operations that were handed out in the course of these steps.
pub open spec fn added(steps: Seq<RunStep>) -> Seq<DeferredOp>
    decreases steps.len(),
{
    if steps.len() == 0 {
        seq![]
    } else {
        match steps.last() {
            RunStep::Proceed => added(steps.drop_last()),
            RunStep::Told(ops) => added(steps.drop_last()) + ops,
        }
    }
}

/// Over a whole run no deferred operation is lost and none is done twice, those that are added
/// meanwhile included: what was to be done and what was added is, each as often as it occurs,
/// what was done and what is still waiting. What a step does is the operation that it counts as
/// done, and it says that all is done only when nothing is waiting.
pub proof fn law_run_loses_nothing(waiting: Seq<DeferredOp>, steps: Seq<RunStep>)
    ensures
        (waiting + added(steps)).to_multiset() == (done(waiting, steps) + waiting_after(
            waiting,
            steps,
        )).to_multiset(),
        steps.len() > 0 ==> ({
            let here = waiting_at(waiting_after(waiting, steps.drop_last()), steps.last());
            let action = crate::deferred::next_of(here).1;
            &&& here.len() > 0 ==> action == crate::deferred::action_of(done(waiting, steps).last())
            &&& action is Done <==> here.len() == 0
            &&& action is Done ==> waiting_after(waiting, steps).len() == 0
        }),
    decreases steps.len(),
{
    if steps.len() == 0 {
        assert(waiting + added(steps) =~= done(waiting, steps) + waiting_after(waiting, steps));
    } else {
        let before = steps.drop_last();
        law_run_loses_nothing(waiting, before);
        let here = waiting_at(waiting_after(waiting, before), steps.last());
        let ops = match steps.last() {
            RunStep::Proceed => seq![],
            RunStep::Told(ops) => ops,
        };
        assert(here =~= ops + waiting_after(waiting, before));
        assert(waiting + added(steps) =~= (waiting + added(before)) + ops);
        assert(done(waiting, steps) + waiting_after(waiting, steps) =~= done(waiting, before)
            + here);
        vstd::seq_lib::lemma_multiset_commutative(waiting + added(before), ops);
        vstd::seq_lib::lemma_multiset_commutative(ops, waiting_after(waiting, before));
        vstd::seq_lib::lemma_multiset_commutative(done(waiting, before), here);
        vstd::seq_lib::lemma_multiset_commutative(
            done(waiting, before),
            waiting_after(waiting, before),
        );
        assert((waiting + added(steps)).to_multiset() =~= (done(waiting, steps) + waiting_after(
            waiting,
            steps,
        )).to_multiset());
    }
}

// Requests to close.

/// A request of the system to close a window is told to the handler before it is answered. It is
/// turned down unless the client has asked for the window to be closed, be it before or when it
/// was told. Of a dropped window the handler is told nothing, and the request is not turned down.
pub proof fn law_close_request(m: WindowModel, steps: Seq<Step>)
    ensures
        crate::events::close_next(Some(m), CloseRequest::Begin) == (
            CloseRequest::Tell,
            CloseAction::Tell(HandlerCall::RequestClose),
        ),
        crate::events::close_next(Some(run(m, steps)), CloseRequest::Tell) == (
            CloseRequest::Done,
            CloseAction::Answer { inhibit: !(m.closing || asks_to_close(steps)) },
        ),
        crate::events::close_next(None, CloseRequest::Begin) == (
            CloseRequest::Done,
            CloseAction::Answer { inhibit: false },
        ),
{
    law_only_the_client_closes(m, steps);
}

// All windows.

/// Something that happens to the windows of an application.
pub enum WindowsStep {
    Insert(WindowModel),
    Remove(WindowHandle),
    /// Something happens to the window of the handle, if it exists.
    Change(WindowHandle, Step),
    AddTextField,
    RequestTimer,
    OpenFile(WindowHandle, FileDialogOptions),
    SaveAs(WindowHandle, FileDialogOptions),
}

/// The step may be taken. A new window is in order and its parent is known, and a counter that is
/// to give out a token is not full.
pub open spec fn windows_may(m: WindowsModel, step: WindowsStep) -> bool {
    match step {
        WindowsStep::Insert(state) => {
            &&& state.wf()
            &&& surface_suits(state)
            &&& state.parent matches Some(parent) ==> m.knows(parent)
        },
        WindowsStep::Remove(_) => true,
        WindowsStep::Change(handle, step) => m.is_live(handle) ==> may(m.state(handle), step),
        WindowsStep::AddTextField => m.text_fields.issued < u64::MAX,
        WindowsStep::RequestTimer => m.timers.issued < u64::MAX,
        WindowsStep::OpenFile(handle, _) => m.is_live(handle) ==> m.file_dialogs.issued < u64::MAX,
        WindowsStep::SaveAs(handle, _) => m.is_live(handle) ==> m.file_dialogs.issued < u64::MAX,
    }
}

/// The windows after the step.
pub open spec fn windows_after(m: WindowsModel, step: WindowsStep) -> WindowsModel {
    match step {
        WindowsStep::Insert(state) => m.with_window(state),
        WindowsStep::Remove(handle) => m.without(handle),
        WindowsStep::Change(handle, step) => if m.is_live(handle) {
            m.with_state(handle, after(m.state(handle), step))
        } else {
            m
        },
        WindowsStep::AddTextField => crate::handle::text_field_added(m),
        WindowsStep::RequestTimer => crate::handle::timer_requested(m),
        WindowsStep::OpenFile(handle, options) => crate::handle::open_requested(m, handle, options),
        WindowsStep::SaveAs(handle, options) => crate::handle::save_requested(m, handle, options),
    }
}

/// The windows that a history leads to.
pub open spec fn windows_run(m: WindowsModel, steps: Seq<WindowsStep>) -> WindowsModel
    decreases steps.len(),
{
    if steps.len() == 0 {
        m
    } else {
        windows_after(windows_run(m, steps.drop_last()), steps.last())
    }
}

/// Every step of the history may be taken when its turn comes.
pub open spec fn windows_go(m: WindowsModel, steps: Seq<WindowsStep>) -> bool
    decreases steps.len(),
{
    steps.len() > 0 ==> windows_go(m, steps.drop_last()) && windows_may(
        windows_run(m, steps.drop_last()),
        steps.last(),
    )
}

/// Every window is in order, and its surface is the one for its drawing area.
pub open spec fn in_order(m: WindowsModel) -> bool {
    &&& m.wf()
    &&& forall|i: int|
        0 <= i < m.slots.len() && (#[trigger] m.slots[i]) is Some ==> surface_suits(
            m.slots[i].unwrap(),
        )
}

/// Whatever happens to the windows of an application, each of them stays in order.
pub proof fn law_windows_stay_in_order(m: WindowsModel, steps: Seq<WindowsStep>)
    requires
        windows_go(m, steps),
        in_order(m),
    ensures
        in_order(windows_run(m, steps)),
    decreases steps.len(),
{
    if steps.len() > 0 {
        let before = windows_run(m, steps.drop_last());
        law_windows_stay_in_order(m, steps.drop_last());
        if let WindowsStep::Change(handle, step) = steps.last() {
            if before.is_live(handle) {
                lemma_one_step_order(before.state(handle), step);
                lemma_one_step(before.state(handle), step);
            }
        }
    }
}

/// A dropped window does not come back, whatever happens: its place is not given to another one.
pub proof fn law_dropped_stays_dropped(
    m: WindowsModel,
    steps: Seq<WindowsStep>,
    handle: WindowHandle,
)
    requires
        m.knows(handle),
        !m.is_live(handle),
    ensures
        windows_run(m, steps).knows(handle),
        !windows_run(m, steps).is_live(handle),
    decreases steps.len(),
{
    if steps.len() > 0 {
        law_dropped_stays_dropped(m, steps.drop_last(), handle);
    }
}

/// The kinds of tokens.
pub enum TokenKind {
    TextField,
    Timer,
    FileDialog,
}

/// The counter of a kind of tokens.
pub open spec fn counter_of(m: WindowsModel, kind: TokenKind) -> Counter {
    match kind {
        TokenKind::TextField => m.text_fields,
        TokenKind::Timer => m.timers,
        TokenKind::FileDialog => m.file_dialogs,
    }
}

/// The step gives out a token of this kind.
pub open spec fn gives_token(m: WindowsModel, step: WindowsStep, kind: TokenKind) -> bool {
    match step {
        WindowsStep::AddTextField => kind is TextField,
        WindowsStep::RequestTimer => kind is Timer,
        WindowsStep::OpenFile(handle, _) => kind is FileDialog && m.is_live(handle),
        WindowsStep::SaveAs(handle, _) => kind is FileDialog && m.is_live(handle),
        _ => false,
    }
}

/// The tokens of this kind that a history gives out, in order.
pub open spec fn tokens(m: WindowsModel, steps: Seq<WindowsStep>, kind: TokenKind) -> Seq<u64>
    decreases steps.len(),
{
    if steps.len() == 0 {
        seq![]
    } else {
        let before = windows_run(m, steps.drop_last());
        let earlier = tokens(m, steps.drop_last(), kind);
        if gives_token(before, steps.last(), kind) {
            earlier.push(counter_of(before, kind).following())
        } else {
            earlier
        }
    }
}

/// Whatever happens, a token differs from all that were given out before it: they grow, and they
/// are beyond those that the counter had given out before.
pub proof fn law_tokens_are_new(m: WindowsModel, steps: Seq<WindowsStep>, kind: TokenKind)
    requires
        windows_go(m, steps),
    ensures
        forall|i: int, j: int|
            0 <= i < j < tokens(m, steps, kind).len() ==> (#[trigger] tokens(m, steps, kind)[i])
                < (#[trigger] tokens(m, steps, kind)[j]),
        forall|i: int|
            0 <= i < tokens(m, steps, kind).len() ==> counter_of(m, kind).issued < (
            #[trigger] tokens(m, steps, kind)[i]) <= counter_of(windows_run(m, steps), kind).issued,
        counter_of(m, kind).issued <= counter_of(windows_run(m, steps), kind).issued,
    decreases steps.len(),
{
    if steps.len() > 0 {
        let before = windows_run(m, steps.drop_last());
        let earlier = tokens(m, steps.drop_last(), kind);
        let all = tokens(m, steps, kind);
        law_tokens_are_new(m, steps.drop_last(), kind);
        if gives_token(before, steps.last(), kind) {
            assert(all == earlier.push(counter_of(before, kind).following()));
        }
        assert(forall|i: int| 0 <= i < earlier.len() ==> all[i] == earlier[i]);
    }
}

}
