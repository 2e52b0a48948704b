//! What windows, their handles and their builders do, in terms of what they are asked for.

use vstd::prelude::*;

use crate::builder::{DisplayReport, SetupStep, WindowBuilder, WindowLevel, WindowTypeHint};
use crate::calls::HandlerCall;
use crate::deferred::{DeferredAction, DeferredRun, FileDialogType, FileRequest};
use crate::handle::{SizeState, WindowAction, WindowHandle, Windows, WindowsModel};
use crate::tokens::{Counter, FileDialogToken};
use crate::window::{DeferredOp, FileDialogOptions, WindowModel};

verus! {

// The windows.

/// The view of the windows leaves nothing out: every place is seen, with the view of the window
/// that is there, if one is, and so are the counters.
pub proof fn law_windows_are_seen_whole(w: Windows)
    ensures
        w@.slots.len() == w.slots@.len(),
        forall|i: int|
            0 <= i < w.slots@.len() ==> {
                &&& (#[trigger] w@.slots[i]) is Some <==> w.slots@[i] is Some
                &&& w.slots@[i] matches Some(state) ==> w@.slots[i] == Some(state@)
            },
        w@.text_fields == w.text_fields,
        w@.timers == w.timers,
        w@.file_dialogs == w.file_dialogs,
{
}

/// A handle reaches a window if and only if it has a place, that was given out, and the window
/// there has not been dropped. It is known as soon as its place was given out, or if it has none.
pub proof fn law_what_a_handle_reaches(m: WindowsModel, handle: WindowHandle)
    ensures
        m.is_live(handle) <==> (handle.slot matches Some(i) && i < m.slots.len()
            && m.slots[i as int] is Some),
        m.is_live(handle) ==> m.slots[handle.slot.unwrap() as int] == Some(m.state(handle)),
        m.state_of(handle) is Some <==> m.is_live(handle),
        m.state_of(handle) matches Some(state) ==> state == m.state(handle),
        m.knows(handle) <==> (handle.slot is None || handle.slot.unwrap() < m.slots.len()),
        m.is_live(handle) ==> m.knows(handle),
{
}

/// A new window gets a place that no known handle has, and is reached there with the state that
/// it was given; every known handle reaches what it reached before.
pub proof fn law_new_windows_disturb_none(
    m: WindowsModel,
    state: WindowModel,
    fresh: WindowHandle,
    known: WindowHandle,
)
    requires
        fresh.slot matches Some(i) && i == m.slots.len(),
        m.knows(known),
    ensures
        ({
            let n = m.with_window(state);
            &&& !m.knows(fresh) && fresh.slot != known.slot
            &&& n.is_live(fresh) && n.state(fresh) == state
            &&& n.is_live(known) == m.is_live(known)
            &&& m.is_live(known) ==> n.state(known) == m.state(known)
            &&& n.slots.len() == m.slots.len() + 1
            &&& n.text_fields == m.text_fields && n.timers == m.timers && n.file_dialogs
                == m.file_dialogs
        }),
{
}

/// A window that is dropped is reached no longer; every handle of another place reaches what it
/// reached before, and places and counters stay.
pub proof fn law_drops_disturb_none(m: WindowsModel, handle: WindowHandle, other: WindowHandle)
    requires
        other.slot != handle.slot,
    ensures
        ({
            let n = m.without(handle);
            &&& !n.is_live(handle)
            &&& n.knows(handle) == m.knows(handle)
            &&& n.is_live(other) == m.is_live(other)
            &&& m.is_live(other) ==> n.state(other) == m.state(other)
            &&& n.slots.len() == m.slots.len()
            &&& n.text_fields == m.text_fields && n.timers == m.timers && n.file_dialogs
                == m.file_dialogs
        }),
{
}

/// What happens to a window stays with it: no place, no counter and no other window changes.
pub proof fn law_changes_stay_with_the_window(
    m: WindowsModel,
    handle: WindowHandle,
    other: WindowHandle,
    state: WindowModel,
)
    requires
        m.is_live(handle),
    ensures
        ({
            let n = m.with_state(handle, state);
            &&& n.is_live(handle) && n.state(handle) == state
            &&& n.is_live(other) == m.is_live(other)
            &&& other.slot != handle.slot && m.is_live(other) ==> n.state(other) == m.state(other)
            &&& n.slots.len() == m.slots.len()
            &&& n.text_fields == m.text_fields && n.timers == m.timers && n.file_dialogs
                == m.file_dialogs
        }),
{
}

/// The windows are in order if each is, and none is older than its parent.
pub proof fn law_order_of_windows(m: WindowsModel, handle: WindowHandle)
    requires
        m.wf(),
        m.is_live(handle),
    ensures
        m.state(handle).wf(),
        m.state(handle).parent matches Some(parent) ==> (parent.slot matches Some(i) ==> i
            < handle.slot.unwrap()),
{
}

/// Two handles reach the same window if they are of one place where there is a window, or if
/// neither reaches any; a handle that reaches a window is the same as none that does not.
pub proof fn law_same_window(m: WindowsModel, a: WindowHandle, b: WindowHandle)
    ensures
        m.is_live(a) && a.is_same(m, b) ==> m.is_live(b) && a.slot == b.slot,
        m.is_live(a) && a.slot == b.slot ==> a.is_same(m, b),
        !m.is_live(a) ==> (a.is_same(m, b) <==> !m.is_live(b)),
{
}

// Tokens and timers.

/// Tokens are counted one by one, each kind on its own, and giving one out changes nothing else.
pub proof fn law_tokens_are_counted(m: WindowsModel, counter: Counter)
    requires
        counter.issued < u64::MAX,
        m.text_fields.issued < u64::MAX,
        m.timers.issued < u64::MAX,
    ensures
        counter.following() == counter.issued + 1,
        counter.advanced().issued == counter.following(),
        ({
            let n = crate::handle::text_field_added(m);
            &&& n.text_fields.issued == m.text_fields.issued + 1
            &&& n.timers == m.timers && n.file_dialogs == m.file_dialogs && n.slots == m.slots
        }),
        ({
            let n = crate::handle::timer_requested(m);
            &&& n.timers.issued == m.timers.issued + 1
            &&& n.text_fields == m.text_fields && n.file_dialogs == m.file_dialogs && n.slots
                == m.slots
        }),
{
}

/// A timer runs down exactly at its deadline: the time that it is asked for and the wait make up
/// the deadline. One whose deadline is past waits for nothing, and of two deadlines the later is
/// waited for longer, by just the time between them.
pub proof fn law_timer_runs_down_at_its_deadline(deadline: u64, now: u64, later: u64)
    ensures
        deadline >= now ==> now + crate::handle::interval(deadline, now) == deadline,
        deadline <= now ==> crate::handle::interval(deadline, now) == 0,
        now <= deadline <= later ==> crate::handle::interval(later, now) - crate::handle::interval(
            deadline,
            now,
        ) == later - deadline,
{
}

/// Every live window gets its timer, and none that was dropped does: the wait ends at the
/// deadline, or at once where that is past.
pub proof fn law_timers_of_windows(
    m: WindowsModel,
    handle: WindowHandle,
    deadline: u64,
    now: u64,
)
    ensures
        crate::handle::timer_wait(m, handle, deadline, now) is Some <==> m.is_live(handle),
        crate::handle::timer_wait(m, handle, deadline, now) matches Some(wait) ==> {
            &&& now + wait == if deadline >= now {
                deadline
            } else {
                now
            }
        },
{
}

/// The measures of a live window go by the scale that it has, and follow it when it changes, but
/// not when anything else does; a dropped window has none.
pub proof fn law_measures_go_by_the_scale(
    m: WindowsModel,
    handle: WindowHandle,
    state: WindowModel,
)
    ensures
        crate::handle::scale_of(m, handle) is Some <==> m.is_live(handle),
        m.is_live(handle) ==> crate::handle::scale_of(m.with_state(handle, state), handle) == Some(
            state.scale,
        ),
        crate::handle::scale_of(m, handle) matches Some(scale) ==> scale == m.state(handle).scale,
{
}

/// `n` is what the windows are once the window of the handle was asked for a dialog: it has put
/// off `op`, after what it had put off before, the counter of dialogs is one further, and nothing
/// else has changed.
pub open spec fn dialog_is_put_off(
    m: WindowsModel,
    n: WindowsModel,
    handle: WindowHandle,
    op: DeferredOp,
) -> bool {
    let (before, after) = (m.state(handle), n.state(handle));
    &&& n.is_live(handle)
    &&& after.deferred_queue.len() == before.deferred_queue.len() + 1
    &&& after.deferred_queue.drop_last() == before.deferred_queue
    &&& after.deferred_queue.last() == op
    &&& (WindowModel { deferred_queue: before.deferred_queue, ..after }) == before
    &&& n.file_dialogs.issued == m.file_dialogs.issued + 1
    &&& n.text_fields == m.text_fields
    &&& n.timers == m.timers
    &&& n.slots.len() == m.slots.len()
    &&& forall|i: int|
        0 <= i < m.slots.len() && Some(i) != handle_place(handle) ==> #[trigger] n.slots[i]
            == m.slots[i]
}

/// The place of the handle.
pub open spec fn handle_place(handle: WindowHandle) -> Option<int> {
    match handle.slot {
        Some(i) => Some(i as int),
        None => None,
    }
}

/// A dialog that a live window is asked for is put off, by a token that follows all that were
/// given out: one to open a file where that was asked for, and one to save it where that was, with
/// the options that were given. A dropped window puts nothing off and takes no token.
pub proof fn law_dialogs(m: WindowsModel, handle: WindowHandle, options: FileDialogOptions)
    requires
        m.file_dialogs.issued < u64::MAX,
    ensures
        ({
            let token = FileDialogToken { id: (m.file_dialogs.issued + 1) as u64 };
            &&& m.is_live(handle) ==> dialog_is_put_off(
                m,
                crate::handle::open_requested(m, handle, options),
                handle,
                DeferredOp::Open(options, token),
            )
            &&& m.is_live(handle) ==> dialog_is_put_off(
                m,
                crate::handle::save_requested(m, handle, options),
                handle,
                DeferredOp::SaveAs(options, token),
            )
            &&& !m.is_live(handle) ==> crate::handle::open_requested(m, handle, options) == m
            &&& !m.is_live(handle) ==> crate::handle::save_requested(m, handle, options) == m
        }),
{
    if m.is_live(handle) {
        let before = m.state(handle).deferred_queue;
        let opened = crate::handle::open_requested(m, handle, options).state(handle);
        let saved = crate::handle::save_requested(m, handle, options).state(handle);
        assert(opened.deferred_queue.drop_last() =~= before);
        assert(saved.deferred_queue.drop_last() =~= before);
    }
}

// Deferred operations.

/// A run is seen as what is still waiting in it, in order.
pub proof fn law_run_is_seen_whole(run: DeferredRun)
    ensures
        run@.len() == run.pending@.len(),
        forall|i: int| 0 <= i < run.pending@.len() ==> (#[trigger] run@[i]) == run.pending@[i],
{
}

/// What is done for a deferred operation is what was asked for: a dialog of the same kind, with
/// the same options and token, or the same menu for the same window.
pub proof fn law_operation_is_done_as_asked(op: DeferredOp)
    ensures
        crate::deferred::action_of(op) is FileDialog <==> !(op is ContextMenu),
        crate::deferred::action_of(op) matches DeferredAction::FileDialog(request) ==> {
            &&& request.dialog == FileDialogType::Open <==> op is Open
            &&& op == if request.dialog == FileDialogType::Open {
                DeferredOp::Open(request.options, request.token)
            } else {
                DeferredOp::SaveAs(request.options, request.token)
            }
        },
        crate::deferred::action_of(op) matches DeferredAction::PopupMenu { menu, owner } ==> op
            == DeferredOp::ContextMenu(menu, owner),
        !(crate::deferred::action_of(op) is Done),
{
}

/// Operations are done from the first to the last; all is done when none is waiting.
pub proof fn law_operations_are_done_in_order(waiting: Seq<DeferredOp>)
    ensures
        ({
            let (rest, action) = crate::deferred::next_of(waiting);
            &&& waiting.len() == 0 <==> action is Done
            &&& waiting.len() > 0 ==> {
                &&& action == crate::deferred::action_of(waiting.first())
                &&& waiting == seq![waiting.first()] + rest
            }
            &&& waiting.len() == 0 ==> rest.len() == 0
        }),
{
    if waiting.len() > 0 {
        assert(waiting =~= seq![waiting.first()] + crate::deferred::next_of(waiting).0);
    }
}

/// Operations that are handed out in the course of a run are done, in their order, before those
/// that were waiting, which follow in theirs.
pub proof fn law_new_operations_come_first(handed: Seq<DeferredOp>, waiting: Seq<DeferredOp>)
    ensures
        ({
            let all = crate::deferred::resumed(handed, waiting);
            &&& all.len() == handed.len() + waiting.len()
            &&& all.take(handed.len() as int) == handed
            &&& all.skip(handed.len() as int) == waiting
            &&& handed.len() > 0 ==> crate::deferred::next_of(all).1 == crate::deferred::action_of(
                handed[0],
            )
        }),
{
    let all = crate::deferred::resumed(handed, waiting);
    assert(all.take(handed.len() as int) =~= handed);
    assert(all.skip(handed.len() as int) =~= waiting);
}

/// The answer to a request for a file bears the token of the request and the path that was
/// chosen, if one was, and is told as an answer to what was asked for. The kind of the file is
/// not told.
pub proof fn law_answer(request: FileRequest, call: HandlerCall, path: Option<Vec<u8>>)
    requires
        request.is_answered_by(call, path),
    ensures
        call is OpenFile <==> request.dialog == FileDialogType::Open,
        call is SaveAs <==> request.dialog == FileDialogType::Save,
        ({
            let (token, info) = match call {
                HandlerCall::OpenFile(token, info) => (token, info),
                HandlerCall::SaveAs(token, info) => (token, info),
                _ => (request.token, None),
            };
            &&& token == request.token
            &&& info is Some <==> path is Some
            &&& info matches Some(file) ==> file.path@ == path.unwrap()@ && file.format is None
        }),
{
}

// Size states.

/// A window fills the screen if the toolkit says so; it is an icon if it does not fill the screen
/// and the second bit of its parent's state is set; otherwise it is neither.
pub proof fn law_size_states(maximized: bool, parent: Option<u32>)
    ensures
        ({
            let state = crate::handle::size_state(maximized, parent);
            &&& state == SizeState::Maximized <==> maximized
            &&& state == SizeState::Minimized <==> !maximized && (parent matches Some(bits) && bits
                & 0x2 != 0)
        }),
{
    if let Some(bits) = parent {
        assert((bits & 0x2 == 0x2) == (bits & 0x2 != 0)) by (bit_vector);
    }
}

/// Whether a window is maximized, and whether it is an icon, after something was done with it.
pub open spec fn shown_after(maximized: bool, icon: bool, action: WindowAction) -> (bool, bool) {
    match action {
        WindowAction::Maximize => (true, icon),
        WindowAction::Unmaximize => (false, icon),
        WindowAction::Iconify => (maximized, true),
        WindowAction::Deiconify => (maximized, false),
        _ => (maximized, icon),
    }
}

/// Whether a window is maximized, and whether it is an icon, after these things were done with it.
pub open spec fn shown_after_all(maximized: bool, icon: bool, actions: Seq<WindowAction>) -> (
    bool,
    bool,
)
    decreases actions.len(),
{
    if actions.len() == 0 {
        (maximized, icon)
    } else {
        let (m, i) = shown_after_all(maximized, icon, actions.drop_last());
        shown_after(m, i, actions.last())
    }
}

/// Whatever size state is asked for, the window is not maximized in the end. It becomes an icon if
/// that was asked for and it was none, stops being one if it was to be restored, and is maximized
/// on the way if and only if that was asked for and it was not. Nothing is done that has nothing
/// to do with its size.
pub proof fn law_size_state_is_reached(
    requested: SizeState,
    current: SizeState,
    maximized: bool,
    icon: bool,
)
    ensures
        ({
            let actions = crate::handle::size_state_actions(requested, current);
            let end = shown_after_all(maximized, icon, actions);
            let begin = shown_after_all(maximized, icon, actions.take(1));
            &&& !end.0
            &&& requested == SizeState::Minimized && current != SizeState::Minimized ==> end.1
            &&& requested == SizeState::Restored && current == SizeState::Minimized ==> !end.1
            &&& requested == current || requested == SizeState::Maximized || current
                == SizeState::Maximized && requested == SizeState::Restored ==> end.1 == icon
            &&& actions.contains(WindowAction::Maximize) <==> requested == SizeState::Maximized
                && current != SizeState::Maximized
            &&& actions.contains(WindowAction::Maximize) ==> begin.0
            &&& forall|i: int|
                0 <= i < actions.len() ==> (#[trigger] actions[i]) is Maximize
                    || actions[i] is Unmaximize || actions[i] is Iconify || actions[i] is Deiconify
            &&& 1 <= actions.len() <= 2
        }),
{
    reveal_with_fuel(shown_after_all, 4);
    let actions = crate::handle::size_state_actions(requested, current);
    assert(actions.last() == WindowAction::Unmaximize);
    if requested == SizeState::Maximized && current != SizeState::Maximized {
        assert(actions[0] == WindowAction::Maximize);
        assert(actions.take(1).last() == WindowAction::Maximize);
    }
    if actions.len() == 2 {
        assert(actions.drop_last().last() == actions[0]);
    }
}

// Positions.

/// The position of a window begins with the window itself, under its scale; after each window
/// comes its parent, under that one's, for as long as there is one that has not been dropped.
pub proof fn law_position_follows_the_parents(m: WindowsModel, handle: WindowHandle)
    requires
        m.wf(),
    ensures
        ({
            let chain = crate::handle::position_chain(m, handle);
            &&& m.is_live(handle) ==> chain.len() > 0 && chain[0].window == handle
            &&& !m.is_live(handle) ==> chain.len() == 0
            &&& forall|i: int|
                0 <= i < chain.len() ==> {
                    &&& m.is_live((#[trigger] chain[i]).window)
                    &&& chain[i].scale == m.state(chain[i].window).scale
                    &&& i + 1 < chain.len() ==> m.state(chain[i].window).parent == Some(
                        chain[i + 1].window,
                    )
                    &&& i + 1 == chain.len() ==> (m.state(chain[i].window).parent matches Some(
                        parent,
                    ) ==> !m.is_live(parent))
                }
        }),
    decreases
            (match handle.slot {
                Some(i) => i as int + 1,
                None => 0,
            }),
{
    let chain = crate::handle::position_chain(m, handle);
    if m.is_live(handle) {
        let state = m.state(handle);
        assert(m.slots[handle.slot.unwrap() as int] is Some);
        if let Some(parent) = state.parent {
            law_position_follows_the_parents(m, parent);
            let above = crate::handle::position_chain(m, parent);
            assert forall|i: int| 0 <= i < chain.len() implies {
                &&& m.is_live((#[trigger] chain[i]).window)
                &&& chain[i].scale == m.state(chain[i].window).scale
                &&& i + 1 < chain.len() ==> m.state(chain[i].window).parent == Some(
                    chain[i + 1].window,
                )
                &&& i + 1 == chain.len() ==> (m.state(chain[i].window).parent matches Some(parent)
                    ==> !m.is_live(parent))
            } by {
                if i > 0 {
                    assert(chain[i] == above[i - 1]);
                    if i + 1 < chain.len() {
                        assert(chain[i + 1] == above[i]);
                    }
                } else if chain.len() > 1 {
                    assert(chain[1] == above[0]);
                }
            }
        }
    }
}

/// The position of a window is made up of the window itself and of what makes up the position of
/// its parent.
pub proof fn law_position_is_own_and_parents(m: WindowsModel, handle: WindowHandle)
    requires
        m.wf(),
        m.is_live(handle),
    ensures
        ({
            let chain = crate::handle::position_chain(m, handle);
            let above = crate::handle::parent_chain(m, handle);
            &&& chain.len() == above.len() + 1
            &&& chain[0].window == handle && chain[0].scale == m.state(handle).scale
            &&& chain.drop_first() == above
        }),
{
    assert(m.slots[handle.slot.unwrap() as int] is Some);
    assert(crate::handle::position_chain(m, handle).drop_first() =~= crate::handle::parent_chain(
        m,
        handle,
    ));
}

// Builders.

/// The handler of a new window is told three things: its window, then the scale that the display
/// reports, then the size that the builder holds.
pub proof fn law_first_calls(b: WindowBuilder, report: DisplayReport, handle: WindowHandle)
    ensures
        ({
            let calls = crate::builder::first_calls(b, report, handle);
            &&& calls.len() == 3
            &&& calls[0] matches HandlerCall::Connect(window) && window == handle
            &&& calls[1] matches HandlerCall::Scale(scale) && scale == report.scale
            &&& calls[2] matches HandlerCall::Size(size) && size == b.size
        }),
{
}

/// The window that a level names as the owner.
pub open spec fn named_owner(level: Option<WindowLevel>, owner: WindowHandle) -> bool {
    level == Some(WindowLevel::Tooltip(owner)) || level == Some(WindowLevel::DropDown(owner))
        || level == Some(WindowLevel::Modal(owner))
}

/// A window that is built at the level of a tooltip, a drop-down or a modal window belongs to the
/// window that the level names, and any other window belongs to none.
pub proof fn law_built_window_belongs_to_its_owner(
    b: WindowBuilder,
    report: DisplayReport,
    owner: WindowHandle,
)
    ensures
        named_owner(b.level, owner) <==> crate::builder::owner_of(b) == Some(owner),
        named_owner(b.level, owner) <==> crate::builder::built_state(b, report).parent == Some(
            owner,
        ),
        b.level is None || b.level == Some(WindowLevel::AppWindow) <==> crate::builder::built_state(
            b,
            report,
        ).parent is None,
        b.level matches Some(level) ==> (named_owner(b.level, owner) <==> level.owner() == Some(
            owner,
        )),
{
}

/// A window that is built has the scale and the size in pixels that the display reports, the menu
/// of the builder, and is transparent if that was asked for and the screen can show it.
pub proof fn law_built_window_is_as_reported(b: WindowBuilder, report: DisplayReport)
    ensures
        ({
            let m = crate::builder::built_state(b, report);
            &&& m.scale == report.scale
            &&& m.area.size_px == report.size_px
            &&& m.area.scale == report.scale
            &&& m.menu == b.menu
            &&& m.is_transparent <==> b.transparent && (report.rgba_visual matches Some(has) && has)
            &&& !m.closing && !m.has_surface && m.invalid.len() == 0
            &&& m.wf()
        }),
{
}

/// When a kind of step has its turn in setting a window up.
pub open spec fn turn_of(step: SetupStep) -> int {
    match step {
        SetupStep::SetTitle(_) => 0,
        SetupStep::SetResizable(_) => 1,
        SetupStep::SetDecorated(_) => 2,
        SetupStep::SetVisual => 3,
        SetupStep::SetAppPaintable(_) => 4,
        SetupStep::SetDefaultSize(_) => 5,
        SetupStep::SetTypeHint(_) => 6,
        SetupStep::SetUrgencyHint(_) => 7,
        SetupStep::SetModal(_) => 8,
        SetupStep::SetTransientFor(_) => 9,
        SetupStep::SetOverrideRedirect(_) => 10,
        SetupStep::SetPosition(_) => 11,
        SetupStep::SetWindowState(_) => 12,
        SetupStep::SetMenu(_) => 13,
        SetupStep::SetMinSize(..) => 14,
    }
}

/// The steps are in turn, and their turns are from `low` up to `high`.
pub open spec fn in_turn(steps: Seq<SetupStep>, low: int, high: int) -> bool {
    &&& forall|i: int, j: int|
        0 <= i < j < steps.len() ==> turn_of(#[trigger] steps[i]) < turn_of(#[trigger] steps[j])
    &&& forall|i: int| 0 <= i < steps.len() ==> low <= turn_of(#[trigger] steps[i]) < high
}

proof fn lemma_in_turn(a: Seq<SetupStep>, b: Seq<SetupStep>, low: int, mid: int, high: int)
    requires
        in_turn(a, low, mid),
        in_turn(b, mid, high),
        low <= mid <= high,
    ensures
        in_turn(a + b, low, high),
{
    let s = a + b;
    assert forall|i: int| 0 <= i < s.len() implies low <= turn_of(#[trigger] s[i]) < high by {
        if i < a.len() {
            assert(s[i] == a[i]);
        } else {
            assert(s[i] == b[i - a.len()]);
        }
    }
    assert forall|i: int, j: int| 0 <= i < j < s.len() implies turn_of(#[trigger] s[i]) < turn_of(
        #[trigger] s[j],
    ) by {
        if i < a.len() {
            assert(s[i] == a[i]);
        } else {
            assert(s[i] == b[i - a.len()]);
        }
        if j < a.len() {
            assert(s[j] == a[j]);
        } else {
            assert(s[j] == b[j - a.len()]);
        }
    }
}

proof fn lemma_contains_either(a: Seq<SetupStep>, b: Seq<SetupStep>, step: SetupStep)
    ensures
        (a + b).contains(step) <==> a.contains(step) || b.contains(step),
{
    let s = a + b;
    if a.contains(step) {
        let i = choose|i: int| 0 <= i < a.len() && a[i] == step;
        assert(s[i] == step);
    }
    if b.contains(step) {
        let i = choose|i: int| 0 <= i < b.len() && b[i] == step;
        assert(s[i + a.len()] == step);
    }
    if s.contains(step) {
        let i = choose|i: int| 0 <= i < s.len() && s[i] == step;
        if i < a.len() {
            assert(a[i] == step);
        } else {
            assert(b[i - a.len()] == step);
        }
    }
}

/// The step is called for by what the builder holds and the display reports.
pub open spec fn is_called_for(
    step: SetupStep,
    b: WindowBuilder,
    report: DisplayReport,
    owner_is_live: bool,
) -> bool {
    match step {
        SetupStep::SetTitle(title) => title == b.title,
        SetupStep::SetResizable(resizable) => resizable == b.resizable,
        SetupStep::SetDecorated(decorated) => decorated == b.show_titlebar,
        SetupStep::SetVisual => b.transparent && report.rgba_visual is Some,
        SetupStep::SetAppPaintable(paintable) => paintable <==> b.transparent && report.rgba_visual
            == Some(true),
        SetupStep::SetDefaultSize(size) => size == report.size_px,
        SetupStep::SetTypeHint(hint) => b.level matches Some(level) && is_hint(hint, level),
        SetupStep::SetUrgencyHint(urgent) => urgent && b.level is Some && b.level.unwrap() is Modal,
        SetupStep::SetModal(modal) => modal && b.level is Some && b.level.unwrap() is Modal,
        SetupStep::SetTransientFor(owner) => owner_is_live && named_owner(b.level, owner),
        SetupStep::SetOverrideRedirect(redirect) => b.level is Some && (redirect <==> b.level
            != Some(WindowLevel::AppWindow)),
        SetupStep::SetPosition(position) => b.position == Some(position),
        SetupStep::SetWindowState(state) => b.state == Some(state),
        SetupStep::SetMenu(menu) => b.menu == Some(menu),
        SetupStep::SetMinSize(size, scale) => b.min_size == Some(size) && scale == report.scale,
    }
}

/// The hint is the one that says what a window of the level is for.
pub open spec fn is_hint(hint: WindowTypeHint, level: WindowLevel) -> bool {
    &&& hint == WindowTypeHint::Normal <==> level is AppWindow
    &&& hint == WindowTypeHint::Tooltip <==> level is Tooltip
    &&& hint == WindowTypeHint::DropdownMenu <==> level is DropDown
    &&& hint == WindowTypeHint::Dialog <==> level is Modal
}

/// A sequence of at most one step contains just that one.
proof fn lemma_contains_one(a: Seq<SetupStep>, step: SetupStep)
    requires
        a.len() <= 1,
    ensures
        a.contains(step) <==> a.len() == 1 && a[0] == step,
{
}

/// The steps of a level are in turn, and are those that it calls for.
proof fn lemma_level_steps(
    b: WindowBuilder,
    report: DisplayReport,
    live: bool,
    step: SetupStep,
)
    requires
        b.level is Some,
    ensures
        in_turn(crate::builder::level_steps(b.level.unwrap(), live), 6, 11),
        crate::builder::level_steps(b.level.unwrap(), live).contains(step) <==> 6 <= turn_of(step)
            < 11 && is_called_for(step, b, report, live),
{
    let level = b.level.unwrap();
    let urgent = if level is Modal {
        seq![SetupStep::SetUrgencyHint(true), SetupStep::SetModal(true)]
    } else {
        seq![]
    };
    let transient = match level.owner() {
        Some(owner) if live => seq![SetupStep::SetTransientFor(owner)],
        _ => seq![],
    };
    let hint = seq![SetupStep::SetTypeHint(level.hint())];
    let redirect = seq![SetupStep::SetOverrideRedirect(!(level is AppWindow))];
    assert(crate::builder::level_steps(level, live) == hint + urgent + transient + redirect);
    lemma_in_turn(hint, urgent, 6, 7, 9);
    lemma_in_turn(hint + urgent, transient, 6, 9, 10);
    lemma_in_turn(hint + urgent + transient, redirect, 6, 10, 11);
    lemma_contains_either(hint, urgent, step);
    lemma_contains_either(hint + urgent, transient, step);
    lemma_contains_either(hint + urgent + transient, redirect, step);
    lemma_contains_one(hint, step);
    lemma_contains_one(transient, step);
    lemma_contains_one(redirect, step);
    if level is Modal {
        assert(urgent[0] == SetupStep::SetUrgencyHint(true));
        assert(urgent[1] == SetupStep::SetModal(true));
    }
    assert(urgent.contains(step) <==> level is Modal && (step == SetupStep::SetUrgencyHint(true)
        || step == SetupStep::SetModal(true)));
}

/// The first steps are in turn, and are those that are called for.
proof fn lemma_first_steps(b: WindowBuilder, report: DisplayReport, live: bool, step: SetupStep)
    ensures
        in_turn(crate::builder::first_steps(b, report), 0, 6),
        crate::builder::first_steps(b, report).contains(step) <==> turn_of(step) < 6
            && is_called_for(step, b, report, live),
{
    let title = SetupStep::SetTitle(b.title);
    let resizable = SetupStep::SetResizable(b.resizable);
    let decorated = SetupStep::SetDecorated(b.show_titlebar);
    let head = seq![title, resizable, decorated];
    let visual = if b.transparent && report.rgba_visual is Some {
        seq![SetupStep::SetVisual]
    } else {
        seq![]
    };
    let paintable = SetupStep::SetAppPaintable(crate::builder::shows_transparency(b, report));
    let size = SetupStep::SetDefaultSize(report.size_px);
    let tail = seq![paintable, size];
    assert(crate::builder::first_steps(b, report) == head + visual + tail);
    lemma_in_turn(head, visual, 0, 3, 4);
    lemma_in_turn(head + visual, tail, 0, 4, 6);
    lemma_contains_either(head, visual, step);
    lemma_contains_either(head + visual, tail, step);
    lemma_contains_one(visual, step);
    assert(head[0] == title && head[1] == resizable && head[2] == decorated);
    assert(tail[0] == paintable && tail[1] == size);
    assert(head.contains(step) <==> step == title || step == resizable || step == decorated);
    assert(tail.contains(step) <==> step == paintable || step == size);
}

/// The last steps are in turn, and are those that are called for.
proof fn lemma_last_steps(b: WindowBuilder, report: DisplayReport, live: bool, step: SetupStep)
    ensures
        in_turn(crate::builder::last_steps(b, report), 11, 15),
        crate::builder::last_steps(b, report).contains(step) <==> 11 <= turn_of(step)
            && is_called_for(step, b, report, live),
{
    let position = match b.position {
        Some(position) => seq![SetupStep::SetPosition(position)],
        None => seq![],
    };
    let state = match b.state {
        Some(state) => seq![SetupStep::SetWindowState(state)],
        None => seq![],
    };
    let menu = match b.menu {
        Some(menu) => seq![SetupStep::SetMenu(menu)],
        None => seq![],
    };
    let min_size = match b.min_size {
        Some(size) => seq![SetupStep::SetMinSize(size, report.scale)],
        None => seq![],
    };
    assert(crate::builder::last_steps(b, report) == position + state + menu + min_size);
    lemma_in_turn(position, state, 11, 12, 13);
    lemma_in_turn(position + state, menu, 11, 13, 14);
    lemma_in_turn(position + state + menu, min_size, 11, 14, 15);
    lemma_contains_either(position, state, step);
    lemma_contains_either(position + state, menu, step);
    lemma_contains_either(position + state + menu, min_size, step);
    lemma_contains_one(position, step);
    lemma_contains_one(state, step);
    lemma_contains_one(menu, step);
    lemma_contains_one(min_size, step);
}

/// Setting a window up takes exactly the steps that the builder and the display call for, each
/// once and in turn. So a tooltip, a drop-down or a modal window is made transient for the window
/// that its level names, if that one is still there, and no other window is made transient for
/// any.
pub proof fn law_setup(b: WindowBuilder, report: DisplayReport, owner_is_live: bool, step: SetupStep)
    ensures
        crate::builder::setup_steps(b, report, owner_is_live).contains(step) <==> is_called_for(
            step,
            b,
            report,
            owner_is_live,
        ),
        in_turn(crate::builder::setup_steps(b, report, owner_is_live), 0, 15),
{
    let first = crate::builder::first_steps(b, report);
    let last = crate::builder::last_steps(b, report);
    lemma_first_steps(b, report, owner_is_live, step);
    lemma_last_steps(b, report, owner_is_live, step);
    let level = match b.level {
        Some(level) => crate::builder::level_steps(level, owner_is_live),
        None => seq![],
    };
    if b.level is Some {
        lemma_level_steps(b, report, owner_is_live, step);
    }
    assert(crate::builder::setup_steps(b, report, owner_is_live) == first + level + last);
    lemma_in_turn(first, level, 0, 6, 11);
    lemma_in_turn(first + level, last, 0, 11, 15);
    lemma_contains_either(first, level, step);
    lemma_contains_either(first + level, last, step);
}

}
