use gtk_window::calls::{FileInfo, HandlerCall};
use gtk_window::deferred::{DeferredAction, DeferredRun, FileDialogType, FileRequest};
use gtk_window::draw::{DrawAction, DrawEvent, DrawPass, DrawPhase};
use gtk_window::geometry::{Patch, PxSize, Real, Rect, Region, Scale, ScaledArea};
use gtk_window::handle::WindowHandle;
use gtk_window::surface::{Content, SurfaceError, SurfaceOutcome};
use gtk_window::tokens::{FileDialogToken, IdleToken};
use gtk_window::window::{
    idle_retry, timer_continues, DeferredOp, FileDialogOptions, HandlerEntry, IdleKind, Menu,
    SurfaceUse, WindowState,
};

/// Both are made up of the same parts.
fn same<T: std::fmt::Debug>(a: T, b: T) {
    assert_eq!(format!("{:?}", a), format!("{:?}", b));
}

fn number(x: f64) -> Real {
    Real { bits: x.to_bits() }
}

fn scale(x: f64) -> Scale {
    Scale { x: number(x), y: number(x) }
}

fn px(width: i32, height: i32) -> PxSize {
    PxSize { width, height }
}

fn window() -> WindowState {
    let area = ScaledArea { size_px: px(500, 400), scale: scale(1.0) };
    WindowState::new(scale(1.0), area, false, None, None)
}

fn rect(x1: f64) -> Rect {
    Rect { x0: number(0.0), y0: number(0.0), x1: number(x1), y1: number(1.0) }
}

fn patch(x1: f64) -> Patch {
    Patch::Rect(rect(x1), scale(1.0))
}

fn open(key: u64, id: u64) -> DeferredOp {
    DeferredOp::Open(FileDialogOptions { key }, FileDialogToken { id })
}

fn save(key: u64, id: u64) -> DeferredOp {
    DeferredOp::SaveAs(FileDialogOptions { key }, FileDialogToken { id })
}

#[test]
fn handler_calls_do_not_nest() {
    let mut w = window();
    assert_eq!(w.with_handler(), HandlerEntry::Entered);
    assert_eq!(w.with_handler(), HandlerEntry::Busy);
    assert!(w.finish_call(HandlerEntry::Busy).is_empty());
    assert!(w.handler_borrowed);
    assert!(w.finish_call(HandlerEntry::Entered).is_empty());
    assert_eq!(w.with_handler(), HandlerEntry::Entered);
}

#[test]
fn handler_calls_are_refused_while_something_else_is_in_use() {
    let mut w = window();
    assert!(w.invalidate_rect(rect(1.0)));
    assert_eq!(w.with_handler(), HandlerEntry::Refused);
    assert!(!w.handler_borrowed);
    w.invalidate_done();
    w.resize_surface(100, 100);
    assert_eq!(w.with_handler(), HandlerEntry::Refused);
    assert_eq!(w.finish_resize(SurfaceOutcome::Created), Ok(()));
    assert_eq!(w.with_handler(), HandlerEntry::Entered);
}

#[test]
fn deferred_operations_are_handed_out_once_and_in_order() {
    let mut w = window();
    w.defer(open(1, 1));
    w.defer(save(2, 2));
    assert!(w.finish_call(HandlerEntry::Refused).is_empty());
    assert_eq!(w.with_handler(), HandlerEntry::Entered);
    w.defer(open(3, 3));
    same(w.finish_call(HandlerEntry::Entered), vec![open(1, 1), save(2, 2), open(3, 3)]);
    assert!(!w.handler_borrowed);
    assert!(w.run_deferred().is_empty());
}

#[test]
fn deferred_operations_are_handed_out_to_a_busy_handler_too() {
    let mut w = window();
    w.with_handler();
    w.defer(open(1, 1));
    assert_eq!(w.with_handler(), HandlerEntry::Busy);
    same(w.finish_call(HandlerEntry::Busy), vec![open(1, 1)]);
    assert!(w.finish_call(HandlerEntry::Entered).is_empty());
}

#[test]
fn requests_are_answered_by_their_token() {
    let request = FileRequest {
        dialog: FileDialogType::Open,
        options: FileDialogOptions { key: 9 },
        token: FileDialogToken { id: 4 },
    };
    let info = FileInfo { path: b"/tmp/a".to_vec(), format: None };
    same(
        request.answer(Some(b"/tmp/a".to_vec())),
        HandlerCall::OpenFile(FileDialogToken { id: 4 }, Some(info))
    );
    same(request.answer(None), HandlerCall::OpenFile(FileDialogToken { id: 4 }, None));
    let request = FileRequest { dialog: FileDialogType::Save, ..request };
    let info = FileInfo { path: b"b".to_vec(), format: None };
    same(
        request.answer(Some(b"b".to_vec())),
        HandlerCall::SaveAs(FileDialogToken { id: 4 }, Some(info))
    );
    same(request.answer(None), HandlerCall::SaveAs(FileDialogToken { id: 4 }, None));
}

#[test]
fn operations_that_an_answer_brings_come_first() {
    let mut w = window();
    let owner = WindowHandle { slot: Some(0) };
    let menu = DeferredOp::ContextMenu(Menu { key: 5 }, owner);
    let mut run = DeferredRun::new(vec![open(1, 1), menu]);
    let request = |dialog: FileDialogType, key: u64, id: u64| {
        DeferredAction::FileDialog(FileRequest {
            dialog,
            options: FileDialogOptions { key },
            token: FileDialogToken { id },
        })
    };
    same(run.proceed(), request(FileDialogType::Open, 1, 1));
    let entry = w.with_handler();
    w.defer(save(2, 2));
    same(run.told(&mut w, entry), request(FileDialogType::Save, 2, 2));
    assert!(!w.handler_borrowed);
    let entry = w.with_handler();
    same(
        run.told(&mut w, entry),
        DeferredAction::PopupMenu { menu: Menu { key: 5 }, owner }
    );
    same(run.proceed(), DeferredAction::Done);
    same(run.proceed(), DeferredAction::Done);
}

#[test]
fn refused_answers_leave_the_queue() {
    let mut w = window();
    let mut run = DeferredRun::new(vec![open(1, 1)]);
    run.proceed();
    w.defer(save(2, 2));
    same(run.told(&mut w, HandlerEntry::Refused), DeferredAction::Done);
    same(w.deferred_queue, vec![save(2, 2)]);
}

#[test]
fn idle_work_is_scheduled_once_and_done_in_order() {
    let mut w = window();
    assert!(w.add_idle(IdleKind::Token(IdleToken { id: 1 })));
    assert!(!w.add_idle(IdleKind::Callback(7)));
    let (entry, work) = w.run_idle();
    assert_eq!(entry, HandlerEntry::Entered);
    assert_eq!(work, vec![IdleKind::Token(IdleToken { id: 1 }), IdleKind::Callback(7)]);
    assert_eq!(idle_retry(entry), None);
    assert!(w.add_idle(IdleKind::Callback(8)));
    w.finish_call(entry);
    assert!(!w.handler_borrowed);
    assert_eq!(w.idle_queue, vec![IdleKind::Callback(8)]);
}

#[test]
fn idle_work_waits_for_the_handler() {
    let mut w = window();
    w.add_idle(IdleKind::Callback(7));
    w.with_handler();
    let (entry, work) = w.run_idle();
    assert_eq!(entry, HandlerEntry::Busy);
    assert!(work.is_empty());
    assert_eq!(w.idle_queue, vec![IdleKind::Callback(7)]);
    assert_eq!(idle_retry(entry), Some(16));
    assert_eq!(idle_retry(HandlerEntry::Refused), Some(16));
}

#[test]
fn timers_go_on_until_the_handler_was_told() {
    assert!(!timer_continues(HandlerEntry::Entered));
    assert!(timer_continues(HandlerEntry::Busy));
    assert!(timer_continues(HandlerEntry::Refused));
}

#[test]
fn frames_follow_frames() {
    let mut w = window();
    assert!(w.request_anim_frame());
    assert!(!w.request_animation);
    w.before_paint();
    assert!(!w.request_anim_frame());
    assert!(!w.request_anim_frame());
    assert!(w.after_paint());
    assert!(!w.after_paint());
    assert!(w.request_anim_frame());
}

#[test]
fn region_is_invalidated_once_at_a_time() {
    let mut w = window();
    assert!(w.invalidate_rect(rect(1.0)));
    assert!(!w.invalidate_rect(rect(2.0)));
    w.invalidate_done();
    assert!(w.invalidate_rect(rect(3.0)));
    assert_eq!(w.invalid.patches, vec![patch(1.0), patch(3.0)]);
}

#[test]
fn screen_decides_on_transparency() {
    let mut w = window();
    w.screen_changed(Some(true));
    assert!(w.is_transparent);
    w.screen_changed(None);
    assert!(w.is_transparent);
    w.screen_changed(Some(false));
    assert!(!w.is_transparent);
}

fn tell(w: &mut WindowState) {
    let entry = w.with_handler();
    w.finish_call(entry);
}

fn first_draw(w: &mut WindowState) {
    let mut pass = w.new_draw();
    same(w.draw_step(&mut pass, DrawEvent::Begun(Some(scale(1.0)))), DrawAction::Measure);
    same(
        w.draw_step(&mut pass, DrawEvent::Measured(px(500, 400))),
        DrawAction::Resurface { finish_old: false, content: Content::Color, size: px(512, 512) }
    );
    let area = ScaledArea { size_px: px(500, 400), scale: scale(1.0) };
    same(
        w.draw_step(&mut pass, DrawEvent::Resurfaced(SurfaceOutcome::Created)),
        DrawAction::Tell(HandlerCall::AreaSize(area))
    );
    tell(w);
    same(w.draw_step(&mut pass, DrawEvent::Told), DrawAction::RedrawWindow);
    assert_eq!(w.with_handler(), HandlerEntry::Refused);
    same(
        w.draw_step(&mut pass, DrawEvent::Invalidated),
        DrawAction::Tell(HandlerCall::PreparePaint)
    );
    tell(w);
    same(
        w.draw_step(&mut pass, DrawEvent::Told),
        DrawAction::Paint {
            invalid: Region { patches: vec![Patch::Area(area, scale(1.0))] },
            scale: scale(1.0)
        }
    );
    assert_eq!(w.surface_use, SurfaceUse::Shared);
    assert_eq!(w.with_handler(), HandlerEntry::Refused);
    same(w.draw_step(&mut pass, DrawEvent::Painted), DrawAction::Done);
    assert_eq!(pass.phase, DrawPhase::Done);
    assert_eq!(w.surface_use, SurfaceUse::Free);
    assert!(!w.handler_borrowed);
    assert!(w.invalid.patches.is_empty());
}

#[test]
fn first_draw_makes_a_surface_and_paints_everything() {
    first_draw(&mut window());
}

#[test]
fn unchanged_window_paints_what_is_invalid() {
    let mut w = window();
    first_draw(&mut w);
    w.invalidate_rect(rect(7.0));
    w.invalidate_done();
    let mut pass = w.new_draw();
    same(w.draw_step(&mut pass, DrawEvent::Begun(None)), DrawAction::Measure);
    same(
        w.draw_step(&mut pass, DrawEvent::Measured(px(500, 400))),
        DrawAction::Tell(HandlerCall::PreparePaint)
    );
    same(
        w.draw_step(&mut pass, DrawEvent::Told),
        DrawAction::Paint { invalid: Region { patches: vec![patch(7.0)] }, scale: scale(1.0) }
    );
}

#[test]
fn draws_say_why_there_is_no_surface() {
    for (outcome, failure) in [
        (SurfaceOutcome::Created, None),
        (SurfaceOutcome::Failed, Some(SurfaceError::CreateFailed)),
        (SurfaceOutcome::NoWindow, Some(SurfaceError::NoWindow)),
    ] {
        let mut w = window();
        let mut pass = w.new_draw();
        w.draw_step(&mut pass, DrawEvent::Begun(None));
        w.draw_step(&mut pass, DrawEvent::Measured(px(500, 400)));
        w.draw_step(&mut pass, DrawEvent::Resurfaced(outcome));
        assert_eq!(pass.failure, failure);
        assert_eq!(w.has_surface, failure.is_none());
    }
}

#[test]
fn whole_draw_paints_what_was_marked_before_it() {
    let mut w = window();
    first_draw(&mut w);
    w.invalidate_rect(rect(7.0));
    w.invalidate_done();
    let mut pass = w.new_draw();
    w.draw_step(&mut pass, DrawEvent::Begun(None));
    w.draw_step(&mut pass, DrawEvent::Measured(px(500, 400)));
    let entry = w.with_handler();
    w.invalidate_rect(rect(8.0));
    w.invalidate_done();
    w.finish_call(entry);
    same(
        w.draw_step(&mut pass, DrawEvent::Told),
        DrawAction::Paint {
            invalid: Region { patches: vec![patch(7.0), patch(8.0)] },
            scale: scale(1.0)
        }
    );
    w.invalidate_rect(rect(9.0));
    w.invalidate_done();
    same(w.draw_step(&mut pass, DrawEvent::Painted), DrawAction::Done);
    assert_eq!(w.invalid.patches, vec![patch(9.0)]);
}

#[test]
fn region_in_use_is_not_marked_by_a_draw() {
    let mut w = window();
    first_draw(&mut w);
    let mut pass = w.new_draw();
    w.draw_step(&mut pass, DrawEvent::Begun(None));
    w.draw_step(&mut pass, DrawEvent::Measured(px(505, 400)));
    w.invalidate_rect(rect(1.0));
    same(
        w.draw_step(&mut pass, DrawEvent::Told),
        DrawAction::Tell(HandlerCall::PreparePaint)
    );
    assert_eq!(w.invalid.patches, vec![patch(1.0)]);
}

#[test]
fn small_resize_keeps_the_surface() {
    let mut w = window();
    first_draw(&mut w);
    let mut pass = w.new_draw();
    w.draw_step(&mut pass, DrawEvent::Begun(None));
    let area = ScaledArea { size_px: px(505, 400), scale: scale(1.0) };
    same(
        w.draw_step(&mut pass, DrawEvent::Measured(px(505, 400))),
        DrawAction::Tell(HandlerCall::AreaSize(area))
    );
    assert_eq!(w.area, area);
    same(w.draw_step(&mut pass, DrawEvent::Told), DrawAction::RedrawWindow);
    assert_eq!(w.invalid.patches, vec![Patch::Area(area, scale(1.0))]);
}

#[test]
fn new_scale_is_told_first() {
    let mut w = window();
    first_draw(&mut w);
    let mut pass = w.new_draw();
    same(
        w.draw_step(&mut pass, DrawEvent::Begun(Some(scale(2.0)))),
        DrawAction::Tell(HandlerCall::Scale(scale(2.0)))
    );
    assert_eq!(w.scale, scale(2.0));
    same(w.draw_step(&mut pass, DrawEvent::Told), DrawAction::Measure);
    assert!(w.resize_needed(&pass, px(500, 400)));
    let area = ScaledArea { size_px: px(500, 400), scale: scale(2.0) };
    same(
        w.draw_step(&mut pass, DrawEvent::Measured(px(500, 400))),
        DrawAction::Tell(HandlerCall::AreaSize(area))
    );
}

#[test]
fn same_scale_is_told_once() {
    let mut w = window();
    let mut pass = w.new_draw();
    same(
        w.draw_step(&mut pass, DrawEvent::Begun(Some(scale(1.5)))),
        DrawAction::Tell(HandlerCall::Scale(scale(1.5)))
    );
    let mut later = w.new_draw();
    same(w.draw_step(&mut later, DrawEvent::Begun(Some(scale(1.5)))), DrawAction::Measure);
    assert!(!later.scale_changed);
    assert_eq!(later.scale, scale(1.5));
}

fn prepared(w: &WindowState) -> DrawPass {
    DrawPass { phase: DrawPhase::Prepare, ..w.new_draw() }
}

#[test]
fn nothing_is_painted_without_a_surface() {
    let mut w = window();
    w.invalidate_rect(rect(1.0));
    w.invalidate_done();
    let mut pass = prepared(&w);
    same(w.draw_step(&mut pass, DrawEvent::Told), DrawAction::NoSurface);
    assert_eq!(pass.phase, DrawPhase::Done);
    assert!(w.invalid.patches.is_empty());
}

#[test]
fn nothing_is_painted_inside_a_call() {
    let mut w = window();
    first_draw(&mut w);
    w.with_handler();
    let mut pass = prepared(&w);
    same(w.draw_step(&mut pass, DrawEvent::Told), DrawAction::Busy);
    assert_eq!(w.surface_use, SurfaceUse::Free);
    assert!(w.handler_borrowed);
}

#[test]
fn region_in_use_is_painted_as_empty() {
    let mut w = window();
    first_draw(&mut w);
    w.invalidate_rect(rect(1.0));
    let mut pass = prepared(&w);
    same(
        w.draw_step(&mut pass, DrawEvent::Told),
        DrawAction::Paint { invalid: Region::empty(), scale: scale(1.0) }
    );
    assert_eq!(w.invalid.patches, vec![patch(1.0)]);
}
