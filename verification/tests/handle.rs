use gtk_window::builder::{
    Application, DisplayReport, Handler, SetupStep, WindowBuilder, WindowLevel, WindowTypeHint,
};
use gtk_window::calls::HandlerCall;
use gtk_window::cursor::{Cursor, CursorDesc, CursorSource, ImageFormat};
use gtk_window::events::{destroy_call, focus_call, timer_call, CloseAction, CloseRequest};
use gtk_window::geometry::{Patch, Point, PxSize, Real, Rect, Scale, ScaledArea, Size};
use gtk_window::handle::{
    IdleHandle, MenuStep, PositionStep, ShellError, SizeState, WindowAction, WindowHandle, Windows,
};
use gtk_window::tokens::{FileDialogToken, IdleToken, TextFieldToken, TimerToken};
use gtk_window::window::{DeferredOp, FileDialogOptions, IdleKind, Menu, WindowState};

/// Both are made up of the same parts.
fn same<T: std::fmt::Debug>(a: T, b: T) {
    assert_eq!(format!("{:?}", a), format!("{:?}", b));
}

fn number(x: f64) -> Real {
    Real { bits: x.to_bits() }
}

fn scale(x: f64) -> Scale {
    Scale { x: number(x), y: number(x) }
}

fn size(width: f64, height: f64) -> Size {
    Size { width: number(width), height: number(height) }
}

fn area(x: f64) -> ScaledArea {
    ScaledArea { size_px: PxSize { width: 500, height: 400 }, scale: scale(x) }
}

fn add(windows: &mut Windows, x: f64, parent: Option<WindowHandle>) -> WindowHandle {
    windows.insert(WindowState::new(scale(x), area(x), false, parent, None))
}

fn report() -> DisplayReport {
    DisplayReport {
        rgba_visual: Some(true),
        scale: scale(1.5),
        size_px: PxSize { width: 750, height: 600 },
    }
}

#[test]
fn handles_reach_windows() {
    let mut windows = Windows::new();
    let a = add(&mut windows, 1.0, None);
    let b = add(&mut windows, 2.0, None);
    assert_eq!(a.get_scale(&windows), Ok(scale(1.0)));
    assert_eq!(b.get_scale(&windows), Ok(scale(2.0)));
    windows.remove(&a);
    assert_eq!(a.get_scale(&windows), Err(ShellError::WindowDropped));
    assert_eq!(b.get_scale(&windows), Ok(scale(2.0)));
    let c = add(&mut windows, 3.0, None);
    assert_eq!(a.get_scale(&windows), Err(ShellError::WindowDropped));
    assert_eq!(c.get_scale(&windows), Ok(scale(3.0)));
    assert_eq!(WindowHandle::default().get_scale(&windows), Err(ShellError::WindowDropped));
}

#[test]
fn dropped_handles_are_all_the_same() {
    let mut windows = Windows::new();
    let a = add(&mut windows, 1.0, None);
    let b = add(&mut windows, 1.0, None);
    assert!(a.same_window(&windows, &a));
    assert!(!a.same_window(&windows, &b));
    assert!(!a.same_window(&windows, &WindowHandle::default()));
    windows.remove(&a);
    assert!(!a.same_window(&windows, &b));
    assert!(a.same_window(&windows, &WindowHandle::default()));
    windows.remove(&b);
    assert!(a.same_window(&windows, &b));
}

#[test]
fn windows_are_asked_only_while_they_exist() {
    let mut windows = Windows::new();
    let a = add(&mut windows, 2.0, None);
    let none = WindowHandle::default();
    assert_eq!(a.show(&windows), Some(WindowAction::ShowAll));
    assert_eq!(a.resizable(&windows, false), Some(WindowAction::SetResizable(false)));
    assert_eq!(a.show_titlebar(&windows, true), Some(WindowAction::SetDecorated(true)));
    assert_eq!(a.bring_to_front_and_focus(&windows), Some(WindowAction::Present));
    assert_eq!(
        a.set_title(&windows, "title".to_string()),
        Some(WindowAction::SetTitle("title".to_string()))
    );
    assert_eq!(
        a.set_size(&windows, size(10.0, 20.0)),
        Some(WindowAction::Resize(size(10.0, 20.0), scale(2.0)))
    );
    assert_eq!(a.get_size(&windows), Some(scale(2.0)));
    assert_eq!(a.content_insets(&windows), Some(scale(2.0)));
    assert_eq!(none.show(&windows), None);
    assert_eq!(none.resizable(&windows, false), None);
    assert_eq!(none.show_titlebar(&windows, true), None);
    assert_eq!(none.bring_to_front_and_focus(&windows), None);
    assert_eq!(none.set_title(&windows, "title".to_string()), None);
    assert_eq!(none.set_size(&windows, size(10.0, 20.0)), None);
    assert_eq!(none.get_size(&windows), None);
    assert_eq!(none.content_insets(&windows), None);
}

#[test]
fn positions_are_relative_to_parents() {
    let mut windows = Windows::new();
    let a = add(&mut windows, 1.0, None);
    let b = add(&mut windows, 2.0, Some(a));
    let c = add(&mut windows, 3.0, Some(b));
    let step = |window: WindowHandle, x: f64| PositionStep { window, scale: scale(x) };
    same(c.get_position(&windows), vec![step(c, 3.0), step(b, 2.0), step(a, 1.0)]);
    let at = Point { x: number(12.0), y: number(34.0) };
    let plan = c.set_position(&windows, at).unwrap();
    assert_eq!(plan.position, at);
    same(plan.parent, vec![step(b, 2.0), step(a, 1.0)]);
    assert_eq!(plan.scale, scale(3.0));
    assert!(a.set_position(&windows, at).unwrap().parent.is_empty());
    windows.remove(&a);
    same(c.get_position(&windows), vec![step(c, 3.0), step(b, 2.0)]);
    windows.remove(&c);
    assert!(c.get_position(&windows).is_empty());
    same(c.set_position(&windows, at), None);
}

#[test]
fn size_states_are_read() {
    let mut windows = Windows::new();
    let a = add(&mut windows, 1.0, None);
    assert_eq!(a.get_window_state(&windows, true, Some(2)), SizeState::Maximized);
    assert_eq!(a.get_window_state(&windows, false, Some(2)), SizeState::Minimized);
    assert_eq!(a.get_window_state(&windows, false, Some(7)), SizeState::Minimized);
    assert_eq!(a.get_window_state(&windows, false, Some(5)), SizeState::Restored);
    assert_eq!(a.get_window_state(&windows, false, None), SizeState::Restored);
    windows.remove(&a);
    assert_eq!(a.get_window_state(&windows, true, Some(2)), SizeState::Restored);
}

#[test]
fn size_states_are_set() {
    let mut windows = Windows::new();
    let a = add(&mut windows, 1.0, None);
    let maximized = (true, None);
    let minimized = (false, Some(2));
    let restored = (false, None);
    let set = |requested: SizeState, current: (bool, Option<u32>)| {
        a.set_window_state(&windows, requested, current.0, current.1)
    };
    let un = || WindowAction::Unmaximize;
    assert_eq!(set(SizeState::Maximized, maximized), vec![un()]);
    assert_eq!(set(SizeState::Maximized, minimized), vec![WindowAction::Maximize, un()]);
    assert_eq!(set(SizeState::Maximized, restored), vec![WindowAction::Maximize, un()]);
    assert_eq!(set(SizeState::Minimized, maximized), vec![WindowAction::Iconify, un()]);
    assert_eq!(set(SizeState::Minimized, minimized), vec![un()]);
    assert_eq!(set(SizeState::Restored, maximized), vec![un(), un()]);
    assert_eq!(set(SizeState::Restored, minimized), vec![WindowAction::Deiconify, un()]);
    assert_eq!(set(SizeState::Restored, restored), vec![un()]);
    let none = WindowHandle::default();
    assert!(none.set_window_state(&windows, SizeState::Maximized, false, None).is_empty());
}

#[test]
fn closing_is_honoured_once_the_client_asked() {
    let mut windows = Windows::new();
    let a = add(&mut windows, 1.0, None);
    assert!(windows.get(&a).unwrap().inhibits_close());
    assert_eq!(a.close(&mut windows), Some(WindowAction::Close));
    assert!(!windows.get(&a).unwrap().inhibits_close());
    let state = windows.get_mut(&a).unwrap();
    let entry = state.with_handler();
    state.finish_call(entry);
    assert!(!windows.get(&a).unwrap().inhibits_close());
    assert_eq!(WindowHandle::default().close(&mut windows), None);
}

#[test]
fn frames_are_requested() {
    let mut windows = Windows::new();
    let a = add(&mut windows, 1.0, None);
    assert!(a.request_anim_frame(&mut windows));
    windows.get_mut(&a).unwrap().before_paint();
    assert!(!a.request_anim_frame(&mut windows));
    assert!(windows.get_mut(&a).unwrap().after_paint());
    assert!(!WindowHandle::default().request_anim_frame(&mut windows));
}

#[test]
fn rectangles_are_invalidated() {
    let mut windows = Windows::new();
    let a = add(&mut windows, 1.0, None);
    let b = add(&mut windows, 1.0, None);
    let zero = number(0.0);
    let rect = Rect { x0: zero, y0: zero, x1: number(1.0), y1: number(2.0) };
    assert!(a.invalidate_rect(&mut windows, rect));
    assert!(!a.invalidate_rect(&mut windows, rect));
    assert!(!WindowHandle::default().invalidate_rect(&mut windows, rect));
    assert_eq!(windows.get(&a).unwrap().invalid.patches, vec![Patch::Rect(rect, scale(1.0))]);
    assert!(windows.get(&b).unwrap().invalid.patches.is_empty());
}

#[test]
fn all_of_a_window_is_invalidated() {
    let mut windows = Windows::new();
    let a = add(&mut windows, 2.0, None);
    assert!(a.invalidate(&mut windows));
    assert!(!a.invalidate(&mut windows));
    let all = Patch::Area(area(2.0), scale(2.0));
    assert_eq!(windows.get(&a).unwrap().invalid.patches, vec![all]);
    assert!(!WindowHandle::default().invalidate(&mut windows));
}

#[test]
fn menu_bars_replace_each_other() {
    let mut windows = Windows::new();
    let a = add(&mut windows, 1.0, None);
    let one = Menu { key: 1 };
    let two = Menu { key: 2 };
    assert_eq!(
        a.set_menu(&mut windows, one),
        vec![MenuStep::PackStart(one), MenuStep::ShowAll]
    );
    assert_eq!(
        a.set_menu(&mut windows, two),
        vec![MenuStep::RemoveFirst, MenuStep::PackStart(two), MenuStep::ShowAll]
    );
    assert_eq!(windows.get(&a).unwrap().menu, Some(two));
    assert!(WindowHandle::default().set_menu(&mut windows, one).is_empty());
}

#[test]
fn close_requests_are_told_and_then_answered() {
    let mut windows = Windows::new();
    let a = add(&mut windows, 1.0, None);
    let mut request = CloseRequest::Begin;
    let told = CloseAction::Tell(HandlerCall::RequestClose);
    same(a.close_step(&windows, &mut request), told);
    same(a.close_step(&windows, &mut request), CloseAction::Answer { inhibit: true });
    assert_eq!(request, CloseRequest::Done);

    let mut request = CloseRequest::Begin;
    a.close_step(&windows, &mut request);
    a.close(&mut windows);
    same(a.close_step(&windows, &mut request), CloseAction::Answer { inhibit: false });

    let mut request = CloseRequest::Begin;
    let none = WindowHandle::default();
    same(none.close_step(&windows, &mut request), CloseAction::Answer { inhibit: false });
    assert_eq!(request, CloseRequest::Done);
}

#[test]
fn handlers_are_told_of_focus_timers_and_the_end() {
    same(focus_call(true), HandlerCall::GotFocus);
    same(focus_call(false), HandlerCall::LostFocus);
    same(destroy_call(), HandlerCall::Destroy);
    let token = TimerToken { id: 7 };
    same(timer_call(token), HandlerCall::Timer(token));
}

#[test]
fn text_fields_take_the_focus() {
    let mut windows = Windows::new();
    let a = add(&mut windows, 1.0, None);
    let one = a.add_text_field(&mut windows);
    let two = WindowHandle::default().add_text_field(&mut windows);
    assert_eq!(one, TextFieldToken { id: 1 });
    assert_eq!(two, TextFieldToken { id: 2 });
    a.set_focused_text_field(&mut windows, Some(one));
    a.remove_text_field(&mut windows, two);
    assert_eq!(windows.get(&a).unwrap().active_text_input, Some(one));
    a.remove_text_field(&mut windows, one);
    assert_eq!(windows.get(&a).unwrap().active_text_input, None);
    a.set_focused_text_field(&mut windows, Some(two));
    a.set_focused_text_field(&mut windows, None);
    assert_eq!(windows.get(&a).unwrap().active_text_input, None);
}

#[test]
fn timers_wait_for_the_deadline() {
    let mut windows = Windows::new();
    let a = add(&mut windows, 1.0, None);
    let (one, wait) = a.request_timer(&mut windows, 100, 30);
    assert_eq!((one.id, wait), (1, Some(70)));
    let (two, wait) = a.request_timer(&mut windows, 30, 100);
    assert_eq!((two.id, wait), (2, Some(0)));
    let (three, wait) = WindowHandle::default().request_timer(&mut windows, 100, 30);
    assert_eq!((three.id, wait), (3, None));
}

#[test]
fn cursors_need_a_window_on_screen() {
    let mut windows = Windows::new();
    let a = add(&mut windows, 1.0, None);
    assert_eq!(a.set_cursor(&windows, &Cursor::IBeam, true), Some(CursorSource::Theme("text")));
    assert_eq!(a.set_cursor(&windows, &Cursor::IBeam, false), None);
    assert_eq!(WindowHandle::default().set_cursor(&windows, &Cursor::IBeam, true), None);
    let hot = Point { x: number(1.5), y: number(2.0) };
    let desc = CursorDesc { width: 4, height: 5, format: ImageFormat::Rgb, hot };
    let image = a.make_cursor(&windows, &desc, true).unwrap();
    assert_eq!((image.layout.width, image.layout.height, image.layout.row_stride), (4, 5, 12));
    assert!(!image.layout.has_alpha);
    assert_eq!(image.hot, hot);
    assert_eq!(a.make_cursor(&windows, &desc, false), None);
    assert_eq!(WindowHandle::default().make_cursor(&windows, &desc, true), None);
}

#[test]
fn files_are_requested_by_token() {
    let mut windows = Windows::new();
    let a = add(&mut windows, 1.0, None);
    let options = FileDialogOptions { key: 3 };
    let one = FileDialogToken { id: 1 };
    let two = FileDialogToken { id: 2 };
    assert_eq!(a.open_file(&mut windows, options), Some(one));
    assert_eq!(WindowHandle::default().open_file(&mut windows, options), None);
    assert_eq!(WindowHandle::default().save_as(&mut windows, options), None);
    assert_eq!(a.save_as(&mut windows, options), Some(two));
    let pos = Point { x: number(0.0), y: number(0.0) };
    a.show_context_menu(&mut windows, Menu { key: 8 }, pos);
    same(
        windows.get_mut(&a).unwrap().run_deferred(),
        vec![
            DeferredOp::Open(options, one),
            DeferredOp::SaveAs(options, two),
            DeferredOp::ContextMenu(Menu { key: 8 }, a),
        ]
    );
}

#[test]
fn dropped_windows_need_no_token_and_no_row() {
    let mut windows = Windows::new();
    let a = add(&mut windows, 1.0, None);
    windows.file_dialogs.issued = u64::MAX;
    let options = FileDialogOptions { key: 3 };
    assert_eq!(WindowHandle::default().open_file(&mut windows, options), None);
    assert_eq!(WindowHandle::default().save_as(&mut windows, options), None);
    let hot = Point { x: number(0.0), y: number(0.0) };
    let desc = CursorDesc { width: usize::MAX, height: 1, format: ImageFormat::Rgb, hot };
    assert_eq!(a.make_cursor(&windows, &desc, false), None);
    assert_eq!(WindowHandle::default().make_cursor(&windows, &desc, true), None);
}

#[test]
fn idle_work_is_added_to_live_windows() {
    let mut windows = Windows::new();
    let a = add(&mut windows, 1.0, None);
    same(WindowHandle::default().get_idle_handle(&windows), None);
    let idle = a.get_idle_handle(&windows).unwrap();
    same(idle, IdleHandle { window: a });
    assert!(idle.add_idle_callback(&mut windows, 11));
    assert!(!idle.add_idle_token(&mut windows, IdleToken { id: 12 }));
    assert_eq!(
        windows.get(&a).unwrap().idle_queue,
        vec![IdleKind::Callback(11), IdleKind::Token(IdleToken { id: 12 })]
    );
    windows.remove(&a);
    assert!(!idle.add_idle_callback(&mut windows, 13));
    assert!(!idle.add_idle_token(&mut windows, IdleToken { id: 14 }));
}

#[test]
fn builder_starts_with_defaults() {
    let b = WindowBuilder::new(Application { key: 1 });
    assert_eq!(b.app, Application { key: 1 });
    assert_eq!(b.size, size(500.0, 400.0));
    assert_eq!(b.title, "");
    assert!(b.resizable && b.show_titlebar && !b.transparent);
    assert!(b.handler.is_none() && b.menu.is_none() && b.position.is_none());
    assert!(b.level.is_none() && b.state.is_none() && b.min_size.is_none());
}

#[test]
fn plain_window_is_built() {
    let mut windows = Windows::new();
    let mut b = WindowBuilder::new(Application { key: 1 });
    b.set_handler(Handler { key: 2 });
    let built = b.build(&mut windows, report()).unwrap();
    assert_eq!(built.handler, Handler { key: 2 });
    same(
        built.steps,
        vec![
            SetupStep::SetTitle(String::new()),
            SetupStep::SetResizable(true),
            SetupStep::SetDecorated(true),
            SetupStep::SetAppPaintable(false),
            SetupStep::SetDefaultSize(PxSize { width: 750, height: 600 }),
        ]
    );
    same(
        built.calls,
        vec![
            HandlerCall::Connect(built.handle),
            HandlerCall::Scale(scale(1.5)),
            HandlerCall::Size(size(500.0, 400.0)),
        ]
    );
    let state = windows.get(&built.handle).unwrap();
    assert_eq!(state.scale, scale(1.5));
    same(state.parent, None);
    assert!(!state.is_transparent && !state.closing && !state.has_surface);
}

#[test]
fn full_window_is_built() {
    let mut windows = Windows::new();
    let owner = add(&mut windows, 1.0, None);
    let at = Point { x: number(1.0), y: number(2.0) };
    let mut b = WindowBuilder::new(Application { key: 1 });
    b.set_handler(Handler { key: 2 });
    b.set_title("t".to_string());
    b.set_size(size(1.0, 2.0));
    b.set_min_size(size(3.0, 4.0));
    b.resizable(false);
    b.show_titlebar(false);
    b.set_transparent(true);
    b.set_position(at);
    b.set_level(WindowLevel::Modal(owner));
    b.set_window_state(SizeState::Maximized);
    b.set_menu(Menu { key: 6 });
    let built = b.build(&mut windows, report()).unwrap();
    same(
        built.steps,
        vec![
            SetupStep::SetTitle("t".to_string()),
            SetupStep::SetResizable(false),
            SetupStep::SetDecorated(false),
            SetupStep::SetVisual,
            SetupStep::SetAppPaintable(true),
            SetupStep::SetDefaultSize(PxSize { width: 750, height: 600 }),
            SetupStep::SetTypeHint(WindowTypeHint::Dialog),
            SetupStep::SetUrgencyHint(true),
            SetupStep::SetModal(true),
            SetupStep::SetTransientFor(owner),
            SetupStep::SetOverrideRedirect(true),
            SetupStep::SetPosition(at),
            SetupStep::SetWindowState(SizeState::Maximized),
            SetupStep::SetMenu(Menu { key: 6 }),
            SetupStep::SetMinSize(size(3.0, 4.0), scale(1.5)),
        ]
    );
    let state = windows.get(&built.handle).unwrap();
    assert!(state.is_transparent);
    same(state.parent, Some(owner));
    assert_eq!(state.menu, Some(Menu { key: 6 }));
    let other = Menu { key: 7 };
    assert_eq!(
        built.handle.set_menu(&mut windows, other),
        vec![MenuStep::RemoveFirst, MenuStep::PackStart(other), MenuStep::ShowAll]
    );
}

fn level_steps(level: WindowLevel, windows: &mut Windows) -> Vec<SetupStep> {
    let mut b = WindowBuilder::new(Application { key: 1 });
    b.set_handler(Handler { key: 2 });
    b.set_level(level);
    let mut steps = b.build(windows, report()).unwrap().steps;
    steps.split_off(5)
}

#[test]
fn levels_have_hints() {
    let mut windows = Windows::new();
    let owner = add(&mut windows, 1.0, None);
    same(
        level_steps(WindowLevel::AppWindow, &mut windows),
        vec![
            SetupStep::SetTypeHint(WindowTypeHint::Normal),
            SetupStep::SetOverrideRedirect(false),
        ]
    );
    same(
        level_steps(WindowLevel::Tooltip(owner), &mut windows),
        vec![
            SetupStep::SetTypeHint(WindowTypeHint::Tooltip),
            SetupStep::SetTransientFor(owner),
            SetupStep::SetOverrideRedirect(true),
        ]
    );
    windows.remove(&owner);
    same(
        level_steps(WindowLevel::DropDown(owner), &mut windows),
        vec![
            SetupStep::SetTypeHint(WindowTypeHint::DropdownMenu),
            SetupStep::SetOverrideRedirect(true),
        ]
    );
}

#[test]
fn transparency_needs_a_screen() {
    for (rgba_visual, visual, transparent) in
        [(None, false, false), (Some(false), true, false), (Some(true), true, true)]
    {
        let mut windows = Windows::new();
        let mut b = WindowBuilder::new(Application { key: 1 });
        b.set_handler(Handler { key: 2 });
        b.set_transparent(true);
        let report = DisplayReport { rgba_visual, ..report() };
        let built = b.build(&mut windows, report).unwrap();
        assert_eq!(built.steps.iter().any(|step| matches!(step, SetupStep::SetVisual)), visual);
        assert!(built.steps.iter().any(
            |step| matches!(step, SetupStep::SetAppPaintable(paintable) if *paintable == transparent)
        ));
        assert_eq!(windows.get(&built.handle).unwrap().is_transparent, transparent);
    }
}
