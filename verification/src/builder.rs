//! How a window comes to be.

use vstd::prelude::*;

use crate::calls::HandlerCall;
use crate::geometry::{Point, PxSize, Real, Scale, ScaledArea, Size};
use crate::handle::{ShellError, SizeState, WindowHandle, Windows};
use crate::window::{Menu, WindowState};

verus! {

/// The application that a window belongs to, by its number.
#[derive(Clone, Copy, Debug, PartialEq, Eq, Structural)]
pub struct Application {
    pub key: u64,
}

/// The handler of a window, by its number among those that the application holds.
#[derive(Clone, Copy, Debug, PartialEq, Eq, Structural)]
pub struct Handler {
    pub key: u64,
}

/// What a window is for. All but the windows of the application itself belong to another one.
#[derive(Clone, Copy, Debug)]
pub enum WindowLevel {
    AppWindow,
    Tooltip(WindowHandle),
    DropDown(WindowHandle),
    Modal(WindowHandle),
}

impl WindowLevel {
    /// The window that this one belongs to.
    pub open spec fn owner(self) -> Option<WindowHandle> {
        match self {
            WindowLevel::AppWindow => None,
            WindowLevel::Tooltip(parent) => Some(parent),
            WindowLevel::DropDown(parent) => Some(parent),
            WindowLevel::Modal(parent) => Some(parent),
        }
    }

    /// The hint that the toolkit passes on to the window manager.
    pub open spec fn hint(self) -> WindowTypeHint {
        match self {
            WindowLevel::AppWindow => WindowTypeHint::Normal,
            WindowLevel::Tooltip(_) => WindowTypeHint::Tooltip,
            WindowLevel::DropDown(_) => WindowTypeHint::DropdownMenu,
            WindowLevel::Modal(_) => WindowTypeHint::Dialog,
        }
    }
}

/// What the window manager is told of a window.
#[derive(Clone, Copy, Debug, PartialEq, Eq, Structural)]
pub enum WindowTypeHint {
    Normal,
    Tooltip,
    DropdownMenu,
    Dialog,
}

/// Collects what a window is to be like, and builds it.
#[derive(Debug)]
pub struct WindowBuilder {
    pub app: Application,
    pub handler: Option<Handler>,
    pub title: String,
    pub menu: Option<Menu>,
    pub position: Option<Point>,
    pub level: Option<WindowLevel>,
    pub state: Option<SizeState>,
    pub size: Size,
    pub min_size: Option<Size>,
    pub resizable: bool,
    pub show_titlebar: bool,
    pub transparent: bool,
}

/// What the toolkit reports of the display for which a window is built.
#[derive(Clone, Copy, Debug, PartialEq, Eq, Structural)]
pub struct DisplayReport {
    /// Whether the window's screen can show transparency; nothing where it has no screen.
    pub rgba_visual: Option<bool>,
    pub scale: Scale,
    /// The size of the window in pixels, under that scale.
    pub size_px: PxSize,
}

/// A step in setting a window up.
#[derive(Debug)]
pub enum SetupStep {
    SetTitle(String),
    SetResizable(bool),
    SetDecorated(bool),
    /// Give the window the transparent visual of its screen, if there is one.
    SetVisual,
    SetAppPaintable(bool),
    SetDefaultSize(PxSize),
    SetTypeHint(WindowTypeHint),
    SetUrgencyHint(bool),
    SetModal(bool),
    SetTransientFor(WindowHandle),
    /// Only where the toolkit has a window already.
    SetOverrideRedirect(bool),
    SetPosition(Point),
    SetWindowState(SizeState),
    SetMenu(Menu),
    /// Request this size, multiplied by the scale and rounded, for the drawing area.
    SetMinSize(Size, Scale),
}

/// A window that was built.
#[derive(Debug)]
pub struct Built {
    pub handle: WindowHandle,
    pub handler: Handler,
    /// What is to be done with the toolkit's window, in this order.
    pub steps: Vec<SetupStep>,
    /// What the handler is told when that is done, in one call.
    pub calls: Vec<HandlerCall>,
}

/// The window is transparent: that was asked for, and the screen can show it.
pub open spec fn shows_transparency(b: WindowBuilder, report: DisplayReport) -> bool {
    b.transparent && report.rgba_visual == Some(true)
}

/// The window that the new one belongs to.
pub open spec fn owner_of(b: WindowBuilder) -> Option<WindowHandle> {
    match b.level {
        Some(level) => level.owner(),
        None => None,
    }
}

/// The steps that follow from the level of a window. It is made transient for its owner if
/// that one is still there.
pub open spec fn level_steps(level: WindowLevel, owner_is_live: bool) -> Seq<SetupStep> {
    let urgent = if level is Modal {
        seq![SetupStep::SetUrgencyHint(true), SetupStep::SetModal(true)]
    } else {
        seq![]
    };
    let transient = match level.owner() {
        Some(owner) if owner_is_live => seq![SetupStep::SetTransientFor(owner)],
        _ => seq![],
    };
    seq![SetupStep::SetTypeHint(level.hint())] + urgent + transient + seq![
        SetupStep::SetOverrideRedirect(!(level is AppWindow)),
    ]
}

/// The steps that every window begins with.
pub open spec fn first_steps(b: WindowBuilder, report: DisplayReport) -> Seq<SetupStep> {
    let visual = if b.transparent && report.rgba_visual is Some {
        seq![SetupStep::SetVisual]
    } else {
        seq![]
    };
    seq![
        SetupStep::SetTitle(b.title),
        SetupStep::SetResizable(b.resizable),
        SetupStep::SetDecorated(b.show_titlebar),
    ] + visual + seq![
        SetupStep::SetAppPaintable(shows_transparency(b, report)),
        SetupStep::SetDefaultSize(report.size_px),
    ]
}

/// The steps for what the window was to have besides.
pub open spec fn last_steps(b: WindowBuilder, report: DisplayReport) -> Seq<SetupStep> {
    let position = match b.position {
        Some(position) => seq![SetupStep::SetPosition(position)],
        None => seq![],
    };
    let state = match b.state {
        Some(state) => seq![SetupStep::SetWindowState(state)],
        None => seq![],
    };
    let menu = match b.menu {
        Some(menu) => seq![SetupStep::SetMenu(menu)],
        None => seq![],
    };
    let min_size = match b.min_size {
        Some(size) => seq![SetupStep::SetMinSize(size, report.scale)],
        None => seq![],
    };
    position + state + menu + min_size
}

/// The steps in setting up the window.
pub open spec fn setup_steps(
    b: WindowBuilder,
    report: DisplayReport,
    owner_is_live: bool,
) -> Seq<SetupStep> {
    let level = match b.level {
        Some(level) => level_steps(level, owner_is_live),
        None => seq![],
    };
    first_steps(b, report) + level + last_steps(b, report)
}

/// The state of the window that is built.
pub open spec fn built_state(
    b: WindowBuilder,
    report: DisplayReport,
) -> crate::window::WindowModel {
    crate::window::fresh(
        report.scale,
        ScaledArea { size_px: report.size_px, scale: report.scale },
        shows_transparency(b, report),
        owner_of(b),
        b.menu,
    )
}

/// What the handler of a new window is told, in one call.
pub open spec fn first_calls(b: WindowBuilder, report: DisplayReport, handle: WindowHandle) -> Seq<
    HandlerCall,
> {
    seq![
        HandlerCall::Connect(handle),
        HandlerCall::Scale(report.scale),
        HandlerCall::Size(b.size),
    ]
}

/// Appends the steps that follow from the level of a window.
fn push_level_steps(steps: &mut Vec<SetupStep>, level: WindowLevel, windows: &Windows)
    ensures
        final(steps)@ == old(steps)@ + level_steps(
            level,
            level.owner() matches Some(owner) && windows@.is_live(owner),
        ),
{
    let hint = match level {
        WindowLevel::AppWindow => WindowTypeHint::Normal,
        WindowLevel::Tooltip(_) => WindowTypeHint::Tooltip,
        WindowLevel::DropDown(_) => WindowTypeHint::DropdownMenu,
        WindowLevel::Modal(_) => WindowTypeHint::Dialog,
    };
    steps.push(SetupStep::SetTypeHint(hint));
    let owner = match level {
        WindowLevel::AppWindow => None,
        WindowLevel::Tooltip(parent) => Some(parent),
        WindowLevel::DropDown(parent) => Some(parent),
        WindowLevel::Modal(parent) => {
            steps.push(SetupStep::SetUrgencyHint(true));
            steps.push(SetupStep::SetModal(true));
            Some(parent)
        },
    };
    if let Some(parent) = owner {
        if windows.get(&parent).is_some() {
            steps.push(SetupStep::SetTransientFor(parent));
        }
    }
    let override_redirect = match level {
        WindowLevel::AppWindow => false,
        _ => true,
    };
    steps.push(SetupStep::SetOverrideRedirect(override_redirect));
    assert(steps@ =~= old(steps)@ + level_steps(
        level,
        level.owner() matches Some(owner) && windows@.is_live(owner),
    ));
}

impl WindowBuilder {
    /// A builder for a window of 500 by 400 display points that the user can resize, with a
    /// title bar, an empty title and nothing else.
    pub fn new(app: Application) -> (r: WindowBuilder)
        ensures
            r.app == app,
            r.handler is None,
            r.title@ == Seq::<char>::empty(),
            r.menu is None,
            r.position is None,
            r.level is None,
            r.state is None,
            r.size == (Size {
                width: Real { bits: 0x407f_4000_0000_0000 },
                height: Real { bits: 0x4079_0000_0000_0000 },
            }),
            r.min_size is None,
            r.resizable,
            r.show_titlebar,
            !r.transparent,
    {
        WindowBuilder {
            app,
            handler: None,
            title: String::new(),
            menu: None,
            size: Size {
                width: Real { bits: 0x407f_4000_0000_0000 },
                height: Real { bits: 0x4079_0000_0000_0000 },
            },
            position: None,
            level: None,
            state: None,
            min_size: None,
            resizable: true,
            show_titlebar: true,
            transparent: false,
        }
    }

    /// Sets the handler of the window, which it must have.
    pub fn set_handler(&mut self, handler: Handler)
        ensures
            *final(self) == (WindowBuilder { handler: Some(handler), ..*old(self) }),
    {
        self.handler = Some(handler);
    }

    /// Sets the size of the window, in display points.
    pub fn set_size(&mut self, size: Size)
        ensures
            *final(self) == (WindowBuilder { size, ..*old(self) }),
    {
        self.size = size;
    }

    /// Sets the least size of the window, in display points.
    pub fn set_min_size(&mut self, size: Size)
        ensures
            *final(self) == (WindowBuilder { min_size: Some(size), ..*old(self) }),
    {
        self.min_size = Some(size);
    }

    /// Lets the user resize the window, or not.
    pub fn resizable(&mut self, resizable: bool)
        ensures
            *final(self) == (WindowBuilder { resizable, ..*old(self) }),
    {
        self.resizable = resizable;
    }

    /// Gives the window a title bar, or none.
    pub fn show_titlebar(&mut self, show_titlebar: bool)
        ensures
            *final(self) == (WindowBuilder { show_titlebar, ..*old(self) }),
    {
        self.show_titlebar = show_titlebar;
    }

    /// Asks for a transparent window.
    pub fn set_transparent(&mut self, transparent: bool)
        ensures
            *final(self) == (WindowBuilder { transparent, ..*old(self) }),
    {
        self.transparent = transparent;
    }

    /// Sets the position of the window, in display points.
    pub fn set_position(&mut self, position: Point)
        ensures
            *final(self) == (WindowBuilder { position: Some(position), ..*old(self) }),
    {
        self.position = Some(position);
    }

    /// Sets what the window is for.
    pub fn set_level(&mut self, level: WindowLevel)
        ensures
            *final(self) == (WindowBuilder { level: Some(level), ..*old(self) }),
    {
        self.level = Some(level);
    }

    /// Sets whether the window fills the screen, is an icon, or is neither.
    pub fn set_window_state(&mut self, state: SizeState)
        ensures
            *final(self) == (WindowBuilder { state: Some(state), ..*old(self) }),
    {
        self.state = Some(state);
    }

    /// Sets the title of the window.
    pub fn set_title(&mut self, title: String)
        ensures
            *final(self) == (WindowBuilder { title, ..*old(self) }),
    {
        self.title = title;
    }

    /// Sets the menu of the window.
    pub fn set_menu(&mut self, menu: Menu)
        ensures
            *final(self) == (WindowBuilder { menu: Some(menu), ..*old(self) }),
    {
        self.menu = Some(menu);
    }

    /// Appends the steps for what the window was to have besides.
    fn push_last_steps(&self, steps: &mut Vec<SetupStep>, report: &DisplayReport)
        ensures
            final(steps)@ == old(steps)@ + last_steps(*self, *report),
    {
        if let Some(position) = self.position {
            steps.push(SetupStep::SetPosition(position));
        }
        if let Some(state) = self.state {
            steps.push(SetupStep::SetWindowState(state));
        }
        if let Some(menu) = self.menu {
            steps.push(SetupStep::SetMenu(menu));
        }
        if let Some(size) = self.min_size {
            steps.push(SetupStep::SetMinSize(size, report.scale));
        }
        assert(steps@ =~= old(steps)@ + last_steps(*self, *report));
    }

    /// The steps in setting up the window.
    fn steps(self, windows: &Windows, report: &DisplayReport, transparent: bool) -> (r: Vec<
        SetupStep,
    >)
        requires
            transparent == shows_transparency(self, *report),
        ensures
            r@ == setup_steps(
                self,
                *report,
                owner_of(self) matches Some(owner) && windows@.is_live(owner),
            ),
    {
        let mut rest: Vec<SetupStep> = Vec::new();
        if let Some(level) = self.level {
            push_level_steps(&mut rest, level, windows);
        }
        self.push_last_steps(&mut rest, report);
        let mut steps: Vec<SetupStep> = Vec::new();
        steps.push(SetupStep::SetTitle(self.title));
        steps.push(SetupStep::SetResizable(self.resizable));
        steps.push(SetupStep::SetDecorated(self.show_titlebar));
        if self.transparent && report.rgba_visual.is_some() {
            steps.push(SetupStep::SetVisual);
        }
        steps.push(SetupStep::SetAppPaintable(transparent));
        steps.push(SetupStep::SetDefaultSize(report.size_px));
        assert(steps@ =~= first_steps(self, *report));
        steps.append(&mut rest);
        proof {
            let live = owner_of(self) matches Some(owner) && windows@.is_live(owner);
            assert(steps@ =~= setup_steps(self, *report, live));
        }
        steps
    }

    /// Builds the window. It must have a handler.
    pub fn build(self, windows: &mut Windows, report: DisplayReport) -> (r: Result<
        Built,
        ShellError,
    >)
        requires
            old(windows)@.wf(),
            self.handler is Some,
            owner_of(self) matches Some(owner) ==> old(windows)@.knows(owner),
        ensures
            r matches Ok(built) && {
                &&& built.handle.slot matches Some(i) && i == old(windows)@.slots.len()
                &&& Some(built.handler) == self.handler
                &&& built.steps@ == setup_steps(
                    self,
                    report,
                    owner_of(self) matches Some(owner) && old(windows)@.is_live(owner),
                )
                &&& built.calls@ == first_calls(self, report, built.handle)
                &&& built.calls@ == seq![
                    HandlerCall::Connect(built.handle),
                    HandlerCall::Scale(report.scale),
                    HandlerCall::Size(self.size),
                ]
                &&& final(windows)@ == old(windows)@.with_window(built_state(self, report))
                &&& final(windows)@.is_live(built.handle)
                &&& final(windows)@.state(built.handle) == built_state(self, report)
            },
            final(windows)@.wf(),
    {
        let handler = self.handler.unwrap();
        let size = self.size;
        let level = self.level;
        let menu = self.menu;
        let transparent = self.transparent && match report.rgba_visual {
            Some(has) => has,
            None => false,
        };
        let mut parent: Option<WindowHandle> = None;
        if let Some(level) = level {
            parent = match level {
                WindowLevel::AppWindow => None,
                WindowLevel::Tooltip(p) => Some(p),
                WindowLevel::DropDown(p) => Some(p),
                WindowLevel::Modal(p) => Some(p),
            };
        }
        let steps = self.steps(windows, &report, transparent);
        let area = ScaledArea { size_px: report.size_px, scale: report.scale };
        let state = WindowState::new(report.scale, area, transparent, parent, menu);
        let handle = windows.insert(state);
        let mut calls: Vec<HandlerCall> = Vec::new();
        calls.push(HandlerCall::Connect(handle));
        calls.push(HandlerCall::Scale(report.scale));
        calls.push(HandlerCall::Size(size));
        Ok(Built { handle, handler, steps, calls })
    }
}

}
