//! The shell's state machine: window visibility, process liveness and the
//! close-to-tray flag, stepped by the events the platform layer reports.
//!
//! Each step returns the action the platform layer must perform (hide the
//! window and cancel the native close, show and focus it, exit the process,
//! or nothing). The model tracks what the window and process look like once
//! that action is done, so properties of whole event sequences can be
//! stated and proved here.

use vstd::prelude::*;

use crate::prefs::CloseToTrayState;
use crate::tray::MenuId;
use crate::tray::TrayButton;

verus! {

/// The main window as the shell sees it: visible (focused or not), hidden
/// in the tray, or destroyed.
#[derive(Clone, Copy, Debug, PartialEq, Eq, Structural)]
pub enum WindowState {
    Visible { focused: bool },
    Hidden,
    Destroyed,
}

/// The process: running, or exited with a code.
#[derive(Clone, Copy, Debug, PartialEq, Eq, Structural)]
pub enum ProcessState {
    Running,
    Exited { code: i32 },
}

/// The outcome of the window lifecycle guard for one close request:
/// the close is intercepted (the window hides, the process stays alive)
/// or allowed to proceed through the normal teardown path.
#[derive(Clone, Copy, Debug, PartialEq, Eq, Structural)]
pub enum CloseDecision {
    Intercepted,
    Allowed,
}

/// An event reported by the platform layer.
#[derive(Clone, Copy, Debug, PartialEq, Eq, Structural)]
pub enum Event {
    /// The user asked to close the main window.
    CloseRequested,
    /// A tray menu entry was activated.
    Menu { id: MenuId },
    /// The tray icon was clicked.
    TrayClick { button: TrayButton },
    /// The UI layer invoked the runtime command that sets the flag.
    SetCloseToTray { enabled: bool },
}

/// The action the platform layer must perform after a step.
#[derive(Clone, Copy, Debug, PartialEq, Eq, Structural)]
pub enum Action {
    /// Cancel the native close and hide the window.
    HideWindow,
    /// Let the native close proceed.
    AllowClose,
    /// Show the main window and give it focus.
    ShowAndFocus,
    /// Terminate the process with this exit code.
    Exit { code: i32 },
    /// Nothing to do.
    Ignore,
}

/// The exit code of a quit requested through the tray menu.
pub const QUIT_EXIT_CODE: i32 = 0;

/// The whole shell state.
#[derive(Clone, Copy, Debug, PartialEq, Eq, Structural)]
pub struct AppState {
    pub close_to_tray: CloseToTrayState,
    pub window: WindowState,
    pub process: ProcessState,
}

/// The state at startup: flag at its default (`true`), the main window
/// visible and focused, the process running.
pub open spec fn initial_state() -> AppState {
    AppState {
        close_to_tray: CloseToTrayState { enabled: true },
        window: WindowState::Visible { focused: true },
        process: ProcessState::Running,
    }
}

/// The guard's decision for one close request, from the flag alone.
pub open spec fn spec_close_decision(close_to_tray: bool) -> CloseDecision {
    if close_to_tray {
        CloseDecision::Intercepted
    } else {
        CloseDecision::Allowed
    }
}

/// What showing the window does: a destroyed window is silently skipped;
/// otherwise the window becomes visible and focused.
pub open spec fn spec_show(s: AppState) -> (AppState, Action) {
    if s.window is Destroyed {
        (s, Action::Ignore)
    } else {
        (AppState { window: WindowState::Visible { focused: true }, ..s }, Action::ShowAndFocus)
    }
}

/// What one close request does. Flag `true`: the close is intercepted and
/// the window hides. Flag `false`: the close proceeds, and with it the
/// teardown of this single-window shell.
pub open spec fn spec_close_requested(s: AppState) -> (AppState, Action) {
    if s.window is Destroyed {
        (s, Action::Ignore)
    } else if spec_close_decision(s.close_to_tray.flag()) is Intercepted {
        (AppState { window: WindowState::Hidden, ..s }, Action::HideWindow)
    } else {
        (
            AppState {
                window: WindowState::Destroyed,
                process: ProcessState::Exited { code: QUIT_EXIT_CODE },
                ..s
            },
            Action::AllowClose,
        )
    }
}

/// What one tray menu activation does.
pub open spec fn spec_menu(s: AppState, id: MenuId) -> (AppState, Action) {
    match id {
        MenuId::Show => spec_show(s),
        MenuId::Quit => (
            (AppState { process: ProcessState::Exited { code: QUIT_EXIT_CODE }, ..s }),
            (Action::Exit { code: QUIT_EXIT_CODE }),
        ),
        MenuId::Unknown => (s, Action::Ignore),
    }
}

/// What one tray icon click does: a left click shows the window, any other
/// button is ignored.
pub open spec fn spec_tray_click(s: AppState, button: TrayButton) -> (AppState, Action) {
    if button is Left {
        spec_show(s)
    } else {
        (s, Action::Ignore)
    }
}

/// The transition relation of the shell: the state after `e`, and the
/// action the platform layer must perform. An exited process handles no
/// events.
pub open spec fn spec_step(s: AppState, e: Event) -> (AppState, Action) {
    if !(s.process is Running) {
        (s, Action::Ignore)
    } else {
        match e {
            Event::CloseRequested => spec_close_requested(s),
            Event::Menu { id } => spec_menu(s, id),
            Event::TrayClick { button } => spec_tray_click(s, button),
            Event::SetCloseToTray { enabled } => (
                (AppState { close_to_tray: CloseToTrayState { enabled }, ..s }),
                Action::Ignore,
            ),
        }
    }
}

/// The window lifecycle guard's decision, computed from the flag the store
/// returned at the instant the close request is evaluated.
pub fn decide_close(close_to_tray: bool) -> (d: CloseDecision)
    ensures
        d == spec_close_decision(close_to_tray),
{
    if close_to_tray {
        CloseDecision::Intercepted
    } else {
        CloseDecision::Allowed
    }
}

impl AppState {
    /// The shell state at startup.
    pub fn new() -> (s: Self)
        ensures
            s == initial_state(),
    {
        AppState {
            close_to_tray: CloseToTrayState::new(),
            window: WindowState::Visible { focused: true },
            process: ProcessState::Running,
        }
    }

    /// Show and focus the main window; silently skip a destroyed one.
    fn show_window(&mut self) -> (action: Action)
        ensures
            (*final(self), action) == spec_show(*old(self)),
    {
        match self.window {
            WindowState::Destroyed => Action::Ignore,
            _ => {
                self.window = WindowState::Visible { focused: true };
                Action::ShowAndFocus
            },
        }
    }

    /// The window lifecycle guard: evaluate one close request against the
    /// current flag value.
    pub fn handle_close_requested(&mut self) -> (action: Action)
        requires
            old(self).process is Running,
        ensures
            (*final(self), action) == spec_close_requested(*old(self)),
    {
        match self.window {
            WindowState::Destroyed => Action::Ignore,
            _ => {
                let flag = self.close_to_tray.get();
                match decide_close(flag) {
                    CloseDecision::Intercepted => {
                        self.window = WindowState::Hidden;
                        Action::HideWindow
                    },
                    CloseDecision::Allowed => {
                        self.window = WindowState::Destroyed;
                        self.process = ProcessState::Exited { code: QUIT_EXIT_CODE };
                        Action::AllowClose
                    },
                }
            },
        }
    }

    /// The tray controller's menu dispatch: show the window, quit the
    /// process, or ignore an unknown identifier.
    pub fn handle_menu(&mut self, id: MenuId) -> (action: Action)
        requires
            old(self).process is Running,
        ensures
            (*final(self), action) == spec_menu(*old(self), id),
    {
        match id {
            MenuId::Show => self.show_window(),
            MenuId::Quit => {
                self.process = ProcessState::Exited { code: QUIT_EXIT_CODE };
                Action::Exit { code: QUIT_EXIT_CODE }
            },
            MenuId::Unknown => Action::Ignore,
        }
    }

    /// The tray controller's icon dispatch: a left click shows the window.
    pub fn handle_tray_click(&mut self, button: TrayButton) -> (action: Action)
        requires
            old(self).process is Running,
        ensures
            (*final(self), action) == spec_tray_click(*old(self), button),
    {
        match button {
            TrayButton::Left => self.show_window(),
            _ => Action::Ignore,
        }
    }

    /// Step the shell by one event and return the action the platform
    /// layer must perform.
    pub fn step(&mut self, e: Event) -> (action: Action)
        ensures
            (*final(self), action) == spec_step(*old(self), e),
    {
        match self.process {
            ProcessState::Exited { .. } => Action::Ignore,
            ProcessState::Running => match e {
                Event::CloseRequested => self.handle_close_requested(),
                Event::Menu { id } => self.handle_menu(id),
                Event::TrayClick { button } => self.handle_tray_click(button),
                Event::SetCloseToTray { enabled } => {
                    self.close_to_tray.set(enabled);
                    Action::Ignore
                },
            },
        }
    }
}

/// With close-to-tray enabled, a close request leaves the window hidden,
/// not destroyed, and the process still running: the close was intercepted.
pub proof fn lemma_close_intercepted(s: AppState)
    requires
        s.process is Running,
        !(s.window is Destroyed),
        s.close_to_tray.flag(),
    ensures
        spec_step(s, Event::CloseRequested).0.window is Hidden,
        spec_step(s, Event::CloseRequested).0.process is Running,
        spec_step(s, Event::CloseRequested).1 == Action::HideWindow,
{
}

/// With close-to-tray disabled, a close request proceeds: the window is
/// destroyed and this single-window shell's teardown ends the process.
pub proof fn lemma_close_allowed(s: AppState)
    requires
        s.process is Running,
        !(s.window is Destroyed),
        !s.close_to_tray.flag(),
    ensures
        spec_step(s, Event::CloseRequested).0.window is Destroyed,
        spec_step(s, Event::CloseRequested).0.process is Exited,
        spec_step(s, Event::CloseRequested).1 == Action::AllowClose,
{
}

/// Activating the "Show" menu entry or left-clicking the tray icon while
/// the main window exists and is hidden makes it visible and focused.
pub proof fn lemma_show_restores_window(s: AppState, e: Event)
    requires
        s.process is Running,
        s.window is Hidden,
        e == (Event::Menu { id: MenuId::Show }) || e == (Event::TrayClick {
            button: TrayButton::Left,
        }),
    ensures
        spec_step(s, e).0.window == (WindowState::Visible { focused: true }),
        spec_step(s, e).1 == Action::ShowAndFocus,
{
}

/// Asking to show a destroyed window is a no-op: the state is unchanged
/// and no action is requested.
pub proof fn lemma_show_destroyed_noop(s: AppState, e: Event)
    requires
        s.process is Running,
        s.window is Destroyed,
        e == (Event::Menu { id: MenuId::Show }) || e == (Event::TrayClick {
            button: TrayButton::Left,
        }),
    ensures
        spec_step(s, e) == (s, Action::Ignore),
{
}

/// Activating the "Quit" menu entry exits the process with code 0,
/// whatever the close-to-tray flag holds.
pub proof fn lemma_quit_exits(s: AppState)
    requires
        s.process is Running,
    ensures
        spec_step(s, Event::Menu { id: MenuId::Quit }).0.process == (ProcessState::Exited {
            code: 0,
        }),
        spec_step(s, Event::Menu { id: MenuId::Quit }).1 == (Action::Exit { code: 0 }),
{
}

} // verus!
