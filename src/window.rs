//! The window procedure: what the window does with each message it is
//! dispatched, and the lifecycle it moves through.
use vstd::prelude::*;
use crate::decoder::RawInputEnvelope;

verus! {

/// The window is being destroyed.
pub const WM_DESTROY: u32 = 0x0002;

/// The user asked to close the window.
pub const WM_CLOSE: u32 = 0x0010;

/// Raw input is available; the message's `lparam` is the event's handle.
pub const WM_INPUT: u32 = 0x00FF;

/// A key was pressed; raw keyboard records carry it as their message.
pub const WM_KEYDOWN: u32 = 0x0100;

/// A key was released.
pub const WM_KEYUP: u32 = 0x0101;

/// The primary mouse button was pressed over the window.
pub const WM_LBUTTONDOWN: u32 = 0x0201;

/// What the window procedure asks its caller to do for one message.
#[derive(Debug)]
pub enum WindowAction {
    /// Destroy the window; the quit signal is not posted yet.
    DestroyWindow,
    /// Post the quit signal with this exit code.
    PostQuit(i32),
    /// Report the path of the running executable.
    ReportExecutablePath,
    /// Decode the raw-input event and report it.
    DecodeRawInput(RawInputEnvelope),
    /// Hand the message to the platform's default handler.
    DefaultHandling,
}

/// Where the window stands in its lifecycle.
#[derive(Debug, Clone, Copy, PartialEq, Eq, Structural)]
pub enum WindowState {
    Created,
    Shown,
    Closing,
    Destroyed,
}

/// `a` is the action that the window procedure owes for `msg` and `lparam`.
pub open spec fn is_action_for(a: WindowAction, msg: u32, lparam: isize) -> bool {
    if msg == WM_CLOSE {
        a is DestroyWindow
    } else if msg == WM_DESTROY {
        a == WindowAction::PostQuit(0)
    } else if msg == WM_LBUTTONDOWN {
        a is ReportExecutablePath
    } else if msg == WM_INPUT {
        a is DecodeRawInput && a->DecodeRawInput_0@ == lparam
    } else {
        a is DefaultHandling
    }
}

impl WindowAction {
    /// Whether the message is handled here, so that the procedure returns
    /// zero, rather than by the platform's default handler.
    pub fn is_handled(&self) -> (r: bool)
        ensures
            r == !(self is DefaultHandling),
    {
        match self {
            WindowAction::DefaultHandling => false,
            _ => true,
        }
    }
}

/// Decides what the window does with one dispatched message: a close
/// request destroys the window, the destroy notification posts quit with
/// code 0, a primary-button press reports the executable's path, raw input
/// is decoded from the envelope that `lparam` names, and everything else
/// goes to the default handler.
pub fn window_proc(msg: u32, lparam: isize) -> (r: WindowAction)
    ensures
        is_action_for(r, msg, lparam),
{
    if msg == WM_CLOSE {
        WindowAction::DestroyWindow
    } else if msg == WM_DESTROY {
        WindowAction::PostQuit(0)
    } else if msg == WM_LBUTTONDOWN {
        WindowAction::ReportExecutablePath
    } else if msg == WM_INPUT {
        WindowAction::DecodeRawInput(RawInputEnvelope::new(lparam))
    } else {
        WindowAction::DefaultHandling
    }
}

/// The lifecycle after `msg`: a close request starts closing a live window,
/// the destroy notification ends it, and no other message moves it.
pub open spec fn spec_next_state(state: WindowState, msg: u32) -> WindowState {
    if msg == WM_DESTROY {
        WindowState::Destroyed
    } else if msg == WM_CLOSE && state != WindowState::Destroyed {
        WindowState::Closing
    } else {
        state
    }
}

impl WindowState {
    /// The window has been shown: a created window becomes visible.
    pub fn shown(self) -> (r: WindowState)
        ensures
            self == WindowState::Created ==> r == WindowState::Shown,
            self != WindowState::Created ==> r == self,
    {
        match self {
            WindowState::Created => WindowState::Shown,
            other => other,
        }
    }

    /// The state after the window procedure has handled `msg`.
    pub fn next(self, msg: u32) -> (r: WindowState)
        ensures
            r == spec_next_state(self, msg),
    {
        if msg == WM_DESTROY {
            WindowState::Destroyed
        } else if msg == WM_CLOSE && self != WindowState::Destroyed {
            WindowState::Closing
        } else {
            self
        }
    }
}

} // verus!
