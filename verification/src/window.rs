//! The life cycle of a window and the dispatcher that turns each native
//! message into the one action that the window procedure performs.

use crate::creation::{encode_title, has_zero, is_first_zero, spec_title_bytes, TitleEncodingError};
use crate::message::{decode_message, spec_decode, DecodeFailure, Message, WindowEvent};
use crate::win32::{SW_HIDE, SW_SHOWDEFAULT, SW_SHOWMAXIMIZED, SW_SHOWMINIMIZED};
use vstd::prelude::*;

verus! {

/// Where a window is in its life. The states are passed in this order and
/// none is entered twice.
#[derive(Debug, Copy, Clone, PartialEq, Eq, Structural)]
pub enum WindowState {
    /// The window exists as an object; the platform knows nothing of it yet.
    Uninitialized,
    /// The platform is creating the window and has told it its handle.
    Initializing { hwnd: isize },
    /// The platform has created the window. Events are delivered.
    Live { hwnd: isize },
    /// The close has been confirmed; the window is being destroyed.
    Closing { hwnd: isize },
    /// The window is gone and its handle means nothing any more.
    Destroyed,
}

impl WindowState {
    /// The position of a state in the order of the life cycle.
    pub open spec fn rank(self) -> nat {
        match self {
            WindowState::Uninitialized => 0,
            WindowState::Initializing { .. } => 1,
            WindowState::Live { .. } => 2,
            WindowState::Closing { .. } => 3,
            WindowState::Destroyed => 4,
        }
    }

    /// The handle by which the platform addresses the window, while it has
    /// one.
    pub open spec fn handle(self) -> Option<isize> {
        match self {
            WindowState::Initializing { hwnd } => Some(hwnd),
            WindowState::Live { hwnd } => Some(hwnd),
            WindowState::Closing { hwnd } => Some(hwnd),
            _ => None,
        }
    }
}

/// What the window procedure does in answer to one message.
#[derive(Debug, Copy, Clone, PartialEq, Eq, Structural)]
pub enum Action {
    /// Remember which window the handle belongs to, then tell the controller
    /// that the window is being initialised.
    Init,
    /// Ask the controller whether the window may close, and hand its answer
    /// to `Window::answer_close`.
    QueryClose,
    /// Post the quit signal of the process.
    Quit,
    /// Paint the background of the window.
    Paint,
    /// Hand the event to the controller.
    Deliver(WindowEvent),
    /// Do nothing: the event is dropped.
    Drop(DecodeFailure),
    /// Give up on the message: the platform broke an assumption.
    Abort(DecodeFailure),
    /// Leave the message to the default handling of the platform.
    Default,
}

/// A request to change how a window is shown.
#[derive(Debug, Copy, Clone, PartialEq, Eq, Structural)]
pub struct ShowRequest {
    pub hwnd: isize,
    pub command: i32,
}

/// A request to change the title of a window.
#[derive(Debug, Clone)]
pub struct TitleRequest {
    pub hwnd: isize,
    /// The new title, ended by a zero byte.
    pub title: Vec<u8>,
}

/// What is done about a payload that could not be interpreted: a character
/// that is none is dropped, an extended button that cannot be is fatal to the
/// message.
pub open spec fn failure_action(failure: DecodeFailure) -> Action {
    match failure {
        DecodeFailure::InvalidCharacter(_) => Action::Drop(failure),
        DecodeFailure::UnknownXButton(_) => Action::Abort(failure),
    }
}

/// What a live window does about a message that is addressed to it.
pub open spec fn live_action(message: Message) -> Action {
    match message {
        Message::Create => Action::Default,
        Message::Close => Action::QueryClose,
        Message::Destroy => Action::Quit,
        Message::Paint => Action::Paint,
        Message::Event(event) => Action::Deliver(event),
        Message::Malformed(failure) => failure_action(failure),
        Message::Other => Action::Default,
    }
}

/// What a message does to a window, and what is done about it.
///
/// A destroy confirmation posts the quit signal whatever the window is doing.
/// A creation notification binds the handle to a window that has none yet.
/// Every other message counts only for a live window with that very handle;
/// for any other window it is left to the platform.
pub open spec fn on_message(state: WindowState, hwnd: isize, message: Message) -> (
    WindowState,
    Action,
) {
    match message {
        Message::Destroy => (state, Action::Quit),
        Message::Create => if state is Uninitialized {
            (WindowState::Initializing { hwnd }, Action::Init)
        } else {
            (state, Action::Default)
        },
        _ => if state == (WindowState::Live { hwnd }) {
            (state, live_action(message))
        } else {
            (state, Action::Default)
        },
    }
}

/// What is done about a message for a handle that no window is known by.
pub open spec fn unowned_action(message: Message) -> Action {
    match message {
        Message::Destroy => Action::Quit,
        _ => Action::Default,
    }
}

/// The state of a window once the platform has returned from creating it
/// with the given handle: live, if the window was initialised with that
/// handle; unchanged otherwise.
pub open spec fn on_created(state: WindowState, hwnd: isize) -> WindowState {
    if state == (WindowState::Initializing { hwnd }) {
        WindowState::Live { hwnd }
    } else {
        state
    }
}

/// The state of a window once its close has been asked for.
pub open spec fn on_close(state: WindowState) -> WindowState {
    match state {
        WindowState::Live { hwnd } => WindowState::Closing { hwnd },
        _ => state,
    }
}

/// The state of a window once the platform has returned from destroying it.
pub open spec fn on_destroyed(state: WindowState) -> WindowState {
    match state {
        WindowState::Closing { .. } => WindowState::Destroyed,
        _ => state,
    }
}

/// A window: the record of where it is in its life and of the handle that
/// the platform knows it by.
#[derive(Debug, Copy, Clone)]
pub struct Window {
    state: WindowState,
}

impl View for Window {
    type V = WindowState;

    closed spec fn view(&self) -> WindowState {
        self.state
    }
}

impl Window {
    /// A window that the platform knows nothing of yet.
    pub fn new() -> (window: Window)
        ensures
            window@ == WindowState::Uninitialized,
    {
        Window { state: WindowState::Uninitialized }
    }

    /// Where the window is in its life.
    pub fn state(&self) -> (state: WindowState)
        ensures
            state == self@,
    {
        self.state
    }

    /// The handle of the window, while the platform addresses it by one.
    pub fn hwnd(&self) -> (hwnd: Option<isize>)
        ensures
            hwnd == self@.handle(),
    {
        match self.state {
            WindowState::Initializing { hwnd } => Some(hwnd),
            WindowState::Live { hwnd } => Some(hwnd),
            WindowState::Closing { hwnd } => Some(hwnd),
            _ => None,
        }
    }

    /// Whether the window is live and known by the given handle.
    pub fn is_live(&self, hwnd: isize) -> (live: bool)
        ensures
            live == (self@ == (WindowState::Live { hwnd })),
    {
        match self.state {
            WindowState::Live { hwnd: own } => own == hwnd,
            _ => false,
        }
    }

    /// Records that the platform has returned from creating the window with
    /// the given handle. Says whether the window is live now.
    pub fn created(&mut self, hwnd: isize) -> (live: bool)
        ensures
            final(self)@ == on_created(old(self)@, hwnd),
            live == (old(self)@ == (WindowState::Initializing { hwnd })),
    {
        match self.state {
            WindowState::Initializing { hwnd: own } => {
                if own == hwnd {
                    self.state = WindowState::Live { hwnd };
                    true
                } else {
                    false
                }
            },
            _ => false,
        }
    }

    /// Takes the controller's answer to the close query. A refusal changes
    /// nothing; a confirmation starts the close as `close` does.
    pub fn answer_close(&mut self, confirmed: bool) -> (closing: bool)
        ensures
            !confirmed ==> final(self)@ == old(self)@ && !closing,
            confirmed ==> final(self)@ == on_close(old(self)@) && closing == (old(
                self,
            )@ is Live),
    {
        if confirmed {
            self.close()
        } else {
            false
        }
    }

    /// Starts the close of a live window. Where it answers `true`, the caller
    /// tells the controller that the window is closing, has the platform
    /// destroy the window, and then calls `finish_close`. A window that is
    /// not live is left alone.
    pub fn close(&mut self) -> (closing: bool)
        ensures
            final(self)@ == on_close(old(self)@),
            closing == (old(self)@ is Live),
    {
        match self.state {
            WindowState::Live { hwnd } => {
                self.state = WindowState::Closing { hwnd };
                true
            },
            _ => false,
        }
    }

    /// Ends the close once the platform has destroyed the window. Where it
    /// answers `true`, the caller tells the controller that the window has
    /// closed.
    pub fn finish_close(&mut self) -> (closed: bool)
        ensures
            final(self)@ == on_destroyed(old(self)@),
            closed == (old(self)@ is Closing),
    {
        match self.state {
            WindowState::Closing { .. } => {
                self.state = WindowState::Destroyed;
                true
            },
            _ => false,
        }
    }

    /// The request that shows the window as the platform sees fit.
    pub fn show(&self) -> (request: Option<ShowRequest>)
        ensures
            request == self.spec_show_request(SW_SHOWDEFAULT),
    {
        self.show_request(SW_SHOWDEFAULT)
    }

    /// The request that hides the window.
    pub fn hide_window(&self) -> (request: Option<ShowRequest>)
        ensures
            request == self.spec_show_request(SW_HIDE),
    {
        self.show_request(SW_HIDE)
    }

    /// The request that minimizes the window.
    pub fn minimize(&self) -> (request: Option<ShowRequest>)
        ensures
            request == self.spec_show_request(SW_SHOWMINIMIZED),
    {
        self.show_request(SW_SHOWMINIMIZED)
    }

    /// The request that maximizes the window.
    pub fn maximize(&self) -> (request: Option<ShowRequest>)
        ensures
            request == self.spec_show_request(SW_SHOWMAXIMIZED),
    {
        self.show_request(SW_SHOWMAXIMIZED)
    }

    /// The request that gives the window a new title; `None` where the window
    /// has no handle to send it to. A title that holds a zero byte is refused
    /// and nothing is asked of the platform.
    pub fn set_title(&self, title: &str) -> (request: Result<Option<TitleRequest>, TitleEncodingError>)
        ensures
            request is Ok <==> !has_zero(spec_title_bytes(title@)),
            request matches Err(e) ==> is_first_zero(spec_title_bytes(title@), e.position as int),
            request matches Ok(r) ==> (r is Some <==> self@.handle() is Some),
            request matches Ok(Some(r)) ==> Some(r.hwnd) == self@.handle() && r.title@
                == spec_title_bytes(title@).push(0u8),
    {
        match encode_title(title) {
            Ok(bytes) => match self.hwnd() {
                Some(hwnd) => Ok(Some(TitleRequest { hwnd, title: bytes })),
                None => Ok(None),
            },
            Err(e) => Err(e),
        }
    }

    /// A show request goes to the handle of the window; a window without a
    /// handle has nothing to ask for.
    pub open spec fn spec_show_request(&self, command: i32) -> Option<ShowRequest> {
        match self@.handle() {
            Some(hwnd) => Some(ShowRequest { hwnd, command }),
            None => None,
        }
    }

    fn show_request(&self, command: i32) -> (request: Option<ShowRequest>)
        ensures
            request == self.spec_show_request(command),
    {
        match self.hwnd() {
            Some(hwnd) => Some(ShowRequest { hwnd, command }),
            None => None,
        }
    }
}

/// The action for a message that is addressed to a handle which no window is
/// known by: it is left to the platform, but for the destroy confirmation,
/// which posts the quit signal all the same.
pub fn unowned_window_proc(msg: u32, wparam: usize, lparam: isize) -> (action: Action)
    ensures
        action == unowned_action(spec_decode(msg, wparam as int, lparam as int)),
{
    match decode_message(msg, wparam, lparam) {
        Message::Destroy => Action::Quit,
        _ => Action::Default,
    }
}

/// The window procedure: takes one native message for a window, moves the
/// window on in its life where the message calls for it, and answers with the
/// one action to perform.
pub fn window_proc(
    window: &mut Window,
    hwnd: isize,
    msg: u32,
    wparam: usize,
    lparam: isize,
) -> (action: Action)
    ensures
        (final(window)@, action) == on_message(
            old(window)@,
            hwnd,
            spec_decode(msg, wparam as int, lparam as int),
        ),
{
    let message = decode_message(msg, wparam, lparam);
    match message {
        Message::Destroy => Action::Quit,
        Message::Create => match window.state {
            WindowState::Uninitialized => {
                window.state = WindowState::Initializing { hwnd };
                Action::Init
            },
            _ => Action::Default,
        },
        _ => if window.is_live(hwnd) {
            match message {
                Message::Close => Action::QueryClose,
                Message::Paint => Action::Paint,
                Message::Event(event) => Action::Deliver(event),
                Message::Malformed(failure) => match failure {
                    DecodeFailure::InvalidCharacter(_) => Action::Drop(failure),
                    DecodeFailure::UnknownXButton(_) => Action::Abort(failure),
                },
                _ => Action::Default,
            }
        } else {
            Action::Default
        },
    }
}

} // verus!
