//! An application: the windows it has created, in the order of their
//! creation, and the run loop that pulls their messages.

use crate::message::spec_decode;
use crate::win32::WM_QUIT;
use crate::window::{
    on_close, on_destroyed, on_message, unowned_action, unowned_window_proc, window_proc, Action,
    Window, WindowState,
};
use vstd::prelude::*;

verus! {

/// Where the run loop stands.
#[derive(Debug, Copy, Clone, PartialEq, Eq, Structural)]
pub enum LoopPhase {
    /// The loop has not begun.
    Created,
    /// A round is about to begin.
    Ready,
    /// The pending messages of this round are being drained; `quit` says
    /// whether the quit signal was among those drained so far.
    Draining { quit: bool },
    /// The loop has ended.
    Finished,
}

/// What the caller of the run loop does next.
#[derive(Debug, Copy, Clone, PartialEq, Eq, Structural)]
pub enum LoopAction {
    /// Tell the controller that the application starts, then step again.
    Init,
    /// Call the hook that precedes the messages, then look for a pending
    /// message without waiting and step with what was found.
    BeforeEvents,
    /// Translate and dispatch the message that was found, then look for the
    /// next one without waiting and step with what was found.
    Dispatch,
    /// Call the hook that follows the messages (which waits for new ones
    /// unless the controller says otherwise), then step again.
    AfterEvents,
    /// Ask the controller for the exit code. The loop is over.
    Exit,
    /// Nothing: the loop was over before.
    Stop,
}

/// One step of the run loop. `polled` is the identifier of the pending
/// message that the caller found, if it found one; it counts only while
/// messages are drained.
pub open spec fn loop_step(phase: LoopPhase, polled: Option<u32>) -> (LoopPhase, LoopAction) {
    match phase {
        LoopPhase::Created => (LoopPhase::Ready, LoopAction::Init),
        LoopPhase::Ready => (LoopPhase::Draining { quit: false }, LoopAction::BeforeEvents),
        LoopPhase::Draining { quit } => match polled {
            Some(msg) => (LoopPhase::Draining { quit: quit || msg == WM_QUIT }, LoopAction::Dispatch),
            None => if quit {
                (LoopPhase::Finished, LoopAction::Exit)
            } else {
                (LoopPhase::Ready, LoopAction::AfterEvents)
            },
        },
        LoopPhase::Finished => (LoopPhase::Finished, LoopAction::Stop),
    }
}

/// Why a window did not join the windows of an application.
#[derive(Debug, Copy, Clone, PartialEq, Eq, Structural)]
pub enum WindowCreationError {
    /// The platform returned no handle.
    Refused,
    /// The window was never initialised with the handle that the platform
    /// returned.
    NotInitialized,
    /// The handle that the platform returned is that of another window of
    /// the application.
    HandleInUse,
}

/// The abstract state of an application.
pub struct ApplicationView {
    /// The states of the windows, oldest first.
    pub windows: Seq<WindowState>,
    /// Where the run loop stands.
    pub phase: LoopPhase,
}

/// Whether the window at `index` is the one that the platform addresses by
/// `hwnd`.
pub open spec fn addressed(windows: Seq<WindowState>, hwnd: isize, index: int) -> bool {
    0 <= index < windows.len() && windows[index].handle() == Some(hwnd)
}

/// Whether some window is addressed by `hwnd`.
pub open spec fn is_addressable(windows: Seq<WindowState>, hwnd: isize) -> bool {
    exists|i: int| addressed(windows, hwnd, i)
}

/// What holds of the windows of every application: each has been live, and
/// no handle addresses two of them.
pub open spec fn windows_wf(windows: Seq<WindowState>) -> bool {
    &&& forall|i: int| 0 <= i < windows.len() ==> (#[trigger] windows[i]).rank() >= 2
    &&& forall|i: int, j: int, hwnd: isize|
        addressed(windows, hwnd, i) && addressed(windows, hwnd, j) ==> i == j
}

/// Why a window cannot join, if it cannot.
pub open spec fn creation_error(windows: Seq<WindowState>, window: WindowState, hwnd: isize)
    -> Option<WindowCreationError> {
    if hwnd == 0 {
        Some(WindowCreationError::Refused)
    } else if window != (WindowState::Initializing { hwnd }) {
        Some(WindowCreationError::NotInitialized)
    } else if is_addressable(windows, hwnd) {
        Some(WindowCreationError::HandleInUse)
    } else {
        None
    }
}

/// An application.
pub struct Application {
    windows: Vec<Window>,
    phase: LoopPhase,
}

impl View for Application {
    type V = ApplicationView;

    closed spec fn view(&self) -> ApplicationView {
        ApplicationView { windows: self.windows@.map_values(|w: Window| w@), phase: self.phase }
    }
}

impl Application {
    /// What holds of every application: each of its windows has been live,
    /// and no handle addresses two of them.
    pub open spec fn wf(&self) -> bool {
        windows_wf(self@.windows)
    }

    /// An application without windows, whose run loop has not begun.
    pub fn new() -> (app: Application)
        ensures
            app.wf(),
            app@.windows == Seq::<WindowState>::empty(),
            app@.phase == LoopPhase::Created,
    {
        Application { windows: Vec::new(), phase: LoopPhase::Created }
    }

    /// How many windows the application has created. A window that has been
    /// destroyed still counts.
    pub fn window_count(&self) -> (count: usize)
        ensures
            count == self@.windows.len(),
    {
        self.windows.len()
    }

    /// The window at the given place in the order of creation.
    pub fn window(&self, index: usize) -> (window: Option<Window>)
        ensures
            window is Some <==> index < self@.windows.len(),
            window matches Some(w) ==> w@ == self@.windows[index as int],
    {
        if index < self.windows.len() {
            Some(self.windows[index])
        } else {
            None
        }
    }

    /// Whether every window that the application has created has been
    /// destroyed. Only then may the window class be given back.
    pub fn all_destroyed(&self) -> (gone: bool)
        ensures
            gone == forall|i: int|
                0 <= i < self@.windows.len() ==> (#[trigger] self@.windows[i]) is Destroyed,
    {
        let mut i: usize = 0;
        while i < self.windows.len()
            invariant
                0 <= i <= self.windows@.len(),
                forall|j: int| 0 <= j < i ==> (#[trigger] self@.windows[j]) is Destroyed,
            decreases self.windows@.len() - i,
        {
            match self.windows[i].state() {
                WindowState::Destroyed => {},
                _ => {
                    assert(!(self@.windows[i as int] is Destroyed));
                    return false;
                },
            }
            i += 1;
        }
        true
    }

    /// Where the run loop stands.
    pub fn phase(&self) -> (phase: LoopPhase)
        ensures
            phase == self@.phase,
    {
        self.phase
    }

    /// The place of the window that the platform addresses by `hwnd`, if
    /// there is one. There is never more than one. A window that has been
    /// destroyed is not found by the handle it had.
    pub fn window_from_hwnd(&self, hwnd: isize) -> (found: Option<usize>)
        requires
            self.wf(),
        ensures
            found is Some <==> is_addressable(self@.windows, hwnd),
            found matches Some(i) ==> addressed(self@.windows, hwnd, i as int),
            forall|j: int| addressed(self@.windows, hwnd, j) ==> found == Some(j as usize),
    {
        let mut i: usize = 0;
        while i < self.windows.len()
            invariant
                self.wf(),
                0 <= i <= self.windows@.len(),
                forall|j: int| 0 <= j < i ==> !addressed(self@.windows, hwnd, j),
            decreases self.windows@.len() - i,
        {
            match self.windows[i].hwnd() {
                Some(own) => {
                    if own == hwnd {
                        assert(addressed(self@.windows, hwnd, i as int));
                        return Some(i);
                    }
                },
                None => {},
            }
            i += 1;
        }
        None
    }

    /// Takes in a window once the platform has returned from creating it.
    ///
    /// The window joins, as the youngest and live, if the platform returned a
    /// handle, the creation notification bound the window to that very
    /// handle, and no other window is addressed by it. Otherwise the
    /// application stays as it was and the window is dropped.
    pub fn create_window(&mut self, window: Window, hwnd: isize) -> (created: Result<
        (),
        WindowCreationError,
    >)
        requires
            old(self).wf(),
        ensures
            final(self).wf(),
            final(self)@.phase == old(self)@.phase,
            match creation_error(old(self)@.windows, window@, hwnd) {
                Some(e) => created == Err::<(), WindowCreationError>(e) && final(self)@ == old(
                    self,
                )@,
                None => created is Ok && final(self)@.windows == old(self)@.windows.push(
                    WindowState::Live { hwnd },
                ),
            },
    {
        if hwnd == 0 {
            return Err(WindowCreationError::Refused);
        }
        let mut window = window;
        let ghost before = window@;
        if !window.created(hwnd) {
            return Err(WindowCreationError::NotInitialized);
        }
        if self.window_from_hwnd(hwnd).is_some() {
            return Err(WindowCreationError::HandleInUse);
        }
        let ghost old_windows = self@.windows;
        self.windows.push(window);
        proof {
            let new_windows = self.windows@.map_values(|w: Window| w@);
            assert(new_windows == old_windows.push(WindowState::Live { hwnd }));
            assert forall|i: int, j: int, h: isize|
                addressed(new_windows, h, i) && addressed(new_windows, h, j) implies i == j by {
                if i < old_windows.len() {
                    assert(addressed(old_windows, h, i));
                }
                if j < old_windows.len() {
                    assert(addressed(old_windows, h, j));
                }
            }
        }
        Ok(())
    }

    /// The window procedure of the application: finds the window that the
    /// message is addressed to and answers with the action to perform. No
    /// window changes its state on a message.
    pub fn dispatch(&self, hwnd: isize, msg: u32, wparam: usize, lparam: isize) -> (action: Action)
        requires
            self.wf(),
        ensures
            !is_addressable(self@.windows, hwnd) ==> action == unowned_action(
                spec_decode(msg, wparam as int, lparam as int),
            ),
            forall|i: int|
                addressed(self@.windows, hwnd, i) ==> (self@.windows[i], action) == on_message(
                    self@.windows[i],
                    hwnd,
                    spec_decode(msg, wparam as int, lparam as int),
                ),
    {
        match self.window_from_hwnd(hwnd) {
            Some(i) => {
                let mut window = self.windows[i];
                let action = window_proc(&mut window, hwnd, msg, wparam, lparam);
                action
            },
            None => unowned_window_proc(msg, wparam, lparam),
        }
    }

    /// Takes the controller's answer to the close query for the window that
    /// is addressed by `hwnd`. A refusal changes nothing; a confirmation
    /// starts the close as `close` does.
    pub fn answer_close(&mut self, hwnd: isize, confirmed: bool) -> (closing: bool)
        requires
            old(self).wf(),
        ensures
            final(self).wf(),
            final(self)@.phase == old(self)@.phase,
            !confirmed ==> final(self)@ == old(self)@ && !closing,
            confirmed ==> final(self)@.windows == spec_close(old(self)@.windows, hwnd) && closing
                == spec_closes(old(self)@.windows, hwnd),
    {
        if confirmed {
            self.close(hwnd)
        } else {
            false
        }
    }

    /// Starts the close of the live window that is addressed by `hwnd`.
    /// Where it answers `true`, the caller tells the controller that the
    /// window is closing, has the platform destroy the window, and then calls
    /// `finish_close`.
    pub fn close(&mut self, hwnd: isize) -> (closing: bool)
        requires
            old(self).wf(),
        ensures
            final(self).wf(),
            final(self)@.phase == old(self)@.phase,
            final(self)@.windows == spec_close(old(self)@.windows, hwnd),
            closing == spec_closes(old(self)@.windows, hwnd),
    {
        let ghost old_windows = self@.windows;
        match self.window_from_hwnd(hwnd) {
            Some(i) => {
                let mut window = self.windows[i];
                let closing = window.close();
                self.windows.set(i, window);
                proof {
                    let new_windows = self.windows@.map_values(|w: Window| w@);
                    assert(new_windows == old_windows.update(i as int, on_close(old_windows[i as int])));
                    lemma_update_keeps_wf(old_windows, i as int, on_close(old_windows[i as int]));
                    assert forall|j: int| 0 <= j < old_windows.len() implies #[trigger] new_windows[j]
                        == spec_close(old_windows, hwnd)[j] by {
                        if j != i {
                            assert(!addressed(old_windows, hwnd, j));
                        }
                    }
                    assert(new_windows == spec_close(old_windows, hwnd));
                    if closing {
                        assert(old_windows[i as int] == (WindowState::Live { hwnd }));
                    } else {
                        assert forall|k: int| 0 <= k < old_windows.len() implies old_windows[k] != (
                        WindowState::Live { hwnd }) by {
                            if old_windows[k] == (WindowState::Live { hwnd }) {
                                assert(addressed(old_windows, hwnd, k));
                            }
                        }
                    }
                }
                closing
            },
            None => {
                proof {
                    assert forall|j: int| 0 <= j < old_windows.len() implies #[trigger] old_windows[j]
                        == spec_close(old_windows, hwnd)[j] by {
                        assert(!addressed(old_windows, hwnd, j));
                    }
                    assert(self@.windows == spec_close(old_windows, hwnd));
                    assert forall|k: int| 0 <= k < old_windows.len() implies old_windows[k] != (
                    WindowState::Live { hwnd }) by {
                        if old_windows[k] == (WindowState::Live { hwnd }) {
                            assert(addressed(old_windows, hwnd, k));
                        }
                    }
                }
                false
            },
        }
    }

    /// Ends the close of the window that is addressed by `hwnd`, once the
    /// platform has destroyed it. Where it answers `true`, the caller tells
    /// the controller that the window has closed. From then on the handle
    /// addresses no window, though the window still counts among those that
    /// the application has created.
    pub fn finish_close(&mut self, hwnd: isize) -> (closed: bool)
        requires
            old(self).wf(),
        ensures
            final(self).wf(),
            final(self)@.phase == old(self)@.phase,
            final(self)@.windows == spec_finish_close(old(self)@.windows, hwnd),
            closed == spec_finishes(old(self)@.windows, hwnd),
            closed ==> !is_addressable(final(self)@.windows, hwnd),
            final(self)@.windows.len() == old(self)@.windows.len(),
    {
        let ghost old_windows = self@.windows;
        match self.window_from_hwnd(hwnd) {
            Some(i) => {
                let mut window = self.windows[i];
                let closed = window.finish_close();
                self.windows.set(i, window);
                proof {
                    let new_windows = self.windows@.map_values(|w: Window| w@);
                    assert(new_windows == old_windows.update(
                        i as int,
                        on_destroyed(old_windows[i as int]),
                    ));
                    lemma_update_keeps_wf(old_windows, i as int, on_destroyed(old_windows[i as int]));
                    assert forall|j: int| 0 <= j < old_windows.len() implies #[trigger] new_windows[j]
                        == spec_finish_close(old_windows, hwnd)[j] by {
                        if j != i {
                            assert(!addressed(old_windows, hwnd, j));
                        }
                    }
                    assert(new_windows == spec_finish_close(old_windows, hwnd));
                    if closed {
                        assert(old_windows[i as int] == (WindowState::Closing { hwnd }));
                    } else {
                        assert forall|k: int| 0 <= k < old_windows.len() implies old_windows[k] != (
                        WindowState::Closing { hwnd }) by {
                            if old_windows[k] == (WindowState::Closing { hwnd }) {
                                assert(addressed(old_windows, hwnd, k));
                            }
                        }
                    }
                    if closed {
                        assert forall|j: int| !addressed(new_windows, hwnd, j) by {
                            if addressed(new_windows, hwnd, j) {
                                assert(j != i);
                                assert(addressed(old_windows, hwnd, j));
                            }
                        }
                    }
                }
                closed
            },
            None => {
                proof {
                    assert forall|j: int| 0 <= j < old_windows.len() implies #[trigger] old_windows[j]
                        == spec_finish_close(old_windows, hwnd)[j] by {
                        assert(!addressed(old_windows, hwnd, j));
                    }
                    assert(self@.windows == spec_finish_close(old_windows, hwnd));
                    assert forall|k: int| 0 <= k < old_windows.len() implies old_windows[k] != (
                    WindowState::Closing { hwnd }) by {
                        if old_windows[k] == (WindowState::Closing { hwnd }) {
                            assert(addressed(old_windows, hwnd, k));
                        }
                    }
                }
                false
            },
        }
    }

    /// Advances the run loop by one step and answers with what to do next.
    /// `polled` is the identifier of the pending message that the caller
    /// found on its last look, if it found one.
    pub fn run(&mut self, polled: Option<u32>) -> (action: LoopAction)
        requires
            old(self).wf(),
        ensures
            final(self).wf(),
            final(self)@.windows == old(self)@.windows,
            (final(self)@.phase, action) == loop_step(old(self)@.phase, polled),
    {
        let (phase, action) = match self.phase {
            LoopPhase::Created => (LoopPhase::Ready, LoopAction::Init),
            LoopPhase::Ready => (LoopPhase::Draining { quit: false }, LoopAction::BeforeEvents),
            LoopPhase::Draining { quit } => match polled {
                Some(msg) => (
                    LoopPhase::Draining { quit: quit || msg == WM_QUIT },
                    LoopAction::Dispatch,
                ),
                None => if quit {
                    (LoopPhase::Finished, LoopAction::Exit)
                } else {
                    (LoopPhase::Ready, LoopAction::AfterEvents)
                },
            },
            LoopPhase::Finished => (LoopPhase::Finished, LoopAction::Stop),
        };
        self.phase = phase;
        action
    }
}

/// The windows after the close of the one that `hwnd` addresses has been
/// asked for: that window is closing if it was live; the others are as they
/// were.
pub open spec fn spec_close(windows: Seq<WindowState>, hwnd: isize) -> Seq<WindowState> {
    Seq::new(
        windows.len(),
        |i: int|
            if windows[i].handle() == Some(hwnd) {
                on_close(windows[i])
            } else {
                windows[i]
            },
    )
}

/// Whether asking for the close of the window that `hwnd` addresses starts
/// one: whether there is such a window and it is live.
pub open spec fn spec_closes(windows: Seq<WindowState>, hwnd: isize) -> bool {
    exists|i: int| 0 <= i < windows.len() && windows[i] == (WindowState::Live { hwnd })
}

/// The windows after the platform has destroyed the one that `hwnd`
/// addresses: that window is destroyed if it was closing; the others are as
/// they were.
pub open spec fn spec_finish_close(windows: Seq<WindowState>, hwnd: isize) -> Seq<WindowState> {
    Seq::new(
        windows.len(),
        |i: int|
            if windows[i].handle() == Some(hwnd) {
                on_destroyed(windows[i])
            } else {
                windows[i]
            },
    )
}

/// Whether the destruction of the window that `hwnd` addresses ends a close:
/// whether there is such a window and it is closing.
pub open spec fn spec_finishes(windows: Seq<WindowState>, hwnd: isize) -> bool {
    exists|i: int| 0 <= i < windows.len() && windows[i] == (WindowState::Closing { hwnd })
}

/// A window that moves on in its life without taking a new handle leaves the
/// windows of an application well formed.
proof fn lemma_update_keeps_wf(windows: Seq<WindowState>, index: int, next: WindowState)
    requires
        windows_wf(windows),
        0 <= index < windows.len(),
        next.rank() >= 2,
        next.handle() is Some ==> next.handle() == windows[index].handle(),
    ensures
        windows_wf(windows.update(index, next)),
{
    let updated = windows.update(index, next);
    assert forall|i: int, j: int, hwnd: isize|
        addressed(updated, hwnd, i) && addressed(updated, hwnd, j) implies i == j by {
        assert(addressed(windows, hwnd, i));
        assert(addressed(windows, hwnd, j));
    }
}

} // verus!
