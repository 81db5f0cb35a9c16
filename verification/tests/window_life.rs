use winman::message::{DecodeFailure, WindowEvent};
use winman::win32;
use winman::window::{unowned_window_proc, window_proc, Action, ShowRequest, WindowState};
use winman::{KeyEvent, KeyState, VirtualKey, Window, WindowMovedEvent};

const H: isize = 0x0001_0A2C;

fn live_window() -> Window {
    let mut window = Window::new();
    assert_eq!(window_proc(&mut window, H, win32::WM_CREATE, 0, 0), Action::Init);
    assert!(window.created(H));
    window
}

#[test]
fn a_new_window_has_no_handle() {
    let window = Window::new();
    assert_eq!(window.state(), WindowState::Uninitialized);
    assert_eq!(window.hwnd(), None);
    assert!(!window.is_live(H));
}

#[test]
fn messages_before_creation_are_left_to_the_platform() {
    let mut window = Window::new();
    for msg in [
        win32::WM_MOVE,
        win32::WM_SIZE,
        win32::WM_PAINT,
        win32::WM_KEYDOWN,
        win32::WM_CHAR,
        win32::WM_CLOSE,
        win32::WM_XBUTTONDOWN,
        0x0081,
    ] {
        assert_eq!(window_proc(&mut window, H, msg, 0, 0), Action::Default);
        assert_eq!(window.state(), WindowState::Uninitialized);
    }
}

#[test]
fn creation_binds_the_handle_and_initialises_once() {
    let mut window = Window::new();
    assert_eq!(window_proc(&mut window, H, win32::WM_CREATE, 0, 0), Action::Init);
    assert_eq!(window.state(), WindowState::Initializing { hwnd: H });
    assert_eq!(window.hwnd(), Some(H));
    assert_eq!(window_proc(&mut window, H, win32::WM_CREATE, 0, 0), Action::Default);
    assert_eq!(window_proc(&mut window, H + 1, win32::WM_CREATE, 0, 0), Action::Default);
    assert_eq!(window.state(), WindowState::Initializing { hwnd: H });
}

#[test]
fn a_window_that_is_being_created_gets_no_events() {
    let mut window = Window::new();
    window_proc(&mut window, H, win32::WM_CREATE, 0, 0);
    assert_eq!(window_proc(&mut window, H, win32::WM_SIZE, 0, 0x0258_0320), Action::Default);
    assert_eq!(window_proc(&mut window, H, win32::WM_CLOSE, 0, 0), Action::Default);
    assert_eq!(window.state(), WindowState::Initializing { hwnd: H });
}

#[test]
fn the_returned_handle_makes_the_window_live() {
    let mut window = Window::new();
    assert!(!window.created(H));
    assert_eq!(window.state(), WindowState::Uninitialized);
    window_proc(&mut window, H, win32::WM_CREATE, 0, 0);
    assert!(!window.created(H + 1));
    assert_eq!(window.state(), WindowState::Initializing { hwnd: H });
    assert!(window.created(H));
    assert_eq!(window.state(), WindowState::Live { hwnd: H });
    assert!(window.is_live(H));
    assert!(!window.is_live(H + 1));
    assert!(!window.created(H));
    assert_eq!(window.state(), WindowState::Live { hwnd: H });
}

#[test]
fn a_live_window_delivers_its_events() {
    let mut window = live_window();
    assert_eq!(
        window_proc(&mut window, H, win32::WM_MOVE, 0, 0x000A_FFFB),
        Action::Deliver(WindowEvent::Moved(WindowMovedEvent::new(-5, 10)))
    );
    assert_eq!(
        window_proc(&mut window, H, win32::WM_KEYDOWN, 0x1B, 1 << 30),
        Action::Deliver(WindowEvent::Key(KeyEvent::new(VirtualKey::Escape, KeyState::Repeat)))
    );
    assert_eq!(window_proc(&mut window, H, win32::WM_PAINT, 0, 0), Action::Paint);
    assert_eq!(window_proc(&mut window, H, win32::WM_CLOSE, 0, 0), Action::QueryClose);
    assert_eq!(window_proc(&mut window, H, 0x0081, 0, 0), Action::Default);
    assert_eq!(window.state(), WindowState::Live { hwnd: H });
}

#[test]
fn a_message_for_another_handle_is_left_to_the_platform() {
    let mut window = live_window();
    assert_eq!(window_proc(&mut window, H + 4, win32::WM_MOVE, 0, 0), Action::Default);
    assert_eq!(window_proc(&mut window, H + 4, win32::WM_CLOSE, 0, 0), Action::Default);
    assert_eq!(window.state(), WindowState::Live { hwnd: H });
}

#[test]
fn an_invalid_character_is_dropped() {
    let mut window = live_window();
    assert_eq!(
        window_proc(&mut window, H, win32::WM_CHAR, 0xDC00, 0),
        Action::Drop(DecodeFailure::InvalidCharacter(0xDC00))
    );
    assert_eq!(window.state(), WindowState::Live { hwnd: H });
}

#[test]
fn an_unknown_extended_button_aborts_the_message() {
    let mut window = live_window();
    assert_eq!(
        window_proc(&mut window, H, win32::WM_XBUTTONDOWN, 0x0003_0000, 0),
        Action::Abort(DecodeFailure::UnknownXButton(3))
    );
    assert_eq!(
        window_proc(&mut window, H, win32::WM_XBUTTONUP, 0, 0),
        Action::Abort(DecodeFailure::UnknownXButton(0))
    );
    let mut pending = Window::new();
    assert_eq!(
        window_proc(&mut pending, H, win32::WM_XBUTTONDOWN, 0x0003_0000, 0),
        Action::Default
    );
}

#[test]
fn a_destroy_confirmation_posts_quit_in_every_state() {
    let mut window = Window::new();
    assert_eq!(window_proc(&mut window, H, win32::WM_DESTROY, 0, 0), Action::Quit);
    assert_eq!(window.state(), WindowState::Uninitialized);
    let mut window = live_window();
    assert_eq!(window_proc(&mut window, H, win32::WM_DESTROY, 0, 0), Action::Quit);
    assert_eq!(window_proc(&mut window, H + 1, win32::WM_DESTROY, 0, 0), Action::Quit);
    assert_eq!(window.state(), WindowState::Live { hwnd: H });
    assert!(window.close());
    assert_eq!(window_proc(&mut window, H, win32::WM_DESTROY, 0, 0), Action::Quit);
    assert_eq!(window.state(), WindowState::Closing { hwnd: H });
    assert_eq!(unowned_window_proc(win32::WM_DESTROY, 0, 0), Action::Quit);
    assert_eq!(unowned_window_proc(win32::WM_CLOSE, 0, 0), Action::Default);
    assert_eq!(unowned_window_proc(win32::WM_KEYDOWN, 0x41, 0), Action::Default);
}

#[test]
fn a_refused_close_leaves_the_window_live() {
    let mut window = live_window();
    assert_eq!(window_proc(&mut window, H, win32::WM_CLOSE, 0, 0), Action::QueryClose);
    assert!(!window.answer_close(false));
    assert_eq!(window.state(), WindowState::Live { hwnd: H });
    assert_eq!(
        window_proc(&mut window, H, win32::WM_MOVE, 0, 0x0002_0001),
        Action::Deliver(WindowEvent::Moved(WindowMovedEvent::new(1, 2)))
    );
    assert_eq!(window_proc(&mut window, H, win32::WM_CLOSE, 0, 0), Action::QueryClose);
}

#[test]
fn a_confirmed_close_runs_closing_destroy_closed_once() {
    let mut window = live_window();
    let mut trace: Vec<&str> = Vec::new();
    assert_eq!(window_proc(&mut window, H, win32::WM_CLOSE, 0, 0), Action::QueryClose);
    if window.answer_close(true) {
        trace.push("closing");
        assert_eq!(window.state(), WindowState::Closing { hwnd: H });
        assert_eq!(window.hwnd(), Some(H));
        trace.push("destroy");
        if window_proc(&mut window, H, win32::WM_DESTROY, 0, 0) == Action::Quit {
            trace.push("quit");
        }
        if window.finish_close() {
            trace.push("closed");
        }
    }
    assert_eq!(trace, vec!["closing", "destroy", "quit", "closed"]);
    assert_eq!(window.state(), WindowState::Destroyed);
    assert_eq!(window.hwnd(), None);
    assert!(!window.answer_close(true));
    assert!(!window.close());
    assert!(!window.finish_close());
    assert_eq!(window.state(), WindowState::Destroyed);
    assert_eq!(window_proc(&mut window, H, win32::WM_MOVE, 0, 0), Action::Default);
    assert_eq!(window_proc(&mut window, H, win32::WM_CLOSE, 0, 0), Action::Default);
    assert_eq!(window_proc(&mut window, H, win32::WM_CREATE, 0, 0), Action::Default);
}

#[test]
fn only_a_live_window_starts_a_close_and_only_a_closing_one_ends_it() {
    let mut window = Window::new();
    assert!(!window.close());
    assert!(!window.finish_close());
    window_proc(&mut window, H, win32::WM_CREATE, 0, 0);
    assert!(!window.close());
    assert!(!window.finish_close());
    assert_eq!(window.state(), WindowState::Initializing { hwnd: H });
    window.created(H);
    assert!(!window.finish_close());
    assert!(window.close());
    assert!(!window.close());
    assert!(window.finish_close());
}

#[test]
fn a_closing_window_gets_no_events() {
    let mut window = live_window();
    window.close();
    assert_eq!(window_proc(&mut window, H, win32::WM_MOVE, 0, 0), Action::Default);
    assert_eq!(window_proc(&mut window, H, win32::WM_CLOSE, 0, 0), Action::Default);
    assert_eq!(window_proc(&mut window, H, win32::WM_PAINT, 0, 0), Action::Default);
}

#[test]
fn show_requests_go_to_the_handle() {
    let window = live_window();
    assert_eq!(window.show(), Some(ShowRequest { hwnd: H, command: 10 }));
    assert_eq!(window.hide_window(), Some(ShowRequest { hwnd: H, command: 0 }));
    assert_eq!(window.minimize(), Some(ShowRequest { hwnd: H, command: 2 }));
    assert_eq!(window.maximize(), Some(ShowRequest { hwnd: H, command: 3 }));
    let pending = Window::new();
    assert_eq!(pending.show(), None);
    assert_eq!(pending.hide_window(), None);
    assert_eq!(pending.minimize(), None);
    assert_eq!(pending.maximize(), None);
}

#[test]
fn a_title_is_sent_with_its_terminator() {
    let window = live_window();
    let request = window.set_title("Demo").unwrap().unwrap();
    assert_eq!(request.hwnd, H);
    assert_eq!(request.title, b"Demo\0".to_vec());
    let request = window.set_title("").unwrap().unwrap();
    assert_eq!(request.title, vec![0u8]);
    let request = window.set_title("é").unwrap().unwrap();
    assert_eq!(request.title, vec![0xC3, 0xA9, 0]);
    assert!(Window::new().set_title("Demo").unwrap().is_none());
}

#[test]
fn a_title_with_a_terminator_inside_is_refused() {
    let window = live_window();
    assert_eq!(window.set_title("De\0mo").unwrap_err().position, 2);
    assert_eq!(window.set_title("\0").unwrap_err().position, 0);
    assert_eq!(Window::new().set_title("a\0b\0").unwrap_err().position, 1);
    assert_eq!(window.state(), WindowState::Live { hwnd: H });
}
