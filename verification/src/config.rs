//! What a caller says about the window it wants.

use vstd::prelude::*;

verus! {

/// A size in pixels.
#[derive(Debug, Default, Copy, Clone, PartialEq, Eq, Structural)]
pub struct Size {
    pub width: i32,
    pub height: i32,
}

/// A position in pixels.
#[derive(Debug, Default, Copy, Clone, PartialEq, Eq, Structural)]
pub struct Point {
    pub x: i32,
    pub y: i32,
}

/// A rectangle: where it is and how large.
#[derive(Debug, Default, Copy, Clone, PartialEq, Eq, Structural)]
pub struct Rect {
    pub pos: Point,
    pub size: Size,
}

/// The configuration of a window. It is read once, when the window is
/// created.
#[derive(Debug, Clone)]
pub struct WindowConfig {
    /// The text of the title bar.
    pub title: String,
    /// The size of the client area; the default size where there is none.
    pub size: Option<Size>,
    /// The position of the window; the platform chooses where there is none.
    pub pos: Option<Point>,
    /// Whether the window has a title bar and a border.
    pub decorated: bool,
    /// Whether the user can resize a decorated window.
    pub resizable: bool,
}

impl WindowConfig {
    /// The configuration of a window of which nothing is said: no title, the
    /// default size, a position of the platform's choice, decorated and
    /// resizable.
    pub fn default() -> (config: WindowConfig)
        ensures
            config.title@ == Seq::<char>::empty(),
            config.size is None,
            config.pos is None,
            config.decorated,
            config.resizable,
    {
        WindowConfig { title: String::new(), size: None, pos: None, decorated: true, resizable: true }
    }
}

impl Default for WindowConfig {
    fn default() -> (config: WindowConfig)
        ensures
            config.title@ == Seq::<char>::empty(),
            config.size is None,
            config.pos is None,
            config.decorated,
            config.resizable,
    {
        WindowConfig::default()
    }
}

} // verus!
