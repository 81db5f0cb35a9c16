//! The decision core of a small windowing layer: decoding of native window
//! messages into typed events, the life cycle of a window, and the run loop
//! of an application. Nothing here talks to the platform; a thin shell calls
//! these functions with what the platform delivers and performs the actions
//! they answer with.

pub mod application;
pub mod class;
pub mod config;
pub mod creation;
pub mod input;
pub mod laws;
pub mod lifecycle;
pub mod message;
pub mod virtual_key;
pub mod win32;
pub mod window;

pub use application::Application;
pub use config::{Point, Rect, Size, WindowConfig};
pub use input::enums::{ButtonState, KeyState, MouseButton, VirtualKey};
pub use input::{
    CharEvent, FocusChangedEvent, KeyEvent, MouseButtonEvent, MouseMoveEvent, MouseWheelEvent,
    WindowMovedEvent, WindowResizedEvent,
};
pub use window::Window;
