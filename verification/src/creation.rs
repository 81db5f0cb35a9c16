//! What is worked out before the platform is asked to create a window: the
//! style bits, the encoded title, the client area and the position.

use crate::config::{Size, WindowConfig};
use crate::win32::{
    CW_USEDEFAULT, WS_CAPTION, WS_CLIPCHILDREN, WS_CLIPSIBLINGS, WS_EX_APPWINDOW, WS_MAXIMIZEBOX,
    WS_MINIMIZEBOX, WS_POPUP, WS_SYSMENU, WS_THICKFRAME,
};
use vstd::prelude::*;

verus! {

/// The width of the client area of a window that asks for no size.
pub const DEFAULT_WIDTH: i32 = 640;

/// The height of the client area of a window that asks for no size.
pub const DEFAULT_HEIGHT: i32 = 480;

/// A title cannot be handed to the platform: it holds the byte that ends a
/// string there.
#[derive(Debug, Copy, Clone, PartialEq, Eq, Structural)]
pub struct TitleEncodingError {
    /// The index of the first zero byte of the title.
    pub position: usize,
}

/// The bytes of a title: its characters in UTF-8.
pub open spec fn spec_title_bytes(title: Seq<char>) -> Seq<u8> {
    vstd::utf8::encode_utf8(title)
}

/// Whether `position` is the index of the first zero byte of `bytes`.
pub open spec fn is_first_zero(bytes: Seq<u8>, position: int) -> bool {
    &&& 0 <= position < bytes.len()
    &&& bytes[position] == 0
    &&& forall|j: int| 0 <= j < position ==> bytes[j] != 0
}

/// Whether a byte string holds a zero byte.
pub open spec fn has_zero(bytes: Seq<u8>) -> bool {
    exists|j: int| 0 <= j < bytes.len() && bytes[j] == 0
}

/// The title as the platform takes it: its bytes, followed by a zero byte.
/// A title that holds a zero byte itself is refused, with the place of the
/// first one; nothing is cut off.
pub fn encode_title(title: &str) -> (encoded: Result<Vec<u8>, TitleEncodingError>)
    ensures
        encoded is Ok <==> !has_zero(spec_title_bytes(title@)),
        encoded matches Ok(bytes) ==> bytes@ == spec_title_bytes(title@).push(0u8),
        encoded matches Err(e) ==> is_first_zero(spec_title_bytes(title@), e.position as int),
{
    let bytes = title.as_bytes();
    let mut out: Vec<u8> = Vec::new();
    let mut i: usize = 0;
    while i < bytes.len()
        invariant
            bytes@ == spec_title_bytes(title@),
            0 <= i <= bytes@.len(),
            out@ == bytes@.subrange(0, i as int),
            forall|j: int| 0 <= j < i ==> bytes@[j] != 0,
        decreases bytes@.len() - i,
    {
        let b = bytes[i];
        if b == 0 {
            return Err(TitleEncodingError { position: i });
        }
        out.push(b);
        assert(out@ == bytes@.subrange(0, i + 1));
        i += 1;
    }
    assert(bytes@.subrange(0, i as int) == bytes@);
    out.push(0);
    Ok(out)
}

/// Whether every bit of `flag` is set in `style`.
pub open spec fn has_flag(style: u32, flag: u32) -> bool {
    style & flag == flag
}

/// The style bits of a window.
///
/// Every window clips its siblings and its children. A decorated window has
/// a caption; if it is resizable too, it has a window menu, both buttons and
/// a sizing frame. A window without decoration is a bare pop-up, resizable
/// or not.
pub open spec fn spec_window_style(decorated: bool, resizable: bool) -> u32 {
    if decorated {
        if resizable {
            0x06CF_0000
        } else {
            0x06C0_0000
        }
    } else {
        0x8600_0000
    }
}

/// The style and the extended style that the platform is given for a window
/// with the given configuration.
pub fn create_window_style(config: &WindowConfig) -> (styles: (u32, u32))
    ensures
        styles.0 == spec_window_style(config.decorated, config.resizable),
        styles.1 == WS_EX_APPWINDOW,
        has_flag(styles.0, WS_CLIPSIBLINGS) && has_flag(styles.0, WS_CLIPCHILDREN),
        has_flag(styles.0, WS_CAPTION) <==> config.decorated,
        has_flag(styles.0, WS_POPUP) <==> !config.decorated,
        has_flag(styles.0, WS_SYSMENU) <==> config.decorated && config.resizable,
        has_flag(styles.0, WS_MINIMIZEBOX) <==> config.decorated && config.resizable,
        has_flag(styles.0, WS_MAXIMIZEBOX) <==> config.decorated && config.resizable,
        has_flag(styles.0, WS_THICKFRAME) <==> config.decorated && config.resizable,
{
    let style_ex = WS_EX_APPWINDOW;
    let mut style = WS_CLIPSIBLINGS | WS_CLIPCHILDREN;
    if config.decorated {
        style = style | WS_CAPTION;
        if config.resizable {
            style = style | WS_SYSMENU | WS_MINIMIZEBOX | WS_MAXIMIZEBOX | WS_THICKFRAME;
        }
    } else {
        style = style | WS_POPUP;
    }
    proof {
        lemma_style_values();
        lemma_style_flags(config.decorated, config.resizable);
    }
    (style, style_ex)
}

/// The three styles, as the bits add up.
pub proof fn lemma_style_values()
    ensures
        (WS_CLIPSIBLINGS | WS_CLIPCHILDREN) | WS_CAPTION == 0x06C0_0000u32,
        ((((WS_CLIPSIBLINGS | WS_CLIPCHILDREN) | WS_CAPTION) | WS_SYSMENU | WS_MINIMIZEBOX)
            | WS_MAXIMIZEBOX) | WS_THICKFRAME == 0x06CF_0000u32,
        (WS_CLIPSIBLINGS | WS_CLIPCHILDREN) | WS_POPUP == 0x8600_0000u32,
{
    assert((0x0400_0000u32 | 0x0200_0000u32) | 0x00C0_0000u32 == 0x06C0_0000u32) by (bit_vector);
    assert(((((0x0400_0000u32 | 0x0200_0000u32) | 0x00C0_0000u32) | 0x0008_0000u32 | 0x0002_0000u32)
        | 0x0001_0000u32) | 0x0004_0000u32 == 0x06CF_0000u32) by (bit_vector);
    assert((0x0400_0000u32 | 0x0200_0000u32) | 0x8000_0000u32 == 0x8600_0000u32) by (bit_vector);
}

/// Which style bits the style of a window holds, flag by flag.
pub proof fn lemma_style_flags(decorated: bool, resizable: bool)
    ensures
        has_flag(spec_window_style(decorated, resizable), WS_CLIPSIBLINGS),
        has_flag(spec_window_style(decorated, resizable), WS_CLIPCHILDREN),
        has_flag(spec_window_style(decorated, resizable), WS_CAPTION) <==> decorated,
        has_flag(spec_window_style(decorated, resizable), WS_POPUP) <==> !decorated,
        has_flag(spec_window_style(decorated, resizable), WS_SYSMENU) <==> decorated && resizable,
        has_flag(spec_window_style(decorated, resizable), WS_MINIMIZEBOX) <==> decorated
            && resizable,
        has_flag(spec_window_style(decorated, resizable), WS_MAXIMIZEBOX) <==> decorated
            && resizable,
        has_flag(spec_window_style(decorated, resizable), WS_THICKFRAME) <==> decorated
            && resizable,
{
    let s = spec_window_style(decorated, resizable);
    assert(s == 0x06CF_0000u32 || s == 0x06C0_0000u32 || s == 0x8600_0000u32);
    assert(s == 0x06CF_0000u32 || s == 0x06C0_0000u32 || s == 0x8600_0000u32 ==> {
        &&& s & 0x0400_0000u32 == 0x0400_0000u32
        &&& s & 0x0200_0000u32 == 0x0200_0000u32
        &&& (s & 0x00C0_0000u32 == 0x00C0_0000u32 <==> s != 0x8600_0000u32)
        &&& (s & 0x8000_0000u32 == 0x8000_0000u32 <==> s == 0x8600_0000u32)
        &&& (s & 0x0008_0000u32 == 0x0008_0000u32 <==> s == 0x06CF_0000u32)
        &&& (s & 0x0002_0000u32 == 0x0002_0000u32 <==> s == 0x06CF_0000u32)
        &&& (s & 0x0001_0000u32 == 0x0001_0000u32 <==> s == 0x06CF_0000u32)
        &&& (s & 0x0004_0000u32 == 0x0004_0000u32 <==> s == 0x06CF_0000u32)
    }) by (bit_vector);
}

/// What the platform is asked for when a window is created.
#[derive(Debug, Clone)]
pub struct WindowPlan {
    /// The style bits of the window.
    pub style: u32,
    /// The extended style bits of the window.
    pub style_ex: u32,
    /// The title, ended by a zero byte.
    pub title: Vec<u8>,
    /// The size that the client area is to have.
    pub client: Size,
    /// The horizontal position, or `CW_USEDEFAULT`.
    pub x: i32,
    /// The vertical position, or `CW_USEDEFAULT`.
    pub y: i32,
}

/// The size of the client area that a configuration asks for.
pub open spec fn spec_client_size(config: WindowConfig) -> Size {
    match config.size {
        Some(size) => size,
        None => Size { width: DEFAULT_WIDTH, height: DEFAULT_HEIGHT },
    }
}

/// The position that a configuration asks for.
pub open spec fn spec_position(config: WindowConfig) -> (i32, i32) {
    match config.pos {
        Some(pos) => (pos.x, pos.y),
        None => (CW_USEDEFAULT, CW_USEDEFAULT),
    }
}

impl WindowPlan {
    /// Works out what to ask the platform for. The only configuration that is
    /// refused is one whose title holds a zero byte.
    pub fn new(config: &WindowConfig) -> (plan: Result<WindowPlan, TitleEncodingError>)
        ensures
            plan is Ok <==> !has_zero(spec_title_bytes(config.title@)),
            plan matches Ok(p) ==> {
                &&& p.style == spec_window_style(config.decorated, config.resizable)
                &&& p.style_ex == WS_EX_APPWINDOW
                &&& p.title@ == spec_title_bytes(config.title@).push(0u8)
                &&& p.client == spec_client_size(*config)
                &&& (p.x, p.y) == spec_position(*config)
            },
            plan matches Err(e) ==> is_first_zero(
                spec_title_bytes(config.title@),
                e.position as int,
            ),
    {
        let (style, style_ex) = create_window_style(config);
        let title = match encode_title(config.title.as_str()) {
            Ok(bytes) => bytes,
            Err(e) => {
                return Err(e);
            },
        };
        let client = match config.size {
            Some(size) => size,
            None => Size { width: DEFAULT_WIDTH, height: DEFAULT_HEIGHT },
        };
        let (x, y) = match config.pos {
            Some(pos) => (pos.x, pos.y),
            None => (CW_USEDEFAULT, CW_USEDEFAULT),
        };
        Ok(WindowPlan { style, style_ex, title, client, x, y })
    }
}

/// The outer size of a window whose frame the platform has laid around the
/// client area: the width and the height of the rectangle that came back.
/// `None` where a side is too long for the platform's 32-bit coordinates.
pub fn outer_size(left: i32, top: i32, right: i32, bottom: i32) -> (size: Option<Size>)
    ensures
        size is Some <==> (i32::MIN <= right - left <= i32::MAX && i32::MIN <= bottom - top
            <= i32::MAX),
        size matches Some(s) ==> s.width == right - left && s.height == bottom - top,
{
    match (right.checked_sub(left), bottom.checked_sub(top)) {
        (Some(width), Some(height)) => Some(Size { width, height }),
        _ => None,
    }
}

} // verus!
