use winman::creation::{
    create_window_style, encode_title, outer_size, TitleEncodingError, WindowPlan, DEFAULT_HEIGHT,
    DEFAULT_WIDTH,
};
use winman::win32;
use winman::{Point, Rect, Size, WindowConfig};

fn config(decorated: bool, resizable: bool) -> WindowConfig {
    WindowConfig { title: String::new(), size: None, pos: None, decorated, resizable }
}

#[test]
fn the_default_configuration() {
    let config = WindowConfig::default();
    assert_eq!(config.title, "");
    assert_eq!(config.size, None);
    assert_eq!(config.pos, None);
    assert!(config.decorated);
    assert!(config.resizable);
    let by_trait: WindowConfig = Default::default();
    assert_eq!(by_trait.title, "");
    assert!(by_trait.size.is_none() && by_trait.pos.is_none());
    assert!(by_trait.decorated && by_trait.resizable);
}

#[test]
fn geometry_defaults_to_zero() {
    assert_eq!(Size::default(), Size { width: 0, height: 0 });
    assert_eq!(Point::default(), Point { x: 0, y: 0 });
    assert_eq!(Rect::default(), Rect { pos: Point { x: 0, y: 0 }, size: Size { width: 0, height: 0 } });
}

#[test]
fn style_of_a_decorated_resizable_window() {
    let (style, style_ex) = create_window_style(&config(true, true));
    assert_eq!(style, 0x06CF_0000);
    assert_eq!(
        style,
        win32::WS_CLIPSIBLINGS
            | win32::WS_CLIPCHILDREN
            | win32::WS_CAPTION
            | win32::WS_SYSMENU
            | win32::WS_MINIMIZEBOX
            | win32::WS_MAXIMIZEBOX
            | win32::WS_THICKFRAME
    );
    assert_eq!(style_ex, win32::WS_EX_APPWINDOW);
}

#[test]
fn style_of_a_decorated_window_of_fixed_size() {
    let (style, style_ex) = create_window_style(&config(true, false));
    assert_eq!(style, 0x06C0_0000);
    assert_eq!(style, win32::WS_CLIPSIBLINGS | win32::WS_CLIPCHILDREN | win32::WS_CAPTION);
    assert_eq!(style & win32::WS_THICKFRAME, 0);
    assert_eq!(style & win32::WS_SYSMENU, 0);
    assert_eq!(style_ex, 0x0004_0000);
}

#[test]
fn style_of_a_window_without_decoration() {
    for resizable in [false, true] {
        let (style, style_ex) = create_window_style(&config(false, resizable));
        assert_eq!(style, 0x8600_0000);
        assert_eq!(style, win32::WS_CLIPSIBLINGS | win32::WS_CLIPCHILDREN | win32::WS_POPUP);
        assert_eq!(style & win32::WS_CAPTION, 0);
        assert_eq!(style & win32::WS_THICKFRAME, 0);
        assert_eq!(style_ex, win32::WS_EX_APPWINDOW);
    }
}

#[test]
fn titles_are_encoded_with_a_terminator() {
    assert_eq!(encode_title("Demo"), Ok(b"Demo\0".to_vec()));
    assert_eq!(encode_title(""), Ok(vec![0]));
    assert_eq!(encode_title("größe"), Ok("größe\0".as_bytes().to_vec()));
}

#[test]
fn titles_with_a_terminator_inside_are_refused() {
    assert_eq!(encode_title("\0"), Err(TitleEncodingError { position: 0 }));
    assert_eq!(encode_title("ab\0cd\0"), Err(TitleEncodingError { position: 2 }));
    assert_eq!(encode_title("Demo\0"), Err(TitleEncodingError { position: 4 }));
    assert_eq!(encode_title("é\0"), Err(TitleEncodingError { position: 2 }));
}

#[test]
fn a_plan_without_size_and_position_uses_the_defaults() {
    let plan = WindowPlan::new(&WindowConfig::default()).unwrap();
    assert_eq!(plan.client, Size { width: 640, height: 480 });
    assert_eq!((DEFAULT_WIDTH, DEFAULT_HEIGHT), (640, 480));
    assert_eq!(plan.x, win32::CW_USEDEFAULT);
    assert_eq!(plan.y, win32::CW_USEDEFAULT);
    assert_eq!(plan.title, vec![0]);
    assert_eq!(plan.style, 0x06CF_0000);
    assert_eq!(plan.style_ex, 0x0004_0000);
}

#[test]
fn a_plan_takes_size_and_position_from_the_configuration() {
    let config = WindowConfig {
        title: String::from("Tool"),
        size: Some(Size { width: 320, height: 200 }),
        pos: Some(Point { x: -40, y: 25 }),
        decorated: false,
        resizable: true,
    };
    let plan = WindowPlan::new(&config).unwrap();
    assert_eq!(plan.client, Size { width: 320, height: 200 });
    assert_eq!((plan.x, plan.y), (-40, 25));
    assert_eq!(plan.title, b"Tool\0".to_vec());
    assert_eq!(plan.style, 0x8600_0000);
}

#[test]
fn a_plan_refuses_a_title_with_a_terminator_inside() {
    let mut config = WindowConfig::default();
    config.title = String::from("a\0");
    assert_eq!(WindowPlan::new(&config).unwrap_err(), TitleEncodingError { position: 1 });
}

#[test]
fn the_outer_size_is_the_extent_of_the_adjusted_rectangle() {
    assert_eq!(outer_size(-8, -31, 808, 608), Some(Size { width: 816, height: 639 }));
    assert_eq!(outer_size(0, 0, 640, 480), Some(Size { width: 640, height: 480 }));
    assert_eq!(outer_size(10, 10, 5, 5), Some(Size { width: -5, height: -5 }));
    assert_eq!(outer_size(0, 0, i32::MAX, i32::MAX), Some(Size { width: i32::MAX, height: i32::MAX }));
}

#[test]
fn an_outer_size_beyond_the_coordinate_range_is_refused() {
    assert_eq!(outer_size(-1, 0, i32::MAX, 1), None);
    assert_eq!(outer_size(0, -1, 1, i32::MAX), None);
    assert_eq!(outer_size(1, 0, i32::MIN, 0), None);
    assert_eq!(outer_size(i32::MIN, i32::MIN, i32::MAX, i32::MAX), None);
}
