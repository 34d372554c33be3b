use planetarium::Window;

#[test]
fn window_ops() {
    let wnd = Window::new(128, 64).at(200, 100);

    assert_eq!(wnd.len(), 128 * 64);
    assert!(wnd.is_inside(400, 500));
    assert!(!wnd.is_inside(100, 100));
    assert!(!wnd.at(300, 100).is_inside(400, 500));
}

#[test]
fn window_from_tuple() {
    let wnd = Window::from(((100, 200), (128, 64)));
    assert_eq!(wnd, Window { x: 100, y: 200, w: 128, h: 64 });
    assert_eq!(wnd, Window::new(128, 64).at(100, 200));
}

#[test]
fn window_on_canvas_edge() {
    let wnd = Window::new(4, 5).at(96, 95);
    assert!(wnd.is_inside(100, 100));
    assert!(!wnd.is_inside(99, 100));
    assert!(!wnd.is_inside(100, 99));
    assert!(Window::new(0, 0).at(100, 100).is_inside(100, 100));
    assert_eq!(Window::new(0, 7).len(), 0);
}

#[test]
fn window_far_origin_does_not_wrap() {
    let wnd = Window::new(u32::MAX, u32::MAX).at(u32::MAX, u32::MAX);
    assert!(!wnd.is_inside(u32::MAX, u32::MAX));
    assert_eq!(wnd.len(), u32::MAX as u64 * u32::MAX as u64);
}
