use waycolor::{pick, plane_pick, scroll, slider_pick, Channel, Color, DragState, GradientType};

fn slider(name: &str) -> GradientType {
    GradientType::Slider(String::from(name))
}

#[test]
fn plane_corners() {
    let c = Color::from_hsv(200, 50, 50);
    let top_right = plane_pick(&c, 380, 0, 380, 270);
    assert_eq!((top_right.h, top_right.s, top_right.v), (200, 100, 100));
    let bottom_left = plane_pick(&c, 0, 270, 380, 270);
    assert_eq!((bottom_left.h, bottom_left.s, bottom_left.v), (200, 0, 0));
    assert_eq!((bottom_left.r, bottom_left.g, bottom_left.b), (0, 0, 0));
}

#[test]
fn plane_clamps_pointer_outside() {
    let c = Color::from_hsv(120, 10, 10);
    let p = plane_pick(&c, 1000, -50, 380, 270);
    assert_eq!((p.h, p.s, p.v), (120, 100, 100));
    let q = plane_pick(&c, -1, 999, 380, 270);
    assert_eq!((q.h, q.s, q.v), (120, 0, 0));
}

#[test]
fn plane_truncates() {
    let c = Color::from_hsv(0, 0, 0);
    // 100 * 190 / 380 = 50; 100 * (270 - 100) / 270 = 62.9...
    let p = plane_pick(&c, 190, 100, 380, 270);
    assert_eq!((p.s, p.v), (50, 62));
}

#[test]
fn slider_sets_scaled_channel() {
    let c = Color::from_rgb(10, 20, 30);
    let r = slider_pick(&c, Channel::Red, 50, 100);
    assert_eq!((r.r, r.g, r.b), (127, 20, 30));
    let h = slider_pick(&c, Channel::Hue, 100, 100);
    assert_eq!(h.h, 360);
    let s = slider_pick(&c, Channel::Saturation, -20, 100);
    assert_eq!(s.s, 0);
}

#[test]
fn pick_dispatches_on_gradient() {
    let c = Color::from_hsv(90, 40, 40);
    let p = pick(&c, &GradientType::Gradient, 300, 0, 300, 100);
    assert_eq!((p.h, p.s, p.v), (90, 100, 100));
    let v = pick(&c, &slider("v"), 75, 0, 300, 100);
    assert_eq!((v.h, v.s, v.v), (90, 40, 25));
    let odd = pick(&c, &slider("q"), 75, 0, 300, 100);
    assert_eq!((odd.r, odd.g, odd.b), (255, 0, 0));
}

#[test]
fn scroll_hue_clamps_at_top() {
    let c = Color::from_hsv(359, 100, 100);
    let once = scroll(&c, &slider("h"), true).unwrap();
    assert_eq!(once.h, 360);
    let twice = scroll(&once, &slider("h"), true).unwrap();
    assert_eq!(twice.h, 360);
}

#[test]
fn scroll_clamps_at_bottom() {
    let c = Color::from_rgb(0, 5, 5);
    let down = scroll(&c, &slider("r"), false).unwrap();
    assert_eq!((down.r, down.g, down.b), (0, 5, 5));
    let up = scroll(&c, &slider("g"), true).unwrap();
    assert_eq!((up.r, up.g, up.b), (0, 6, 5));
    let less = scroll(&c, &slider("b"), false).unwrap();
    assert_eq!((less.r, less.g, less.b), (0, 5, 4));
}

#[test]
fn scroll_ignored_on_plane() {
    let c = Color::from_rgb(1, 2, 3);
    assert!(scroll(&c, &GradientType::Gradient, true).is_none());
    assert!(scroll(&c, &GradientType::Gradient, false).is_none());
}

#[test]
fn drag_state_machine() {
    let idle = DragState::Idle;
    assert_eq!(idle.step(true, true), DragState::Dragging);
    assert_eq!(idle.step(false, true), DragState::Idle);
    assert_eq!(idle.step(true, false), DragState::Idle);
    let dragging = DragState::Dragging;
    assert_eq!(dragging.step(false, true), DragState::Dragging);
    assert_eq!(dragging.step(true, false), DragState::Idle);
    assert_eq!(dragging.step(false, false), DragState::Idle);
}
