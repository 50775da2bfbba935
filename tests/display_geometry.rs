use libobs_wrapper::display::{DisplayResize, DisplayWindowManager, WindowPosCall, MOVE_FLAGS, RESIZE_FLAGS};

fn ready() -> DisplayWindowManager {
    let mut d = DisplayWindowManager::new(0xABC, 10, 20, 640, 480, 1.0f32.to_bits());
    d.set_display(77);
    d
}

#[test]
fn flags_have_win32_values() {
    assert_eq!(MOVE_FLAGS, 0x0111);
    assert_eq!(RESIZE_FLAGS, 0x0154);
}

#[test]
fn new_display_has_no_engine_surface() {
    let d = DisplayWindowManager::new(1, 2, 3, 4, 5, 6);
    assert_eq!(d.get_display(), None);
    assert_eq!(d.get_pos(), (2, 3));
    assert_eq!(d.get_size(), (4, 5));
    assert_eq!(d.get_scale(), 6);
    assert!(!d.get_render_at_bottom());
}

#[test]
fn set_pos_moves_without_resizing() {
    let mut d = ready();
    let call = d.move_call(-5, 300);
    assert_eq!(call, WindowPosCall { hwnd: 0xABC, insert_at_bottom: false, x: -5, y: 300, width: 1, height: 1, flags: MOVE_FLAGS });
    assert_eq!(d.get_pos(), (10, 20));
    d.set_pos(-5, 300, true);
    assert_eq!(d.get_pos(), (-5, 300));
    assert_eq!(d.get_size(), (640, 480));
}

#[test]
fn render_at_bottom_affects_next_move() {
    let mut d = ready();
    d.set_render_at_bottom(true);
    assert!(d.get_render_at_bottom());
    assert_eq!(d.get_pos(), (10, 20));
    assert!(d.move_call(1, 2).insert_at_bottom);
    d.set_render_at_bottom(false);
    assert!(!d.move_call(1, 2).insert_at_bottom);
}

#[test]
fn failed_move_keeps_cached_position() {
    let mut d = ready();
    let _ = d.move_call(400, 500);
    d.set_pos(400, 500, false);
    assert_eq!(d.get_pos(), (10, 20));
}

#[test]
fn size_round_trip_with_one_resize() {
    let mut d = ready();
    let change = d.set_size(1920, 1080);
    assert_eq!(d.get_size(), (1920, 1080));
    assert_eq!(change.resize, DisplayResize { display: 77, width: 1920, height: 1080 });
    assert_eq!(change.window, WindowPosCall { hwnd: 0xABC, insert_at_bottom: false, x: 10, y: 20, width: 1920, height: 1080, flags: RESIZE_FLAGS });
    assert_eq!(change.redraw, 0xABC);
    assert_eq!(d.get_pos(), (10, 20));
}

#[test]
fn size_round_trip_largest() {
    let mut d = ready();
    let change = d.set_size(u32::MAX, 1);
    assert_eq!(d.get_size(), (u32::MAX, 1));
    assert_eq!(change.resize, DisplayResize { display: 77, width: u32::MAX, height: 1 });
}

#[test]
fn set_scale_round_trip() {
    let mut d = ready();
    d.set_scale(2.5f32.to_bits());
    assert_eq!(f32::from_bits(d.get_scale()), 2.5f32);
    assert_eq!(d.get_size(), (640, 480));
}

#[test]
fn client_rect_size() {
    let r = libobs_wrapper::display::ClientRect { left: 8, top: 31, right: 1928, bottom: 1111 };
    assert_eq!(r.size(), (1920, 1080));
    let empty = libobs_wrapper::display::ClientRect { left: 5, top: 5, right: 5, bottom: 5 };
    assert_eq!(empty.size(), (0, 0));
}
