use mujoco_app::frame::{frame_layout, FrameLayout, Viewport};

#[test]
fn layout_of_an_ordinary_window() {
    assert_eq!(
        frame_layout(800, 600),
        Some(FrameLayout {
            viewport: Viewport { left: 0, bottom: 0, width: 800, height: 600 },
            rgb_len: 1_440_000,
            depth_len: 480_000,
        })
    );
}

#[test]
fn layout_of_an_empty_window() {
    assert_eq!(
        frame_layout(0, 600),
        Some(FrameLayout {
            viewport: Viewport { left: 0, bottom: 0, width: 0, height: 600 },
            rgb_len: 0,
            depth_len: 0,
        })
    );
}

#[test]
fn no_layout_where_the_pixels_cannot_be_counted() {
    assert_eq!(frame_layout(65_536, 65_536), None);
    assert_eq!(frame_layout(u32::MAX, 1), None);
    assert_eq!(frame_layout(1, 0x8000_0000), None);
    assert!(frame_layout(65_535, 65_535).is_some());
    assert!(frame_layout(0x7fff_ffff, 2).is_some());
}
