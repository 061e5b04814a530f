use strwb::ui::colors::{black, blue, green, red, white, Color};
use strwb::ui::frame::Frame;
use strwb::ui::geometry::Rect;
use strwb::ui::ui_context::UiContext;

#[test]
fn color_new_sets_each_channel() {
    let c = Color::_new(1, 2, 3, 4);
    assert_eq!((c.r, c.g, c.b, c.a), (1, 2, 3, 4));
    assert_eq!(c.channels(), [1, 2, 3, 4]);
}

#[test]
fn palette_colors_have_their_defined_channels() {
    assert_eq!(white(), Color::_new(255, 255, 255, 255));
    assert_eq!(black(), Color::_new(0, 0, 0, 1));
    assert_eq!(red(), Color::_new(1, 0, 0, 1));
    assert_eq!(green(), Color::_new(0, 1, 0, 0));
    assert_eq!(blue(), Color::_new(0, 0, 1, 0));
}

#[test]
fn rect_new_keeps_its_arguments() {
    let r = Rect::new(10.0f32, 60.0, 20.0, 30.0, green());
    assert_eq!((r.x, r.y, r.w, r.h), (10.0, 60.0, 20.0, 30.0));
    assert_eq!(r.color, green());
}

#[test]
fn frame_new_splits_the_window_size() {
    let rects = vec![Rect::new(1.0f32, 2.0, 3.0, 4.0, red())];
    let f = Frame::new(rects, (800, 600));
    assert_eq!(f.width, 800);
    assert_eq!(f.height, 600);
    assert_eq!(f.rec_vec.len(), 1);
    assert_eq!(f.rec_vec[0].x, 1.0);
}

#[test]
fn new_rec_hands_out_consecutive_ids() {
    let mut ui: UiContext<f32> = UiContext::new();
    assert_eq!(ui.new_rec(10.0, 10.0, 20.0, 20.0, red()), 0);
    assert_eq!(ui.new_rec(10.0, 60.0, 20.0, 20.0, green()), 1);
    assert_eq!(ui.new_rec(10.0, 110.0, 20.0, 20.0, blue()), 2);
    assert_eq!(ui.elements.len(), 3);
    assert_eq!(ui.get_object_color(1), green());
    assert_eq!(ui._get_object_position(2), (10.0, 110.0, 20.0, 20.0));
}

#[test]
fn set_object_color_is_read_back_and_keeps_geometry() {
    let mut ui: UiContext<f32> = UiContext::new();
    let a = ui.new_rec(400.0, 400.0, 20.0, 20.0, black());
    let b = ui.new_rec(1.0, 2.0, 3.0, 4.0, white());
    ui.set_object_color(a, blue());
    assert_eq!(ui.get_object_color(a), blue());
    assert_eq!(ui._get_object_position(a), (400.0, 400.0, 20.0, 20.0));
    assert_eq!(ui.get_object_color(b), white());
}

#[test]
fn set_object_position_keeps_size_and_color() {
    let mut ui: UiContext<f32> = UiContext::new();
    let a = ui.new_rec(400.0, 400.0, 20.0, 30.0, red());
    ui.set_object_position(a, 55.5, -3.0);
    assert_eq!(ui._get_object_position(a), (55.5, -3.0, 20.0, 30.0));
    assert_eq!(ui.get_object_color(a), red());
    assert_eq!(ui.elements.len(), 1);
}

#[test]
fn build_frame_lists_every_rect_once() {
    let mut ui: UiContext<f32> = UiContext::new();
    for i in 0..10u8 {
        ui.new_rec(i as f32, 0.0, 1.0, 1.0, Color::_new(i, 0, 0, 255));
    }
    let frame = ui.build_frame((640, 480));
    assert_eq!((frame.width, frame.height), (640, 480));
    assert_eq!(frame.rec_vec.len(), 10);
    let mut seen: Vec<u8> = frame.rec_vec.iter().map(|r| r.color.r).collect();
    seen.sort();
    assert_eq!(seen, (0..10u8).collect::<Vec<u8>>());
    for r in &frame.rec_vec {
        assert_eq!(r.x, r.color.r as f32);
    }
    assert_eq!(ui.elements.len(), 10);
}

#[test]
fn build_frame_of_empty_context_is_empty() {
    let mut ui: UiContext<f32> = UiContext::new();
    let frame = ui.build_frame((1, 2));
    assert!(frame.rec_vec.is_empty());
    assert_eq!((frame.width, frame.height), (1, 2));
}

#[test]
fn two_frames_of_the_same_context_hold_the_same_rects() {
    let mut ui: UiContext<f32> = UiContext::new();
    for i in 0..20u8 {
        ui.new_rec(0.0, i as f32, 1.0, 1.0, Color::_new(i % 3, i, 0, 255));
    }
    let key = |f: &Frame<f32>| {
        let mut v: Vec<(u8, u8, u32)> =
            f.rec_vec.iter().map(|r| (r.color.r, r.color.g, r.y.to_bits())).collect();
        v.sort();
        v
    };
    let a = ui.build_frame((10, 10));
    let b = ui.build_frame((10, 10));
    assert_eq!(key(&a), key(&b));
    assert_eq!((a.width, a.height), (b.width, b.height));
}
