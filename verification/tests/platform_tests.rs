use strwb::platform::platform_context::{Action, Context, InputEvent};

#[test]
fn new_context_has_the_button_up() {
    let mut c: Context<f32> = Context::new(800, 600, 0.0, 0.0);
    assert_eq!(c.get_size(), (800, 600));
    assert!(!c.mouse_is_clicked);
    assert_eq!((c.mouse_x, c.mouse_y), (0.0, 0.0));
}

#[test]
fn setters_record_mouse_state() {
    let mut c: Context<f32> = Context::new(800, 800, 0.0, 0.0);
    c.set_mouse_pos(12.5, 7.0);
    c.set_mouse_click(true);
    assert_eq!((c.mouse_x, c.mouse_y), (12.5, 7.0));
    assert!(c.mouse_is_clicked);
}

#[test]
fn primary_press_then_release() {
    let mut c: Context<f32> = Context::new(800, 800, 0.0, 0.0);
    assert!(c.event_match(&InputEvent::MouseButton { primary: true, action: Action::Press }));
    assert!(c.mouse_is_clicked);
    assert!(c.event_match(&InputEvent::MouseButton { primary: true, action: Action::Release }));
    assert!(!c.mouse_is_clicked);
}

#[test]
fn other_buttons_and_repeats_are_only_reported() {
    let mut c: Context<f32> = Context::new(800, 800, 0.0, 0.0);
    assert!(!c.event_match(&InputEvent::MouseButton { primary: false, action: Action::Press }));
    assert!(!c.mouse_is_clicked);
    assert!(!c.event_match(&InputEvent::MouseButton { primary: true, action: Action::Repeat }));
    assert!(!c.event_match(&InputEvent::Key { escape: false, action: Action::Press }));
    assert!(!c.event_match(&InputEvent::Key { escape: true, action: Action::Release }));
    assert!(!c.event_match(&InputEvent::Other));
    assert_eq!(c.get_size(), (800, 800));
}

#[test]
fn escape_press_is_handled_and_changes_nothing() {
    let mut c: Context<f32> = Context::new(800, 800, 3.0, 4.0);
    assert!(c.event_match(&InputEvent::Key { escape: true, action: Action::Press }));
    assert_eq!((c.mouse_x, c.mouse_y), (3.0, 4.0));
    assert!(!c.mouse_is_clicked);
}

#[test]
fn cursor_and_resize_events_update_state() {
    let mut c: Context<f32> = Context::new(800, 800, 0.0, 0.0);
    assert!(c.event_match(&InputEvent::CursorPos(100.25, 50.5)));
    assert_eq!((c.mouse_x, c.mouse_y), (100.25, 50.5));
    assert!(c.event_match(&InputEvent::FramebufferSize(1024, 768)));
    assert_eq!(c.get_size(), (1024, 768));
    assert!(c.event_match(&InputEvent::FramebufferSize(-1, 0)));
    assert_eq!(c.get_size(), (u32::MAX, 0));
}

#[test]
fn apply_events_runs_each_event_in_order() {
    let mut c: Context<f32> = Context::new(800, 800, 0.0, 0.0);
    let events = [
        InputEvent::CursorPos(1.0, 2.0),
        InputEvent::MouseButton { primary: true, action: Action::Press },
        InputEvent::Other,
        InputEvent::FramebufferSize(300, 200),
        InputEvent::CursorPos(5.0, 6.0),
        InputEvent::MouseButton { primary: true, action: Action::Release },
    ];
    let handled = c.apply_events(&events);
    assert_eq!(handled, vec![true, true, false, true, true, true]);
    assert_eq!((c.mouse_x, c.mouse_y), (5.0, 6.0));
    assert!(!c.mouse_is_clicked);
    assert_eq!(c.get_size(), (300, 200));
}
