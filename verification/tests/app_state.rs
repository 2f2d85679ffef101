use wgpu_scene::input::{CameraController, ElementState, KeyCode, KeyInput, LogicalKey};
use wgpu_scene::state::{missed_event, AppState, EventResponse, RenderStep, Size, WindowInput};

fn size(width: u32, height: u32) -> Size {
    Size { width, height }
}

#[test]
fn new_state_raises_empty_sides_to_one_pixel() {
    let st = AppState::new(size(0, 0));
    assert_eq!(st.size, size(1, 1));
    assert_eq!(st.config, size(1, 1));
    let st = AppState::new(size(800, 0));
    assert_eq!(st.size, size(800, 1));
    let st = AppState::new(size(640, 480));
    assert_eq!(st.size, size(640, 480));
    assert_eq!(st.config, size(640, 480));
    assert!(!st.size_changed);
    assert_eq!(st.frame_count, 0);
    assert_eq!(st.camera_controller, CameraController::new());
}

#[test]
fn same_size_changes_nothing() {
    let mut st = AppState::new(size(640, 480));
    let before = st;
    st.set_window_resized(size(640, 480));
    assert_eq!(st, before);
    assert!(!st.resize_surface_if_needed());
}

#[test]
fn resize_reaches_surface_once() {
    let mut st = AppState::new(size(640, 480));
    st.set_window_resized(size(1024, 768));
    assert!(st.size_changed);
    assert_eq!(st.config, size(640, 480));
    assert!(st.resize_surface_if_needed());
    assert_eq!(st.config, size(1024, 768));
    assert!(!st.size_changed);
    let after = st;
    assert!(!st.resize_surface_if_needed());
    assert_eq!(st, after);
}

#[test]
fn last_reported_size_wins() {
    let mut st = AppState::new(size(640, 480));
    st.set_window_resized(size(100, 100));
    st.set_window_resized(size(640, 480));
    assert!(st.resize_surface_if_needed());
    assert_eq!(st.config, size(640, 480));
}

#[test]
fn frames_counted_until_a_second_passes() {
    let mut st = AppState::new(size(10, 10));
    assert_eq!(st.update(0), None);
    assert_eq!(st.update(0), None);
    assert_eq!(st.frame_count, 2);
    assert_eq!(st.update(1), Some(3));
    assert_eq!(st.frame_count, 0);
    assert_eq!(st.update(5), Some(1));
    assert_eq!(st.update(0), None);
    assert_eq!(st.frame_count, 1);
}

#[test]
fn render_skips_empty_window() {
    let mut st = AppState::new(size(10, 10));
    st.set_window_resized(size(0, 10));
    let before = st;
    assert_eq!(st.render(), RenderStep::Skip);
    assert_eq!(st, before);
}

#[test]
fn render_applies_pending_resize_and_title() {
    let mut st = AppState::new(size(10, 10));
    assert_eq!(st.render(), RenderStep::Draw { reconfigure: false, update_title: true });
    st.update(0);
    st.set_window_resized(size(20, 30));
    assert_eq!(st.render(), RenderStep::Draw { reconfigure: true, update_title: false });
    assert_eq!(st.config, size(20, 30));
    assert_eq!(st.render(), RenderStep::Draw { reconfigure: false, update_title: false });
}

#[test]
fn window_events_are_dispatched() {
    let mut st = AppState::new(size(10, 10));
    let w = KeyInput { state: ElementState::Pressed, logical_key: LogicalKey::Other, physical_key: KeyCode::KeyW };
    assert_eq!(st.window_event(&WindowInput::KeyboardInput(w)), EventResponse::KeyHandled(true));
    assert!(st.camera_controller.is_forward_pressed);
    let q = KeyInput { state: ElementState::Pressed, logical_key: LogicalKey::Other, physical_key: KeyCode::Other };
    assert_eq!(st.window_event(&WindowInput::KeyboardInput(q)), EventResponse::KeyHandled(false));
    assert_eq!(st.window_event(&WindowInput::CloseRequested), EventResponse::Exit);
    assert_eq!(st.window_event(&WindowInput::RedrawRequested), EventResponse::Redraw);
    assert_eq!(st.window_event(&WindowInput::Other), EventResponse::Ignored);
    let before = st;
    assert_eq!(st.window_event(&WindowInput::Resized(size(0, 50))), EventResponse::Minimized);
    assert_eq!(st, before);
    assert_eq!(st.window_event(&WindowInput::Resized(size(50, 60))), EventResponse::Resized(size(50, 60)));
    assert_eq!(st.size, size(50, 60));
    assert!(st.size_changed);
}

#[test]
fn events_before_the_app_keep_last_nonempty_resize() {
    let mut missed: Option<Size> = None;
    missed_event(&mut missed, &WindowInput::RedrawRequested);
    assert_eq!(missed, None);
    missed_event(&mut missed, &WindowInput::Resized(size(300, 200)));
    assert_eq!(missed, Some(size(300, 200)));
    missed_event(&mut missed, &WindowInput::Resized(size(0, 200)));
    assert_eq!(missed, Some(size(300, 200)));
    missed_event(&mut missed, &WindowInput::Resized(size(400, 500)));
    assert_eq!(missed, Some(size(400, 500)));
}
