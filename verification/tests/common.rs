use opengl_book_examples::camera::CameraMovement;
use opengl_book_examples::common::{
    handle_window_event, handle_window_event_original, process_input, PolygonMode, WindowAction,
    WindowEvent,
};

#[test]
fn resize_sets_the_viewport() {
    let mut wireframe = false;
    let action =
        handle_window_event_original(WindowEvent::FramebufferSize { width: 800, height: 600 }, &mut wireframe);
    assert_eq!(action, WindowAction::Viewport { width: 800, height: 600 });
    assert!(!wireframe);
}

#[test]
fn escape_closes_the_window() {
    let mut wireframe = true;
    assert_eq!(handle_window_event_original(WindowEvent::EscapePressed, &mut wireframe), WindowAction::Close);
    assert!(wireframe);
}

#[test]
fn left_control_switches_the_polygon_mode() {
    let mut wireframe = false;
    let first = handle_window_event_original(WindowEvent::LeftControlPressed, &mut wireframe);
    assert_eq!(first, WindowAction::Polygon { mode: PolygonMode::Line });
    assert!(wireframe);
    let second = handle_window_event_original(WindowEvent::LeftControlPressed, &mut wireframe);
    assert_eq!(second, WindowAction::Polygon { mode: PolygonMode::Fill });
    assert!(!wireframe);
}

#[test]
fn window_without_camera_ignores_the_mouse() {
    let mut wireframe = false;
    assert_eq!(handle_window_event_original(WindowEvent::CursorPos, &mut wireframe), WindowAction::Nothing);
    assert_eq!(handle_window_event_original(WindowEvent::Scroll, &mut wireframe), WindowAction::Nothing);
    assert_eq!(handle_window_event_original(WindowEvent::Other, &mut wireframe), WindowAction::Nothing);
    assert!(!wireframe);
}

#[test]
fn first_cursor_movement_restarts_the_tracking() {
    let mut first_mouse = true;
    let mut wireframe = false;
    let action = handle_window_event(WindowEvent::CursorPos, &mut first_mouse, &mut wireframe);
    assert_eq!(action, WindowAction::Look { restart: true });
    assert!(!first_mouse);
    let action = handle_window_event(WindowEvent::CursorPos, &mut first_mouse, &mut wireframe);
    assert_eq!(action, WindowAction::Look { restart: false });
    assert!(!first_mouse);
}

#[test]
fn window_with_camera_handles_the_other_events_as_before() {
    let mut first_mouse = true;
    let mut wireframe = false;
    assert_eq!(handle_window_event(WindowEvent::Scroll, &mut first_mouse, &mut wireframe), WindowAction::Zoom);
    assert_eq!(
        handle_window_event(WindowEvent::FramebufferSize { width: 1, height: 2 }, &mut first_mouse, &mut wireframe),
        WindowAction::Viewport { width: 1, height: 2 }
    );
    assert_eq!(handle_window_event(WindowEvent::EscapePressed, &mut first_mouse, &mut wireframe), WindowAction::Close);
    assert_eq!(
        handle_window_event(WindowEvent::LeftControlPressed, &mut first_mouse, &mut wireframe),
        WindowAction::Polygon { mode: PolygonMode::Line }
    );
    assert_eq!(handle_window_event(WindowEvent::Other, &mut first_mouse, &mut wireframe), WindowAction::Nothing);
    assert!(first_mouse);
    assert!(wireframe);
}

#[test]
fn pressed_keys_move_the_camera_in_a_fixed_order() {
    assert_eq!(process_input(false, false, false, false), vec![]);
    assert_eq!(process_input(true, false, false, false), vec![CameraMovement::FORWARD]);
    assert_eq!(process_input(false, true, false, true), vec![CameraMovement::BACKWARD, CameraMovement::LEFT]);
    assert_eq!(
        process_input(true, true, true, true),
        vec![CameraMovement::FORWARD, CameraMovement::BACKWARD, CameraMovement::RIGHT, CameraMovement::LEFT]
    );
}
