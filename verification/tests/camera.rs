use opengl_book_examples::camera::{Axis, CameraMovement, HeightLock};

#[test]
fn each_direction_has_its_axis_and_sign() {
    assert_eq!(CameraMovement::FORWARD.axis(), Axis::Front);
    assert_eq!(CameraMovement::BACKWARD.axis(), Axis::Front);
    assert_eq!(CameraMovement::RIGHT.axis(), Axis::Right);
    assert_eq!(CameraMovement::LEFT.axis(), Axis::Right);
    assert_eq!(CameraMovement::UP.axis(), Axis::Up);
    assert_eq!(CameraMovement::DOWN.axis(), Axis::Up);
    assert!(CameraMovement::FORWARD.is_positive());
    assert!(!CameraMovement::BACKWARD.is_positive());
    assert!(CameraMovement::RIGHT.is_positive());
    assert!(!CameraMovement::LEFT.is_positive());
    assert!(CameraMovement::UP.is_positive());
    assert!(!CameraMovement::DOWN.is_positive());
}

#[test]
fn only_up_and_down_are_vertical() {
    assert!(CameraMovement::UP.is_vertical());
    assert!(CameraMovement::DOWN.is_vertical());
    assert!(!CameraMovement::FORWARD.is_vertical());
    assert!(!CameraMovement::BACKWARD.is_vertical());
    assert!(!CameraMovement::RIGHT.is_vertical());
    assert!(!CameraMovement::LEFT.is_vertical());
}

#[test]
fn first_person_camera_keeps_the_height_of_the_last_vertical_move() {
    let mut lock = HeightLock::new(true, 1.0f32);
    assert!(lock.is_enabled());
    assert_eq!(lock.fixed_height(), 1.0);
    assert_eq!(lock.settle(CameraMovement::FORWARD, 1.25), 1.0);
    assert_eq!(lock.settle(CameraMovement::LEFT, 0.5), 1.0);
    assert_eq!(lock.settle(CameraMovement::UP, 2.5), 2.5);
    assert_eq!(lock.fixed_height(), 2.5);
    assert_eq!(lock.settle(CameraMovement::BACKWARD, 2.75), 2.5);
    assert_eq!(lock.settle(CameraMovement::RIGHT, -3.0), 2.5);
    assert_eq!(lock.settle(CameraMovement::DOWN, 2.0), 2.0);
    assert_eq!(lock.settle(CameraMovement::FORWARD, 9.0), 2.0);
    assert_eq!(lock.fixed_height(), 2.0);
}

#[test]
fn free_camera_goes_where_the_move_takes_it() {
    let mut lock = HeightLock::new(false, 1.0f32);
    assert!(!lock.is_enabled());
    assert_eq!(lock.settle(CameraMovement::FORWARD, 1.25), 1.25);
    assert_eq!(lock.settle(CameraMovement::UP, 4.0), 4.0);
    assert_eq!(lock.settle(CameraMovement::LEFT, -2.0), -2.0);
    assert_eq!(lock.fixed_height(), 1.0);
}
