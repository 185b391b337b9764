use ray_tracer::camera::{aggregate_move_axes, move_axis};
use ray_tracer::input::{MoveDirection, RotationDelta, SceneAction};

#[test]
fn move_axes_follow_the_camera_space_convention() {
    assert_eq!(move_axis(MoveDirection::Forward), (0, 0, -1));
    assert_eq!(move_axis(MoveDirection::Backward), (0, 0, 1));
    assert_eq!(move_axis(MoveDirection::Left), (-1, 0, 0));
    assert_eq!(move_axis(MoveDirection::Right), (1, 0, 0));
    assert_eq!(move_axis(MoveDirection::Up), (0, 1, 0));
    assert_eq!(move_axis(MoveDirection::Down), (0, -1, 0));
}

#[test]
fn no_actions_mean_no_movement() {
    let actions: Vec<SceneAction> = Vec::new();
    assert_eq!(aggregate_move_axes(&actions), (0, 0, 0));
}

#[test]
fn opposite_keys_cancel_exactly() {
    let actions = vec![
        SceneAction::Move(MoveDirection::Forward),
        SceneAction::Move(MoveDirection::Backward),
        SceneAction::Move(MoveDirection::Left),
        SceneAction::Move(MoveDirection::Right),
    ];
    assert_eq!(aggregate_move_axes(&actions), (0, 0, 0));
}

#[test]
fn movement_requests_add_up() {
    let actions = vec![
        SceneAction::Move(MoveDirection::Forward),
        SceneAction::Move(MoveDirection::Forward),
        SceneAction::Move(MoveDirection::Left),
        SceneAction::Move(MoveDirection::Up),
    ];
    assert_eq!(aggregate_move_axes(&actions), (-1, 1, -2));
}

#[test]
fn rotations_do_not_move_the_camera() {
    let actions = vec![
        SceneAction::RotateCamera { delta: RotationDelta { x: 500, y: -500 } },
        SceneAction::Move(MoveDirection::Down),
    ];
    assert_eq!(aggregate_move_axes(&actions), (0, -1, 0));
}

#[test]
fn no_rotations_mean_no_delta() {
    let actions = vec![SceneAction::Move(MoveDirection::Forward)];
    assert_eq!(ray_tracer::camera::aggregate_rotation_deltas(&actions), (0, 0));
}

#[test]
fn rotation_deltas_add_up_exactly() {
    let actions = vec![
        SceneAction::RotateCamera { delta: RotationDelta { x: 100, y: -250 } },
        SceneAction::Move(MoveDirection::Up),
        SceneAction::RotateCamera { delta: RotationDelta { x: -40, y: 30 } },
    ];
    assert_eq!(ray_tracer::camera::aggregate_rotation_deltas(&actions), (60, -220));
}

#[test]
fn opposite_rotation_deltas_cancel() {
    let actions = vec![
        SceneAction::RotateCamera { delta: RotationDelta { x: 1000, y: -1000 } },
        SceneAction::RotateCamera { delta: RotationDelta { x: -1000, y: 1000 } },
    ];
    assert_eq!(ray_tracer::camera::aggregate_rotation_deltas(&actions), (0, 0));
}
