use wgpu_scene::input::{CameraController, CameraStep, ElementState, KeyCode, KeyInput, LogicalKey};

fn key(state: ElementState, logical_key: LogicalKey, physical_key: KeyCode) -> KeyInput {
    KeyInput { state, logical_key, physical_key }
}

fn press(code: KeyCode) -> KeyInput {
    key(ElementState::Pressed, LogicalKey::Other, code)
}

fn release(code: KeyCode) -> KeyInput {
    key(ElementState::Released, LogicalKey::Other, code)
}

#[test]
fn new_controller_holds_nothing() {
    let c = CameraController::new();
    assert!(!c.is_forward_pressed && !c.is_backward_pressed);
    assert!(!c.is_left_pressed && !c.is_right_pressed);
    assert!(!c.is_up_pressed && !c.is_down_pressed);
    assert!(c.update_steps().is_empty());
}

#[test]
fn movement_keys_set_their_flags() {
    let cases = [
        (KeyCode::KeyW, 0),
        (KeyCode::ArrowUp, 0),
        (KeyCode::KeyS, 1),
        (KeyCode::ArrowDown, 1),
        (KeyCode::KeyA, 2),
        (KeyCode::ArrowLeft, 2),
        (KeyCode::KeyD, 3),
        (KeyCode::ArrowRight, 3),
        (KeyCode::ShiftLeft, 5),
    ];
    for (code, which) in cases {
        let mut c = CameraController::new();
        assert!(c.process_events(&press(code)));
        let flags = [
            c.is_forward_pressed,
            c.is_backward_pressed,
            c.is_left_pressed,
            c.is_right_pressed,
            c.is_up_pressed,
            c.is_down_pressed,
        ];
        for (i, f) in flags.iter().enumerate() {
            assert_eq!(*f, i == which, "key {:?} flag {}", code, i);
        }
    }
}

#[test]
fn space_moves_up_whatever_the_physical_key() {
    let mut c = CameraController::new();
    assert!(c.process_events(&key(ElementState::Pressed, LogicalKey::Space, KeyCode::KeyW)));
    assert!(c.is_up_pressed);
    assert!(!c.is_forward_pressed);
    assert!(c.process_events(&key(ElementState::Released, LogicalKey::Space, KeyCode::Other)));
    assert!(!c.is_up_pressed);
}

#[test]
fn other_keys_are_not_handled() {
    let mut c = CameraController::new();
    c.process_events(&press(KeyCode::KeyW));
    let before = c;
    assert!(!c.process_events(&press(KeyCode::Other)));
    assert!(!c.process_events(&release(KeyCode::Other)));
    assert_eq!(c, before);
}

#[test]
fn release_undoes_press() {
    let start = CameraController::new();
    let mut c = start;
    c.process_events(&press(KeyCode::KeyD));
    assert!(c.is_right_pressed);
    c.process_events(&release(KeyCode::KeyD));
    assert_eq!(c, start);
}

#[test]
fn same_event_twice_is_once() {
    let mut once = CameraController::new();
    once.process_events(&press(KeyCode::KeyA));
    let mut twice = CameraController::new();
    twice.process_events(&press(KeyCode::KeyA));
    twice.process_events(&press(KeyCode::KeyA));
    assert_eq!(once, twice);
}

#[test]
fn update_steps_in_order() {
    let mut c = CameraController::new();
    for code in [KeyCode::KeyA, KeyCode::KeyD, KeyCode::KeyS, KeyCode::KeyW, KeyCode::ShiftLeft] {
        c.process_events(&press(code));
    }
    c.process_events(&key(ElementState::Pressed, LogicalKey::Space, KeyCode::Other));
    assert_eq!(
        c.update_steps(),
        vec![CameraStep::MoveForward, CameraStep::MoveBackward, CameraStep::OrbitRight, CameraStep::OrbitLeft]
    );
    c.process_events(&release(KeyCode::KeyW));
    c.process_events(&release(KeyCode::KeyD));
    assert_eq!(c.update_steps(), vec![CameraStep::MoveBackward, CameraStep::OrbitLeft]);
}
