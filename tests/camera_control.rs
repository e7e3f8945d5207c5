use rengine::camera_control::get_camera_instr;
use rengine::camera_control::Axis;
use rengine::camera_control::AxisStep;
use rengine::camera_control::CamInstr;
use rengine::camera_control::CameraKeys;
use rengine::input::KeyState;
use rengine::input::KeyboardState;

fn layout() -> CameraKeys<char> {
    CameraKeys {
        pitch_up: '^',
        pitch_down: 'v',
        yaw_left: '<',
        yaw_right: '>',
        right: 'd',
        left: 'q',
        up: 'z',
        down: 's',
        forward: 'e',
        backward: 'r',
        print: 'p',
    }
}

fn held(keys: &[char]) -> KeyboardState<char> {
    let mut k = KeyboardState::new();
    for c in keys {
        k.process_event(KeyState::Pressed, *c);
    }
    k
}

#[test]
fn no_key_no_instruction() {
    assert!(get_camera_instr(&held(&[]), &layout()).is_empty());
    assert!(get_camera_instr(&held(&['x', 'y']), &layout()).is_empty());
}

#[test]
fn each_key_gives_its_instruction() {
    let cases = [
        ('^', CamInstr::Rotate(AxisStep { axis: Axis::X, positive: true })),
        ('v', CamInstr::Rotate(AxisStep { axis: Axis::X, positive: false })),
        ('<', CamInstr::Rotate(AxisStep { axis: Axis::Y, positive: true })),
        ('>', CamInstr::Rotate(AxisStep { axis: Axis::Y, positive: false })),
        ('d', CamInstr::Move(AxisStep { axis: Axis::X, positive: true })),
        ('q', CamInstr::Move(AxisStep { axis: Axis::X, positive: false })),
        ('z', CamInstr::Move(AxisStep { axis: Axis::Y, positive: true })),
        ('s', CamInstr::Move(AxisStep { axis: Axis::Y, positive: false })),
        ('e', CamInstr::Move(AxisStep { axis: Axis::Z, positive: true })),
        ('r', CamInstr::Move(AxisStep { axis: Axis::Z, positive: false })),
        ('p', CamInstr::PrintTransform),
    ];
    for (key, instr) in cases {
        assert_eq!(get_camera_instr(&held(&[key]), &layout()), vec![instr]);
    }
}

#[test]
fn instructions_follow_binding_order() {
    let r = get_camera_instr(&held(&['p', 'e', '^', 'q']), &layout());
    assert_eq!(
        r,
        vec![
            CamInstr::Rotate(AxisStep { axis: Axis::X, positive: true }),
            CamInstr::Move(AxisStep { axis: Axis::X, positive: false }),
            CamInstr::Move(AxisStep { axis: Axis::Z, positive: true }),
            CamInstr::PrintTransform,
        ]
    );
}

#[test]
fn released_key_stops_its_instruction() {
    let mut k = held(&['d', 'z']);
    k.process_event(KeyState::Released, 'd');
    assert_eq!(
        get_camera_instr(&k, &layout()),
        vec![CamInstr::Move(AxisStep { axis: Axis::Y, positive: true })]
    );
}

#[test]
fn bindings_list_every_key_once() {
    let b = layout().bindings();
    assert_eq!(b.len(), 11);
    assert_eq!(b[0], ('^', CamInstr::Rotate(AxisStep { axis: Axis::X, positive: true })));
    assert_eq!(b[10], ('p', CamInstr::PrintTransform));
}
