use overfloat::inputsim::{
    keyboard_key, mouse_button, mouse_move, mouse_scroll, simulate_inputs, simulate_step,
    SimulationStep, DEVICE_KEYBOARD, DEVICE_MOUSE, EVENT_DELAY_MILLIS,
};
use overfloat::keybinds::{Button, EventType};
use overfloat::keys::Key;

fn step(device_type: i64, simulation_type: i64, data_str: &str, n1: i64, n2: i64) -> SimulationStep {
    SimulationStep {
        device_type,
        simulation_type,
        data_str: data_str.to_string(),
        data_num1: n1,
        data_num2: n2,
    }
}

#[test]
fn keyboard_actions() {
    assert_eq!(keyboard_key(0, "A"), vec![EventType::KeyPress(Key::KeyA)]);
    assert_eq!(keyboard_key(1, "A"), vec![EventType::KeyRelease(Key::KeyA)]);
    assert_eq!(
        keyboard_key(2, "LCtrl"),
        vec![EventType::KeyPress(Key::ControlLeft), EventType::KeyRelease(Key::ControlLeft)]
    );
    assert_eq!(keyboard_key(3, "A"), vec![]);
    assert_eq!(keyboard_key(-1, "A"), vec![]);
}

#[test]
fn keyboard_action_on_an_unknown_name() {
    assert_eq!(keyboard_key(0, "NoSuchKey"), vec![]);
    assert_eq!(keyboard_key(2, ""), vec![]);
    assert_eq!(keyboard_key(2, "Unknown"), vec![]);
}

#[test]
fn mouse_button_actions() {
    assert_eq!(mouse_button(0, 0), vec![EventType::ButtonPress(Button::Left)]);
    assert_eq!(mouse_button(1, 1), vec![EventType::ButtonRelease(Button::Middle)]);
    assert_eq!(
        mouse_button(2, 2),
        vec![EventType::ButtonPress(Button::Right), EventType::ButtonRelease(Button::Right)]
    );
    assert_eq!(mouse_button(3, 0), vec![]);
    assert_eq!(mouse_button(0, 3), vec![]);
    assert_eq!(mouse_button(0, -1), vec![]);
}

#[test]
fn wheel_and_pointer() {
    assert_eq!(mouse_scroll(3, -4), vec![EventType::Wheel { delta_x: 3, delta_y: -4 }]);
    assert_eq!(mouse_move(), vec![EventType::MouseMove]);
}

#[test]
fn keyboard_steps() {
    assert_eq!(
        simulate_step(&step(1, 0, "Space", 0, 0)),
        vec![EventType::KeyPress(Key::Space)]
    );
    assert_eq!(
        simulate_step(&step(1, 2, "F1", 9, 9)),
        vec![EventType::KeyPress(Key::F1), EventType::KeyRelease(Key::F1)]
    );
    assert_eq!(simulate_step(&step(1, 3, "F1", 0, 0)), vec![]);
    assert_eq!(simulate_step(&step(1, -1, "F1", 0, 0)), vec![]);
    assert_eq!(simulate_step(&step(1, 1, "nothing", 0, 0)), vec![]);
}

#[test]
fn mouse_steps() {
    assert_eq!(simulate_step(&step(2, 0, "", 10, 20)), vec![EventType::MouseMove]);
    assert_eq!(
        simulate_step(&step(2, 1, "", 0, 0)),
        vec![EventType::ButtonRelease(Button::Left)]
    );
    assert_eq!(
        simulate_step(&step(2, 2, "", 2, 0)),
        vec![EventType::ButtonPress(Button::Right), EventType::ButtonRelease(Button::Right)]
    );
    assert_eq!(simulate_step(&step(2, 2, "", 5, 0)), vec![]);
    assert_eq!(
        simulate_step(&step(2, 3, "", -2, 7)),
        vec![EventType::Wheel { delta_x: -2, delta_y: 7 }]
    );
    assert_eq!(simulate_step(&step(2, 4, "", 0, 0)), vec![]);
}

#[test]
fn steps_of_other_devices_stand_for_nothing() {
    assert_eq!(simulate_step(&step(0, 0, "A", 0, 0)), vec![]);
    assert_eq!(simulate_step(&step(3, 1, "A", 0, 0)), vec![]);
    assert_eq!(simulate_step(&step(-1, 2, "A", 0, 0)), vec![]);
}

#[test]
fn a_recording_gives_the_events_of_each_step_in_order() {
    let inputs = vec![
        step(1, 0, "LShft", 0, 0),
        step(1, 2, "A", 0, 0),
        step(9, 9, "", 0, 0),
        step(1, 1, "LShft", 0, 0),
        step(2, 3, "", 0, -1),
    ];
    let events = simulate_inputs(&inputs);
    assert_eq!(
        events,
        vec![
            vec![EventType::KeyPress(Key::ShiftLeft)],
            vec![EventType::KeyPress(Key::KeyA), EventType::KeyRelease(Key::KeyA)],
            vec![],
            vec![EventType::KeyRelease(Key::ShiftLeft)],
            vec![EventType::Wheel { delta_x: 0, delta_y: -1 }],
        ]
    );
    assert_eq!(simulate_inputs(&Vec::new()), Vec::<Vec<EventType>>::new());
}

#[test]
fn constants() {
    assert_eq!(DEVICE_KEYBOARD, 1);
    assert_eq!(DEVICE_MOUSE, 2);
    assert_eq!(EVENT_DELAY_MILLIS, 1);
}
