//! Playback of recorded input.
//!
//! A recording is a list of steps. This module decides, for each step, which input
//! events it stands for and in which order; sending the events to the system is left to
//! the caller.

use crate::keybinds::{Button, EventType};
use crate::keys::{key_of_name, string_to_key, Key};
use vstd::prelude::*;

verus! {

/// The device number of the keyboard in a step.
pub const DEVICE_KEYBOARD: i64 = 1;

/// The device number of the mouse in a step.
pub const DEVICE_MOUSE: i64 = 2;

/// The pause after each event that is sent, in milliseconds, which gives the system the
/// time to process the event.
pub const EVENT_DELAY_MILLIS: u64 = 1;

/// One step of a recording.
///
/// `device_type` is the number of the device and `simulation_type` the number of the
/// action on it. `data_str` names the key of a keyboard step. `data_num1` and
/// `data_num2` are the whole parts of the two numbers of a mouse step: the number of the
/// button, or the two distances of a turn of the wheel.
pub struct SimulationStep {
    pub device_type: i64,
    pub simulation_type: i64,
    pub data_str: String,
    pub data_num1: i64,
    pub data_num2: i64,
}

/// The events of a keyboard action on a key: the key goes down, goes up, or goes down
/// and up again. Without a key, or for another action, there is no event.
pub open spec fn keyboard_events(simulation_type: i64, key: Option<Key>) -> Seq<EventType> {
    match key {
        Some(key) => if simulation_type == 0 {
            seq![EventType::KeyPress(key)]
        } else if simulation_type == 1 {
            seq![EventType::KeyRelease(key)]
        } else if simulation_type == 2 {
            seq![EventType::KeyPress(key), EventType::KeyRelease(key)]
        } else {
            Seq::empty()
        },
        None => Seq::empty(),
    }
}

/// The button that a number stands for.
pub open spec fn button_of(button: i64) -> Option<Button> {
    if button == 0 {
        Some(Button::Left)
    } else if button == 1 {
        Some(Button::Middle)
    } else if button == 2 {
        Some(Button::Right)
    } else {
        None
    }
}

/// The events of an action on a button of the mouse: the button goes down, goes up, or
/// goes down and up again. Without a button, or for another action, there is no event.
pub open spec fn mouse_button_events(simulation_type: i64, button: Option<Button>) -> Seq<
    EventType,
> {
    match button {
        Some(button) => if simulation_type == 0 {
            seq![EventType::ButtonPress(button)]
        } else if simulation_type == 1 {
            seq![EventType::ButtonRelease(button)]
        } else if simulation_type == 2 {
            seq![EventType::ButtonPress(button), EventType::ButtonRelease(button)]
        } else {
            Seq::empty()
        },
        None => Seq::empty(),
    }
}

/// The events that a step stands for.
///
/// A keyboard step with one of the actions 0 to 2 acts on the key that its text names. A
/// mouse step moves the pointer (action 0), acts on the button that its first number
/// names (actions 1 and 2), or turns the wheel by its two numbers (action 3). Any other
/// step stands for nothing.
pub open spec fn step_events(
    device_type: i64,
    simulation_type: i64,
    data_str: Seq<char>,
    data_num1: i64,
    data_num2: i64,
) -> Seq<EventType> {
    if device_type == DEVICE_KEYBOARD {
        if 0 <= simulation_type <= 2 {
            keyboard_events(simulation_type, key_of_name(data_str))
        } else {
            Seq::empty()
        }
    } else if device_type == DEVICE_MOUSE {
        if simulation_type == 0 {
            seq![EventType::MouseMove]
        } else if 1 <= simulation_type <= 2 {
            mouse_button_events(simulation_type, button_of(data_num1))
        } else if simulation_type == 3 {
            seq![EventType::Wheel { delta_x: data_num1, delta_y: data_num2 }]
        } else {
            Seq::empty()
        }
    } else {
        Seq::empty()
    }
}

impl SimulationStep {
    /// The events that the step stands for.
    pub open spec fn events(&self) -> Seq<EventType> {
        step_events(
            self.device_type,
            self.simulation_type,
            self.data_str@,
            self.data_num1,
            self.data_num2,
        )
    }
}

/// Returns the events of a keyboard action on the key that `key_string` names. A name
/// that is not the name of a key gives no event.
pub fn keyboard_key(simulation_type: i64, key_string: &str) -> (events: Vec<EventType>)
    ensures
        events@ == keyboard_events(simulation_type, key_of_name(key_string@)),
{
    let mut events: Vec<EventType> = Vec::new();
    let key = match string_to_key(key_string) {
        Ok(key) => key,
        Err(_) => {
            return events;
        },
    };
    if simulation_type == 0 {
        events.push(EventType::KeyPress(key));
    } else if simulation_type == 1 {
        events.push(EventType::KeyRelease(key));
    } else if simulation_type == 2 {
        events.push(EventType::KeyPress(key));
        events.push(EventType::KeyRelease(key));
    }
    assert(events@ =~= keyboard_events(simulation_type, Some(key)));
    events
}

/// Returns the events of an action on the button of the mouse that `button` numbers. A
/// number that stands for no button gives no event.
pub fn mouse_button(simulation_type: i64, button: i64) -> (events: Vec<EventType>)
    ensures
        events@ == mouse_button_events(simulation_type, button_of(button)),
{
    let mut events: Vec<EventType> = Vec::new();
    let mouse_button = if button == 0 {
        Button::Left
    } else if button == 1 {
        Button::Middle
    } else if button == 2 {
        Button::Right
    } else {
        return events;
    };
    if simulation_type == 0 {
        events.push(EventType::ButtonPress(mouse_button));
    } else if simulation_type == 1 {
        events.push(EventType::ButtonRelease(mouse_button));
    } else if simulation_type == 2 {
        events.push(EventType::ButtonPress(mouse_button));
        events.push(EventType::ButtonRelease(mouse_button));
    }
    assert(events@ =~= mouse_button_events(simulation_type, Some(mouse_button)));
    events
}

/// Returns the event of a turn of the wheel.
pub fn mouse_scroll(delta_x: i64, delta_y: i64) -> (events: Vec<EventType>)
    ensures
        events@ == seq![EventType::Wheel { delta_x, delta_y }],
{
    let mut events: Vec<EventType> = Vec::new();
    events.push(EventType::Wheel { delta_x, delta_y });
    assert(events@ =~= seq![EventType::Wheel { delta_x, delta_y }]);
    events
}

/// Returns the event of a movement of the pointer.
pub fn mouse_move() -> (events: Vec<EventType>)
    ensures
        events@ == seq![EventType::MouseMove],
{
    let mut events: Vec<EventType> = Vec::new();
    events.push(EventType::MouseMove);
    assert(events@ =~= seq![EventType::MouseMove]);
    events
}

/// Returns the events that one step stands for, in the order in which they are sent.
pub fn simulate_step(step: &SimulationStep) -> (events: Vec<EventType>)
    ensures
        events@ == step.events(),
{
    if step.device_type == DEVICE_KEYBOARD {
        if 0 <= step.simulation_type && step.simulation_type <= 2 {
            keyboard_key(step.simulation_type, step.data_str.as_str())
        } else {
            Vec::new()
        }
    } else if step.device_type == DEVICE_MOUSE {
        if step.simulation_type == 0 {
            mouse_move()
        } else if 1 <= step.simulation_type && step.simulation_type <= 2 {
            mouse_button(step.simulation_type, step.data_num1)
        } else if step.simulation_type == 3 {
            mouse_scroll(step.data_num1, step.data_num2)
        } else {
            Vec::new()
        }
    } else {
        Vec::new()
    }
}

/// Returns, for each step of a recording and in the order of the steps, the events that
/// the step stands for.
pub fn simulate_inputs(inputs: &Vec<SimulationStep>) -> (events: Vec<Vec<EventType>>)
    ensures
        events@.len() == inputs@.len(),
        forall|i: int| 0 <= i < inputs@.len() ==> (#[trigger] events@[i])@ == inputs@[i].events(),
{
    let mut events: Vec<Vec<EventType>> = Vec::new();
    let mut index: usize = 0;
    while index < inputs.len()
        invariant
            index <= inputs@.len(),
            events@.len() == index,
            forall|i: int| 0 <= i < index ==> (#[trigger] events@[i])@ == inputs@[i].events(),
        decreases inputs@.len() - index,
    {
        events.push(simulate_step(&inputs[index]));
        index += 1;
    }
    events
}

} // verus!
