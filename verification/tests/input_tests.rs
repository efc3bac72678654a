use std::time::Duration;

use jakar_engine::input::control::{Input, InputLoop, InputState, InputThreadMessages, LoopAction, Received};
use jakar_engine::input::keymap::{ElementState, InputEvent, Key, KeyMap};

fn press(key: Key) -> InputEvent {
    InputEvent::KeyboardInput { state: ElementState::Pressed, virtual_keycode: Some(key) }
}

fn release(key: Key) -> InputEvent {
    InputEvent::KeyboardInput { state: ElementState::Released, virtual_keycode: Some(key) }
}

#[test]
fn new_key_map_is_idle() {
    let km = KeyMap::new();
    assert!(!km.is_pressed(Key::A));
    assert!(!km.is_pressed(Key::Escape));
    assert!(!km.is_pressed(Key::Other));
    assert_eq!(km.window_dimensions, [100, 100]);
    assert!(!km.closed);
    assert_eq!(km.mouse_location, [0, 0]);
    assert_eq!(km.mouse_delta_x_bits, 0);
}

#[test]
fn update_keys_last_event_decides() {
    let mut km = KeyMap::new();
    km.update_keys(&vec![press(Key::W), press(Key::A), release(Key::A), press(Key::Space)]);
    assert!(km.is_pressed(Key::W));
    assert!(!km.is_pressed(Key::A));
    assert!(km.is_pressed(Key::Space));
    assert!(!km.is_pressed(Key::S));
    km.update_keys(&vec![release(Key::W)]);
    assert!(!km.is_pressed(Key::W));
    assert!(km.is_pressed(Key::Space));
}

#[test]
fn update_keys_mouse_and_close() {
    let mut km = KeyMap::new();
    let dx = 2.5f64.to_bits();
    let dy = (-1.0f64).to_bits();
    km.update_keys(&vec![
        InputEvent::Motion { axis: 0, value_bits: 1.0f64.to_bits() },
        InputEvent::Motion { axis: 0, value_bits: dx },
        InputEvent::Motion { axis: 1, value_bits: dy },
        InputEvent::Motion { axis: 2, value_bits: 9 },
        InputEvent::Resized(300, 200),
    ]);
    assert_eq!(km.mouse_delta_x_bits, dx);
    assert_eq!(km.mouse_delta_y_bits, dy);
    assert_eq!(km.window_dimensions, [100, 100]);
    assert!(!km.closed);
    km.update_keys(&vec![InputEvent::Closed, InputEvent::Other]);
    assert!(km.closed);
    assert_eq!(km.mouse_delta_x_bits, 0);
    km.update_keys(&vec![]);
    assert!(km.closed);
}

#[test]
fn unknown_key_changes_nothing() {
    let mut km = KeyMap::new();
    km.update_keys(&vec![press(Key::Other), InputEvent::KeyboardInput { state: ElementState::Pressed, virtual_keycode: None }]);
    assert!(!km.is_pressed(Key::Other));
    assert!(!km.is_pressed(Key::A));
}

#[test]
fn law_updates_compose_on_values() {
    let first = vec![press(Key::Q), press(Key::E), InputEvent::Closed];
    let second = vec![release(Key::Q), press(Key::R)];
    let mut in_two = KeyMap::new();
    in_two.update_keys(&first);
    in_two.update_keys(&second);
    let mut all = first.clone();
    all.extend(second.iter().copied());
    let mut in_one = KeyMap::new();
    in_one.update_keys(&all);
    for key in [Key::Q, Key::E, Key::R, Key::T] {
        assert_eq!(in_two.is_pressed(key), in_one.is_pressed(key));
    }
    assert_eq!(in_two.closed, in_one.closed);
    assert!(in_one.is_pressed(Key::E) && !in_one.is_pressed(Key::Q));
}

#[test]
fn set_key_and_reset_data() {
    let mut km = KeyMap::new();
    km.set_key(Key::F1, true);
    km.mouse_location = [3, 4];
    km.mouse_delta_y_bits = 77;
    km.reset_data();
    assert!(km.is_pressed(Key::F1));
    assert_eq!(km.mouse_location, [0, 0]);
    assert_eq!(km.mouse_delta_y_bits, 0);
}

#[test]
fn input_messages_come_out_in_order() {
    let mut input = Input::new(KeyMap::new());
    assert_eq!(input.get_state(), InputState::Running);
    input.input_sleep(Duration::from_millis(5));
    input.change_polling_speed(120);
    input.end();
    assert_eq!(input.get_state(), InputState::End);
    let msgs = input.take_messages();
    assert_eq!(msgs.len(), 3);
    assert!(matches!(msgs[0], InputThreadMessages::Sleep(d) if d == Duration::from_millis(5)));
    assert!(matches!(msgs[1], InputThreadMessages::ChangePollingSpeed(120)));
    assert!(matches!(msgs[2], InputThreadMessages::End));
    assert!(input.take_messages().is_empty());
}

#[test]
fn input_key_map_copy() {
    let mut km = KeyMap::new();
    km.set_key(Key::D, true);
    let mut input = Input::new(KeyMap::new());
    assert!(!input.get_key_map_copy().is_pressed(Key::D));
    input.set_key_map(km);
    assert!(input.get_key_map_copy().is_pressed(Key::D));
    assert!(input.get_key_map().is_pressed(Key::D));
}

#[test]
fn input_loop_decisions() {
    let mut l = InputLoop::new(200);
    assert!(matches!(l.on_receive(Received::Empty), LoopAction::Poll));
    assert!(matches!(l.on_receive(Received::Message(InputThreadMessages::ChangePollingSpeed(30))), LoopAction::Poll));
    assert_eq!(l.polling_speed, 30);
    let action = l.on_receive(Received::Message(InputThreadMessages::Sleep(Duration::from_secs(1))));
    assert!(matches!(action, LoopAction::SleepThenPoll(d) if d == Duration::from_secs(1)));
    assert!(matches!(l.on_receive(Received::Message(InputThreadMessages::End)), LoopAction::Stop));
    assert!(matches!(l.on_receive(Received::Disconnected), LoopAction::Stop));
    assert_eq!(l.polling_speed, 30);
}
