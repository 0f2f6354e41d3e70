use rrte_engine::math::{Scalar, Vec2};
use rrte_engine::runtime::{Input, KeyModifiers, KeyState, MouseButton, SystemEvent};

fn s(x: f32) -> Scalar {
    Scalar::from_bits(x.to_bits())
}

fn at(x: f32, y: f32) -> Vec2 {
    Vec2::new(s(x), s(y))
}

fn mods(shift: bool, ctrl: bool, alt: bool) -> KeyModifiers {
    KeyModifiers { shift, ctrl, alt, logo: false }
}

fn press(input: &mut Input, key: &str) {
    input.handle_event(&SystemEvent::key_press(key.to_string(), KeyModifiers::default()));
}

fn release(input: &mut Input, key: &str) {
    input.handle_event(&SystemEvent::key_release(key.to_string(), KeyModifiers::default()));
}

#[test]
fn nothing_is_pressed_at_first() {
    let input = Input::new();
    assert!(!input.is_key_pressed("a"));
    assert!(!input.is_key_just_pressed("a"));
    assert!(!input.is_key_just_released("a"));
    assert!(!input.is_left_mouse_pressed());
    assert!(!input.is_shift_held() && !input.is_ctrl_held() && !input.is_alt_held());
    assert_eq!(input.mouse_position(), at(0.0, 0.0));
    assert_eq!(input.mouse_delta(), at(0.0, 0.0));
    assert_eq!(*input.key_modifiers(), KeyModifiers::default());
}

#[test]
fn a_key_is_just_pressed_for_one_frame() {
    let mut input = Input::new();
    press(&mut input, "space");
    assert!(input.is_key_pressed("space"));
    assert!(input.is_key_just_pressed("space"));
    assert!(!input.is_key_pressed("enter"));
    input.update();
    assert!(input.is_key_pressed("space"));
    assert!(!input.is_key_just_pressed("space"));
    input.update();
    assert!(input.is_key_pressed("space"));
}

#[test]
fn a_key_is_just_released_for_one_frame() {
    let mut input = Input::new();
    press(&mut input, "w");
    input.update();
    release(&mut input, "w");
    assert!(!input.is_key_pressed("w"));
    assert!(input.is_key_just_released("w"));
    input.update();
    assert!(!input.is_key_just_released("w"));
    assert!(!input.is_key_pressed("w"));
}

#[test]
fn pressed_and_released_in_one_frame_ends_released() {
    let mut input = Input::default();
    press(&mut input, "x");
    press(&mut input, "y");
    release(&mut input, "x");
    assert!(input.is_key_just_released("x"));
    assert!(input.is_key_just_pressed("y"));
    input.update();
    assert!(!input.is_key_pressed("x"));
    assert!(!input.is_key_just_released("x"));
    assert!(input.is_key_pressed("y"));
    assert!(!input.is_key_just_pressed("y"));
}

#[test]
fn modifiers_follow_the_last_key_event() {
    let mut input = Input::new();
    input.handle_event(&SystemEvent::key_press("a".to_string(), mods(true, false, true)));
    assert!(input.is_shift_held() && !input.is_ctrl_held() && input.is_alt_held());
    input.handle_event(&SystemEvent::key_release("a".to_string(), mods(false, true, false)));
    assert!(!input.is_shift_held() && input.is_ctrl_held() && !input.is_alt_held());
    input.update();
    assert!(input.is_ctrl_held());
}

#[test]
fn mouse_buttons() {
    let mut input = Input::new();
    input.handle_event(&SystemEvent::mouse_press(MouseButton::Left, s(10.0), s(20.0)));
    input.handle_event(&SystemEvent::mouse_press(MouseButton::Other(7), s(11.0), s(21.0)));
    assert!(input.is_left_mouse_pressed());
    assert!(!input.is_right_mouse_pressed() && !input.is_middle_mouse_pressed());
    assert!(input.is_mouse_button_just_pressed(&MouseButton::Left));
    assert!(input.is_mouse_button_pressed(&MouseButton::Other(7)));
    assert!(!input.is_mouse_button_pressed(&MouseButton::Other(8)));
    assert_eq!(input.mouse_position(), at(11.0, 21.0));
    input.update();
    assert!(input.is_left_mouse_pressed());
    assert!(!input.is_mouse_button_just_pressed(&MouseButton::Left));
    input.handle_event(&SystemEvent::mouse_release(MouseButton::Left, s(12.0), s(22.0)));
    assert!(!input.is_left_mouse_pressed());
    assert!(input.is_mouse_button_just_released(&MouseButton::Left));
    assert!(input.is_mouse_button_pressed(&MouseButton::Other(7)));
    input.update();
    assert!(!input.is_mouse_button_just_released(&MouseButton::Left));
    input.handle_event(&SystemEvent::mouse_press(MouseButton::Right, s(0.0), s(0.0)));
    input.handle_event(&SystemEvent::mouse_press(MouseButton::Middle, s(0.0), s(0.0)));
    assert!(input.is_right_mouse_pressed() && input.is_middle_mouse_pressed());
}

#[test]
fn mouse_movement_and_wheel() {
    let mut input = Input::new();
    input.handle_event(&SystemEvent::mouse_move(s(5.0), s(6.0), s(5.0), s(6.0)));
    input.handle_event(&SystemEvent::mouse_move(s(8.0), s(4.0), s(3.0), s(-2.0)));
    assert_eq!(input.mouse_position(), at(8.0, 4.0));
    assert_eq!(input.last_mouse_position(), at(5.0, 6.0));
    assert_eq!(input.mouse_delta(), at(3.0, -2.0));
    input.handle_event(&SystemEvent::MouseWheelScrolled { delta_x: s(0.0), delta_y: s(1.5) });
    assert_eq!(input.mouse_wheel_delta(), at(0.0, 1.5));
    input.update();
    assert_eq!(input.mouse_wheel_delta(), at(0.0, 0.0));
    assert_eq!(input.mouse_delta(), at(3.0, -2.0));
    assert_eq!(input.mouse_position(), at(8.0, 4.0));
}

#[test]
fn other_events_change_nothing() {
    let mut input = Input::new();
    press(&mut input, "a");
    input.handle_event(&SystemEvent::window_resize(10, 10));
    input.handle_event(&SystemEvent::WindowClosed);
    input.handle_event(&SystemEvent::custom("n".to_string(), "d".to_string()));
    assert!(input.is_key_just_pressed("a"));
    assert_eq!(input.mouse_position(), at(0.0, 0.0));
}

#[test]
fn reset_forgets_everything() {
    let mut input = Input::new();
    input.handle_event(&SystemEvent::key_press("a".to_string(), mods(true, true, true)));
    input.handle_event(&SystemEvent::mouse_press(MouseButton::Left, s(1.0), s(2.0)));
    input.handle_event(&SystemEvent::mouse_move(s(8.0), s(4.0), s(3.0), s(-2.0)));
    input.reset();
    assert!(!input.is_key_pressed("a"));
    assert!(!input.is_left_mouse_pressed());
    assert!(!input.is_shift_held());
    assert_eq!(input.mouse_position(), at(0.0, 0.0));
    assert_eq!(input.last_mouse_position(), at(0.0, 0.0));
    assert_eq!(input.mouse_delta(), at(0.0, 0.0));
    input.update();
    assert!(!input.is_key_pressed("a"));
}

#[test]
fn key_states_and_button_codes() {
    assert!(KeyState::Pressed.is_down() && KeyState::JustPressed.is_down());
    assert!(!KeyState::Released.is_down() && !KeyState::JustReleased.is_down());
    assert_eq!(MouseButton::Left.to_code(), 0);
    assert_eq!(MouseButton::Right.to_code(), 1);
    assert_eq!(MouseButton::Middle.to_code(), 2);
    assert_eq!(MouseButton::Other(0).to_code(), 3);
    assert_eq!(MouseButton::Other(u16::MAX).to_code(), 65538);
}
