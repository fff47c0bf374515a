use remote_desktop::client_input::{mouse_button_number, normalize_position, sdl2_scancode_to_evdev, InputHandler, MouseButtonKind, SdlEvent};
use remote_desktop::portal::{
    keymap_size, keymap_with_nul, linux_pointer_button, scroll_axes, scroll_steps, seat_version,
    timestamp_from_millis, xkb_keycode, InputBackend, InputCommand, InputHandler as PortalInputHandler, KeyEvent as PortalKeyEvent,
    KeyState as PortalKeyState, BTN_EXTRA, BTN_LEFT, BTN_MIDDLE, BTN_RIGHT, BTN_SIDE,
};
use remote_desktop::error::PortalError;
use remote_desktop::protocol::{ButtonState, ClientMessage, KeyState, PointerEventType};
use remote_desktop::scancodes;

#[test]
fn test_key_event_conversion() {
    let event = SdlEvent::KeyEvent { scancode: scancodes::A, pressed: true, modifiers: 0 };
    let msg = InputHandler::process_event(&event, 640, 480);
    assert!(msg.is_some());
    if let Some(ClientMessage::KeyEvent(key_event)) = msg {
        assert_eq!(key_event.key_code, 30);
        assert_eq!(key_event.state, KeyState::Pressed);
    } else {
        panic!("Expected KeyEvent");
    }
}

#[test]
fn test_key_event_return() {
    let event = SdlEvent::KeyEvent { scancode: scancodes::RETURN, pressed: true, modifiers: 0 };
    let msg = InputHandler::process_event(&event, 640, 480);
    assert!(msg.is_some());
    if let Some(ClientMessage::KeyEvent(key_event)) = msg {
        assert_eq!(key_event.key_code, 28);
        assert_eq!(key_event.state, KeyState::Pressed);
    } else {
        panic!("Expected KeyEvent");
    }
}

#[test]
fn test_key_event_unknown_scancode() {
    let event = SdlEvent::KeyEvent { scancode: 999, pressed: true, modifiers: 0 };
    let msg = InputHandler::process_event(&event, 640, 480);
    assert!(msg.is_none());
}

#[test]
fn test_scancode_to_evdev_letters() {
    assert_eq!(sdl2_scancode_to_evdev(4), Some(30));
    assert_eq!(sdl2_scancode_to_evdev(29), Some(44));
    assert_eq!(sdl2_scancode_to_evdev(20), Some(16));
}

#[test]
fn test_scancode_to_evdev_modifiers() {
    assert_eq!(sdl2_scancode_to_evdev(225), Some(42));
    assert_eq!(sdl2_scancode_to_evdev(224), Some(29));
    assert_eq!(sdl2_scancode_to_evdev(226), Some(56));
}

#[test]
fn test_mouse_motion_conversion() {
    let event = SdlEvent::MouseMotion { x: 100, y: 200, xrel: 10, yrel: 20 };
    let msg = InputHandler::process_event(&event, 640, 480);
    assert!(msg.is_some());
    if let Some(ClientMessage::PointerEvent(ptr_event)) = msg {
        assert_eq!(ptr_event.event_type, PointerEventType::Motion);
        assert_eq!(ptr_event.x, Some(100));
        assert_eq!(ptr_event.y, Some(200));
    } else {
        panic!("Expected PointerEvent");
    }
}

#[test]
fn test_mouse_button_conversion() {
    let event = SdlEvent::MouseButton { button: 1, pressed: true, x: 50, y: 100 };
    let msg = InputHandler::process_event(&event, 640, 480);
    assert!(msg.is_some());
    if let Some(ClientMessage::PointerEvent(ptr_event)) = msg {
        assert_eq!(ptr_event.event_type, PointerEventType::Button);
        assert_eq!(ptr_event.button, Some(1));
        assert_eq!(ptr_event.button_state, Some(ButtonState::Pressed));
    } else {
        panic!("Expected PointerEvent");
    }
}

#[test]
fn test_stub() {
    let mut handler = PortalInputHandler::stub();
    let event = PortalKeyEvent { keycode: 28, state: PortalKeyState::Pressed };
    assert!(handler.send_key(&event).is_ok());
}

#[test]
fn key_release_and_unforwarded_keys() {
    let up = SdlEvent::KeyEvent { scancode: scancodes::Z, pressed: false, modifiers: 0 };
    match InputHandler::process_event(&up, 640, 480) {
        Some(ClientMessage::KeyEvent(k)) => {
            assert_eq!(k.key_code, 44);
            assert_eq!(k.state, KeyState::Released);
        }
        _ => panic!("Expected KeyEvent"),
    }
    assert_eq!(sdl2_scancode_to_evdev(0), None);
    assert_eq!(sdl2_scancode_to_evdev(scancodes::ESCAPE), Some(1));
    assert_eq!(sdl2_scancode_to_evdev(scancodes::F12), Some(88));
}

#[test]
fn pointer_positions_are_clamped_to_the_video() {
    assert_eq!(normalize_position(-5, 1000, 640, 480), (0, 479));
    assert_eq!(normalize_position(700, -1, 640, 480), (639, 0));
    assert_eq!(normalize_position(10, 20, 640, 480), (10, 20));
    let event = SdlEvent::MouseButton { button: 3, pressed: false, x: 5000, y: 5 };
    match InputHandler::process_event(&event, 640, 480) {
        Some(ClientMessage::PointerEvent(p)) => {
            assert_eq!(p.x, Some(639));
            assert_eq!(p.y, Some(5));
            assert_eq!(p.button_state, Some(ButtonState::Released));
        }
        _ => panic!("Expected PointerEvent"),
    }
}

#[test]
fn wheel_turns_into_scroll_units() {
    let event = SdlEvent::MouseWheel { dx: 0, dy: -2 };
    match InputHandler::process_event(&event, 640, 480) {
        Some(ClientMessage::PointerEvent(p)) => {
            assert_eq!(p.event_type, PointerEventType::Scroll);
            assert_eq!(p.scroll_delta, Some(-240));
        }
        _ => panic!("Expected PointerEvent"),
    }
}

#[test]
fn pointer_buttons_map_to_evdev_codes() {
    assert_eq!(linux_pointer_button(1).unwrap(), BTN_LEFT);
    assert_eq!(linux_pointer_button(2).unwrap(), BTN_MIDDLE);
    assert_eq!(linux_pointer_button(3).unwrap(), BTN_RIGHT);
    assert_eq!(linux_pointer_button(4).unwrap(), BTN_SIDE);
    assert_eq!(linux_pointer_button(5).unwrap(), BTN_EXTRA);
    match linux_pointer_button(9) {
        Err(PortalError::Portal(m)) => assert_eq!(m, "Unsupported pointer button: 9"),
        _ => panic!("Expected an unsupported button"),
    }
}

#[test]
fn scroll_steps_round_toward_zero_but_move() {
    assert_eq!(scroll_steps(240), 2);
    assert_eq!(scroll_steps(-360), -3);
    assert_eq!(scroll_steps(30), 1);
    assert_eq!(scroll_steps(-1), -1);
    assert_eq!(scroll_steps(0), 0);
    assert_eq!(scroll_axes(0, -120), (None, Some(-1)));
    assert_eq!(scroll_axes(250, 0), (Some(2), None));
    assert_eq!(scroll_axes(0, 0), (None, None));
}

#[test]
fn keymap_and_protocol_limits() {
    assert_eq!(xkb_keycode(28), 36);
    assert_eq!(xkb_keycode(u32::MAX - 3), u32::MAX);
    assert_eq!(timestamp_from_millis(1234), 1234);
    assert_eq!(timestamp_from_millis(u128::from(u32::MAX) + 10), u32::MAX);
    assert_eq!(keymap_with_nul(vec![1, 2]), vec![1, 2, 0]);
    assert_eq!(keymap_with_nul(vec![1, 0]), vec![1, 0]);
    assert_eq!(keymap_with_nul(Vec::new()), vec![0]);
    assert_eq!(keymap_size(4096), 4096);
    assert_eq!(seat_version(9), 7);
    assert_eq!(seat_version(5), 5);
}

#[test]
fn input_goes_to_the_device_thread() {
    let (tx, rx) = std::sync::mpsc::channel::<InputCommand>();
    let mut handler = PortalInputHandler::from_parts(InputBackend::Stub, Some(tx));
    handler.send_key(&PortalKeyEvent { keycode: 30, state: PortalKeyState::Released }).unwrap();
    match rx.recv().unwrap() {
        InputCommand::Key(k) => {
            assert_eq!(k.keycode, 30);
            assert_eq!(k.state, PortalKeyState::Released);
        }
        _ => panic!("Expected a key command"),
    }
    handler.send_pointer(InputCommand::Scroll { delta_x: 0, delta_y: 120 }).unwrap();
    assert!(matches!(rx.recv().unwrap(), InputCommand::Scroll { delta_x: 0, delta_y: 120 }));
    drop(rx);
    match handler.send_key(&PortalKeyEvent { keycode: 1, state: PortalKeyState::Pressed }) {
        Err(PortalError::Portal(m)) => assert_eq!(m, "Headless input thread is no longer available"),
        _ => panic!("Expected the thread to be gone"),
    }
    assert!(matches!(handler.backend(), InputBackend::Stub));
}

#[test]
fn mouse_buttons_are_numbered() {
    assert_eq!(mouse_button_number(MouseButtonKind::Left), 1);
    assert_eq!(mouse_button_number(MouseButtonKind::Middle), 2);
    assert_eq!(mouse_button_number(MouseButtonKind::Right), 3);
    assert_eq!(mouse_button_number(MouseButtonKind::X1), 4);
    assert_eq!(mouse_button_number(MouseButtonKind::X2), 5);
    assert_eq!(mouse_button_number(MouseButtonKind::Unknown), 0);
}
