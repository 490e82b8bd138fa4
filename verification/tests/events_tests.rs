use project_aurora::events::{
    translate_sdl_mouse_button, Event, FrameInput, Keycode, LoopAction, MouseButton,
    PointerButton, UiEvent, INITIAL_WINDOW_HEIGHT, INITIAL_WINDOW_WIDTH,
};

#[test]
fn window_opens_at_720p() {
    assert_eq!(INITIAL_WINDOW_WIDTH, 1280);
    assert_eq!(INITIAL_WINDOW_HEIGHT, 720);
}

#[test]
fn left_right_and_middle_buttons_translate() {
    assert_eq!(translate_sdl_mouse_button(&MouseButton::Left), Some(PointerButton::Primary));
    assert_eq!(translate_sdl_mouse_button(&MouseButton::Right), Some(PointerButton::Secondary));
    assert_eq!(translate_sdl_mouse_button(&MouseButton::Middle), Some(PointerButton::Middle));
}

#[test]
fn extra_and_unknown_buttons_do_not_translate() {
    assert_eq!(translate_sdl_mouse_button(&MouseButton::X1), None);
    assert_eq!(translate_sdl_mouse_button(&MouseButton::X2), None);
    assert_eq!(translate_sdl_mouse_button(&MouseButton::Unknown), None);
}

#[test]
fn new_frame_input_is_empty() {
    let input = FrameInput::new(1280, 720);
    assert!(input.events.is_empty());
    assert_eq!((input.screen_width, input.screen_height), (1280, 720));
}

#[test]
fn new_frame_input_takes_the_largest_window() {
    let input = FrameInput::new(u32::MAX, u32::MAX);
    assert_eq!(input.screen_width, 4294967295);
    assert_eq!(input.screen_height, 4294967295);
}

#[test]
fn quit_event_leaves_the_loop() {
    let mut input = FrameInput::new(1280, 720);
    assert_eq!(input.handle_event(&Event::Quit), LoopAction::Quit);
    assert!(input.events.is_empty());
}

#[test]
fn escape_key_leaves_the_loop() {
    let mut input = FrameInput::new(1280, 720);
    let event = Event::KeyDown { keycode: Some(Keycode::Escape) };
    assert_eq!(input.handle_event(&event), LoopAction::Quit);
    assert!(input.events.is_empty());
}

#[test]
fn other_keys_are_ignored() {
    let mut input = FrameInput::new(1280, 720);
    let other = Event::KeyDown { keycode: Some(Keycode::Other) };
    let uncoded = Event::KeyDown { keycode: None };
    assert_eq!(input.handle_event(&other), LoopAction::Continue);
    assert_eq!(input.handle_event(&uncoded), LoopAction::Continue);
    assert!(input.events.is_empty());
}

#[test]
fn unhandled_events_are_ignored() {
    let mut input = FrameInput::new(1280, 720);
    assert_eq!(input.handle_event(&Event::Other), LoopAction::Continue);
    assert!(input.events.is_empty());
}

#[test]
fn mouse_motion_moves_the_pointer() {
    let mut input = FrameInput::new(1280, 720);
    let action = input.handle_event(&Event::MouseMotion { x: 12, y: -3 });
    assert_eq!(action, LoopAction::Continue);
    assert_eq!(input.events, vec![UiEvent::PointerMoved { x: 12, y: -3 }]);
}

#[test]
fn button_down_presses_the_pointer_button() {
    let mut input = FrameInput::new(1280, 720);
    let event = Event::MouseButtonDown { mouse_btn: MouseButton::Left, x: 100, y: 200 };
    assert_eq!(input.handle_event(&event), LoopAction::Continue);
    assert_eq!(
        input.events,
        vec![UiEvent::PointerButton {
            x: 100,
            y: 200,
            button: PointerButton::Primary,
            pressed: true
        }]
    );
}

#[test]
fn button_up_releases_the_pointer_button() {
    let mut input = FrameInput::new(1280, 720);
    let event = Event::MouseButtonUp { mouse_btn: MouseButton::Right, x: 7, y: 8 };
    assert_eq!(input.handle_event(&event), LoopAction::Continue);
    assert_eq!(
        input.events,
        vec![UiEvent::PointerButton {
            x: 7,
            y: 8,
            button: PointerButton::Secondary,
            pressed: false
        }]
    );
}

#[test]
fn untranslated_buttons_add_nothing() {
    let mut input = FrameInput::new(1280, 720);
    let down = Event::MouseButtonDown { mouse_btn: MouseButton::X1, x: 1, y: 2 };
    let up = Event::MouseButtonUp { mouse_btn: MouseButton::Unknown, x: 1, y: 2 };
    assert_eq!(input.handle_event(&down), LoopAction::Continue);
    assert_eq!(input.handle_event(&up), LoopAction::Continue);
    assert!(input.events.is_empty());
}

#[test]
fn resize_is_passed_on_with_its_size() {
    let mut input = FrameInput::new(1280, 720);
    let action = input.handle_event(&Event::WindowResized { width: 800, height: 600 });
    assert_eq!(action, LoopAction::Resize { width: 800, height: 600 });
    assert!(input.events.is_empty());
    assert_eq!((input.screen_width, input.screen_height), (800, 600));
}

#[test]
fn only_a_resize_changes_the_screen_size() {
    let mut input = FrameInput::new(1280, 720);
    let events = [
        Event::Quit,
        Event::KeyDown { keycode: Some(Keycode::Escape) },
        Event::KeyDown { keycode: None },
        Event::MouseMotion { x: 1, y: 2 },
        Event::MouseButtonDown { mouse_btn: MouseButton::Left, x: 1, y: 2 },
        Event::MouseButtonUp { mouse_btn: MouseButton::Left, x: 1, y: 2 },
        Event::Other,
    ];
    for event in events.iter() {
        input.handle_event(event);
        assert_eq!((input.screen_width, input.screen_height), (1280, 720));
    }
}

#[test]
fn the_last_resize_of_a_frame_stands() {
    let mut input = FrameInput::new(1280, 720);
    input.handle_event(&Event::WindowResized { width: 800, height: 600 });
    input.handle_event(&Event::MouseMotion { x: 1, y: 2 });
    input.handle_event(&Event::WindowResized { width: 1024, height: 768 });
    assert_eq!((input.screen_width, input.screen_height), (1024, 768));
}

#[test]
fn a_resize_is_taken_as_the_window_system_gives_it() {
    let mut input = FrameInput::new(1280, 720);
    let action = input.handle_event(&Event::WindowResized { width: -1, height: 0 });
    assert_eq!(action, LoopAction::Resize { width: -1, height: 0 });
    assert_eq!((input.screen_width, input.screen_height), (-1, 0));
}

#[test]
fn events_accumulate_in_arrival_order() {
    let mut input = FrameInput::new(1280, 720);
    let events = [
        Event::MouseMotion { x: 1, y: 1 },
        Event::Other,
        Event::MouseButtonDown { mouse_btn: MouseButton::Middle, x: 1, y: 1 },
        Event::WindowResized { width: 640, height: 480 },
        Event::MouseButtonUp { mouse_btn: MouseButton::Middle, x: 2, y: 3 },
        Event::MouseButtonDown { mouse_btn: MouseButton::X2, x: 2, y: 3 },
        Event::MouseMotion { x: 5, y: 6 },
    ];
    let mut actions = Vec::new();
    for event in events.iter() {
        actions.push(input.handle_event(event));
    }
    assert_eq!(
        actions,
        vec![
            LoopAction::Continue,
            LoopAction::Continue,
            LoopAction::Continue,
            LoopAction::Resize { width: 640, height: 480 },
            LoopAction::Continue,
            LoopAction::Continue,
            LoopAction::Continue,
        ]
    );
    assert_eq!(
        input.events,
        vec![
            UiEvent::PointerMoved { x: 1, y: 1 },
            UiEvent::PointerButton { x: 1, y: 1, button: PointerButton::Middle, pressed: true },
            UiEvent::PointerButton { x: 2, y: 3, button: PointerButton::Middle, pressed: false },
            UiEvent::PointerMoved { x: 5, y: 6 },
        ]
    );
}

#[test]
fn quit_keeps_what_the_frame_has_gathered() {
    let mut input = FrameInput::new(1280, 720);
    input.handle_event(&Event::MouseMotion { x: 9, y: 9 });
    assert_eq!(input.handle_event(&Event::Quit), LoopAction::Quit);
    assert_eq!(input.events, vec![UiEvent::PointerMoved { x: 9, y: 9 }]);
}
