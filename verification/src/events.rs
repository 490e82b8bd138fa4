//! Decisions of the window event loop.
//!
//! The loop itself polls the window system and draws; what it decides for
//! each event is a function of the event alone and lives here. Events arrive
//! as plain values: pixel positions are the window system's integers.

use vstd::prelude::*;

verus! {

/// Width of the window when it opens, in pixels.
pub const INITIAL_WINDOW_WIDTH: u32 = 1280;

/// Height of the window when it opens, in pixels.
pub const INITIAL_WINDOW_HEIGHT: u32 = 720;

/// A mouse button as the window system reports it.
#[derive(Clone, Copy, Debug, PartialEq, Eq, Structural)]
pub enum MouseButton {
    Unknown,
    Left,
    Middle,
    Right,
    X1,
    X2,
}

/// A pointer button as the user interface understands it.
#[derive(Clone, Copy, Debug, PartialEq, Eq, Structural)]
pub enum PointerButton {
    Primary,
    Secondary,
    Middle,
}

/// The keys the loop tells apart.
#[derive(Clone, Copy, Debug, PartialEq, Eq, Structural)]
pub enum Keycode {
    Escape,
    Other,
}

/// A window-system event, reduced to what the loop reads of it.
#[derive(Clone, Copy, Debug, PartialEq, Eq, Structural)]
pub enum Event {
    /// The user asked to close the application.
    Quit,
    /// A key went down; `keycode` is `None` where the key has no code.
    KeyDown { keycode: Option<Keycode> },
    /// The pointer moved to `(x, y)`.
    MouseMotion { x: i32, y: i32 },
    /// A mouse button went down at `(x, y)`.
    MouseButtonDown { mouse_btn: MouseButton, x: i32, y: i32 },
    /// A mouse button came up at `(x, y)`.
    MouseButtonUp { mouse_btn: MouseButton, x: i32, y: i32 },
    /// The window was resized to `width` by `height` pixels.
    WindowResized { width: i32, height: i32 },
    /// Any other event.
    Other,
}

/// An input event for the user interface.
#[derive(Clone, Copy, Debug, PartialEq, Eq, Structural)]
pub enum UiEvent {
    /// The pointer moved to `(x, y)`.
    PointerMoved { x: i32, y: i32 },
    /// A pointer button was pressed or released at `(x, y)`.
    PointerButton { x: i32, y: i32, button: PointerButton, pressed: bool },
}

/// What the loop does after an event, besides feeding the user interface.
#[derive(Clone, Copy, Debug, PartialEq, Eq, Structural)]
pub enum LoopAction {
    /// Go on with the next event.
    Continue,
    /// Leave the loop at once.
    Quit,
    /// Tell the visualizer and the viewport the new size, then go on.
    Resize { width: i32, height: i32 },
}

/// The pointer button that stands for a mouse button, if any.
pub open spec fn pointer_button_of(button: MouseButton) -> Option<PointerButton> {
    match button {
        MouseButton::Left => Some(PointerButton::Primary),
        MouseButton::Right => Some(PointerButton::Secondary),
        MouseButton::Middle => Some(PointerButton::Middle),
        _ => None,
    }
}

/// The user-interface event that a window-system event gives rise to, if any.
pub open spec fn ui_event_of(event: Event) -> Option<UiEvent> {
    match event {
        Event::MouseMotion { x, y } => Some(UiEvent::PointerMoved { x, y }),
        Event::MouseButtonDown { mouse_btn, x, y } => match pointer_button_of(mouse_btn) {
            Some(button) => Some(UiEvent::PointerButton { x, y, button, pressed: true }),
            None => None,
        },
        Event::MouseButtonUp { mouse_btn, x, y } => match pointer_button_of(mouse_btn) {
            Some(button) => Some(UiEvent::PointerButton { x, y, button, pressed: false }),
            None => None,
        },
        _ => None,
    }
}

/// Whether an event ends the application: a quit request or the Escape key.
pub open spec fn is_quit(event: Event) -> bool {
    event is Quit || event == (Event::KeyDown { keycode: Some(Keycode::Escape) })
}

/// What the loop does after `event`.
pub open spec fn loop_action_of(event: Event) -> LoopAction {
    if is_quit(event) {
        LoopAction::Quit
    } else if let Event::WindowResized { width, height } = event {
        LoopAction::Resize { width, height }
    } else {
        LoopAction::Continue
    }
}

/// The events that `event` adds to the frame's input: one or none.
pub open spec fn ui_events_of(event: Event) -> Seq<UiEvent> {
    match ui_event_of(event) {
        Some(ui) => seq![ui],
        None => Seq::empty(),
    }
}

/// The size of the screen in pixels after `event`, where it was `size`
/// before: a resize replaces it, nothing else touches it.
pub open spec fn screen_size_after(size: (int, int), event: Event) -> (int, int) {
    match event {
        Event::WindowResized { width, height } => (width as int, height as int),
        _ => size,
    }
}

/// An event that feeds the user interface never also ends the loop or
/// resizes the window, no event feeds the user interface twice, and the
/// screen changes size exactly with the events that make the loop resize.
pub proof fn lemma_one_effect_per_event(event: Event, size: (int, int))
    ensures
        ui_event_of(event) is Some ==> loop_action_of(event) == LoopAction::Continue,
        ui_events_of(event).len() <= 1,
        match loop_action_of(event) {
            LoopAction::Resize { width, height } => screen_size_after(size, event) == (
                width as int,
                height as int,
            ),
            _ => screen_size_after(size, event) == size,
        },
{
}

/// Maps a mouse button of the window system to the user interface's pointer
/// button. The extra buttons and unknown ones have no counterpart.
pub fn translate_sdl_mouse_button(button: &MouseButton) -> (translated: Option<PointerButton>)
    ensures
        translated == pointer_button_of(*button),
{
    match button {
        MouseButton::Left => Some(PointerButton::Primary),
        MouseButton::Right => Some(PointerButton::Secondary),
        MouseButton::Middle => Some(PointerButton::Middle),
        _ => None,
    }
}

/// The user-interface input gathered during one frame.
#[derive(Debug, PartialEq, Eq)]
pub struct FrameInput {
    /// Width of the screen in pixels.
    pub screen_width: i64,
    /// Height of the screen in pixels.
    pub screen_height: i64,
    /// The events so far, in the order in which they arrived.
    pub events: Vec<UiEvent>,
}

impl FrameInput {
    /// The screen size as a pair.
    pub open spec fn screen_size(self) -> (int, int) {
        (self.screen_width as int, self.screen_height as int)
    }

    /// The input of a frame in which nothing has happened yet, on a window of
    /// `width` by `height` pixels.
    pub fn new(width: u32, height: u32) -> (input: Self)
        ensures
            input.screen_size() == (width as int, height as int),
            input.events@ == Seq::<UiEvent>::empty(),
    {
        FrameInput { screen_width: width as i64, screen_height: height as i64, events: Vec::new() }
    }

    /// Takes one window-system event: records the user-interface event it
    /// gives rise to, if any, follows a resize, and says what the loop does
    /// next.
    pub fn handle_event(&mut self, event: &Event) -> (action: LoopAction)
        ensures
            action == loop_action_of(*event),
            final(self).events@ == old(self).events@ + ui_events_of(*event),
            final(self).screen_size() == screen_size_after(old(self).screen_size(), *event),
    {
        match *event {
            Event::Quit => LoopAction::Quit,
            Event::KeyDown { keycode: Some(Keycode::Escape) } => LoopAction::Quit,
            Event::MouseMotion { x, y } => {
                self.events.push(UiEvent::PointerMoved { x, y });
                LoopAction::Continue
            },
            Event::MouseButtonDown { mouse_btn, x, y } => {
                if let Some(button) = translate_sdl_mouse_button(&mouse_btn) {
                    self.events.push(UiEvent::PointerButton { x, y, button, pressed: true });
                }
                LoopAction::Continue
            },
            Event::MouseButtonUp { mouse_btn, x, y } => {
                if let Some(button) = translate_sdl_mouse_button(&mouse_btn) {
                    self.events.push(UiEvent::PointerButton { x, y, button, pressed: false });
                }
                LoopAction::Continue
            },
            Event::WindowResized { width, height } => {
                self.screen_width = width as i64;
                self.screen_height = height as i64;
                LoopAction::Resize { width, height }
            },
            _ => LoopAction::Continue,
        }
    }
}

} // verus!
