//! Input events and what each of them does to the store.
//!
//! The host turns what its windowing layer delivers into an [`InputEvent`],
//! hands it to [`process_event`], and passes on to its widget toolkit what the
//! answer names.

use vstd::prelude::*;
use crate::app_state::{AppState, AppStateView};
use crate::navigation::{handle_version_navigation, navigated};

verus! {

/// The buttons of the controller that the updater tells apart.
#[derive(Debug, Clone, Copy, PartialEq, Eq, Structural)]
pub enum Button {
    DPadUp,
    DPadDown,
    DPadLeft,
    DPadRight,
    A,
    B,
    Y,
    /// Any other button.
    Other,
}

/// The keys that the updater tells apart.
#[derive(Debug, Clone, Copy, PartialEq, Eq, Structural)]
pub enum Key {
    Up,
    Down,
    Left,
    Right,
    Return,
    Escape,
    X,
    /// Any other key.
    Other,
}

/// What the windowing layer delivers.
#[derive(Debug, Clone, Copy, PartialEq, Eq, Structural)]
pub enum InputEvent {
    /// The window is to close.
    Quit,
    ControllerButtonDown(Button),
    ControllerButtonUp(Button),
    /// A key went down; `None` where the layer names no key.
    KeyDown(Option<Key>),
    /// Anything else.
    Other,
}

/// What the host passes on to the widget toolkit after an event.
#[derive(Debug, Clone, Copy, PartialEq, Eq, Structural)]
pub enum Forward {
    Nothing,
    /// A press of the key that stands for the controller button.
    KeyDown(Key),
    /// A release of the key that stands for the controller button.
    KeyUp(Key),
    /// The event itself, unchanged.
    Event,
}

/// What the host does after an event.
#[derive(Debug, Clone, Copy, PartialEq, Eq, Structural)]
pub struct Reaction {
    pub forward: Forward,
    /// The selector was opened: the catalog is to be fetched.
    pub fetch_catalog: bool,
}

/// How the display loop waits for input after a frame.
#[derive(Debug, Clone, Copy, PartialEq, Eq, Structural)]
pub enum Poll {
    /// Take every event that has arrived, without waiting.
    Drain,
    /// Wait for one event, for at most so many milliseconds.
    Wait(u32),
}

/// The longest that the display loop waits for input, in milliseconds: short
/// enough that what the worker writes is shown promptly without any input.
pub const EVENT_WAIT_MS: u32 = 50;

/// The key that a controller button stands for, if any.
pub open spec fn key_of(button: Button) -> Option<Key> {
    match button {
        Button::DPadUp => Some(Key::Up),
        Button::DPadDown => Some(Key::Down),
        Button::DPadLeft => Some(Key::Left),
        Button::DPadRight => Some(Key::Right),
        Button::B => Some(Key::Return),
        Button::A => Some(Key::Escape),
        Button::Y => Some(Key::X),
        Button::Other => None,
    }
}

/// The store after the back action: an open selector closes; with the selector
/// closed the updater is asked to quit.
pub open spec fn after_back(s: AppStateView) -> AppStateView {
    if s.menu_open {
        s.with_menu(false)
    } else {
        s.with_quit(true)
    }
}

/// The store after the release of a controller button. `A` is the back action.
/// Then, in an open selector, left and right page through the catalog; with the
/// selector closed, `Y` opens it.
pub open spec fn after_button_up(s: AppStateView, button: Button) -> AppStateView {
    let t = if button == Button::A {
        after_back(s)
    } else {
        s
    };
    if t.menu_open {
        if button == Button::DPadLeft {
            navigated(t, -1)
        } else if button == Button::DPadRight {
            navigated(t, 1)
        } else {
            t
        }
    } else if button == Button::Y {
        t.with_menu(true)
    } else {
        t
    }
}

/// The store after a key press.
pub open spec fn after_key_down(s: AppStateView, key: Option<Key>) -> AppStateView {
    match key {
        Some(Key::Escape) => after_back(s),
        Some(Key::X) => s.with_menu(true),
        Some(Key::Left) => navigated(s, -1),
        Some(Key::Right) => navigated(s, 1),
        _ => s,
    }
}

/// The store after an event.
pub open spec fn after_input(s: AppStateView, event: InputEvent) -> AppStateView {
    match event {
        InputEvent::Quit => s.with_quit(true),
        InputEvent::ControllerButtonDown(_) => s,
        InputEvent::ControllerButtonUp(button) => after_button_up(s, button),
        InputEvent::KeyDown(key) => after_key_down(s, key),
        InputEvent::Other => s,
    }
}

/// What is passed on to the widget toolkit after an event. Controller buttons
/// reach it as the keys they stand for; key presses are consumed here.
pub open spec fn forward_of(event: InputEvent) -> Forward {
    match event {
        InputEvent::Quit => Forward::Nothing,
        InputEvent::ControllerButtonDown(button) => match key_of(button) {
            Some(key) => Forward::KeyDown(key),
            None => Forward::Nothing,
        },
        InputEvent::ControllerButtonUp(button) => match key_of(button) {
            Some(key) => Forward::KeyUp(key),
            None => Forward::Nothing,
        },
        InputEvent::KeyDown(_) => Forward::Nothing,
        InputEvent::Other => Forward::Event,
    }
}

/// Maps controller buttons to keyboard keys.
pub fn controller_to_key(button: Button) -> (r: Option<Key>)
    ensures
        r == key_of(button),
{
    match button {
        Button::DPadUp => Some(Key::Up),
        Button::DPadDown => Some(Key::Down),
        Button::DPadLeft => Some(Key::Left),
        Button::DPadRight => Some(Key::Right),
        Button::B => Some(Key::Return),
        Button::A => Some(Key::Escape),
        Button::Y => Some(Key::X),
        Button::Other => None,
    }
}

/// How to wait for input after a frame: not at all where the next frame is
/// due at once, for a bounded time otherwise, never without end.
pub fn poll_policy(repaint_now: bool) -> (r: Poll)
    ensures
        r == if repaint_now {
            Poll::Drain
        } else {
            Poll::Wait(EVENT_WAIT_MS)
        },
{
    if repaint_now {
        Poll::Drain
    } else {
        Poll::Wait(EVENT_WAIT_MS)
    }
}

/// The back action; see [`after_back`].
pub fn handle_back_button(app_state: &mut AppState)
    ensures
        final(app_state)@ == after_back(old(app_state)@),
{
    if app_state.release_selection_menu() {
        app_state.set_release_selection_menu(false);
    } else {
        app_state.set_should_quit(true);
    }
}

/// Applies an event to the store and says what the host is to do next.
pub fn process_event(app_state: &mut AppState, event: InputEvent) -> (r: Reaction)
    ensures
        final(app_state)@ == after_input(old(app_state)@, event),
        r.forward == forward_of(event),
        r.fetch_catalog == (!old(app_state)@.menu_open && final(app_state)@.menu_open),
        final(app_state)@.current_version == old(app_state)@.current_version,
{
    let was_open = app_state.release_selection_menu();
    let forward = match event {
        InputEvent::Quit => {
            app_state.set_should_quit(true);
            Forward::Nothing
        },
        InputEvent::ControllerButtonDown(button) => match controller_to_key(button) {
            Some(key) => Forward::KeyDown(key),
            None => Forward::Nothing,
        },
        InputEvent::ControllerButtonUp(button) => {
            if button == Button::A {
                handle_back_button(app_state);
            }
            if app_state.release_selection_menu() {
                if button == Button::DPadLeft {
                    handle_version_navigation(app_state, -1);
                } else if button == Button::DPadRight {
                    handle_version_navigation(app_state, 1);
                }
            } else if button == Button::Y {
                app_state.set_release_selection_menu(true);
            }
            match controller_to_key(button) {
                Some(key) => Forward::KeyUp(key),
                None => Forward::Nothing,
            }
        },
        InputEvent::KeyDown(key) => {
            match key {
                Some(Key::Escape) => handle_back_button(app_state),
                Some(Key::X) => app_state.set_release_selection_menu(true),
                Some(Key::Left) => handle_version_navigation(app_state, -1),
                Some(Key::Right) => handle_version_navigation(app_state, 1),
                _ => {},
            }
            Forward::Nothing
        },
        InputEvent::Other => Forward::Event,
    };
    Reaction { forward, fetch_catalog: !was_open && app_state.release_selection_menu() }
}

/// The quit flag is one-way: no event clears it. While an operation is in
/// flight no event sets it either, so that the loop does not end under a
/// worker that is writing to storage.
pub proof fn lemma_quit_is_one_way(s: AppStateView, event: InputEvent)
    requires
        s.wf(),
    ensures
        s.should_quit ==> after_input(s, event).should_quit,
        s.busy() && !s.should_quit ==> !after_input(s, event).should_quit,
        after_input(s, event).wf(),
        after_input(s, event).current_version == s.current_version,
        after_input(s, event).current_operation == s.current_operation,
{
}

} // verus!
