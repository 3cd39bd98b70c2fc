//! The state machine of a pressable button.

use vstd::prelude::*;

use crate::mouse_event::{MouseButton, MouseEvent, MouseEventKind};

verus! {

/// The presentation state of a pressable control.
#[derive(Default, Debug, Clone, Copy, PartialEq, Eq, Structural)]
pub enum ButtonState {
    #[default]
    Idle,
    Hovered,
    Pressed,
    /// Pressed, but the cursor has moved outside.
    PressedOutside,
}

/// The state a button moves to from `old` on the notification `kind`.
///
/// A press makes the button `Pressed` only when it is hovered and the press started inside
/// (the listener was already hovered when the button went down); a press that was dragged in
/// from outside leaves it as it is.
pub open spec fn next_state(old: ButtonState, kind: MouseEventKind) -> ButtonState {
    match (old, kind) {
        (ButtonState::Idle, MouseEventKind::HoveringStart) => ButtonState::Hovered,
        (ButtonState::PressedOutside, MouseEventKind::HoveringStart) => ButtonState::Pressed,
        (ButtonState::Hovered, MouseEventKind::HoveringFinish) => ButtonState::Idle,
        (ButtonState::Pressed, MouseEventKind::HoveringFinish) => ButtonState::PressedOutside,
        (
            ButtonState::Hovered,
            MouseEventKind::ButtonDown { button: MouseButton::Left, started_inside: true },
        ) => ButtonState::Pressed,
        (
            ButtonState::Pressed,
            MouseEventKind::ButtonUp { button: MouseButton::Left, inside: true },
        ) => ButtonState::Hovered,
        (
            ButtonState::Pressed,
            MouseEventKind::ButtonUp { button: MouseButton::Left, inside: false },
        ) => ButtonState::Idle,
        (
            ButtonState::PressedOutside,
            MouseEventKind::ButtonUp { button: MouseButton::Left, inside: false },
        ) => ButtonState::Idle,
        _ => old,
    }
}

/// Computes `next_state`.
pub fn transition(old: ButtonState, kind: MouseEventKind) -> (r: ButtonState)
    ensures
        r == next_state(old, kind),
{
    match (old, kind) {
        (ButtonState::Idle, MouseEventKind::HoveringStart) => ButtonState::Hovered,
        (ButtonState::PressedOutside, MouseEventKind::HoveringStart) => ButtonState::Pressed,
        (ButtonState::Hovered, MouseEventKind::HoveringFinish) => ButtonState::Idle,
        (ButtonState::Pressed, MouseEventKind::HoveringFinish) => ButtonState::PressedOutside,
        (
            ButtonState::Hovered,
            MouseEventKind::ButtonDown { button: MouseButton::Left, started_inside: true },
        ) => ButtonState::Pressed,
        (
            ButtonState::Pressed,
            MouseEventKind::ButtonUp { button: MouseButton::Left, inside: true },
        ) => ButtonState::Hovered,
        (
            ButtonState::Pressed,
            MouseEventKind::ButtonUp { button: MouseButton::Left, inside: false },
        ) => ButtonState::Idle,
        (
            ButtonState::PressedOutside,
            MouseEventKind::ButtonUp { button: MouseButton::Left, inside: false },
        ) => ButtonState::Idle,
        _ => old,
    }
}

/// What a button reports to its callback for one notification.
#[derive(Debug, Clone, Copy)]
pub struct ButtonEvent<P> {
    pub kind: MouseEventKind,
    pub position: P,
    pub previous_state: ButtonState,
    pub current_state: ButtonState,
}

/// Is this notification, seen in state `previous`, a click? Only a left release inside the
/// bounds of a button that was `Pressed` counts, so a press that started elsewhere and was
/// dragged in does not.
pub open spec fn is_trigger(kind: MouseEventKind, previous: ButtonState) -> bool {
    kind == (MouseEventKind::ButtonUp { button: MouseButton::Left, inside: true }) && previous
        == ButtonState::Pressed
}

impl<P> ButtonEvent<P> {
    /// Returns true if the event is a release of the left button inside the bounds, and the
    /// button was `Pressed` before it.
    pub fn is_button_trigger(self) -> (r: bool)
        ensures
            r == is_trigger(self.kind, self.previous_state),
    {
        self.kind == (MouseEventKind::ButtonUp { button: MouseButton::Left, inside: true })
            && self.previous_state == ButtonState::Pressed
    }
}

/// The state a button keeps for its listener.
#[derive(Debug)]
pub struct ButtonDispatch {
    state: ButtonState,
    /// Set when the state changed and the button's style should be applied again.
    state_updated: bool,
}

impl ButtonDispatch {
    pub closed spec fn spec_state(&self) -> ButtonState {
        self.state
    }

    pub closed spec fn spec_state_updated(&self) -> bool {
        self.state_updated
    }

    /// An idle button whose style is yet to be applied.
    pub fn new() -> (r: Self)
        ensures
            r.spec_state() == ButtonState::Idle,
            r.spec_state_updated(),
    {
        ButtonDispatch { state: ButtonState::Idle, state_updated: true }
    }

    pub fn state(&self) -> (r: ButtonState)
        ensures
            r == self.spec_state(),
    {
        self.state
    }

    /// Moves the button along its transition table on `event`, marks the style for refresh
    /// when the state changed, and returns what the button's callback is told.
    pub fn mouse_event<P>(&mut self, event: MouseEvent<P>) -> (r: ButtonEvent<P>)
        ensures
            final(self).spec_state() == next_state(old(self).spec_state(), event.kind),
            final(self).spec_state_updated() == (old(self).spec_state_updated()
                || final(self).spec_state() != old(self).spec_state()),
            r.kind == event.kind,
            r.position == event.cursor_position,
            r.previous_state == old(self).spec_state(),
            r.current_state == final(self).spec_state(),
    {
        let old_state = self.state;
        let new_state = transition(old_state, event.kind);
        self.state = new_state;
        if new_state != old_state {
            self.state_updated = true;
        }
        ButtonEvent {
            kind: event.kind,
            position: event.cursor_position,
            previous_state: old_state,
            current_state: new_state,
        }
    }

    /// Returns whether the style should be applied again, and clears that mark.
    pub fn take_state_updated(&mut self) -> (r: bool)
        ensures
            r == old(self).spec_state_updated(),
            !final(self).spec_state_updated(),
            final(self).spec_state() == old(self).spec_state(),
    {
        let r = self.state_updated;
        self.state_updated = false;
        r
    }
}

} // verus!
