//! Pointer and keyboard state, and what each input event leads to.
//!
//! The host owns the window and the devices. It reports every event to
//! [`InputState::handle_mouse_event`] or
//! [`InputState::handle_keyboard_event`], performs the returned action with
//! its own floating-point machinery, and reports the next event. Positions
//! are opaque to this module: it stores the last one and hands it back as the
//! start of a drag, but never looks inside.

use vstd::prelude::*;

verus! {

/// A button of the pointing device.
#[derive(Clone, Copy, Debug, PartialEq, Eq, Structural)]
pub enum MouseButton {
    Left,
    Right,
    Middle,
    Other,
}

/// Whether a button went down or up.
#[derive(Clone, Copy, Debug, PartialEq, Eq, Structural)]
pub enum ElementState {
    Pressed,
    Released,
}

/// What pointer motion currently drives.
#[derive(Clone, Copy, Debug, PartialEq, Eq, Structural)]
pub enum PointerMode {
    /// No drag is under way: motion moves the hover highlight.
    Hover,
    /// The rotate button is held: motion orbits the camera.
    OrbitCamera,
    /// The rotate button and the modifier are held: motion rotates in 4D.
    Rotate4D,
}

/// An event of the pointing device, with positions of type `P`.
#[derive(Clone, Copy, Debug)]
pub enum MouseEvent<P> {
    /// The cursor moved; `position` is its place inside the viewport, if it is inside.
    CursorMoved { position: Option<P> },
    /// A button went down; `inside` tells whether the cursor is inside the viewport.
    ButtonPressed { button: MouseButton, inside: bool },
    /// A button went up.
    ButtonReleased { button: MouseButton },
    /// The wheel turned; `inside` tells whether the cursor is inside the viewport.
    WheelScrolled { inside: bool },
    /// The cursor entered the window.
    CursorEntered,
    /// The cursor left the window.
    CursorLeft,
}

/// An event of the keyboard, reduced to what the controls depend on.
#[derive(Clone, Copy, Debug, PartialEq, Eq, Structural)]
pub enum KeyboardEvent {
    /// The modifier that selects 4D rotation went down.
    ModifierPressed,
    /// The modifier that selects 4D rotation went up.
    ModifierReleased,
    /// Any other key event.
    Other,
}

/// What the host has to do in answer to a mouse event.
#[derive(Clone, Copy, Debug)]
pub enum MouseAction<P> {
    /// Nothing.
    Nothing,
    /// Forget the hovered sticker.
    ClearHover,
    /// Orbit the camera by the motion from `from` to the reported position.
    OrbitCamera { from: P },
    /// Rotate the tesseract in 4D by the motion from `from` to the reported position.
    Rotate4D { from: P },
    /// Cast a ray through the reported position and highlight what it hits.
    HoverTest,
    /// Cast a ray through the cursor position and keep it as the click ray.
    ClickRay,
    /// Move the camera closer or farther by the scrolled amount.
    Zoom,
}

/// The answer to a mouse event.
#[derive(Clone, Copy, Debug)]
pub struct MouseResponse<P> {
    /// Whether the event was consumed.
    pub captured: bool,
    /// What the host has to do.
    pub action: MouseAction<P>,
}

/// State of the input devices that outlives a single event.
#[derive(Clone, Copy, Debug)]
pub struct InputState<P> {
    /// Whether the right mouse button, which starts a drag, is held.
    pub is_right_mouse_pressed: bool,
    /// Whether the modifier that selects 4D rotation is held.
    pub shift_pressed: bool,
    /// Where the cursor was when it last moved inside the viewport.
    pub last_mouse_pos: Option<P>,
}

impl<P: Copy> InputState<P> {
    /// What pointer motion drives in this state.
    pub open spec fn spec_mode(self) -> PointerMode {
        if !self.is_right_mouse_pressed {
            PointerMode::Hover
        } else if self.shift_pressed {
            PointerMode::Rotate4D
        } else {
            PointerMode::OrbitCamera
        }
    }

    /// The state after `button` changed to `state`: the right button sets or
    /// clears the drag, and its release forgets the last cursor position.
    pub open spec fn after_button(self, button: MouseButton, state: ElementState) -> Self {
        if button == MouseButton::Right {
            InputState {
                is_right_mouse_pressed: state == ElementState::Pressed,
                shift_pressed: self.shift_pressed,
                last_mouse_pos: if state == ElementState::Released {
                    None
                } else {
                    self.last_mouse_pos
                },
            }
        } else {
            self
        }
    }

    /// The state after a mouse event.
    pub open spec fn after_mouse_event(self, event: MouseEvent<P>) -> Self {
        match event {
            MouseEvent::CursorMoved { position: Some(position) } => InputState {
                is_right_mouse_pressed: self.is_right_mouse_pressed,
                shift_pressed: self.shift_pressed,
                last_mouse_pos: Some(position),
            },
            MouseEvent::ButtonPressed { button: MouseButton::Right, inside: true } => {
                self.after_button(MouseButton::Right, ElementState::Pressed)
            },
            MouseEvent::ButtonReleased { button: MouseButton::Right } => {
                self.after_button(MouseButton::Right, ElementState::Released)
            },
            _ => self,
        }
    }

    /// The answer to a mouse event.
    pub open spec fn response_to(self, event: MouseEvent<P>) -> MouseResponse<P> {
        match event {
            MouseEvent::CursorMoved { position: None } => MouseResponse {
                captured: false,
                action: MouseAction::ClearHover,
            },
            MouseEvent::CursorMoved { position: Some(_) } => MouseResponse {
                captured: true,
                action: match (self.spec_mode(), self.last_mouse_pos) {
                    (PointerMode::Hover, _) => MouseAction::HoverTest,
                    (PointerMode::OrbitCamera, Some(from)) => MouseAction::OrbitCamera { from },
                    (PointerMode::Rotate4D, Some(from)) => MouseAction::Rotate4D { from },
                    (_, None) => MouseAction::Nothing,
                },
            },
            MouseEvent::ButtonPressed { button: MouseButton::Left, inside: true } => MouseResponse {
                captured: true,
                action: MouseAction::ClickRay,
            },
            MouseEvent::ButtonPressed { button: MouseButton::Right, inside: true } => MouseResponse {
                captured: true,
                action: MouseAction::Nothing,
            },
            MouseEvent::ButtonReleased { button: MouseButton::Right } => MouseResponse {
                captured: true,
                action: MouseAction::Nothing,
            },
            MouseEvent::WheelScrolled { inside: true } => MouseResponse {
                captured: true,
                action: MouseAction::Zoom,
            },
            MouseEvent::CursorLeft => MouseResponse {
                captured: false,
                action: MouseAction::ClearHover,
            },
            _ => MouseResponse { captured: false, action: MouseAction::Nothing },
        }
    }

    /// The state after a keyboard event.
    pub open spec fn after_keyboard_event(self, event: KeyboardEvent) -> Self {
        match event {
            KeyboardEvent::ModifierPressed => InputState {
                is_right_mouse_pressed: self.is_right_mouse_pressed,
                shift_pressed: true,
                last_mouse_pos: self.last_mouse_pos,
            },
            KeyboardEvent::ModifierReleased => InputState {
                is_right_mouse_pressed: self.is_right_mouse_pressed,
                shift_pressed: false,
                last_mouse_pos: self.last_mouse_pos,
            },
            KeyboardEvent::Other => self,
        }
    }

    /// The state before any event: nothing held, no position known.
    pub fn new() -> (state: Self)
        ensures
            !state.is_right_mouse_pressed,
            !state.shift_pressed,
            state.last_mouse_pos is None,
            state.spec_mode() == PointerMode::Hover,
    {
        InputState { is_right_mouse_pressed: false, shift_pressed: false, last_mouse_pos: None }
    }

    /// What pointer motion drives in this state.
    pub fn mode(&self) -> (mode: PointerMode)
        ensures
            mode == self.spec_mode(),
    {
        if !self.is_right_mouse_pressed {
            PointerMode::Hover
        } else if self.shift_pressed {
            PointerMode::Rotate4D
        } else {
            PointerMode::OrbitCamera
        }
    }

    /// Records that `button` changed to `state`.
    pub fn update_mouse_state(&mut self, button: MouseButton, state: ElementState)
        ensures
            *final(self) == old(self).after_button(button, state),
    {
        match button {
            MouseButton::Right => {
                match state {
                    ElementState::Pressed => {
                        self.is_right_mouse_pressed = true;
                    },
                    ElementState::Released => {
                        self.is_right_mouse_pressed = false;
                        self.last_mouse_pos = None;
                    },
                }
            },
            _ => {},
        }
    }

    /// Takes a mouse event into the state and says what the host has to do.
    pub fn handle_mouse_event(&mut self, event: MouseEvent<P>) -> (response: MouseResponse<P>)
        ensures
            *final(self) == old(self).after_mouse_event(event),
            response == old(self).response_to(event),
    {
        match event {
            MouseEvent::CursorMoved { position } => {
                let Some(position) = position else {
                    return MouseResponse { captured: false, action: MouseAction::ClearHover };
                };
                let action = match self.last_mouse_pos {
                    Some(from) => match self.mode() {
                        PointerMode::Hover => MouseAction::HoverTest,
                        PointerMode::OrbitCamera => MouseAction::OrbitCamera { from },
                        PointerMode::Rotate4D => MouseAction::Rotate4D { from },
                    },
                    None => match self.mode() {
                        PointerMode::Hover => MouseAction::HoverTest,
                        _ => MouseAction::Nothing,
                    },
                };
                self.last_mouse_pos = Some(position);
                MouseResponse { captured: true, action }
            },
            MouseEvent::ButtonPressed { button, inside } => {
                if inside {
                    match button {
                        MouseButton::Left => {
                            return MouseResponse { captured: true, action: MouseAction::ClickRay };
                        },
                        MouseButton::Right => {
                            self.update_mouse_state(button, ElementState::Pressed);
                            return MouseResponse { captured: true, action: MouseAction::Nothing };
                        },
                        _ => {},
                    }
                }
                MouseResponse { captured: false, action: MouseAction::Nothing }
            },
            MouseEvent::ButtonReleased { button } => {
                match button {
                    MouseButton::Right => {
                        self.update_mouse_state(button, ElementState::Released);
                        MouseResponse { captured: true, action: MouseAction::Nothing }
                    },
                    _ => MouseResponse { captured: false, action: MouseAction::Nothing },
                }
            },
            MouseEvent::WheelScrolled { inside } => {
                if inside {
                    MouseResponse { captured: true, action: MouseAction::Zoom }
                } else {
                    MouseResponse { captured: false, action: MouseAction::Nothing }
                }
            },
            MouseEvent::CursorEntered => MouseResponse {
                captured: false,
                action: MouseAction::Nothing,
            },
            MouseEvent::CursorLeft => MouseResponse {
                captured: false,
                action: MouseAction::ClearHover,
            },
        }
    }

    /// Takes a keyboard event into the state; the result tells whether it was consumed.
    pub fn handle_keyboard_event(&mut self, event: KeyboardEvent) -> (captured: bool)
        ensures
            *final(self) == old(self).after_keyboard_event(event),
            captured == (event != KeyboardEvent::Other),
    {
        match event {
            KeyboardEvent::ModifierPressed => {
                self.shift_pressed = true;
                true
            },
            KeyboardEvent::ModifierReleased => {
                self.shift_pressed = false;
                true
            },
            KeyboardEvent::Other => false,
        }
    }
}

/// A drag is applied only while the right button is held and a previous
/// cursor position is known, and it starts from that position; the modifier
/// alone decides between the camera and the 4D rotation.
pub proof fn lemma_drag_needs_held_button<P: Copy>(state: InputState<P>, event: MouseEvent<P>)
    ensures
        state.response_to(event).action matches MouseAction::OrbitCamera { from } ==> {
            &&& state.is_right_mouse_pressed
            &&& !state.shift_pressed
            &&& state.last_mouse_pos == Some(from)
            &&& event is CursorMoved
        },
        state.response_to(event).action matches MouseAction::Rotate4D { from } ==> {
            &&& state.is_right_mouse_pressed
            &&& state.shift_pressed
            &&& state.last_mouse_pos == Some(from)
            &&& event is CursorMoved
        },
{
}

/// Hover tests and drags exclude each other: a hover test is asked for
/// exactly when the cursor moves inside the viewport while no drag is under way.
pub proof fn lemma_hover_only_without_drag<P: Copy>(state: InputState<P>, event: MouseEvent<P>)
    ensures
        state.response_to(event).action is HoverTest <==> (!state.is_right_mouse_pressed
            && event matches MouseEvent::CursorMoved { position: Some(_) }),
{
}

/// The drag flag changes only on the right button: it is set by a press
/// inside the viewport, cleared by a release, and kept by every other event.
pub proof fn lemma_drag_flag_follows_right_button<P: Copy>(state: InputState<P>, event: MouseEvent<P>)
    ensures
        state.after_mouse_event(event).shift_pressed == state.shift_pressed,
        state.after_mouse_event(event).is_right_mouse_pressed == (match event {
            MouseEvent::ButtonPressed { button: MouseButton::Right, inside: true } => true,
            MouseEvent::ButtonReleased { button: MouseButton::Right } => false,
            _ => state.is_right_mouse_pressed,
        }),
        event matches MouseEvent::ButtonReleased { button: MouseButton::Right }
            ==> state.after_mouse_event(event).last_mouse_pos is None,
{
}

} // verus!
