//! Buttons in two phases: `update` stores what the pins read, `apply_to_input`
//! turns the stored levels into edges and hands them to the input model. The
//! two may run at different rates and from different places.

use vstd::prelude::*;
use crate::input::{Button, ButtonState, Input, NUM_BUTTONS};
use crate::peripherals::PinLevel;

verus! {

/// The levels of the seven button pins, read at one instant. The buttons pull
/// their pin to ground: `Low` means pressed.
#[derive(Clone, Copy, Debug, PartialEq, Eq, Structural)]
pub struct ButtonPins {
    pub a: PinLevel,
    pub b: PinLevel,
    pub up: PinLevel,
    pub down: PinLevel,
    pub left: PinLevel,
    pub right: PinLevel,
    pub boot: PinLevel,
}

/// The state that a button shows in a tick, from whether it was down in the
/// tick before and whether it is down now.
pub open spec fn edge_state(previous: bool, current: bool) -> ButtonState {
    if current {
        if previous {
            ButtonState::Pressed
        } else {
            ButtonState::JustPressed
        }
    } else {
        if previous {
            ButtonState::JustReleased
        } else {
            ButtonState::Released
        }
    }
}

/// The states that a button shows over a run of ticks in which it reads
/// `samples`, having been up before the first of them.
pub open spec fn edge_states(samples: Seq<bool>) -> Seq<ButtonState> {
    Seq::new(
        samples.len(),
        |k: int|
            edge_state(
                if k == 0 {
                    false
                } else {
                    samples[k - 1]
                },
                samples[k],
            ),
    )
}

/// Whether the levels say that the button at `index` is pressed.
pub open spec fn pressed_at(pins: ButtonPins, index: int) -> bool {
    if index == Button::A.spec_index() {
        pins.a == PinLevel::Low
    } else if index == Button::B.spec_index() {
        pins.b == PinLevel::Low
    } else if index == Button::Up.spec_index() {
        pins.up == PinLevel::Low
    } else if index == Button::Down.spec_index() {
        pins.down == PinLevel::Low
    } else if index == Button::Left.spec_index() {
        pins.left == PinLevel::Low
    } else if index == Button::Right.spec_index() {
        pins.right == PinLevel::Low
    } else {
        pins.boot == PinLevel::Low
    }
}

/// An edge lasts one tick: a button that shows `JustPressed` or `JustReleased`
/// in one tick shows neither of them again in the next tick unless its level
/// changes once more.
pub proof fn lemma_edges_last_one_tick(before: bool, now: bool, next: bool)
    ensures
        edge_state(before, now) == ButtonState::JustPressed ==> edge_state(now, next)
            != ButtonState::JustPressed,
        edge_state(before, now) == ButtonState::JustReleased ==> edge_state(now, next)
            != ButtonState::JustReleased,
        edge_state(before, now) == ButtonState::JustPressed && next ==> edge_state(now, next)
            == ButtonState::Pressed,
        edge_state(before, now) == ButtonState::JustReleased && !next ==> edge_state(now, next)
            == ButtonState::Released,
{
}

/// Down, held, up, idle: a button that is pressed for two ticks and then let
/// go for two shows each of the four states once, in this order, after the
/// idle tick before the press.
pub proof fn lemma_press_and_release()
    ensures
        edge_states(seq![false, true, true, false, false]) == seq![
            ButtonState::Released,
            ButtonState::JustPressed,
            ButtonState::Pressed,
            ButtonState::JustReleased,
            ButtonState::Released,
        ],
{
}

/// What the pin of one button read last.
#[derive(Debug, Clone, Copy, PartialEq, Eq, Structural)]
pub struct RawButtonState {
    /// True if the button is pressed (its pin is low).
    pub pressed: bool,
}

/// The edge detector of one button.
#[derive(Debug, Clone, Copy, PartialEq, Eq, Structural)]
pub struct InternalButtonState {
    pub current: bool,
    pub previous: bool,
}

impl InternalButtonState {
    /// A button that is up and was up.
    pub fn new() -> (state: Self)
        ensures
            !state.current,
            !state.previous,
    {
        Self { current: false, previous: false }
    }

    /// Takes the level of the next tick and gives the state of the button in
    /// that tick.
    pub fn update(&mut self, pressed: bool) -> (state: ButtonState)
        ensures
            final(self).previous == old(self).current,
            final(self).current == pressed,
            state == edge_state(old(self).current, pressed),
    {
        self.previous = self.current;
        self.current = pressed;
        if self.current {
            if self.previous {
                ButtonState::Pressed
            } else {
                ButtonState::JustPressed
            }
        } else {
            if self.previous {
                ButtonState::JustReleased
            } else {
                ButtonState::Released
            }
        }
    }
}

/// The snapshot between the two phases: what each pin read at the last
/// `update`.
#[derive(Debug, Clone, Copy)]
pub struct SharedButtonStates {
    raw_states: [RawButtonState; 7],
}

impl SharedButtonStates {
    /// Whether each button was pressed at the last `update`, by
    /// `Button::index`.
    pub closed spec fn pressed(&self) -> Seq<bool> {
        Seq::new(NUM_BUTTONS as nat, |i: int| self.raw_states@[i].pressed)
    }

    /// No button pressed.
    pub fn new() -> (states: Self)
        ensures
            states.pressed() == Seq::new(NUM_BUTTONS as nat, |i: int| false),
    {
        let states = Self { raw_states: [RawButtonState { pressed: false }; 7] };
        states
    }

    /// Whether the button was pressed at the last `update`.
    pub fn is_pressed(&self, button: Button) -> (pressed: bool)
        ensures
            pressed == self.pressed()[button.spec_index()],
    {
        self.raw_states[button.index()].pressed
    }
}

/// The button driver: the snapshot and one edge detector per button.
#[derive(Debug)]
pub struct ButtonDriver {
    shared_states: SharedButtonStates,
    edge_states: [InternalButtonState; 7],
}

impl ButtonDriver {
    /// The snapshot.
    pub closed spec fn snapshot(&self) -> SharedButtonStates {
        self.shared_states
    }

    /// The edge detectors, by `Button::index`.
    pub closed spec fn edges(&self) -> Seq<InternalButtonState> {
        self.edge_states@
    }

    /// A driver that has seen every button up.
    pub fn new() -> (driver: Self)
        ensures
            driver.snapshot().pressed() == Seq::new(NUM_BUTTONS as nat, |i: int| false),
            driver.edges() == Seq::new(
                NUM_BUTTONS as nat,
                |i: int| InternalButtonState { current: false, previous: false },
            ),
    {
        let driver = Self {
            shared_states: SharedButtonStates::new(),
            edge_states: [InternalButtonState { current: false, previous: false }; 7],
        };
        driver
    }

    /// First phase: stores what the pins read. A low pin is a pressed button.
    pub fn update(&mut self, pins: &ButtonPins)
        ensures
            final(self).snapshot().pressed() == Seq::new(
                NUM_BUTTONS as nat,
                |i: int| pressed_at(*pins, i),
            ),
            final(self).edges() == old(self).edges(),
    {
        let mut raw = [RawButtonState { pressed: false }; 7];
        raw[Button::A.index()] = RawButtonState { pressed: pins.a == PinLevel::Low };
        raw[Button::B.index()] = RawButtonState { pressed: pins.b == PinLevel::Low };
        raw[Button::Up.index()] = RawButtonState { pressed: pins.up == PinLevel::Low };
        raw[Button::Down.index()] = RawButtonState { pressed: pins.down == PinLevel::Low };
        raw[Button::Left.index()] = RawButtonState { pressed: pins.left == PinLevel::Low };
        raw[Button::Right.index()] = RawButtonState { pressed: pins.right == PinLevel::Low };
        raw[Button::Pwr.index()] = RawButtonState { pressed: pins.boot == PinLevel::Low };
        self.shared_states = SharedButtonStates { raw_states: raw };
    }

    /// Second phase: runs every button's edge detector on the snapshot and
    /// writes the resulting state into `input`.
    pub fn apply_to_input(&mut self, input: &mut Input)
        ensures
            final(self).snapshot() == old(self).snapshot(),
            final(self).edges().len() == NUM_BUTTONS,
            final(input).buttons().len() == NUM_BUTTONS,
            final(input).sensors() == old(input).sensors(),
            forall|i: int|
                0 <= i < NUM_BUTTONS ==> {
                    &&& #[trigger] final(input).buttons()[i] == edge_state(
                        old(self).edges()[i].current,
                        old(self).snapshot().pressed()[i],
                    )
                    &&& final(self).edges()[i] == (InternalButtonState {
                        current: old(self).snapshot().pressed()[i],
                        previous: old(self).edges()[i].current,
                    })
                },
    {
        proof {
            input.lemma_sizes();
        }
        let raw_states = self.shared_states;
        let mut i: usize = 0;
        while i < NUM_BUTTONS
            invariant
                i <= NUM_BUTTONS,
                raw_states == old(self).shared_states,
                self.shared_states == old(self).shared_states,
                input.buttons().len() == NUM_BUTTONS,
                input.sensors() == old(input).sensors(),
                forall|k: int|
                    i <= k < NUM_BUTTONS ==> self.edge_states@[k] == old(self).edge_states@[k],
                forall|k: int|
                    0 <= k < i ==> {
                        &&& #[trigger] input.buttons()[k] == edge_state(
                            old(self).edge_states@[k].current,
                            raw_states.pressed()[k],
                        )
                        &&& self.edge_states@[k] == (InternalButtonState {
                            current: raw_states.pressed()[k],
                            previous: old(self).edge_states@[k].current,
                        })
                    },
            decreases NUM_BUTTONS - i,
        {
            if let Some(button) = Button::from_index(i) {
                let pressed = raw_states.is_pressed(button);
                let mut edge = self.edge_states[i];
                let state = edge.update(pressed);
                self.edge_states[i] = edge;
                input.set_button(button, state);
            }
            i += 1;
        }
    }

    /// The snapshot as it stands.
    pub fn get_shared_states(&self) -> (states: SharedButtonStates)
        ensures
            states == self.snapshot(),
    {
        self.shared_states
    }
}

} // verus!
