//! The input model that the scenes read: seven buttons and five sensors.

use vstd::prelude::*;

verus! {

/// Number of buttons.
pub const NUM_BUTTONS: usize = 7;

/// Number of sensors.
pub const NUM_SENSORS: usize = 5;

/// Where a sensor stands in its life.
#[derive(Clone, Copy, Debug, PartialEq, Eq, Structural)]
pub enum SensorState {
    /// No reading was taken yet.
    Uninitialized,
    /// Readings arrive and are smoothed.
    Normal,
    /// Readings arrive and something noteworthy was seen.
    Event,
    /// The sensor failed. Readings are ignored until `SensorData::reset`.
    SensorError,
}

/// What the caller does with the reading that it just reported.
#[derive(Clone, Copy, Debug, PartialEq, Eq, Structural)]
pub enum SampleAction {
    /// Drop the reading: the sensor is in `SensorError`.
    Ignore,
    /// First reading: the moving average becomes the reading.
    Seed,
    /// Any later reading: the moving average becomes
    /// `alpha * reading + (1 - alpha) * average`.
    Blend,
}

/// The weight of the newest reading in the moving average, in tenths.
pub const MOVING_AVG_ALPHA_TENTHS: u8 = 1;

/// The life cycle of one sensor and the time of its last reading. The readings
/// themselves are kept by the caller, who smooths them as `update` says.
#[derive(Clone, Copy, Debug, PartialEq, Eq, Structural)]
pub struct SensorData {
    state: SensorState,
    last_updated_ms: u32,
}

/// The state in which a sensor is after a reading was reported in `state`.
pub open spec fn state_after_sample(state: SensorState) -> SensorState {
    match state {
        SensorState::Uninitialized => SensorState::Normal,
        other => other,
    }
}

/// The time of the last reading after one was reported at `now_ms`: a failed
/// sensor keeps the time it had.
pub open spec fn last_update_after_sample(sensor: SensorData, now_ms: u32) -> u32 {
    if sensor.spec_state() == SensorState::SensorError {
        sensor.spec_last_updated_ms()
    } else {
        now_ms
    }
}

/// What a reading that arrives in `state` is used for.
pub open spec fn action_for_sample(state: SensorState) -> SampleAction {
    match state {
        SensorState::SensorError => SampleAction::Ignore,
        SensorState::Uninitialized => SampleAction::Seed,
        SensorState::Normal | SensorState::Event => SampleAction::Blend,
    }
}

impl SensorData {
    pub closed spec fn spec_state(&self) -> SensorState {
        self.state
    }

    pub closed spec fn spec_last_updated_ms(&self) -> u32 {
        self.last_updated_ms
    }

    /// A sensor without a reading.
    pub fn new() -> (sensor: Self)
        ensures
            sensor.spec_state() == SensorState::Uninitialized,
            sensor.spec_last_updated_ms() == 0,
    {
        SensorData { state: SensorState::Uninitialized, last_updated_ms: 0 }
    }

    #[verifier::when_used_as_spec(spec_state)]
    pub fn state(&self) -> (state: SensorState)
        ensures
            state == self.spec_state(),
    {
        self.state
    }

    #[verifier::when_used_as_spec(spec_last_updated_ms)]
    pub fn last_updated_ms(&self) -> (ms: u32)
        ensures
            ms == self.spec_last_updated_ms(),
    {
        self.last_updated_ms
    }

    /// Reports a reading taken at `current_time_ms`. A failed sensor stays as
    /// it is. The first reading of a sensor seeds its average and makes it
    /// `Normal`; every later one is blended in.
    pub fn update(&mut self, current_time_ms: u32) -> (action: SampleAction)
        ensures
            action == action_for_sample(old(self).spec_state()),
            final(self).spec_state() == state_after_sample(old(self).spec_state()),
            final(self).spec_last_updated_ms() == last_update_after_sample(
                *old(self),
                current_time_ms,
            ),
    {
        match self.state {
            SensorState::SensorError => SampleAction::Ignore,
            SensorState::Uninitialized => {
                self.state = SensorState::Normal;
                self.last_updated_ms = current_time_ms;
                SampleAction::Seed
            },
            SensorState::Normal | SensorState::Event => {
                self.last_updated_ms = current_time_ms;
                SampleAction::Blend
            },
        }
    }

    /// Marks the sensor as failed. Its readings are ignored from now on.
    pub fn fail(&mut self)
        ensures
            final(self).spec_state() == SensorState::SensorError,
            final(self).spec_last_updated_ms() == old(self).spec_last_updated_ms(),
    {
        self.state = SensorState::SensorError;
    }

    /// Puts the sensor back to where it was before its first reading. This is
    /// the only way out of `SensorError`.
    pub fn reset(&mut self)
        ensures
            final(self).spec_state() == SensorState::Uninitialized,
            final(self).spec_last_updated_ms() == old(self).spec_last_updated_ms(),
    {
        self.state = SensorState::Uninitialized;
    }
}

/// The sensors, in the order in which `Input` keeps them.
#[derive(Clone, Copy, Debug, PartialEq, Eq, Structural)]
pub enum SensorType {
    BatteryVoltage,
    Thermometer,
    LightSensor,
    Accelerometer,
    MicLoudness,
}

impl SensorType {
    pub open spec fn spec_index(self) -> int {
        match self {
            SensorType::BatteryVoltage => 0,
            SensorType::Thermometer => 1,
            SensorType::LightSensor => 2,
            SensorType::Accelerometer => 3,
            SensorType::MicLoudness => 4,
        }
    }

    /// Position of the sensor in `Input`.
    pub fn index(self) -> (i: usize)
        ensures
            i == self.spec_index(),
            i < NUM_SENSORS,
    {
        match self {
            SensorType::BatteryVoltage => 0,
            SensorType::Thermometer => 1,
            SensorType::LightSensor => 2,
            SensorType::Accelerometer => 3,
            SensorType::MicLoudness => 4,
        }
    }
}

/// The buttons, in the order in which `Input` keeps them.
#[derive(Clone, Copy, Debug, PartialEq, Eq, Hash, Structural)]
pub enum Button {
    Up,
    Down,
    Left,
    Right,
    A,
    B,
    Pwr,
}

impl Button {
    pub open spec fn spec_index(self) -> int {
        match self {
            Button::Up => 0,
            Button::Down => 1,
            Button::Left => 2,
            Button::Right => 3,
            Button::A => 4,
            Button::B => 5,
            Button::Pwr => 6,
        }
    }

    /// Position of the button in `Input`.
    pub fn index(self) -> (i: usize)
        ensures
            i == self.spec_index(),
            i < NUM_BUTTONS,
    {
        match self {
            Button::Up => 0,
            Button::Down => 1,
            Button::Left => 2,
            Button::Right => 3,
            Button::A => 4,
            Button::B => 5,
            Button::Pwr => 6,
        }
    }

    /// The button at a position, if there is one.
    pub fn from_index(i: usize) -> (button: Option<Button>)
        ensures
            i < NUM_BUTTONS <==> button is Some,
            button matches Some(b) ==> b.spec_index() == i,
    {
        match i {
            0 => Some(Button::Up),
            1 => Some(Button::Down),
            2 => Some(Button::Left),
            3 => Some(Button::Right),
            4 => Some(Button::A),
            5 => Some(Button::B),
            6 => Some(Button::Pwr),
            _ => None,
        }
    }
}

/// What a button did in the current tick.
#[derive(Clone, Copy, Debug, PartialEq, Eq, Structural)]
pub enum ButtonState {
    /// Went down in this tick.
    JustPressed,
    /// Was down before and still is.
    Pressed,
    /// Went up in this tick.
    JustReleased,
    /// Was up before and still is.
    Released,
}

/// Whether the button is down in a tick with this state.
pub open spec fn is_down(state: ButtonState) -> bool {
    state == ButtonState::JustPressed || state == ButtonState::Pressed
}

/// The input of one tick.
#[derive(Debug)]
pub struct Input {
    buttons: [ButtonState; 7],
    sensors: [SensorData; 5],
}

impl Input {
    /// The state of each button, by `Button::index`.
    pub closed spec fn buttons(&self) -> Seq<ButtonState> {
        self.buttons@
    }

    /// The life cycle of each sensor, by `SensorType::index`.
    pub closed spec fn sensors(&self) -> Seq<SensorData> {
        self.sensors@
    }

    /// There are always `NUM_BUTTONS` buttons and `NUM_SENSORS` sensors.
    pub proof fn lemma_sizes(&self)
        ensures
            self.buttons().len() == NUM_BUTTONS,
            self.sensors().len() == NUM_SENSORS,
    {
    }

    /// All buttons released, no sensor read yet.
    pub fn new() -> (input: Self)
        ensures
            input.buttons() == Seq::new(NUM_BUTTONS as nat, |i: int| ButtonState::Released),
            forall|i: int|
                0 <= i < NUM_SENSORS ==> (#[trigger] input.sensors()[i]).spec_state()
                    == SensorState::Uninitialized && input.sensors()[i].spec_last_updated_ms() == 0,
            input.buttons().len() == NUM_BUTTONS,
            input.sensors().len() == NUM_SENSORS,
    {
        let input = Input {
            buttons: [ButtonState::Released; 7],
            sensors: [
                SensorData::new(),
                SensorData::new(),
                SensorData::new(),
                SensorData::new(),
                SensorData::new(),
            ],
        };
        input
    }

    /// Reports a reading of one sensor; see `SensorData::update`.
    pub fn update_sensor(&mut self, sensor_type: SensorType, current_time_ms: u32) -> (action:
        SampleAction)
        ensures
            final(self).buttons() == old(self).buttons(),
            final(self).sensors().len() == NUM_SENSORS,
            action == action_for_sample(
                old(self).sensors()[sensor_type.spec_index()].spec_state(),
            ),
            final(self).sensors()[sensor_type.spec_index()].spec_state() == state_after_sample(
                old(self).sensors()[sensor_type.spec_index()].spec_state(),
            ),
            final(self).sensors()[sensor_type.spec_index()].spec_last_updated_ms()
                == last_update_after_sample(
                old(self).sensors()[sensor_type.spec_index()],
                current_time_ms,
            ),
            forall|i: int|
                0 <= i < NUM_SENSORS && i != sensor_type.spec_index() ==> final(self).sensors()[i]
                    == old(self).sensors()[i],
    {
        let i = sensor_type.index();
        let mut sensor = self.sensors[i];
        let action = sensor.update(current_time_ms);
        self.sensors[i] = sensor;
        action
    }

    /// The life cycle of one sensor.
    pub fn sensor(&self, sensor_type: SensorType) -> (sensor: SensorData)
        ensures
            sensor == self.sensors()[sensor_type.spec_index()],
    {
        self.sensors[sensor_type.index()]
    }

    /// Sets the state of one button.
    pub fn set_button(&mut self, button: Button, state: ButtonState)
        ensures
            final(self).buttons() == old(self).buttons().update(button.spec_index(), state),
            final(self).buttons().len() == NUM_BUTTONS,
            final(self).sensors() == old(self).sensors(),
    {
        let i = button.index();
        self.buttons[i] = state;
    }

    /// The state of one button.
    pub fn button_state(&self, button: Button) -> (state: ButtonState)
        ensures
            state == self.buttons()[button.spec_index()],
    {
        self.buttons[button.index()]
    }

    /// Whether the button is down.
    pub fn is_pressed(&self, button: Button) -> (pressed: bool)
        ensures
            pressed == is_down(self.buttons()[button.spec_index()]),
    {
        let state = self.buttons[button.index()];
        state == ButtonState::JustPressed || state == ButtonState::Pressed
    }

    /// Whether the button went down in this tick.
    pub fn is_just_pressed(&self, button: Button) -> (pressed: bool)
        ensures
            pressed == (self.buttons()[button.spec_index()] == ButtonState::JustPressed),
    {
        let state = self.buttons[button.index()];
        state == ButtonState::JustPressed
    }
}

} // verus!
