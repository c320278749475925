//! The sensors behind the ADC: battery, light and microphone, and the two I2C
//! sensors that are not read yet.

use vstd::prelude::*;
use crate::input::{
    action_for_sample, last_update_after_sample, state_after_sample, Input, SampleAction,
    SensorType, NUM_SENSORS,
};
use crate::peripherals::adc_bus::ADC_MAX_CODE;
use crate::peripherals::power_control::{
    battery_millivolts, battery_percentage, millivolts_from_raw, percentage_from_raw,
};

verus! {

/// The temperature, in degrees Celsius, that stands in for the thermometer
/// until it is read.
pub const STUB_TEMPERATURE_CELSIUS: i16 = 20;

/// The value that stands in for the accelerometer until it is read.
pub const STUB_ACCELERATION: i16 = 0;

/// A raw code as a part of the converter's full scale, in thousandths:
/// `code / 4095`, cut off at 1 and rounded down.
pub open spec fn normalized_permille(code: u16) -> int {
    if code >= 4095 {
        1000
    } else {
        code * 1000 / 4095
    }
}

/// Computes `normalized_permille`.
pub fn permille_from_raw(code: u16) -> (permille: u16)
    ensures
        permille == normalized_permille(code),
        permille <= 1000,
{
    if code >= ADC_MAX_CODE {
        1000
    } else {
        ((code as u32) * 1000 / 4095) as u16
    }
}

/// The last reading of every sensor.
#[derive(Clone, Copy, Debug, PartialEq, Eq, Structural)]
pub struct SharedSensorState {
    /// Raw code of the battery voltage.
    pub battery_raw: u16,
    /// Temperature in degrees Celsius.
    pub thermometer: i16,
    /// Raw code of the light sensor.
    pub light_raw: u16,
    /// Reading of the accelerometer.
    pub accelerometer: i16,
    /// Raw code of the microphone.
    pub mic_raw: u16,
}

impl Default for SharedSensorState {
    fn default() -> (state: Self)
        ensures
            state == (SharedSensorState {
                battery_raw: 0,
                thermometer: 0,
                light_raw: 0,
                accelerometer: 0,
                mic_raw: 0,
            }),
    {
        SharedSensorState {
            battery_raw: 0,
            thermometer: 0,
            light_raw: 0,
            accelerometer: 0,
            mic_raw: 0,
        }
    }
}

/// The raw codes of one round of ADC reads; `None` where a read failed.
#[derive(Clone, Copy, Debug, PartialEq, Eq, Structural)]
pub struct AdcReadings {
    pub battery: Option<u16>,
    pub light: Option<u16>,
    pub mic: Option<u16>,
}

/// The new value of a reading: the code that was read, or the old value
/// where the read failed.
pub open spec fn reading_or(previous: u16, reading: Option<u16>) -> u16 {
    match reading {
        Some(raw) => raw,
        None => previous,
    }
}

/// The readings after one round of reads.
pub open spec fn state_after_readings(
    state: SharedSensorState,
    readings: AdcReadings,
) -> SharedSensorState {
    SharedSensorState {
        battery_raw: reading_or(state.battery_raw, readings.battery),
        thermometer: STUB_TEMPERATURE_CELSIUS,
        light_raw: reading_or(state.light_raw, readings.light),
        accelerometer: STUB_ACCELERATION,
        mic_raw: reading_or(state.mic_raw, readings.mic),
    }
}

/// The sensor driver.
#[derive(Clone, Copy, Debug)]
pub struct SensorDriver {
    state: SharedSensorState,
}

impl SensorDriver {
    pub closed spec fn spec_state(&self) -> SharedSensorState {
        self.state
    }

    /// A driver without readings.
    pub fn new() -> (driver: Self)
        ensures
            driver.spec_state() == (SharedSensorState {
                battery_raw: 0,
                thermometer: 0,
                light_raw: 0,
                accelerometer: 0,
                mic_raw: 0,
            }),
    {
        Self { state: SharedSensorState::default() }
    }

    /// The readings as they stand.
    #[verifier::when_used_as_spec(spec_state)]
    pub fn shared_state(&self) -> (state: SharedSensorState)
        ensures
            state == self.spec_state(),
    {
        self.state
    }

    /// Takes one round of reads. A failed read keeps the last value of its
    /// sensor.
    pub fn update(&mut self, readings: &AdcReadings)
        ensures
            final(self).spec_state() == state_after_readings(old(self).spec_state(), *readings),
    {
        if let Some(raw) = readings.battery {
            self.state.battery_raw = raw;
        }
        if let Some(raw) = readings.light {
            self.state.light_raw = raw;
        }
        if let Some(raw) = readings.mic {
            self.state.mic_raw = raw;
        }
        self.state.thermometer = STUB_TEMPERATURE_CELSIUS;
        self.state.accelerometer = STUB_ACCELERATION;
    }

    /// Reports a reading of every sensor to `input` and says, sensor by
    /// sensor in the order of `SensorType`, what the reading is used for.
    pub fn apply_to_input(
        &self,
        input: &mut Input,
        current_time_ms: u32,
    ) -> (actions: [SampleAction; 5])
        ensures
            final(input).buttons() == old(input).buttons(),
            final(input).sensors().len() == NUM_SENSORS,
            forall|i: int|
                0 <= i < NUM_SENSORS ==> {
                    &&& #[trigger] actions@[i] == action_for_sample(
                        old(input).sensors()[i].spec_state(),
                    )
                    &&& final(input).sensors()[i].spec_state() == state_after_sample(
                        old(input).sensors()[i].spec_state(),
                    )
                    &&& final(input).sensors()[i].spec_last_updated_ms()
                        == last_update_after_sample(old(input).sensors()[i], current_time_ms)
                },
    {
        proof {
            input.lemma_sizes();
        }
        let battery = input.update_sensor(SensorType::BatteryVoltage, current_time_ms);
        let thermometer = input.update_sensor(SensorType::Thermometer, current_time_ms);
        let light = input.update_sensor(SensorType::LightSensor, current_time_ms);
        let accelerometer = input.update_sensor(SensorType::Accelerometer, current_time_ms);
        let mic = input.update_sensor(SensorType::MicLoudness, current_time_ms);
        [battery, thermometer, light, accelerometer, mic]
    }

    /// Battery voltage in millivolts.
    pub fn get_battery_millivolts(&self) -> (mv: u32)
        ensures
            mv == battery_millivolts(self.spec_state().battery_raw),
    {
        millivolts_from_raw(self.state.battery_raw)
    }

    /// Battery percentage (0 - 100).
    pub fn get_battery_percentage(&self) -> (percent: u8)
        ensures
            percent == battery_percentage(self.spec_state().battery_raw),
            percent <= 100,
    {
        percentage_from_raw(self.state.battery_raw)
    }

    /// Light level in thousandths of full scale.
    pub fn get_light_level(&self) -> (permille: u16)
        ensures
            permille == normalized_permille(self.spec_state().light_raw),
            permille <= 1000,
    {
        permille_from_raw(self.state.light_raw)
    }

    /// Microphone level in thousandths of full scale.
    pub fn get_mic_level(&self) -> (permille: u16)
        ensures
            permille == normalized_permille(self.spec_state().mic_raw),
            permille <= 1000,
    {
        permille_from_raw(self.state.mic_raw)
    }

    /// Temperature in degrees Celsius.
    pub fn get_temperature(&self) -> (celsius: i16)
        ensures
            celsius == self.spec_state().thermometer,
    {
        self.state.thermometer
    }
}

} // verus!
