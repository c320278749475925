//! Battery voltage and percentage from the raw ADC code, and the switch of the
//! peripheral power rail.
//!
//! The converter sees the battery through a divider by two, with an input
//! range of 0 to 3.3 V: code 4095 stands for 6.6 V at the battery. All values
//! are integers: millivolts and percent, rounded down.

use vstd::prelude::*;
use crate::peripherals::adc_bus::{ADC_FULL_SCALE_MV, ADC_MAX_CODE};
use crate::peripherals::PinLevel;

verus! {

/// The battery voltage is this many times the voltage at the pin.
pub const BATTERY_DIVIDER: u32 = 2;

/// Battery voltage, in millivolts, that counts as 0 %.
pub const BATTERY_EMPTY_MV: u32 = 3000;

/// Battery voltage, in millivolts, that counts as 100 %.
pub const BATTERY_FULL_MV: u32 = 4200;

/// Below this percentage the battery is critically low.
pub const BATTERY_CRITICAL_PERCENT: u8 = 5;

/// Below this percentage the battery is low.
pub const BATTERY_LOW_PERCENT: u8 = 20;

/// Battery voltage, in millivolts, at which the converter returns its largest
/// code: `ADC_FULL_SCALE_MV * BATTERY_DIVIDER`.
pub const BATTERY_FULL_SCALE_MV: u32 = 6600;

/// The battery voltage in millivolts for a raw code:
/// `raw / 4095 * 3.3 V * 2`, rounded down.
pub open spec fn battery_millivolts(raw: u16) -> int {
    raw * 6600 / 4095
}

/// The battery percentage for a raw code: the voltage mapped linearly from
/// 3.0 V (0 %) to 4.2 V (100 %), cut off at both ends and rounded down. The
/// voltage is not rounded on the way: with `v = raw * 6600 / 4095` millivolts
/// taken exactly, the percentage is `(v - 3000) * 100 / 1200`.
pub open spec fn battery_percentage(raw: u16) -> int {
    let above_empty: int = raw * 6600 - 3000int * 4095;
    let span: int = 1200int * 4095;
    if above_empty <= 0 {
        0
    } else if above_empty >= span {
        100
    } else {
        above_empty * 100 / span
    }
}

/// The constants above are the numbers that the two formulas are written with.
pub proof fn lemma_battery_constants()
    ensures
        ADC_MAX_CODE == 4095,
        BATTERY_FULL_SCALE_MV == ADC_FULL_SCALE_MV * BATTERY_DIVIDER == 6600,
        BATTERY_EMPTY_MV == 3000,
        BATTERY_FULL_MV - BATTERY_EMPTY_MV == 1200,
{
}

/// The percentage never leaves 0..=100, is 0 up to 3.0 V and 100 from 4.2 V on,
/// and neither it nor the voltage falls when the code rises.
pub proof fn lemma_battery_percentage_bounds(raw: u16, higher: u16)
    requires
        raw <= higher,
    ensures
        0 <= battery_percentage(raw) <= 100,
        battery_millivolts(raw) < BATTERY_EMPTY_MV ==> battery_percentage(raw) == 0,
        battery_millivolts(raw) >= BATTERY_FULL_MV ==> battery_percentage(raw) == 100,
        battery_percentage(raw) <= battery_percentage(higher),
        battery_millivolts(raw) <= battery_millivolts(higher),
{
}

/// Computes `battery_millivolts`.
pub fn millivolts_from_raw(raw: u16) -> (mv: u32)
    ensures
        mv == battery_millivolts(raw),
{
    (raw as u32) * 6600 / 4095
}

/// Computes `battery_percentage`.
pub fn percentage_from_raw(raw: u16) -> (percent: u8)
    ensures
        percent == battery_percentage(raw),
        percent <= 100,
{
    let scaled: u64 = (raw as u64) * 6600;
    let empty: u64 = 3000 * 4095;
    let span: u64 = 1200 * 4095;
    if scaled <= empty {
        0
    } else if scaled - empty >= span {
        100
    } else {
        ((scaled - empty) * 100 / span) as u8
    }
}

/// What is known of the power supply.
#[derive(Clone, Copy, Debug, PartialEq, Eq, Structural)]
pub struct PowerState {
    /// The raw code of the last battery reading.
    pub battery_raw: u16,
    /// Battery voltage in millivolts.
    pub battery_millivolts: u32,
    /// Battery percentage (0 - 100).
    pub battery_percentage: u8,
    /// Whether the peripheral power rail is switched on.
    pub peripheral_power_enabled: bool,
    /// Whether the device is charging.
    pub is_charging: bool,
    /// Whether a charger is connected.
    pub charger_connected: bool,
}

impl Default for PowerState {
    fn default() -> (state: Self)
        ensures
            state == (PowerState {
                battery_raw: 0,
                battery_millivolts: 0,
                battery_percentage: 0,
                peripheral_power_enabled: false,
                is_charging: false,
                charger_connected: false,
            }),
    {
        PowerState {
            battery_raw: 0,
            battery_millivolts: 0,
            battery_percentage: 0,
            peripheral_power_enabled: false,
            is_charging: false,
            charger_connected: false,
        }
    }
}

/// The state after a battery reading: a code replaces voltage and percentage,
/// a failed reading changes nothing.
pub open spec fn state_after_reading(state: PowerState, reading: Option<u16>) -> PowerState {
    match reading {
        Some(raw) => PowerState {
            battery_raw: raw,
            battery_millivolts: battery_millivolts(raw) as u32,
            battery_percentage: battery_percentage(raw) as u8,
            ..state
        },
        None => state,
    }
}

/// The power controller.
#[derive(Clone, Copy, Debug)]
pub struct PowerControl {
    state: PowerState,
}

impl PowerControl {
    pub closed spec fn spec_state(&self) -> PowerState {
        self.state
    }

    /// A controller with the peripheral power rail off and no battery reading.
    /// The rail's pin is to be driven `Low`.
    pub fn new() -> (control: Self)
        ensures
            control.spec_state() == (PowerState {
                battery_raw: 0,
                battery_millivolts: 0,
                battery_percentage: 0,
                peripheral_power_enabled: false,
                is_charging: false,
                charger_connected: false,
            }),
    {
        Self { state: PowerState::default() }
    }

    /// Switches the peripheral power rail and says how its pin is to be
    /// driven: `High` for on.
    pub fn set_peripheral_power(&mut self, enabled: bool) -> (level: PinLevel)
        ensures
            final(self).spec_state() == (PowerState {
                peripheral_power_enabled: enabled,
                ..old(self).spec_state()
            }),
            level == if enabled {
                PinLevel::High
            } else {
                PinLevel::Low
            },
    {
        self.state.peripheral_power_enabled = enabled;
        if enabled {
            PinLevel::High
        } else {
            PinLevel::Low
        }
    }

    /// Whether the peripheral power rail is on.
    pub fn is_peripheral_power_enabled(&self) -> (enabled: bool)
        ensures
            enabled == self.spec_state().peripheral_power_enabled,
    {
        self.state.peripheral_power_enabled
    }

    /// Takes a battery reading: the raw code, or `None` where the read failed.
    pub fn update(&mut self, reading: Option<u16>)
        ensures
            final(self).spec_state() == state_after_reading(old(self).spec_state(), reading),
    {
        if let Some(raw) = reading {
            self.state.battery_raw = raw;
            self.state.battery_millivolts = millivolts_from_raw(raw);
            self.state.battery_percentage = percentage_from_raw(raw);
        }
    }

    /// Battery voltage in millivolts.
    pub fn get_battery_millivolts(&self) -> (mv: u32)
        ensures
            mv == self.spec_state().battery_millivolts,
    {
        self.state.battery_millivolts
    }

    /// Battery percentage (0 - 100).
    pub fn get_battery_percentage(&self) -> (percent: u8)
        ensures
            percent == self.spec_state().battery_percentage,
    {
        self.state.battery_percentage
    }

    /// The state as it stands.
    #[verifier::when_used_as_spec(spec_state)]
    pub fn shared_state(&self) -> (state: PowerState)
        ensures
            state == self.spec_state(),
    {
        self.state
    }

    /// Whether the battery is critically low (under 5 %).
    pub fn is_battery_critical(&self) -> (critical: bool)
        ensures
            critical == (self.spec_state().battery_percentage < BATTERY_CRITICAL_PERCENT),
    {
        self.state.battery_percentage < BATTERY_CRITICAL_PERCENT
    }

    /// Whether the battery is low (under 20 %).
    pub fn is_battery_low(&self) -> (low: bool)
        ensures
            low == (self.spec_state().battery_percentage < BATTERY_LOW_PERCENT),
    {
        self.state.battery_percentage < BATTERY_LOW_PERCENT
    }
}

} // verus!
