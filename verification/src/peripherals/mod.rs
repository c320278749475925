//! One module per shared hardware unit.

use vstd::prelude::*;

pub mod adc_bus;
pub mod button_driver;
pub mod display_driver;
pub mod pipeline_laws;
pub mod power_control;
pub mod pwm_bus;
pub mod sensor_driver;
pub mod sensors_i2c;

verus! {

/// The electrical level of a pin.
#[derive(Clone, Copy, Debug, PartialEq, Eq, Structural)]
pub enum PinLevel {
    Low,
    High,
}

} // verus!
