//! Peripheral arbitration and rendering-pipeline logic for a handheld device.
//!
//! The crate holds the decisions that let a backlight dimmer, a tone generator,
//! a handful of sensors and a display share one ADC unit, one PWM timer and one
//! I2C bus. Every hardware access is left to the caller: the types here take the
//! values that were read and say what has to be written.

pub mod buzzer;
pub mod consts;
pub mod input;
pub mod log_buffer;
pub mod log_capture;
pub mod output;
pub mod peripherals;
pub mod scenes;
