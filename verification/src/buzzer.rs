//! The buzzer as the rest of the firmware sees it.

use vstd::prelude::*;

verus! {

/// Anything that can be asked to sound a tone. The call only hands the request
/// over; whether and when the tone sounds is up to the implementation.
pub trait BuzzerTrait: Send {
    fn beep(&self, frequency_hz: u32, duration_ms: u32);
}

/// A buzzer that stays silent.
pub struct StubBuzzer;

impl BuzzerTrait for StubBuzzer {
    fn beep(&self, _frequency_hz: u32, _duration_ms: u32) {
    }
}

/// A request for one tone.
#[derive(Clone, Copy, Debug, PartialEq, Eq, Structural)]
pub struct BuzzerCommand {
    pub frequency_hz: u32,
    pub duration_ms: u32,
}

} // verus!
