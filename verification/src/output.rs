//! What a scene may do to the outside world.

use vstd::prelude::*;
use crate::buzzer::BuzzerTrait;

verus! {

/// The output side of the engine: for now, the buzzer.
pub struct Output<'a> {
    /// The buzzer that the tones go to.
    pub buzzer: &'a dyn BuzzerTrait,
}

impl<'a> Output<'a> {
    /// An output whose tones go to `buzzer`.
    pub fn new(buzzer: &'a dyn BuzzerTrait) -> (output: Self)
        ensures
            output.buzzer === buzzer,
    {
        Self { buzzer }
    }

    /// Hands a tone request to the buzzer.
    pub fn play_tone(&self, frequency_hz: u32, duration_ms: u32) {
        self.buzzer.beep(frequency_hz, duration_ms);
    }
}

} // verus!
