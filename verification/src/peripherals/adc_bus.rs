//! The one ADC unit and the channels that its consumers read through.

use vstd::prelude::*;

verus! {

/// Largest code that the 12-bit converter returns.
pub const ADC_MAX_CODE: u16 = 4095;

/// Input voltage, in millivolts, at which the converter returns
/// `ADC_MAX_CODE` with the widest input range selected.
pub const ADC_FULL_SCALE_MV: u32 = 3300;

/// How much the input is attenuated before it is converted.
#[derive(Clone, Copy, Debug, PartialEq, Eq, Structural)]
pub enum Attenuation {
    /// No attenuation: the converter's default.
    Db0,
    /// 11 dB: an input range of about 0 to 3.3 V.
    Db11,
}

/// The pins that the converter can be bound to.
#[derive(Clone, Copy, Debug, PartialEq, Eq, Structural)]
pub enum AdcPin {
    /// Microphone.
    Gpio1,
    /// Light sensor.
    Gpio2,
    /// Battery voltage, behind a divider by two.
    Gpio4,
}

/// Configuration of the bus.
#[derive(Clone, Copy, Debug, PartialEq, Eq, Structural)]
pub struct AdcBusConfig {
    /// Use 11 dB attenuation on every channel.
    pub use_11db_attenuation: bool,
}

impl Default for AdcBusConfig {
    fn default() -> (config: Self)
        ensures
            config.use_11db_attenuation,
    {
        Self { use_11db_attenuation: true }
    }
}

/// A logical channel: one pin bound to the shared converter.
#[derive(Clone, Copy, Debug, PartialEq, Eq, Structural)]
pub struct AdcChannel {
    pub pin: AdcPin,
    pub attenuation: Attenuation,
}

/// The owner of the converter. Every channel is made here, before any
/// consumer starts to read.
#[derive(Clone, Copy, Debug, PartialEq, Eq, Structural)]
pub struct AdcBus {
    config: AdcBusConfig,
}

/// The attenuation that a bus with this configuration gives its channels.
pub open spec fn attenuation_for(config: AdcBusConfig) -> Attenuation {
    if config.use_11db_attenuation {
        Attenuation::Db11
    } else {
        Attenuation::Db0
    }
}

impl AdcBus {
    pub closed spec fn spec_config(&self) -> AdcBusConfig {
        self.config
    }

    pub fn new(config: AdcBusConfig) -> (bus: Self)
        ensures
            bus.spec_config() == config,
    {
        Self { config }
    }

    #[verifier::when_used_as_spec(spec_config)]
    pub fn config(&self) -> (config: AdcBusConfig)
        ensures
            config == self.spec_config(),
    {
        self.config
    }

    /// The attenuation of every channel of this bus.
    pub fn default_channel_config(&self) -> (attenuation: Attenuation)
        ensures
            attenuation == attenuation_for(self.spec_config()),
    {
        if self.config.use_11db_attenuation {
            Attenuation::Db11
        } else {
            Attenuation::Db0
        }
    }

    /// The channel of the battery voltage.
    pub fn create_battery_channel(&self) -> (channel: AdcChannel)
        ensures
            channel == (AdcChannel {
                pin: AdcPin::Gpio4,
                attenuation: attenuation_for(self.spec_config()),
            }),
    {
        AdcChannel { pin: AdcPin::Gpio4, attenuation: self.default_channel_config() }
    }

    /// The channel of the light sensor.
    pub fn create_light_channel(&self) -> (channel: AdcChannel)
        ensures
            channel == (AdcChannel {
                pin: AdcPin::Gpio2,
                attenuation: attenuation_for(self.spec_config()),
            }),
    {
        AdcChannel { pin: AdcPin::Gpio2, attenuation: self.default_channel_config() }
    }

    /// The channel of the microphone.
    pub fn create_mic_channel(&self) -> (channel: AdcChannel)
        ensures
            channel == (AdcChannel {
                pin: AdcPin::Gpio1,
                attenuation: attenuation_for(self.spec_config()),
            }),
    {
        AdcChannel { pin: AdcPin::Gpio1, attenuation: self.default_channel_config() }
    }
}

} // verus!
