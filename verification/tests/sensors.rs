use tama_core::input::{Input, SampleAction, SensorData, SensorState, SensorType};
use tama_core::peripherals::adc_bus::{
    AdcBus, AdcBusConfig, AdcChannel, AdcPin, Attenuation, ADC_FULL_SCALE_MV, ADC_MAX_CODE,
};
use tama_core::peripherals::power_control::{
    millivolts_from_raw, percentage_from_raw, PowerControl, PowerState, BATTERY_DIVIDER,
    BATTERY_EMPTY_MV, BATTERY_FULL_MV, BATTERY_FULL_SCALE_MV,
};
use tama_core::peripherals::sensor_driver::{
    permille_from_raw, AdcReadings, SensorDriver, SharedSensorState,
};
use tama_core::peripherals::PinLevel;

/// A sensor value smoothed as `SensorData::update` says, in floating point.
struct Smoothed {
    data: SensorData,
    raw: f32,
    moving_avg: f32,
}

impl Smoothed {
    fn new() -> Self {
        Smoothed { data: SensorData::new(), raw: 0.0, moving_avg: 0.0 }
    }

    fn update(&mut self, raw: f32, now_ms: u32) {
        match self.data.update(now_ms) {
            SampleAction::Ignore => {}
            SampleAction::Seed => {
                self.raw = raw;
                self.moving_avg = raw;
            }
            SampleAction::Blend => {
                self.raw = raw;
                self.moving_avg = 0.1 * raw + (1.0 - 0.1) * self.moving_avg;
            }
        }
    }
}

#[test]
fn the_first_reading_seeds_the_average_and_the_second_is_blended() {
    let (v0, v1) = (3.7f32, 4.1f32);
    let mut sensor = Smoothed::new();
    assert_eq!(sensor.data.state(), SensorState::Uninitialized);
    sensor.update(v0, 10);
    assert_eq!(sensor.moving_avg, v0);
    assert_eq!(sensor.data.state(), SensorState::Normal);
    assert_eq!(sensor.data.last_updated_ms(), 10);
    sensor.update(v1, 43);
    assert_eq!(sensor.moving_avg, 0.1 * v1 + 0.9 * v0);
    assert_eq!(sensor.raw, v1);
    assert_eq!(sensor.data.last_updated_ms(), 43);
}

#[test]
fn sensor_life_cycle() {
    let mut sensor = SensorData::new();
    assert_eq!(sensor.last_updated_ms(), 0);
    assert_eq!(sensor.update(5), SampleAction::Seed);
    assert_eq!(sensor.update(6), SampleAction::Blend);
    assert_eq!(sensor.update(7), SampleAction::Blend);
    assert_eq!(sensor.state(), SensorState::Normal);
}

#[test]
fn a_failed_sensor_is_frozen_until_it_is_reset() {
    let mut sensor = Smoothed::new();
    sensor.update(1.0, 1);
    sensor.update(2.0, 2);
    let frozen = sensor.moving_avg;
    sensor.data.fail();
    assert_eq!(sensor.data.state(), SensorState::SensorError);
    sensor.update(100.0, 3);
    sensor.update(200.0, 4);
    assert_eq!(sensor.moving_avg, frozen);
    assert_eq!(sensor.raw, 2.0);
    assert_eq!(sensor.data.last_updated_ms(), 2);
    assert_eq!(sensor.data.state(), SensorState::SensorError);
    sensor.data.reset();
    assert_eq!(sensor.data.state(), SensorState::Uninitialized);
    sensor.update(7.0, 5);
    assert_eq!(sensor.moving_avg, 7.0);
    assert_eq!(sensor.data.state(), SensorState::Normal);
}

#[test]
fn input_updates_one_sensor_at_a_time() {
    let mut input = Input::new();
    assert_eq!(input.update_sensor(SensorType::LightSensor, 9), SampleAction::Seed);
    assert_eq!(input.sensor(SensorType::LightSensor).state(), SensorState::Normal);
    assert_eq!(input.sensor(SensorType::LightSensor).last_updated_ms(), 9);
    for other in [
        SensorType::BatteryVoltage,
        SensorType::Thermometer,
        SensorType::Accelerometer,
        SensorType::MicLoudness,
    ] {
        assert_eq!(input.sensor(other).state(), SensorState::Uninitialized);
        assert_eq!(input.sensor(other).last_updated_ms(), 0);
    }
    assert_eq!(input.update_sensor(SensorType::LightSensor, 12), SampleAction::Blend);
    assert_eq!(SensorType::BatteryVoltage.index(), 0);
    assert_eq!(SensorType::Thermometer.index(), 1);
    assert_eq!(SensorType::LightSensor.index(), 2);
    assert_eq!(SensorType::Accelerometer.index(), 3);
    assert_eq!(SensorType::MicLoudness.index(), 4);
}

#[test]
fn battery_mapping_at_the_ends_of_the_scale() {
    assert_eq!(millivolts_from_raw(4095), 6600);
    assert_eq!(percentage_from_raw(4095), 100);
    assert_eq!(millivolts_from_raw(0), 0);
    assert_eq!(percentage_from_raw(0), 0);
}

#[test]
fn battery_percentage_between_the_ends() {
    // 3.0 V is code 1861.36: up to 1861 the battery is empty.
    assert_eq!(percentage_from_raw(1861), 0);
    assert_eq!(percentage_from_raw(1862), 0);
    assert_eq!(percentage_from_raw(1868), 0);
    assert_eq!(percentage_from_raw(1869), 1);
    assert_eq!(percentage_from_raw(2233), 49);
    assert_eq!(percentage_from_raw(2234), 50);
    assert_eq!(percentage_from_raw(2598), 98);
    assert_eq!(percentage_from_raw(2605), 99);
    // 4.2 V is code 2605.9: from 2606 on the battery is full.
    assert_eq!(percentage_from_raw(2606), 100);
    assert_eq!(percentage_from_raw(u16::MAX), 100);
    assert_eq!(millivolts_from_raw(1861), 2999);
    assert_eq!(millivolts_from_raw(1862), 3001);
    assert_eq!(millivolts_from_raw(2606), 4200);
    assert_eq!(millivolts_from_raw(u16::MAX), 105624);
}

#[test]
fn the_integer_percentage_is_the_floating_point_one() {
    for raw in 0..=u16::MAX {
        let voltage = (raw as f32 / 4095.0) * 3.3 * 2.0;
        let percentage = ((voltage - 3.0) / 1.2 * 100.0).clamp(0.0, 100.0) as u8;
        assert_eq!(percentage_from_raw(raw), percentage, "raw code {}", raw);
    }
}

#[test]
fn battery_constants() {
    assert_eq!(ADC_MAX_CODE, 4095);
    assert_eq!(ADC_FULL_SCALE_MV * BATTERY_DIVIDER, BATTERY_FULL_SCALE_MV);
    assert_eq!(BATTERY_EMPTY_MV, 3000);
    assert_eq!(BATTERY_FULL_MV, 4200);
}

#[test]
fn power_control_follows_the_readings() {
    let mut power = PowerControl::new();
    assert_eq!(power.shared_state(), PowerState::default());
    assert!(!power.is_peripheral_power_enabled());
    assert!(power.is_battery_critical());
    assert!(power.is_battery_low());
    power.update(Some(2234));
    assert_eq!(power.get_battery_percentage(), 50);
    assert_eq!(power.get_battery_millivolts(), 3600);
    assert!(!power.is_battery_low());
    // a failed read keeps the last values
    power.update(None);
    assert_eq!(power.get_battery_percentage(), 50);
    assert_eq!(power.shared_state().battery_raw, 2234);
    power.update(Some(1898));
    assert_eq!(power.get_battery_percentage(), 4);
    assert!(power.is_battery_critical());
    power.update(Some(1899));
    assert_eq!(power.get_battery_percentage(), 5);
    assert!(!power.is_battery_critical());
    assert!(power.is_battery_low());
    power.update(Some(2010));
    assert_eq!(power.get_battery_percentage(), 19);
    assert!(power.is_battery_low());
    power.update(Some(2011));
    assert_eq!(power.get_battery_percentage(), 20);
    assert!(!power.is_battery_low());
}

#[test]
fn the_peripheral_rail_is_high_when_enabled() {
    let mut power = PowerControl::new();
    power.update(Some(3000));
    assert_eq!(power.set_peripheral_power(true), PinLevel::High);
    assert!(power.is_peripheral_power_enabled());
    assert_eq!(power.get_battery_percentage(), 100);
    assert_eq!(power.set_peripheral_power(false), PinLevel::Low);
    assert!(!power.is_peripheral_power_enabled());
    assert!(!power.shared_state().is_charging);
    assert!(!power.shared_state().charger_connected);
}

#[test]
fn codes_as_thousandths_of_full_scale() {
    assert_eq!(permille_from_raw(0), 0);
    assert_eq!(permille_from_raw(1), 0);
    assert_eq!(permille_from_raw(5), 1);
    assert_eq!(permille_from_raw(2048), 500);
    assert_eq!(permille_from_raw(4094), 999);
    assert_eq!(permille_from_raw(4095), 1000);
    assert_eq!(permille_from_raw(u16::MAX), 1000);
}

#[test]
fn the_sensor_driver_keeps_the_last_good_reading() {
    let mut driver = SensorDriver::new();
    assert_eq!(driver.shared_state(), SharedSensorState::default());
    driver.update(&AdcReadings { battery: Some(2234), light: Some(4095), mic: Some(2048) });
    assert_eq!(
        driver.shared_state(),
        SharedSensorState {
            battery_raw: 2234,
            thermometer: 20,
            light_raw: 4095,
            accelerometer: 0,
            mic_raw: 2048,
        }
    );
    driver.update(&AdcReadings { battery: None, light: Some(0), mic: None });
    assert_eq!(driver.get_battery_percentage(), 50);
    assert_eq!(driver.get_battery_millivolts(), 3600);
    assert_eq!(driver.get_light_level(), 0);
    assert_eq!(driver.get_mic_level(), 500);
    assert_eq!(driver.get_temperature(), 20);
}

#[test]
fn the_sensor_driver_reports_every_sensor_to_the_input() {
    let driver = SensorDriver::new();
    let mut input = Input::new();
    input.update_sensor(SensorType::Thermometer, 1);
    let actions = driver.apply_to_input(&mut input, 50);
    assert_eq!(
        actions,
        [
            SampleAction::Seed,
            SampleAction::Blend,
            SampleAction::Seed,
            SampleAction::Seed,
            SampleAction::Seed
        ]
    );
    let actions = driver.apply_to_input(&mut input, 83);
    assert_eq!(actions, [SampleAction::Blend; 5]);
    assert_eq!(input.sensor(SensorType::MicLoudness).last_updated_ms(), 83);
}

#[test]
fn adc_channels_take_the_attenuation_of_the_bus() {
    let config = AdcBusConfig::default();
    assert!(config.use_11db_attenuation);
    let bus = AdcBus::new(config);
    assert_eq!(bus.config(), config);
    assert_eq!(bus.default_channel_config(), Attenuation::Db11);
    assert_eq!(
        bus.create_battery_channel(),
        AdcChannel { pin: AdcPin::Gpio4, attenuation: Attenuation::Db11 }
    );
    assert_eq!(
        bus.create_light_channel(),
        AdcChannel { pin: AdcPin::Gpio2, attenuation: Attenuation::Db11 }
    );
    assert_eq!(
        bus.create_mic_channel(),
        AdcChannel { pin: AdcPin::Gpio1, attenuation: Attenuation::Db11 }
    );
    let plain = AdcBus::new(AdcBusConfig { use_11db_attenuation: false });
    assert_eq!(plain.default_channel_config(), Attenuation::Db0);
    assert_eq!(plain.create_mic_channel().attenuation, Attenuation::Db0);
}
