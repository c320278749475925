use tama_core::peripherals::sensors_i2c::{
    device_name, scan_report, Hdc1080Driver, I2cBusConfig, I2cScanner, I2cSensorBus,
    I2cSensorError, Mma8451Driver, HDC1080_ADDR, MMA8451_ADDR_SA0_HIGH, MMA8451_ADDR_SA0_LOW,
    SCAN_FIRST_ADDRESS, SCAN_LAST_ADDRESS,
};

/// A bus on which the devices at the given addresses answer.
fn bus_with(devices: &[u8]) -> [bool; 128] {
    let mut responds = [false; 128];
    for address in devices {
        responds[*address as usize] = true;
    }
    responds
}

/// Runs a scan the way the firmware does: probe what the scanner names.
fn probe_all(responds: &[bool; 128]) -> (Vec<u8>, Vec<u8>) {
    let mut scanner = I2cSensorBus::new(I2cBusConfig::default()).scan();
    let mut probed = Vec::new();
    while let Some(address) = scanner.next_address() {
        probed.push(address);
        scanner = scanner.record(responds[address as usize]);
    }
    (probed, scanner.into_found())
}

#[test]
fn a_scan_finds_exactly_the_devices_that_answer() {
    let responds = bus_with(&[0x1C, 0x40]);
    assert_eq!(I2cScanner::scan(&responds), vec![0x1C, 0x40]);
    let (_, found) = probe_all(&responds);
    assert_eq!(found, vec![0x1C, 0x40]);
    let report = scan_report(&found);
    assert!(report.contains("MMA8451 Accelerometer"));
    assert!(report.contains("HDC1080 Temp/Humidity"));
}

#[test]
fn a_scan_probes_every_address_from_0x08_to_0x77_once() {
    let (probed, found) = probe_all(&bus_with(&[]));
    let expected: Vec<u8> = (SCAN_FIRST_ADDRESS..=SCAN_LAST_ADDRESS).collect();
    assert_eq!(probed, expected);
    assert_eq!(probed.len(), 112);
    assert!(found.is_empty());
}

#[test]
fn reserved_addresses_are_never_found() {
    let responds = [true; 128];
    let found = I2cScanner::scan(&responds);
    let expected: Vec<u8> = (0x08..=0x77).collect();
    assert_eq!(found, expected);
    let found = I2cScanner::scan(&bus_with(&[0x00, 0x07, 0x78, 0x7F]));
    assert!(found.is_empty());
    assert_eq!(I2cScanner::scan(&bus_with(&[0x07, 0x08, 0x77, 0x78])), vec![0x08, 0x77]);
}

#[test]
fn a_finished_scan_records_nothing_more() {
    let mut scanner = I2cScanner::new();
    while scanner.next_address().is_some() {
        scanner = scanner.record(false);
    }
    scanner = scanner.record(true);
    assert_eq!(scanner.next_address(), None);
    assert!(scanner.found().is_empty());
}

#[test]
fn found_grows_as_the_scan_goes_on() {
    let mut scanner = I2cScanner::new();
    assert_eq!(scanner.next_address(), Some(0x08));
    scanner = scanner.record(true);
    assert_eq!(scanner.found(), &vec![0x08]);
    assert_eq!(scanner.next_address(), Some(0x09));
    scanner = scanner.record(false);
    scanner = scanner.record(true);
    assert_eq!(scanner.found(), &vec![0x08, 0x0A]);
}

#[test]
fn the_report_of_an_empty_scan() {
    assert_eq!(scan_report(&vec![]), "I2C scan: No devices found");
}

#[test]
fn the_report_lists_each_device_with_address_and_name() {
    assert_eq!(
        scan_report(&vec![0x1C, 0x40]),
        "I2C scan: Found 2 device(s):\n[0x1C: MMA8451 Accelerometer]\n[0x40: HDC1080 Temp/Humidity]"
    );
    assert_eq!(
        scan_report(&vec![0x08, 0x1D, 0x5A]),
        "I2C scan: Found 3 device(s):\n[0x08: unknown device]\n[0x1D: MMA8451 Accelerometer]\n[0x5A: unknown device]"
    );
    let bus = I2cSensorBus::new(I2cBusConfig::default());
    assert_eq!(bus.scan_report(&vec![0x0F]), "I2C scan: Found 1 device(s):\n[0x0F: unknown device]");
}

#[test]
fn the_report_counts_in_decimal() {
    let all: Vec<u8> = (0x08..=0x77).collect();
    let report = scan_report(&all);
    assert!(report.starts_with("I2C scan: Found 112 device(s):\n[0x08: "));
    assert!(report.ends_with("\n[0x77: unknown device]"));
    assert_eq!(report.lines().count(), 113);
    let ten: Vec<u8> = (0x10..0x1A).collect();
    assert!(scan_report(&ten).starts_with("I2C scan: Found 10 device(s):"));
}

#[test]
fn device_names() {
    assert_eq!(device_name(MMA8451_ADDR_SA0_LOW), "MMA8451 Accelerometer");
    assert_eq!(device_name(MMA8451_ADDR_SA0_HIGH), "MMA8451 Accelerometer");
    assert_eq!(device_name(HDC1080_ADDR), "HDC1080 Temp/Humidity");
    assert_eq!(device_name(0x1B), "unknown device");
    assert_eq!(device_name(0x41), "unknown device");
}

#[test]
fn bus_configuration_defaults() {
    let config = I2cBusConfig::default();
    assert_eq!(config.baudrate_hz, 400_000);
    assert_eq!(config.timeout_ms, 1000);
    assert_eq!(I2cSensorBus::new(config).config(), config);
}

#[test]
fn the_accelerometer_is_initialised_by_its_identity() {
    let mut driver = Mma8451Driver::new_default();
    assert_eq!(driver.address(), 0x1C);
    assert_eq!(driver.name(), "MMA8451 Accelerometer");
    assert_eq!(Mma8451Driver::new(0x1D).address(), 0x1D);
    assert_eq!(driver.read_acceleration_raw(), Err(I2cSensorError::NotInitialized));
    assert_eq!(driver.init(Ok(0x2A)), Err(I2cSensorError::DeviceNotFound));
    assert!(!driver.is_initialized());
    assert_eq!(driver.init(Err(I2cSensorError::BusError(-1))), Err(I2cSensorError::BusError(-1)));
    assert!(!driver.is_initialized());
    assert_eq!(driver.init(Ok(0x1A)), Ok(()));
    assert!(driver.is_initialized());
    assert_eq!(driver.read_acceleration_raw(), Ok((0, 0, 0)));
    // a later failure does not undo the initialisation
    assert_eq!(driver.init(Err(I2cSensorError::Timeout)), Err(I2cSensorError::Timeout));
    assert!(driver.is_initialized());
}

#[test]
fn presence_only_needs_a_successful_read() {
    let accelerometer = Mma8451Driver::new_default();
    assert!(accelerometer.is_present(&Ok(0x00)));
    assert!(accelerometer.is_present(&Ok(0x1A)));
    assert!(!accelerometer.is_present(&Err(I2cSensorError::Timeout)));
    let hygrometer = Hdc1080Driver::new();
    assert!(hygrometer.is_present(&Ok(0xFFFF)));
    assert!(!hygrometer.is_present(&Err(I2cSensorError::BusError(263))));
}

#[test]
fn the_hygrometer_is_initialised_by_its_manufacturer() {
    let mut driver = Hdc1080Driver::new();
    assert_eq!(driver.address(), 0x40);
    assert_eq!(driver.name(), "HDC1080 Temp/Humidity");
    assert_eq!(driver.read_temperature(), Err(I2cSensorError::NotInitialized));
    assert_eq!(driver.read_humidity(), Err(I2cSensorError::NotInitialized));
    assert_eq!(driver.read_temp_and_humidity(), Err(I2cSensorError::NotInitialized));
    assert_eq!(driver.check_manufacturer(Ok(0x5449)), Ok(()));
    assert_eq!(driver.check_manufacturer(Ok(0x5448)), Err(I2cSensorError::DeviceNotFound));
    assert_eq!(
        driver.check_manufacturer(Err(I2cSensorError::InvalidData)),
        Err(I2cSensorError::InvalidData)
    );
    assert_eq!(driver.init(Ok(0x1050), Ok(0x1050)), Err(I2cSensorError::DeviceNotFound));
    assert_eq!(
        driver.init(Err(I2cSensorError::DeviceError), Ok(0x1050)),
        Err(I2cSensorError::DeviceError)
    );
    assert_eq!(
        driver.init(Ok(0x5449), Err(I2cSensorError::Timeout)),
        Err(I2cSensorError::Timeout)
    );
    assert!(!driver.is_initialized());
    // the device identity only has to be readable
    assert_eq!(driver.init(Ok(0x5449), Ok(0x0000)), Ok(()));
    assert!(driver.is_initialized());
    assert_eq!(driver.read_temperature(), Ok(20));
    assert_eq!(driver.read_humidity(), Ok(50));
    assert_eq!(driver.read_temp_and_humidity(), Ok((20, 50)));
}

#[test]
fn identity_registers_are_read_high_byte_first() {
    assert_eq!(Hdc1080Driver::decode_id([0x54, 0x49]), 0x5449);
    assert_eq!(Hdc1080Driver::decode_id([0x10, 0x50]), 0x1050);
    assert_eq!(Hdc1080Driver::decode_id([0x00, 0x01]), 1);
    assert_eq!(Hdc1080Driver::decode_id([0xFF, 0xFF]), 0xFFFF);
}
