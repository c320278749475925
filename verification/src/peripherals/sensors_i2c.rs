//! The I2C sensor rail: the bus scan, its report, and the identity checks of
//! the accelerometer (MMA8451) and of the temperature and humidity sensor
//! (HDC1080).
//!
//! Nothing here touches the bus. The caller makes each transfer and reports
//! how it went.

use vstd::prelude::*;
use vstd::string::StringExecFns;

verus! {

/// Address of the MMA8451 with its SA0 pin low.
pub const MMA8451_ADDR_SA0_LOW: u8 = 0x1C;

/// Address of the MMA8451 with its SA0 pin high.
pub const MMA8451_ADDR_SA0_HIGH: u8 = 0x1D;

/// Address of the HDC1080.
pub const HDC1080_ADDR: u8 = 0x40;

/// First address that a scan probes; the addresses below are reserved.
pub const SCAN_FIRST_ADDRESS: u8 = 0x08;

/// Last address that a scan probes; the addresses above are reserved.
pub const SCAN_LAST_ADDRESS: u8 = 0x77;

/// How long a probe waits for an answer, in milliseconds.
pub const PROBE_TIMEOUT_MS: u32 = 10;

/// Number of 7-bit addresses.
pub const ADDRESS_SPACE: usize = 128;

/// Configuration of the bus.
#[derive(Clone, Copy, Debug, PartialEq, Eq, Structural)]
pub struct I2cBusConfig {
    pub baudrate_hz: u32,
    pub timeout_ms: u32,
}

impl Default for I2cBusConfig {
    fn default() -> (config: Self)
        ensures
            config == (I2cBusConfig { baudrate_hz: 400_000, timeout_ms: 1000 }),
    {
        Self { baudrate_hz: 400_000, timeout_ms: 1000 }
    }
}

/// What can go wrong with a sensor on the bus.
#[derive(Clone, Copy, Debug, PartialEq, Eq, Structural)]
pub enum I2cSensorError {
    /// The transfer failed, with the bus driver's error code.
    BusError(i32),
    /// The device at the address is not the expected one.
    DeviceNotFound,
    /// The device sent data that makes no sense.
    InvalidData,
    /// The device reported an error.
    DeviceError,
    /// The device did not answer in time.
    Timeout,
    /// The sensor was not initialised.
    NotInitialized,
}

/// The addresses that answered, in ascending order, where `answers[i]` says
/// whether the address `SCAN_FIRST_ADDRESS + i` did.
pub open spec fn found_in(answers: Seq<bool>) -> Seq<u8>
    decreases answers.len(),
{
    if answers.len() == 0 {
        Seq::empty()
    } else {
        let before = found_in(answers.drop_last());
        if answers.last() {
            before.push((0x08 + answers.len() - 1) as u8)
        } else {
            before
        }
    }
}

/// Number of addresses that a scan probes.
pub open spec fn scan_length() -> nat {
    0x70
}

/// A scan finds exactly the addresses that answered, each once, in ascending
/// order.
pub proof fn lemma_found_in(answers: Seq<bool>)
    requires
        answers.len() <= scan_length(),
    ensures
        found_in(answers).len() <= answers.len(),
        forall|a: u8|
            found_in(answers).contains(a) <==> (0x08 <= a < 0x08 + answers.len() && answers[a
                - 0x08]),
        forall|i: int, j: int|
            0 <= i < j < found_in(answers).len() ==> found_in(answers)[i] < found_in(answers)[j],
    decreases answers.len(),
{
    if answers.len() > 0 {
        let shorter = answers.drop_last();
        let before = found_in(shorter);
        lemma_found_in(shorter);
        let last = (0x08 + answers.len() - 1) as u8;
        assert forall|a: u8|
            found_in(answers).contains(a) <==> (0x08 <= a < 0x08 + answers.len() && answers[a
                - 0x08]) by {
            if answers.last() {
                let now = before.push(last);
                assert(now[before.len() as int] == last);
                if before.contains(a) {
                    let i = choose|i: int| 0 <= i < before.len() && before[i] == a;
                    assert(now[i] == a);
                }
            }
        }
        if answers.last() {
            let now = before.push(last);
            assert forall|i: int, j: int| 0 <= i < j < now.len() implies now[i] < now[j] by {
                if j == before.len() {
                    assert(before.contains(before[i]));
                }
            }
        }
    }
}

/// A scan of the bus in progress. The caller probes the address that
/// `next_address` names, with a read of one byte and a timeout of
/// `PROBE_TIMEOUT_MS`, and reports with `record` whether the read succeeded,
/// until `next_address` names none.
pub struct I2cScanner {
    next: u8,
    found: Vec<u8>,
    answers: Ghost<Seq<bool>>,
}

impl I2cScanner {
    #[verifier::type_invariant]
    spec fn wf(&self) -> bool {
        &&& self.answers@.len() <= scan_length()
        &&& self.next == 0x08 + self.answers@.len()
        &&& self.found@ == found_in(self.answers@)
    }

    /// The answers reported so far, from `SCAN_FIRST_ADDRESS` on.
    pub closed spec fn answers(&self) -> Seq<bool> {
        self.answers@
    }

    /// The addresses found so far.
    pub closed spec fn spec_found(&self) -> Seq<u8> {
        self.found@
    }

    /// A scan that has probed nothing yet.
    pub fn new() -> (scanner: Self)
        ensures
            scanner.answers() == Seq::<bool>::empty(),
            scanner.spec_found() == Seq::<u8>::empty(),
    {
        I2cScanner { next: SCAN_FIRST_ADDRESS, found: Vec::new(), answers: Ghost(Seq::empty()) }
    }

    /// The address to probe next, or `None` once every address from
    /// `SCAN_FIRST_ADDRESS` to `SCAN_LAST_ADDRESS` has been probed.
    pub fn next_address(&self) -> (address: Option<u8>)
        ensures
            self.answers().len() <= scan_length(),
            address == if self.answers().len() < scan_length() {
                Some((0x08 + self.answers().len()) as u8)
            } else {
                None
            },
    {
        proof {
            use_type_invariant(self);
        }
        if self.next <= SCAN_LAST_ADDRESS {
            Some(self.next)
        } else {
            None
        }
    }

    /// Reports whether the address that `next_address` named answered, and
    /// gives the scan that goes on from there. On a finished scan nothing is
    /// recorded.
    pub fn record(self, responded: bool) -> (scanner: Self)
        ensures
            scanner.answers() == if self.answers().len() < scan_length() {
                self.answers().push(responded)
            } else {
                self.answers()
            },
            scanner.spec_found() == found_in(scanner.answers()),
    {
        proof {
            use_type_invariant(&self);
        }
        if self.next <= SCAN_LAST_ADDRESS {
            let I2cScanner { next, found, answers } = self;
            let mut found = found;
            if responded {
                found.push(next);
            }
            proof {
                assert(answers@.push(responded).drop_last() =~= answers@);
            }
            I2cScanner { next: next + 1, found, answers: Ghost(answers@.push(responded)) }
        } else {
            self
        }
    }

    /// The addresses found so far, in ascending order.
    pub fn found(&self) -> (found: &Vec<u8>)
        ensures
            found@ == found_in(self.answers()),
            found@ == self.spec_found(),
    {
        proof {
            use_type_invariant(self);
        }
        &self.found
    }

    /// Ends the scan and gives the addresses found, in ascending order.
    pub fn into_found(self) -> (found: Vec<u8>)
        ensures
            found@ == found_in(self.answers()),
    {
        proof {
            use_type_invariant(&self);
        }
        let I2cScanner { next: _, found, answers: _ } = self;
        found
    }

    /// Scans a bus whose answers are known beforehand: `responds[a]` says
    /// whether the device at address `a` acknowledges a read.
    pub fn scan(responds: &[bool; 128]) -> (found: Vec<u8>)
        ensures
            found@ == found_in(Seq::new(scan_length(), |i: int| responds@[0x08 + i])),
    {
        let mut scanner = I2cScanner::new();
        loop
            invariant
                scanner.answers().len() <= scan_length(),
                scanner.answers() == Seq::new(
                    scanner.answers().len(),
                    |i: int| responds@[0x08 + i],
                ),
            ensures
                scanner.answers() == Seq::new(scan_length(), |i: int| responds@[0x08 + i]),
            decreases scan_length() - scanner.answers().len(),
        {
            match scanner.next_address() {
                Some(address) => {
                    scanner = scanner.record(responds[address as usize]);
                },
                None => {
                    break ;
                },
            }
        }
        scanner.into_found()
    }
}


/// The character of one digit; the digits from ten on are the capital letters
/// `A` to `F`.
pub open spec fn digit_char(digit: int) -> char {
    if digit == 0 {
        '0'
    } else if digit == 1 {
        '1'
    } else if digit == 2 {
        '2'
    } else if digit == 3 {
        '3'
    } else if digit == 4 {
        '4'
    } else if digit == 5 {
        '5'
    } else if digit == 6 {
        '6'
    } else if digit == 7 {
        '7'
    } else if digit == 8 {
        '8'
    } else if digit == 9 {
        '9'
    } else if digit == 10 {
        'A'
    } else if digit == 11 {
        'B'
    } else if digit == 12 {
        'C'
    } else if digit == 13 {
        'D'
    } else if digit == 14 {
        'E'
    } else {
        'F'
    }
}

/// A number in decimal, without leading zeros.
pub open spec fn decimal_text(n: nat) -> Seq<char>
    decreases n,
{
    if n < 10 {
        seq![digit_char(n as int)]
    } else {
        decimal_text(n / 10).push(digit_char((n % 10) as int))
    }
}

/// A byte as two hexadecimal digits.
pub open spec fn hex_text(byte: u8) -> Seq<char> {
    seq![digit_char(byte as int / 16), digit_char(byte as int % 16)]
}

/// The name under which the report lists the device at an address.
pub open spec fn device_name_text(address: u8) -> Seq<char> {
    if address == MMA8451_ADDR_SA0_LOW || address == MMA8451_ADDR_SA0_HIGH {
        "MMA8451 Accelerometer"@
    } else if address == HDC1080_ADDR {
        "HDC1080 Temp/Humidity"@
    } else {
        "unknown device"@
    }
}

/// The line of the report for one address.
pub open spec fn report_line(address: u8) -> Seq<char> {
    "\n[0x"@ + hex_text(address) + ": "@ + device_name_text(address) + "]"@
}

/// The lines of the report for the addresses, in their order.
pub open spec fn report_lines(found: Seq<u8>) -> Seq<char>
    decreases found.len(),
{
    if found.len() == 0 {
        Seq::empty()
    } else {
        report_lines(found.drop_last()) + report_line(found.last())
    }
}

/// The report of a scan that found `found`.
pub open spec fn report_text(found: Seq<u8>) -> Seq<char> {
    if found.len() == 0 {
        "I2C scan: No devices found"@
    } else {
        "I2C scan: Found "@ + decimal_text(found.len()) + " device(s):"@ + report_lines(found)
    }
}

/// The text of one digit below sixteen.
fn digit_str(digit: u8) -> (text: &'static str)
    requires
        digit < 16,
    ensures
        text@ == seq![digit_char(digit as int)],
{
    proof {
        reveal_strlit("0");
        reveal_strlit("1");
        reveal_strlit("2");
        reveal_strlit("3");
        reveal_strlit("4");
        reveal_strlit("5");
        reveal_strlit("6");
        reveal_strlit("7");
        reveal_strlit("8");
        reveal_strlit("9");
        reveal_strlit("A");
        reveal_strlit("B");
        reveal_strlit("C");
        reveal_strlit("D");
        reveal_strlit("E");
        reveal_strlit("F");
    }
    let text = match digit {
        0 => "0",
        1 => "1",
        2 => "2",
        3 => "3",
        4 => "4",
        5 => "5",
        6 => "6",
        7 => "7",
        8 => "8",
        9 => "9",
        10 => "A",
        11 => "B",
        12 => "C",
        13 => "D",
        14 => "E",
        _ => "F",
    };
    text
}

/// Appends a number in decimal.
fn append_decimal(text: &mut String, n: usize)
    ensures
        final(text)@ == old(text)@ + decimal_text(n as nat),
    decreases n,
{
    if n >= 10 {
        append_decimal(text, n / 10);
    }
    text.append(digit_str((n % 10) as u8));
}

/// The name under which the report lists the device at an address.
pub fn device_name(address: u8) -> (name: &'static str)
    ensures
        name@ == device_name_text(address),
{
    if address == MMA8451_ADDR_SA0_LOW || address == MMA8451_ADDR_SA0_HIGH {
        "MMA8451 Accelerometer"
    } else if address == HDC1080_ADDR {
        "HDC1080 Temp/Humidity"
    } else {
        "unknown device"
    }
}

/// The report of a scan: a line that says how many devices answered, and
/// below it one line for each with its address and its name.
pub fn scan_report(found: &Vec<u8>) -> (report: String)
    ensures
        report@ == report_text(found@),
{
    if found.len() == 0 {
        return String::from_str("I2C scan: No devices found");
    }
    let mut report = String::from_str("I2C scan: Found ");
    append_decimal(&mut report, found.len());
    report.append(" device(s):");
    let ghost header = report@;
    let mut i: usize = 0;
    while i < found.len()
        invariant
            i <= found.len(),
            report@ == header + report_lines(found@.take(i as int)),
        decreases found.len() - i,
    {
        let address = found[i];
        report.append("\n[0x");
        report.append(digit_str(address / 16));
        report.append(digit_str(address % 16));
        report.append(": ");
        report.append(device_name(address));
        report.append("]");
        proof {
            assert(found@.take(i + 1).drop_last() =~= found@.take(i as int));
        }
        i += 1;
    }
    assert(found@.take(found.len() as int) =~= found@);
    report
}


/// Register of the MMA8451 that holds its identity.
pub const MMA8451_WHO_AM_I_REG: u8 = 0x0D;

/// The identity that an MMA8451 reports.
pub const MMA8451_EXPECTED_ID: u8 = 0x1A;

/// Register of the HDC1080 that holds its manufacturer's identity.
pub const HDC1080_MANUFACTURER_ID_REG: u8 = 0xFE;

/// Register of the HDC1080 that holds its device identity.
pub const HDC1080_DEVICE_ID_REG: u8 = 0xFF;

/// The manufacturer's identity that an HDC1080 reports (Texas Instruments).
pub const HDC1080_EXPECTED_MANUFACTURER_ID: u16 = 0x5449;

/// The device identity that an HDC1080 reports.
pub const HDC1080_EXPECTED_DEVICE_ID: u16 = 0x1050;

/// How long a register read waits for an answer, in milliseconds.
pub const REGISTER_TIMEOUT_MS: u32 = 100;

/// The outcome of an identity check: the error of a failed read is passed
/// on, an identity other than `expected` means that the device was not found.
pub open spec fn identity_check<T>(read: Result<T, I2cSensorError>, expected: T) -> Result<
    (),
    I2cSensorError,
> {
    match read {
        Err(e) => Err(e),
        Ok(id) => if id == expected {
            Ok(())
        } else {
            Err(I2cSensorError::DeviceNotFound)
        },
    }
}

/// The MMA8451 accelerometer.
#[derive(Clone, Copy, Debug, PartialEq, Eq, Structural)]
pub struct Mma8451Driver {
    address: u8,
    initialized: bool,
}

impl Mma8451Driver {
    pub closed spec fn spec_address(&self) -> u8 {
        self.address
    }

    pub closed spec fn spec_initialized(&self) -> bool {
        self.initialized
    }

    /// A driver for the device at `address`: `MMA8451_ADDR_SA0_LOW` or
    /// `MMA8451_ADDR_SA0_HIGH`, as the SA0 pin says.
    pub fn new(address: u8) -> (driver: Self)
        ensures
            driver.spec_address() == address,
            !driver.spec_initialized(),
    {
        Self { address, initialized: false }
    }

    /// A driver for the device at `MMA8451_ADDR_SA0_LOW`.
    pub fn new_default() -> (driver: Self)
        ensures
            driver.spec_address() == MMA8451_ADDR_SA0_LOW,
            !driver.spec_initialized(),
    {
        Self::new(MMA8451_ADDR_SA0_LOW)
    }

    #[verifier::when_used_as_spec(spec_address)]
    pub fn address(&self) -> (address: u8)
        ensures
            address == self.spec_address(),
    {
        self.address
    }

    pub fn name(&self) -> (name: &'static str)
        ensures
            name@ == "MMA8451 Accelerometer"@,
    {
        "MMA8451 Accelerometer"
    }

    #[verifier::when_used_as_spec(spec_initialized)]
    pub fn is_initialized(&self) -> (initialized: bool)
        ensures
            initialized == self.spec_initialized(),
    {
        self.initialized
    }

    /// Whether the device is there, from a read of its identity register: it
    /// is if the read succeeded, whatever it returned.
    pub fn is_present(&self, who_am_i: &Result<u8, I2cSensorError>) -> (present: bool)
        ensures
            present == (who_am_i is Ok),
    {
        who_am_i.is_ok()
    }

    /// Initialises the driver from a read of the identity register. It is
    /// initialised if the read returned `MMA8451_EXPECTED_ID`, and stays as
    /// it was otherwise.
    pub fn init(&mut self, who_am_i: Result<u8, I2cSensorError>) -> (outcome: Result<
        (),
        I2cSensorError,
    >)
        ensures
            outcome == identity_check(who_am_i, MMA8451_EXPECTED_ID),
            final(self).spec_address() == old(self).spec_address(),
            final(self).spec_initialized() == (old(self).spec_initialized() || outcome is Ok),
    {
        match who_am_i {
            Err(e) => Err(e),
            Ok(id) => {
                if id != MMA8451_EXPECTED_ID {
                    return Err(I2cSensorError::DeviceNotFound);
                }
                self.initialized = true;
                Ok(())
            },
        }
    }

    /// The raw acceleration on the three axes. The registers are not read
    /// yet: an initialised driver reports zero on every axis.
    pub fn read_acceleration_raw(&self) -> (reading: Result<(i16, i16, i16), I2cSensorError>)
        ensures
            reading == if self.spec_initialized() {
                Ok::<(i16, i16, i16), I2cSensorError>((0i16, 0i16, 0i16))
            } else {
                Err::<(i16, i16, i16), I2cSensorError>(I2cSensorError::NotInitialized)
            },
    {
        if !self.initialized {
            return Err(I2cSensorError::NotInitialized);
        }
        Ok((0, 0, 0))
    }
}

/// The value of an identity register of the HDC1080 from the two bytes that
/// were read, the high byte first.
pub open spec fn register_value(bytes: [u8; 2]) -> int {
    bytes@[0] * 256 + bytes@[1]
}

/// The HDC1080 temperature and humidity sensor.
#[derive(Clone, Copy, Debug, PartialEq, Eq, Structural)]
pub struct Hdc1080Driver {
    address: u8,
    initialized: bool,
}

impl Hdc1080Driver {
    pub closed spec fn spec_address(&self) -> u8 {
        self.address
    }

    pub closed spec fn spec_initialized(&self) -> bool {
        self.initialized
    }

    /// A driver for the device at `HDC1080_ADDR`.
    pub fn new() -> (driver: Self)
        ensures
            driver.spec_address() == HDC1080_ADDR,
            !driver.spec_initialized(),
    {
        Self { address: HDC1080_ADDR, initialized: false }
    }

    #[verifier::when_used_as_spec(spec_address)]
    pub fn address(&self) -> (address: u8)
        ensures
            address == self.spec_address(),
    {
        self.address
    }

    pub fn name(&self) -> (name: &'static str)
        ensures
            name@ == "HDC1080 Temp/Humidity"@,
    {
        "HDC1080 Temp/Humidity"
    }

    #[verifier::when_used_as_spec(spec_initialized)]
    pub fn is_initialized(&self) -> (initialized: bool)
        ensures
            initialized == self.spec_initialized(),
    {
        self.initialized
    }

    /// The value of an identity register from the two bytes that were read.
    pub fn decode_id(bytes: [u8; 2]) -> (id: u16)
        ensures
            id == register_value(bytes),
    {
        (bytes[0] as u16) * 256 + (bytes[1] as u16)
    }

    /// Whether the device is there, from a read of its manufacturer
    /// register: it is if the read succeeded, whatever it returned.
    pub fn is_present(&self, manufacturer_id: &Result<u16, I2cSensorError>) -> (present: bool)
        ensures
            present == (manufacturer_id is Ok),
    {
        manufacturer_id.is_ok()
    }

    /// First step of the initialisation: checks the manufacturer's identity.
    /// Only after an `Ok` is the device identity read.
    pub fn check_manufacturer(&self, manufacturer_id: Result<u16, I2cSensorError>) -> (outcome:
        Result<(), I2cSensorError>)
        ensures
            outcome == identity_check(manufacturer_id, HDC1080_EXPECTED_MANUFACTURER_ID),
    {
        match manufacturer_id {
            Err(e) => Err(e),
            Ok(id) => if id != HDC1080_EXPECTED_MANUFACTURER_ID {
                Err(I2cSensorError::DeviceNotFound)
            } else {
                Ok(())
            },
        }
    }

    /// Initialises the driver from the reads of both identity registers. The
    /// manufacturer's identity has to be the expected one; the device
    /// identity only has to be readable.
    pub fn init(
        &mut self,
        manufacturer_id: Result<u16, I2cSensorError>,
        device_id: Result<u16, I2cSensorError>,
    ) -> (outcome: Result<(), I2cSensorError>)
        ensures
            outcome == match identity_check(manufacturer_id, HDC1080_EXPECTED_MANUFACTURER_ID) {
                Err(e) => Err::<(), I2cSensorError>(e),
                Ok(_) => match device_id {
                    Err(e) => Err::<(), I2cSensorError>(e),
                    Ok(_) => Ok::<(), I2cSensorError>(()),
                },
            },
            final(self).spec_address() == old(self).spec_address(),
            final(self).spec_initialized() == (old(self).spec_initialized() || outcome is Ok),
    {
        match self.check_manufacturer(manufacturer_id) {
            Err(e) => Err(e),
            Ok(_) => match device_id {
                Err(e) => Err(e),
                Ok(_) => {
                    self.initialized = true;
                    Ok(())
                },
            },
        }
    }

    /// Temperature in degrees Celsius. The device is not measured yet: an
    /// initialised driver reports 20.
    pub fn read_temperature(&self) -> (reading: Result<i16, I2cSensorError>)
        ensures
            reading == if self.spec_initialized() {
                Ok::<i16, I2cSensorError>(20i16)
            } else {
                Err::<i16, I2cSensorError>(I2cSensorError::NotInitialized)
            },
    {
        if !self.initialized {
            return Err(I2cSensorError::NotInitialized);
        }
        Ok(20)
    }

    /// Relative humidity in percent. The device is not measured yet: an
    /// initialised driver reports 50.
    pub fn read_humidity(&self) -> (reading: Result<u8, I2cSensorError>)
        ensures
            reading == if self.spec_initialized() {
                Ok::<u8, I2cSensorError>(50u8)
            } else {
                Err::<u8, I2cSensorError>(I2cSensorError::NotInitialized)
            },
    {
        if !self.initialized {
            return Err(I2cSensorError::NotInitialized);
        }
        Ok(50)
    }

    /// Temperature and humidity together.
    pub fn read_temp_and_humidity(&self) -> (reading: Result<(i16, u8), I2cSensorError>)
        ensures
            reading == if self.spec_initialized() {
                Ok::<(i16, u8), I2cSensorError>((20i16, 50u8))
            } else {
                Err::<(i16, u8), I2cSensorError>(I2cSensorError::NotInitialized)
            },
    {
        if !self.initialized {
            return Err(I2cSensorError::NotInitialized);
        }
        Ok((20, 50))
    }
}

/// The owner of the I2C controller.
#[derive(Clone, Copy, Debug, PartialEq, Eq, Structural)]
pub struct I2cSensorBus {
    config: I2cBusConfig,
}

impl I2cSensorBus {
    pub closed spec fn spec_config(&self) -> I2cBusConfig {
        self.config
    }

    pub fn new(config: I2cBusConfig) -> (bus: Self)
        ensures
            bus.spec_config() == config,
    {
        Self { config }
    }

    #[verifier::when_used_as_spec(spec_config)]
    pub fn config(&self) -> (config: I2cBusConfig)
        ensures
            config == self.spec_config(),
    {
        self.config
    }

    /// Starts a scan of the bus.
    pub fn scan(&self) -> (scanner: I2cScanner)
        ensures
            scanner.answers() == Seq::<bool>::empty(),
            scanner.spec_found() == Seq::<u8>::empty(),
    {
        I2cScanner::new()
    }

    /// The report of a finished scan.
    pub fn scan_report(&self, found: &Vec<u8>) -> (report: String)
        ensures
            report@ == report_text(found@),
    {
        scan_report(found)
    }
}

} // verus!
