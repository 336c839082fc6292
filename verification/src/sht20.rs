//! Protocol driver for the SHT20 sensor in no-hold-master mode.
//!
//! The driver owns no bus handle. It decides what is written and read, and is
//! told what the bus answered.

use vstd::prelude::*;

verus! {

/// Number of the I2C bus the sensor is wired to.
pub const I2C_GPIO_BUS: u8 = 1;

/// Seven-bit bus address of the sensor, without the read/write bit.
pub const SHT20_ADDR: u8 = 0b1000000;

/// Command byte: measure relative humidity without holding the bus.
pub const RH_MEAS_NO_HOLD_MASTER: u8 = 0b11110101;

/// Command byte: measure temperature without holding the bus.
pub const TEMP_MEAS_NO_HOLD_MASTER: u8 = 0b11110011;

/// The two low bits of a sample, which tag its kind.
pub const LSB_STATUS_MASK: u16 = 0x03;

/// Bytes in one measurement frame.
pub const EXPECTED_BYTES: usize = 2;

/// Bytes in one command.
pub const COMMAND_BYTES: usize = 1;

/// Time the sensor needs to convert at the default resolution, in
/// milliseconds. The sensor gives no ready signal in no-hold-master mode, so
/// this wait has to cover the worst case of the data sheet.
pub const SETTLE_MILLIS: u64 = 85;

/// Readings are fixed-point numbers: a value `v` stands for `v / SCALE`
/// degrees Celsius or percent. `SCALE` is `100 * 2^16`, the least scale at
/// which both transfer functions of the data sheet are exact.
pub const SCALE: i64 = 6_553_600;

/// What a sample measures.
#[derive(Clone, Copy, Debug, PartialEq, Eq, Structural)]
pub enum Measurement {
    Temperature,
    Humidity,
}

/// The sixteen-bit sample that two frame bytes form, most significant first.
pub open spec fn sample_of(msb: u8, lsb: u8) -> int {
    256 * msb + lsb
}

/// The kind that the sensor tagged a sample with: status bits `00` mean
/// temperature, every other pattern means humidity.
pub open spec fn kind_of(sample: int) -> Measurement {
    if sample % 4 == 0 {
        Measurement::Temperature
    } else {
        Measurement::Humidity
    }
}

/// A sample with its status bits cleared, not shifted out.
pub open spec fn payload_of(sample: int) -> int {
    sample - sample % 4
}

/// `-46.85 + 175.72 * payload / 2^16` degrees Celsius, times `SCALE`.
pub open spec fn temperature_of(payload: int) -> int {
    17572 * payload - 4685 * 65536
}

/// `-6 + 125 * payload / 2^16` percent, times `SCALE`.
pub open spec fn humidity_of(payload: int) -> int {
    12500 * payload - 600 * 65536
}

/// Tells a temperature sample from a humidity sample by its status bits.
pub fn classify(sample: u16) -> (kind: Measurement)
    ensures
        kind == kind_of(sample as int),
        sample & LSB_STATUS_MASK == 0 <==> kind == Measurement::Temperature,
{
    assert(sample & 0x03 == sample % 4) by (bit_vector);
    if sample & LSB_STATUS_MASK == 0 {
        Measurement::Temperature
    } else {
        Measurement::Humidity
    }
}

/// Where the sensor stands in its measurement protocol. At most one
/// measurement is in flight.
#[derive(Clone, Copy, Debug, PartialEq, Eq, Structural)]
pub enum SensorState {
    Idle,
    MeasuringTemperature,
    MeasuringHumidity,
}

/// Why the bus could not carry a transfer.
#[derive(Clone, Copy, Debug, PartialEq, Eq, Structural)]
pub enum TransportError {
    /// The operating system refused the transfer, with this error number.
    Io(i32),
    /// The address cannot be used for a device.
    InvalidSlaveAddress(u16),
    /// The bus driver lacks the feature asked for.
    FeatureNotSupported,
    /// The board could not be identified.
    UnknownModel,
    /// The bus took only this many bytes of a command.
    ShortWrite(usize),
}

/// Why a measurement failed.
#[derive(Clone, Copy, Debug, PartialEq, Eq, Structural)]
pub enum ShtError {
    /// A measurement was asked for while another was in flight.
    MeasInProgress,
    /// A read did not deliver a whole frame.
    BytesReadMismatch,
    /// The bus failed.
    I2c(TransportError),
}

/// What a read of one frame brought back: the count of bytes the bus
/// reported, and the buffer, most significant byte first.
#[derive(Clone, Copy, Debug, PartialEq, Eq, Structural)]
pub struct Frame {
    pub count: usize,
    pub msb: u8,
    pub lsb: u8,
}

/// A calibrated reading: `value / SCALE` degrees Celsius or percent.
#[derive(Clone, Copy, Debug, PartialEq, Eq, Structural)]
pub struct Reading {
    pub kind: Measurement,
    pub value: i64,
}

/// What the bus or the timer reported back to a measurement.
#[derive(Clone, Copy, Debug, PartialEq, Eq)]
pub enum BusEvent {
    /// Nothing yet: the measurement is asked for.
    Start,
    /// The command was written, with this outcome.
    Written(Result<usize, TransportError>),
    /// The settling delay has passed.
    Settled,
    /// The frame was read, with this outcome.
    Received(Result<Frame, TransportError>),
}

/// What a measurement needs done next.
#[derive(Clone, Copy, Debug, PartialEq, Eq)]
pub enum BusAction {
    /// Write this command byte and report `Written`.
    Write(u8),
    /// Wait this many milliseconds and report `Settled`.
    Settle(u64),
    /// Read this many bytes and report `Received`.
    Read(usize),
    /// The measurement is over, with this result.
    Finish(Result<Reading, ShtError>),
}

/// The driver: the protocol state, and the kind of the last sample read.
#[derive(Debug)]
pub struct SHT20 {
    state: SensorState,
    measurement_type: Option<Measurement>,
}

/// The command byte that starts a measurement of the given kind.
pub open spec fn command_of(kind: Measurement) -> u8 {
    match kind {
        Measurement::Temperature => TEMP_MEAS_NO_HOLD_MASTER,
        Measurement::Humidity => RH_MEAS_NO_HOLD_MASTER,
    }
}

/// The state in which a measurement of the given kind is in flight.
pub open spec fn measuring(kind: Measurement) -> SensorState {
    match kind {
        Measurement::Temperature => SensorState::MeasuringTemperature,
        Measurement::Humidity => SensorState::MeasuringHumidity,
    }
}

/// What a trigger answers in a given state, after the bus reported how the
/// write of the command went. A busy driver refuses; a failed or short write
/// is a bus error.
pub open spec fn trigger_result(state: SensorState, written: Result<usize, TransportError>) -> Result<
    (),
    ShtError,
> {
    if state != SensorState::Idle {
        Err(ShtError::MeasInProgress)
    } else {
        match written {
            Ok(count) => if count < COMMAND_BYTES {
                Err(ShtError::I2c(TransportError::ShortWrite(count)))
            } else {
                Ok(())
            },
            Err(fault) => Err(ShtError::I2c(fault)),
        }
    }
}

/// The state after a trigger: a measurement is in flight exactly when the
/// trigger succeeded.
pub open spec fn trigger_state(
    kind: Measurement,
    state: SensorState,
    written: Result<usize, TransportError>,
) -> SensorState {
    if trigger_result(state, written) is Ok {
        measuring(kind)
    } else {
        state
    }
}

/// The calibrated reading that a sample stands for. The sample's own tag, not
/// what was asked for, decides which transfer function applies.
pub open spec fn reading_of(sample: int) -> Reading {
    match kind_of(sample) {
        Measurement::Temperature => Reading {
            kind: Measurement::Temperature,
            value: temperature_of(payload_of(sample)) as i64,
        },
        Measurement::Humidity => Reading {
            kind: Measurement::Humidity,
            value: humidity_of(payload_of(sample)) as i64,
        },
    }
}

/// What a read answers: the reading of the frame if the bus delivered exactly
/// one frame, a framing error otherwise.
pub open spec fn read_result(received: Result<Frame, TransportError>) -> Result<Reading, ShtError> {
    match received {
        Ok(frame) => if frame.count == EXPECTED_BYTES {
            Ok(reading_of(sample_of(frame.msb, frame.lsb)))
        } else {
            Err(ShtError::BytesReadMismatch)
        },
        Err(_) => Err(ShtError::BytesReadMismatch),
    }
}

/// The kind of the last sample after a read: that of the new reading, or the
/// old one where the read failed.
pub open spec fn kind_after_read(
    last: Option<Measurement>,
    received: Result<Frame, TransportError>,
) -> Option<Measurement> {
    match read_result(received) {
        Ok(reading) => Some(reading.kind),
        Err(_) => last,
    }
}

/// What a measurement of the given kind asks for next, in a given state and
/// on a given report.
pub open spec fn next_action(kind: Measurement, state: SensorState, event: BusEvent) -> BusAction {
    match event {
        BusEvent::Start => if state != SensorState::Idle {
            BusAction::Finish(Err(ShtError::MeasInProgress))
        } else {
            BusAction::Write(command_of(kind))
        },
        BusEvent::Written(written) => match trigger_result(state, written) {
            Ok(_) => BusAction::Settle(SETTLE_MILLIS),
            Err(error) => BusAction::Finish(Err(error)),
        },
        BusEvent::Settled => BusAction::Read(EXPECTED_BYTES),
        BusEvent::Received(received) => BusAction::Finish(read_result(received)),
    }
}

/// The state a measurement of the given kind leaves the driver in, from a
/// given state and on a given report.
pub open spec fn next_state(kind: Measurement, state: SensorState, event: BusEvent) -> SensorState {
    match event {
        BusEvent::Start => state,
        BusEvent::Written(written) => trigger_state(kind, state, written),
        BusEvent::Settled => state,
        BusEvent::Received(_) => SensorState::Idle,
    }
}

/// The kind of the last sample after one step of a measurement.
pub open spec fn next_kind(last: Option<Measurement>, event: BusEvent) -> Option<Measurement> {
    match event {
        BusEvent::Received(received) => kind_after_read(last, received),
        _ => last,
    }
}

impl ShtError {
    /// A line of text for the operator's log.
    pub fn message(&self) -> (text: String)
        ensures
            text@ == match *self {
                ShtError::MeasInProgress => "measurement in progress"@,
                ShtError::BytesReadMismatch => "unexpected number of bytes read"@,
                ShtError::I2c(_) => "i2c error"@,
            },
    {
        match *self {
            ShtError::MeasInProgress => "measurement in progress".to_owned(),
            ShtError::BytesReadMismatch => "unexpected number of bytes read".to_owned(),
            ShtError::I2c(..) => "i2c error".to_owned(),
        }
    }

    /// The bus fault behind this error, if there is one.
    pub fn source(&self) -> (cause: Option<TransportError>)
        ensures
            cause == match *self {
                ShtError::MeasInProgress => None::<TransportError>,
                ShtError::BytesReadMismatch => None,
                ShtError::I2c(fault) => Some(fault),
            },
    {
        match *self {
            ShtError::MeasInProgress => None,
            ShtError::BytesReadMismatch => None,
            ShtError::I2c(fault) => Some(fault),
        }
    }
}

impl SHT20 {
    /// The protocol state.
    pub closed spec fn spec_state(&self) -> SensorState {
        self.state
    }

    /// The kind of the last sample read, if any was.
    pub closed spec fn spec_measurement_type(&self) -> Option<Measurement> {
        self.measurement_type
    }

    /// A driver for the sensor on a bus that was opened and pointed at
    /// `SHT20_ADDR` with the given outcome. Without a bus there is no driver.
    pub fn new(opened: Result<(), TransportError>) -> (made: Result<SHT20, ShtError>)
        ensures
            match opened {
                Ok(_) => made matches Ok(driver) && driver.spec_state() == SensorState::Idle
                    && driver.spec_measurement_type() is None,
                Err(fault) => made matches Err(error) && error == ShtError::I2c(fault),
            },
    {
        match opened {
            Ok(_) => Ok(SHT20 { state: SensorState::Idle, measurement_type: None }),
            Err(fault) => Err(ShtError::I2c(fault)),
        }
    }

    /// The protocol state.
    #[verifier::when_used_as_spec(spec_state)]
    pub fn state(&self) -> (state: SensorState)
        ensures
            state == self.spec_state(),
    {
        self.state
    }

    /// One step of a temperature measurement: trigger, settle, read. Called
    /// with `Start` first and then with the report on each action it asked
    /// for, until it answers `Finish` with the temperature.
    pub fn get_temperature_celsius(&mut self, event: BusEvent) -> (action: BusAction)
        ensures
            action == next_action(Measurement::Temperature, old(self).spec_state(), event),
            final(self).spec_state() == next_state(
                Measurement::Temperature,
                old(self).spec_state(),
                event,
            ),
            final(self).spec_measurement_type() == next_kind(
                old(self).spec_measurement_type(),
                event,
            ),
    {
        match event {
            BusEvent::Start => if self.state != SensorState::Idle {
                BusAction::Finish(Err(ShtError::MeasInProgress))
            } else {
                BusAction::Write(TEMP_MEAS_NO_HOLD_MASTER)
            },
            BusEvent::Written(written) => match self.trigger_temp_measurement(written) {
                Ok(_) => BusAction::Settle(SETTLE_MILLIS),
                Err(error) => BusAction::Finish(Err(error)),
            },
            BusEvent::Settled => BusAction::Read(EXPECTED_BYTES),
            BusEvent::Received(received) => BusAction::Finish(self.read_measurement(received)),
        }
    }

    /// One step of a humidity measurement: trigger, settle, read. Called with
    /// `Start` first and then with the report on each action it asked for,
    /// until it answers `Finish` with the relative humidity.
    pub fn get_humidity_percent(&mut self, event: BusEvent) -> (action: BusAction)
        ensures
            action == next_action(Measurement::Humidity, old(self).spec_state(), event),
            final(self).spec_state() == next_state(
                Measurement::Humidity,
                old(self).spec_state(),
                event,
            ),
            final(self).spec_measurement_type() == next_kind(
                old(self).spec_measurement_type(),
                event,
            ),
    {
        match event {
            BusEvent::Start => if self.state != SensorState::Idle {
                BusAction::Finish(Err(ShtError::MeasInProgress))
            } else {
                BusAction::Write(RH_MEAS_NO_HOLD_MASTER)
            },
            BusEvent::Written(written) => match self.trigger_humidity_measurement(written) {
                Ok(_) => BusAction::Settle(SETTLE_MILLIS),
                Err(error) => BusAction::Finish(Err(error)),
            },
            BusEvent::Settled => BusAction::Read(EXPECTED_BYTES),
            BusEvent::Received(received) => BusAction::Finish(self.read_measurement(received)),
        }
    }

    /// Takes note of how the write of the temperature command went. A busy
    /// driver refuses and stays as it is; after a whole write a temperature
    /// measurement is in flight.
    pub fn trigger_temp_measurement(&mut self, written: Result<usize, TransportError>) -> (outcome:
        Result<(), ShtError>)
        ensures
            outcome == trigger_result(old(self).spec_state(), written),
            final(self).spec_state() == trigger_state(
                Measurement::Temperature,
                old(self).spec_state(),
                written,
            ),
            final(self).spec_measurement_type() == old(self).spec_measurement_type(),
            old(self).spec_state() != SensorState::Idle ==> outcome == Err::<(), ShtError>(
                ShtError::MeasInProgress,
            ) && *final(self) == *old(self),
    {
        if self.state != SensorState::Idle {
            return Err(ShtError::MeasInProgress);
        }
        match written {
            Ok(count) => {
                if count < COMMAND_BYTES {
                    Err(ShtError::I2c(TransportError::ShortWrite(count)))
                } else {
                    self.state = SensorState::MeasuringTemperature;
                    Ok(())
                }
            },
            Err(fault) => Err(ShtError::I2c(fault)),
        }
    }

    /// Takes note of how the write of the humidity command went. A busy
    /// driver refuses and stays as it is; after a whole write a humidity
    /// measurement is in flight.
    pub fn trigger_humidity_measurement(&mut self, written: Result<usize, TransportError>) -> (outcome:
        Result<(), ShtError>)
        ensures
            outcome == trigger_result(old(self).spec_state(), written),
            final(self).spec_state() == trigger_state(
                Measurement::Humidity,
                old(self).spec_state(),
                written,
            ),
            final(self).spec_measurement_type() == old(self).spec_measurement_type(),
            old(self).spec_state() != SensorState::Idle ==> outcome == Err::<(), ShtError>(
                ShtError::MeasInProgress,
            ) && *final(self) == *old(self),
    {
        if self.state != SensorState::Idle {
            return Err(ShtError::MeasInProgress);
        }
        match written {
            Ok(count) => {
                if count < COMMAND_BYTES {
                    Err(ShtError::I2c(TransportError::ShortWrite(count)))
                } else {
                    self.state = SensorState::MeasuringHumidity;
                    Ok(())
                }
            },
            Err(fault) => Err(ShtError::I2c(fault)),
        }
    }

    /// Takes the frame that the bus read and ends the measurement. Whatever
    /// the bus delivered, the driver is idle afterwards.
    pub fn read_measurement(&mut self, received: Result<Frame, TransportError>) -> (outcome: Result<
        Reading,
        ShtError,
    >)
        ensures
            outcome == read_result(received),
            final(self).spec_state() == SensorState::Idle,
            final(self).spec_measurement_type() == kind_after_read(
                old(self).spec_measurement_type(),
                received,
            ),
    {
        self.state = SensorState::Idle;
        match received {
            Ok(frame) => {
                if frame.count != EXPECTED_BYTES {
                    return Err(ShtError::BytesReadMismatch);
                }
                let data: u16 = (frame.msb as u16) << 8 | frame.lsb as u16;
                let payload: u16 = data & !LSB_STATUS_MASK;
                proof {
                    let msb = frame.msb;
                    let lsb = frame.lsb;
                    assert(((msb as u16) << 8 | lsb as u16) == 256 * msb + lsb) by (bit_vector);
                    assert(data & !0x03u16 == data - data % 4) by (bit_vector);
                }
                let kind = classify(data);
                self.measurement_type = Some(kind);
                match kind {
                    Measurement::Temperature => Ok(
                        Reading { kind, value: Self::convert_temp(payload) },
                    ),
                    Measurement::Humidity => Ok(
                        Reading { kind, value: Self::convert_humidity(payload) },
                    ),
                }
            },
            Err(_) => Err(ShtError::BytesReadMismatch),
        }
    }

    /// The kind of the last sample read, if any was. Ends the driver.
    pub fn get_measurement_type(self) -> (kind: Option<Measurement>)
        ensures
            kind == self.spec_measurement_type(),
    {
        self.measurement_type
    }

    /// Relative humidity for a sample with its status bits cleared, after
    /// section 6.1 of the data sheet: `-6 + 125 * S / 2^16` percent, in units
    /// of `1 / SCALE`.
    pub fn convert_humidity(raw_humidity: u16) -> (value: i64)
        ensures
            value == humidity_of(raw_humidity as int),
    {
        12500 * (raw_humidity as i64) - 39_321_600
    }

    /// Temperature for a sample with its status bits cleared, after section
    /// 6.2 of the data sheet: `-46.85 + 175.72 * S / 2^16` degrees Celsius, in
    /// units of `1 / SCALE`.
    pub fn convert_temp(raw_temp: u16) -> (value: i64)
        ensures
            value == temperature_of(raw_temp as int),
    {
        17572 * (raw_temp as i64) - 307_036_160
    }
}

/// The status bits of a sample never reach the value of its reading: two
/// samples that agree in all but the status bits convert to the same
/// temperature and to the same humidity, and two such samples of one kind
/// give the same reading.
pub proof fn lemma_status_bits_ignored(a: u16, b: u16)
    requires
        a & !LSB_STATUS_MASK == b & !LSB_STATUS_MASK,
    ensures
        payload_of(a as int) == (a & !LSB_STATUS_MASK),
        payload_of(a as int) == payload_of(b as int),
        temperature_of(payload_of(a as int)) == temperature_of(payload_of(b as int)),
        humidity_of(payload_of(a as int)) == humidity_of(payload_of(b as int)),
        kind_of(a as int) == kind_of(b as int) ==> reading_of(a as int) == reading_of(b as int),
{
    assert(a & !0x03u16 == a - a % 4) by (bit_vector);
    assert(b & !0x03u16 == b - b % 4) by (bit_vector);
}

/// A sample is a temperature exactly when its two status bits are clear.
pub proof fn lemma_kind_by_status_bits(sample: u16)
    ensures
        sample & LSB_STATUS_MASK == 0 <==> kind_of(sample as int) == Measurement::Temperature,
        sample & LSB_STATUS_MASK != 0 <==> kind_of(sample as int) == Measurement::Humidity,
{
    assert(sample & 0x03u16 == sample % 4) by (bit_vector);
}

/// A busy driver refuses every measurement and every trigger, whatever the
/// bus reported, and stays in the state it was in.
pub proof fn lemma_busy_driver_refuses(
    kind: Measurement,
    state: SensorState,
    written: Result<usize, TransportError>,
)
    requires
        state != SensorState::Idle,
    ensures
        trigger_result(state, written) == Err::<(), ShtError>(ShtError::MeasInProgress),
        trigger_state(kind, state, written) == state,
        next_action(kind, state, BusEvent::Start) == BusAction::Finish(
            Err(ShtError::MeasInProgress),
        ),
        next_state(kind, state, BusEvent::Start) == state,
        next_action(kind, state, BusEvent::Written(written)) == BusAction::Finish(
            Err(ShtError::MeasInProgress),
        ),
        next_state(kind, state, BusEvent::Written(written)) == state,
{
}

/// A whole measurement from an idle driver, on a bus that does as asked, ends
/// in the reading of the frame with the driver idle again.
pub proof fn lemma_measurement_runs(kind: Measurement, frame: Frame)
    requires
        frame.count == EXPECTED_BYTES,
    ensures
        next_action(kind, SensorState::Idle, BusEvent::Start) == BusAction::Write(command_of(kind)),
        next_action(kind, SensorState::Idle, BusEvent::Written(Ok(COMMAND_BYTES)))
            == BusAction::Settle(SETTLE_MILLIS),
        next_state(kind, SensorState::Idle, BusEvent::Written(Ok(COMMAND_BYTES))) == measuring(
            kind,
        ),
        next_action(kind, measuring(kind), BusEvent::Settled) == BusAction::Read(EXPECTED_BYTES),
        next_action(kind, measuring(kind), BusEvent::Received(Ok(frame))) == BusAction::Finish(
            Ok(reading_of(sample_of(frame.msb, frame.lsb))),
        ),
        next_state(kind, measuring(kind), BusEvent::Received(Ok(frame))) == SensorState::Idle,
{
}

} // verus!
