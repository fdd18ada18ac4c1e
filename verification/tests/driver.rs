//! Tests of the protocol engine and the transport adapters, driven
//! through scripted mock buses.

use mmc5983::interface::{I2cBus, I2cInterface, ReadData, SpiBus, SpiInterface, WriteData};
use mmc5983::mode;
use mmc5983::register_address::{CTRL2_CMM_EN, CTRL2_EN_PRD_SET};
use mmc5983::{
    BandwidthMode, Delay, Error, MagMode, MagOutputDataRate, MagneticField, Mmc5983,
    SetResetPeriod,
};

/// Raw bus error of the mock transports.
#[derive(Debug, Clone, Copy, PartialEq)]
struct MockCommError;

/// Scripted I2C bus: records every transaction and answers reads from a
/// queue of canned responses.
struct MockI2c {
    writes: Vec<Vec<u8>>,
    reads: Vec<(u8, usize)>,
    responses: Vec<Vec<u8>>,
    next: usize,
    fail_writes: bool,
    fail_reads: bool,
}

impl MockI2c {
    fn new(responses: Vec<Vec<u8>>) -> Self {
        MockI2c {
            writes: Vec::new(),
            reads: Vec::new(),
            responses,
            next: 0,
            fail_writes: false,
            fail_reads: false,
        }
    }
}

impl I2cBus for MockI2c {
    type Comm = MockCommError;

    fn bus_write(&mut self, payload: &Vec<u8>) -> Result<(), MockCommError> {
        if self.fail_writes {
            return Err(MockCommError);
        }
        self.writes.push(payload.clone());
        Ok(())
    }

    fn bus_write_read(&mut self, out: u8, count: usize) -> Result<Vec<u8>, MockCommError> {
        if self.fail_reads {
            return Err(MockCommError);
        }
        self.reads.push((out, count));
        let resp = if self.next < self.responses.len() {
            self.responses[self.next].clone()
        } else {
            vec![0u8; count]
        };
        self.next += 1;
        assert_eq!(resp.len(), count, "scripted response must match the asked-for length");
        Ok(resp)
    }
}

/// Scripted SPI device: records every exchange and answers full-duplex
/// transfers from a queue of canned responses of the same length.
struct MockSpi {
    writes: Vec<Vec<u8>>,
    transfers: Vec<Vec<u8>>,
    responses: Vec<Vec<u8>>,
    next: usize,
    fail: bool,
}

impl MockSpi {
    fn new(responses: Vec<Vec<u8>>) -> Self {
        MockSpi { writes: Vec::new(), transfers: Vec::new(), responses, next: 0, fail: false }
    }
}

impl SpiBus for MockSpi {
    type Comm = MockCommError;

    fn bus_write(&mut self, payload: &Vec<u8>) -> Result<(), MockCommError> {
        if self.fail {
            return Err(MockCommError);
        }
        self.writes.push(payload.clone());
        Ok(())
    }

    fn bus_transfer_in_place(&mut self, data: Vec<u8>) -> Result<Vec<u8>, MockCommError> {
        if self.fail {
            return Err(MockCommError);
        }
        let len = data.len();
        self.transfers.push(data);
        let resp = if self.next < self.responses.len() {
            self.responses[self.next].clone()
        } else {
            vec![0u8; len]
        };
        self.next += 1;
        assert_eq!(resp.len(), len, "scripted response must match the request length");
        Ok(resp)
    }
}

/// Delay source that only records the asked-for pauses.
struct MockDelay {
    ns: Vec<u32>,
}

impl MockDelay {
    fn new() -> Self {
        MockDelay { ns: Vec::new() }
    }
}

impl Delay for MockDelay {
    fn delay_ns(&mut self, ns: u32) {
        self.ns.push(ns);
    }
}

fn i2c_device(responses: Vec<Vec<u8>>) -> Mmc5983<I2cInterface<MockI2c>, mode::OneShot> {
    Mmc5983::new_with_i2c(MockI2c::new(responses))
}

#[test]
fn init_sequences_the_exact_register_writes() {
    let mut dev = i2c_device(vec![vec![0x30]]);
    assert!(dev.init().is_ok());
    // One read: the product ID at 0x2F.
    assert_eq!(dev.iface.i2c.reads, vec![(0x2F, 1)]);
    // Then, in order: software reset, OTP read, measurement-done
    // interrupt enable, and the default 100 Hz bandwidth.
    assert_eq!(
        dev.iface.i2c.writes,
        vec![vec![0x0A, 0x80], vec![0x09, 0x40], vec![0x09, 0x44], vec![0x0A, 0x00]]
    );
    assert_eq!(dev.ctrl_reg0.bits, 0x44);
    assert_eq!(dev.ctrl_reg1.bits, 0x00);
}

#[test]
fn init_aborts_on_wrong_product_id_before_any_write() {
    let mut dev = i2c_device(vec![vec![0x99]]);
    match dev.init() {
        Err(Error::InvalidId(pid)) => assert_eq!(pid.raw(), 0x99),
        other => panic!("expected an invalid-id error, got {:?}", other.is_ok()),
    }
    // No control-register write was issued.
    assert!(dev.iface.i2c.writes.is_empty());
    assert_eq!(dev.ctrl_reg0.bits, 0);
    assert_eq!(dev.ctrl_reg1.bits, 0);
}

#[test]
fn init_propagates_a_communication_failure() {
    let mut bus = MockI2c::new(vec![]);
    bus.fail_reads = true;
    let mut dev = Mmc5983::new_with_i2c(bus);
    assert!(matches!(dev.init(), Err(Error::Comm(MockCommError))));
}

#[test]
fn write_failure_leaves_the_shadow_untouched() {
    let mut bus = MockI2c::new(vec![]);
    bus.fail_writes = true;
    let mut dev = Mmc5983::new_with_i2c(bus);
    assert!(matches!(
        dev.set_bandwidth(BandwidthMode::Hz800),
        Err(Error::Comm(MockCommError))
    ));
    assert_eq!(dev.ctrl_reg1.bits, 0);
}

#[test]
fn set_pulse_writes_holds_and_clears_the_shadow_bit() {
    let mut dev = i2c_device(vec![]);
    let mut delay = MockDelay::new();
    assert!(dev.set(&mut delay).is_ok());
    assert_eq!(dev.iface.i2c.writes, vec![vec![0x09, 0x08]]);
    assert_eq!(delay.ns, vec![1000]);
    // The SET bit is cleared again in the shadow after the pulse.
    assert_eq!(dev.ctrl_reg0.bits, 0);
}

#[test]
fn reset_pulse_writes_the_reset_bit() {
    let mut dev = i2c_device(vec![]);
    let mut delay = MockDelay::new();
    assert!(dev.reset(&mut delay).is_ok());
    assert_eq!(dev.iface.i2c.writes, vec![vec![0x09, 0x10]]);
    assert_eq!(delay.ns, vec![1000]);
    assert_eq!(dev.ctrl_reg0.bits, 0);
}

#[test]
fn temperature_triggers_polls_and_reads() {
    let mut dev = i2c_device(vec![
        vec![0x00], // first status poll: not done yet
        vec![0x02], // second poll: temperature done
        vec![0xAB], // temperature register
    ]);
    let t = dev.temperature().unwrap();
    assert_eq!(t.raw(), 0xAB);
    assert_eq!(dev.iface.i2c.writes, vec![vec![0x09, 0x02]]);
    assert_eq!(dev.iface.i2c.reads, vec![(0x08, 1), (0x08, 1), (0x07, 1)]);
}

#[test]
fn burst_read_decodes_the_seven_field_bytes() {
    let mut dev = i2c_device(vec![vec![0x01, 0x02, 0x00, 0x00, 0x00, 0x00, 0b1100_0000]]);
    let f = dev.read_magnetic_field().unwrap();
    assert_eq!(dev.iface.i2c.reads, vec![(0x00, 7)]);
    assert_eq!(f.x_raw(), (1 << 10) | (2 << 2) | 3);
    assert_eq!(f.y_raw(), 0);
    assert_eq!(f.z_raw(), 0);
}

#[test]
fn calibrate_with_identical_readings_stores_the_reading() {
    // The same field bytes after the SET and after the RESET measurement.
    let field = vec![0x12, 0x34, 0x00, 0x10, 0x01, 0x00, 0b0110_0000];
    let mut dev = i2c_device(vec![
        vec![0x01],
        field.clone(),
        vec![0x01],
        field.clone(),
    ]);
    let mut delay = MockDelay::new();
    let offset = dev.calibrate_offset(&mut delay).unwrap();
    let expected = MagneticField::from_bytes(&field);
    assert_eq!(offset, expected);
    assert_eq!(dev.offset, expected);
    // SET pulse, trigger, RESET pulse, trigger.
    assert_eq!(
        dev.iface.i2c.writes,
        vec![vec![0x09, 0x08], vec![0x09, 0x01], vec![0x09, 0x10], vec![0x09, 0x01]]
    );
    assert_eq!(delay.ns, vec![1000, 1000]);
}

#[test]
fn calibrate_averages_the_two_readings() {
    let field1 = vec![0x00, 0x00, 0x00, 0x00, 0x00, 0x02, 0x00]; // z = 8
    let field2 = vec![0x00, 0x00, 0x00, 0x00, 0x00, 0x00, 0b0000_1100]; // z = 3
    let mut dev = i2c_device(vec![vec![0x01], field1, vec![0x01], field2]);
    let mut delay = MockDelay::new();
    let offset = dev.calibrate_offset(&mut delay).unwrap();
    assert_eq!((offset.x_raw(), offset.y_raw(), offset.z_raw()), (0, 0, 5));
}

#[test]
fn calibrated_field_subtracts_the_stored_offset() {
    let mut dev = i2c_device(vec![
        vec![0x01],
        vec![0x02, 0x00, 0x02, 0x00, 0x01, 0xFF, 0x00],
    ]);
    // The default offset is mid-scale on every axis.
    let f = dev.get_calibrated_field().unwrap();
    assert_eq!(f.x_signed(), 0x800 - 0x20000);
    assert_eq!(f.y_signed(), 0x800 - 0x20000);
    assert_eq!(f.z_signed(), 0x7FC - 0x20000);
    assert_eq!(dev.iface.i2c.writes, vec![vec![0x09, 0x01]]);
}

#[test]
fn oneshot_read_signals_not_ready_and_triggers_a_measurement() {
    let mut dev = i2c_device(vec![vec![0x00]]);
    let r = dev.magnetic_field().unwrap();
    assert_eq!(r, None);
    // A new measurement was triggered.
    assert_eq!(dev.iface.i2c.writes, vec![vec![0x09, 0x01]]);
}

#[test]
fn oneshot_read_returns_data_once_ready() {
    let mut dev = i2c_device(vec![
        vec![0x01],
        vec![0x00, 0x00, 0x00, 0x00, 0x00, 0x01, 0x00],
    ]);
    let f = dev.magnetic_field().unwrap().unwrap();
    assert_eq!(f.z_raw(), 4);
    assert!(dev.iface.i2c.writes.is_empty());
}

#[test]
fn continuous_read_polls_without_triggering() {
    let dev = i2c_device(vec![
        vec![0x00],
        vec![0x01],
        vec![0x00, 0x00, 0x00, 0x00, 0x00, 0x01, 0x00],
    ]);
    let mut dev = dev.into_continuous(MagOutputDataRate::Hz100, None).unwrap();
    let writes_after_transition = dev.iface.i2c.writes.len();
    let f = dev.magnetic_field().unwrap();
    assert_eq!(f.z_raw(), 4);
    // Polling alone: no further write was issued by the read.
    assert_eq!(dev.iface.i2c.writes.len(), writes_after_transition);
}

#[test]
fn mode_transition_restores_oneshot_bits() {
    let dev = i2c_device(vec![]);
    let mut cont = dev
        .into_continuous(MagOutputDataRate::Hz100, Some(SetResetPeriod::Every100))
        .unwrap();
    // Period 3 into bits 6-3 plus the periodic-SET enable, then the rate
    // with the continuous-mode enable.
    assert_eq!(
        cont.iface.i2c.writes,
        vec![vec![0x0B, 0x98], vec![0x0B, 0x9D]]
    );
    // Intermediate frequency and period changes must not survive the
    // transition back regarding the two mode bits.
    cont.set_frequency(MagOutputDataRate::Hz1000).unwrap();
    cont.enable_auto_set_reset(SetResetPeriod::Every2000).unwrap();
    let dev = cont.into_oneshot().unwrap();
    assert!(!dev.ctrl_reg2.contains(CTRL2_CMM_EN));
    assert!(!dev.ctrl_reg2.contains(CTRL2_EN_PRD_SET));
    // The final write sent exactly the cleared register.
    let last = dev.iface.i2c.writes.last().unwrap().clone();
    assert_eq!(last, vec![0x0B, dev.ctrl_reg2.bits()]);
}

#[test]
fn mode_config_reports_frequency_and_period() {
    let dev = i2c_device(vec![]);
    let mut cont = dev
        .into_continuous(MagOutputDataRate::Hz50, Some(SetResetPeriod::Every250))
        .unwrap();
    assert_eq!(
        cont.get_mode_config(),
        MagMode::Continuous {
            frequency: MagOutputDataRate::Hz50,
            set_period: Some(SetResetPeriod::Every250),
        }
    );
    cont.disable_auto_set_reset().unwrap();
    assert_eq!(
        cont.get_mode_config(),
        MagMode::Continuous { frequency: MagOutputDataRate::Hz50, set_period: None }
    );
}

#[test]
fn destroy_returns_the_underlying_bus() {
    let dev = i2c_device(vec![vec![0x30]]);
    let bus = dev.destroy();
    assert!(bus.writes.is_empty());
    let dev = Mmc5983::new_with_spi(MockSpi::new(vec![]));
    let bus = dev.destroy();
    assert!(bus.transfers.is_empty());
}

#[test]
fn spi_write_clears_the_read_bit_in_the_address() {
    let mut dev = Mmc5983::new_with_spi(MockSpi::new(vec![]));
    assert!(dev.set_bandwidth(BandwidthMode::Hz400).is_ok());
    assert_eq!(dev.iface.spi.writes, vec![vec![0x0A, 0x02]]);
}

#[test]
fn spi_read_sets_the_read_bit_and_takes_the_second_byte() {
    let mut dev = Mmc5983::new_with_spi(MockSpi::new(vec![vec![0x00, 0x30]]));
    let pid = dev.product_id().unwrap();
    assert_eq!(pid.raw(), 0x30);
    assert!(pid.is_correct());
    assert_eq!(dev.iface.spi.transfers, vec![vec![0x2F | 0x80, 0x00]]);
}

#[test]
fn spi_burst_read_drops_the_leading_byte() {
    let mut dev = Mmc5983::new_with_spi(MockSpi::new(vec![vec![
        0xEE, 0x00, 0x00, 0x00, 0x00, 0x00, 0x02, 0x00,
    ]]));
    let f = dev.read_magnetic_field().unwrap();
    assert_eq!(dev.iface.spi.transfers, vec![vec![0x80, 0, 0, 0, 0, 0, 0, 0]]);
    assert_eq!((f.x_raw(), f.y_raw(), f.z_raw()), (0, 0, 8));
}

#[test]
fn spi_burst_overflow_fails_without_a_bus_transaction() {
    let mut ifc = SpiInterface { spi: MockSpi::new(vec![]) };
    // The scratch buffer holds one address byte plus 31 payload bytes:
    // a request at or beyond 32 bytes must be refused untouched.
    assert!(matches!(
        ifc.read_consecutive(0x00, 32),
        Err(Error::InvalidInputData)
    ));
    assert!(matches!(
        ifc.read_consecutive(0x00, 100),
        Err(Error::InvalidInputData)
    ));
    assert!(ifc.spi.transfers.is_empty());
    // One byte below the ceiling still works.
    let data = ifc.read_consecutive(0x00, 31).unwrap();
    assert_eq!(data.len(), 31);
    assert_eq!(ifc.spi.transfers.len(), 1);
    assert_eq!(ifc.spi.transfers[0].len(), 32);
}

#[test]
fn i2c_register_write_frames_address_then_value() {
    let mut ifc = I2cInterface { i2c: MockI2c::new(vec![]) };
    assert!(ifc.write_register(0x0C, 0x42).is_ok());
    assert_eq!(ifc.i2c.writes, vec![vec![0x0C, 0x42]]);
    let byte = ifc.read_register(0x08).unwrap();
    assert_eq!(byte, 0x00);
    assert_eq!(ifc.i2c.reads, vec![(0x08, 1)]);
}

#[test]
fn extra_pulses_use_the_self_test_pins() {
    let mut dev = i2c_device(vec![]);
    let mut delay = MockDelay::new();
    assert!(dev.set_extra(&mut delay).is_ok());
    assert!(dev.reset_extra(&mut delay).is_ok());
    // Both pulses write control register 3 with the matching self-test
    // pin and wait the shorter settling delay.
    assert_eq!(dev.iface.i2c.writes, vec![vec![0x0C, 0x01], vec![0x0C, 0x02]]);
    assert_eq!(delay.ns, vec![500, 500]);
}

#[test]
fn status_reads_the_status_register() {
    let mut dev = i2c_device(vec![vec![0x11]]);
    let st = dev.status().unwrap();
    assert!(st.meas_done());
    assert!(!st.temp_done());
    assert!(st.otp_read_done());
    assert_eq!(dev.iface.i2c.reads, vec![(0x08, 1)]);
}

#[test]
fn spi_failure_surfaces_as_a_communication_error() {
    let mut bus = MockSpi::new(vec![]);
    bus.fail = true;
    let mut dev = Mmc5983::new_with_spi(bus);
    assert!(matches!(dev.product_id(), Err(Error::Comm(MockCommError))));
    assert!(matches!(
        dev.set_bandwidth(BandwidthMode::Hz100),
        Err(Error::Comm(MockCommError))
    ));
}

#[test]
fn continuous_without_period_issues_a_single_write() {
    let dev = i2c_device(vec![]);
    let cont = dev.into_continuous(MagOutputDataRate::Hz100, None).unwrap();
    // One write: the rate bits together with the continuous-mode enable.
    assert_eq!(cont.iface.i2c.writes, vec![vec![0x0B, 0x05]]);
}

#[test]
fn auto_set_reset_toggles_the_periodic_enable() {
    let dev = i2c_device(vec![]);
    let mut cont = dev.into_continuous(MagOutputDataRate::Hz200, None).unwrap();
    cont.enable_auto_set_reset(SetResetPeriod::Every2000).unwrap();
    assert_eq!(
        cont.iface.i2c.writes.last().unwrap(),
        &vec![0x0B, 0x80 | (7 << 3) | 0x06]
    );
    cont.disable_auto_set_reset().unwrap();
    assert!(!cont.ctrl_reg2.contains(CTRL2_EN_PRD_SET));
    assert!(cont.ctrl_reg2.contains(CTRL2_CMM_EN));
}
