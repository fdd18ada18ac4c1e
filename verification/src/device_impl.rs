//! Protocol engine: initialization, SET/RESET pulses, configuration and
//! acquisition, sequenced over the register-transport contract.
//!
//! Every control-register write sends the encoded shadow value and updates
//! the shadow only after the transport confirmed the write, so a failed
//! transaction never leaves the shadow ahead of the hardware.

use core::marker::PhantomData;

use vstd::prelude::*;

use crate::interface::{I2cInterface, ReadData, SpiInterface, WriteData};
use crate::mode;
use crate::register_address::{
    CTRL0_INT_MEAS_DONE_EN, CTRL0_OTP_READ, CTRL0_RESET, CTRL0_SET, CTRL0_TM_M, CTRL0_TM_T,
    CTRL3_ST_ENM, CTRL3_ST_ENP, InternalControl0, InternalControl1, InternalControl2,
    InternalControl3, ProductId1, RegRead, StatusReg, Tout, Xout0, lemma_ctrl0_flags_wf,
    lemma_ctrl1_flags_wf, lemma_ctrl3_flags_wf, CTRL1_BW, CTRL1_SW_RST,
};
use crate::types::{
    BandwidthMode, Error, FIELD_MID_SCALE, FIELD_RANGE, MagneticField, ProductId, STATUS_MASK,
    Status, Temperature,
};
use crate::Mmc5983;

verus! {

/// Minimal settling delay after a SET or RESET pulse, in nanoseconds.
pub const PULSE_SETTLE_NS: u32 = 1000;

/// Settling delay after an extra (self-test pin) pulse, in nanoseconds.
pub const EXTRA_PULSE_NS: u32 = 500;

/// A time source able to pause execution for at minimum the asked-for
/// number of nanoseconds; the platform supplies it to every operation
/// that needs a settling delay.
pub trait Delay {
    /// Pause execution for at minimum `ns` nanoseconds.
    fn delay_ns(&mut self, ns: u32);
}

/// Upper bound on busy-poll iterations. The bound only gives the spin a
/// termination measure: even at one status read per nanosecond it would
/// take centuries to exhaust, so a working device always answers first.
pub const POLL_FUEL: u64 = 0xFFFF_FFFF_FFFF_FFFF;

impl<I2C> Mmc5983<I2cInterface<I2C>, mode::OneShot> {
    /// Create a new driver instance communicating through I2C, with
    /// power-on shadow registers and a mid-scale (no-op) offset.
    pub fn new_with_i2c(i2c: I2C) -> (r: Self)
        ensures
            r.ctrl_reg0.bits == 0,
            r.ctrl_reg1.bits == 0,
            r.ctrl_reg2.bits == 0,
            r.ctrl_reg3.bits == 0,
            r.offset == (MagneticField {
                x: FIELD_MID_SCALE,
                y: FIELD_MID_SCALE,
                z: FIELD_MID_SCALE,
            }),
            r.wf(),
    {
        Mmc5983 {
            iface: I2cInterface { i2c },
            ctrl_reg0: InternalControl0::default(),
            ctrl_reg1: InternalControl1::default(),
            ctrl_reg2: InternalControl2::default(),
            ctrl_reg3: InternalControl3::default(),
            offset: MagneticField { x: FIELD_MID_SCALE, y: FIELD_MID_SCALE, z: FIELD_MID_SCALE },
            _mode: PhantomData,
        }
    }
}

impl<I2C, MODE> Mmc5983<I2cInterface<I2C>, MODE> {
    /// Destroy the driver instance and return the I2C bus.
    pub fn destroy(self) -> (r: I2C)
        ensures
            r == self.iface.i2c,
    {
        self.iface.i2c
    }
}

impl<SPI> Mmc5983<SpiInterface<SPI>, mode::OneShot> {
    /// Create a new driver instance communicating through SPI, with
    /// power-on shadow registers and a mid-scale (no-op) offset.
    pub fn new_with_spi(spi: SPI) -> (r: Self)
        ensures
            r.ctrl_reg0.bits == 0,
            r.ctrl_reg1.bits == 0,
            r.ctrl_reg2.bits == 0,
            r.ctrl_reg3.bits == 0,
            r.offset == (MagneticField {
                x: FIELD_MID_SCALE,
                y: FIELD_MID_SCALE,
                z: FIELD_MID_SCALE,
            }),
            r.wf(),
    {
        Mmc5983 {
            iface: SpiInterface { spi },
            ctrl_reg0: InternalControl0::default(),
            ctrl_reg1: InternalControl1::default(),
            ctrl_reg2: InternalControl2::default(),
            ctrl_reg3: InternalControl3::default(),
            offset: MagneticField { x: FIELD_MID_SCALE, y: FIELD_MID_SCALE, z: FIELD_MID_SCALE },
            _mode: PhantomData,
        }
    }
}

impl<SPI, MODE> Mmc5983<SpiInterface<SPI>, MODE> {
    /// Destroy the driver instance and return the SPI device.
    pub fn destroy(self) -> (r: SPI)
        ensures
            r == self.iface.spi,
    {
        self.iface.spi
    }
}

impl<DI: ReadData, MODE> Mmc5983<DI, MODE> {
    /// Initialize the device: check the product ID, software-reset, read
    /// the OTP memory, enable the measurement-done interrupt and set the
    /// default 100 Hz bandwidth — in this order, stopping at the first
    /// failure. A product-ID mismatch aborts before any control-register
    /// write.
    pub fn init(&mut self) -> (r: Result<(), Error<DI::Comm>>)
        requires
            old(self).wf(),
        ensures
            final(self).wf(),
            final(self).ctrl_reg2 == old(self).ctrl_reg2,
            final(self).ctrl_reg3 == old(self).ctrl_reg3,
            final(self).offset == old(self).offset,
            r matches Ok(_) ==> final(self).ctrl_reg0 == old(self).ctrl_reg0.spec_union(
                CTRL0_OTP_READ,
            ).spec_union(CTRL0_INT_MEAS_DONE_EN) && final(self).ctrl_reg1.bits == 0,
            r matches Err(e) ==> e is Comm || e is InvalidId,
            r matches Err(e) ==> (e matches Error::InvalidId(pid) ==> pid.raw
                != crate::register_address::PRODUCT_ID_VALUE && final(self).shadow() == old(
                self,
            ).shadow()),
    {
        let product_id = match self.product_id() {
            Ok(pid) => pid,
            Err(e) => {
                return Err(e);
            },
        };
        if !product_id.is_correct() {
            return Err(Error::InvalidId(product_id));
        }
        match self.software_reset() {
            Ok(()) => (),
            Err(e) => {
                return Err(e);
            },
        }
        match self.read_otp() {
            Ok(()) => (),
            Err(e) => {
                return Err(e);
            },
        }
        match self.enable_meas_done_interrupt() {
            Ok(()) => (),
            Err(e) => {
                return Err(e);
            },
        }
        match self.set_bandwidth(BandwidthMode::Hz100) {
            Ok(()) => {
                proof {
                    assert((0u8 & !CTRL1_BW) | 0u8 == 0u8) by (bit_vector);
                }
                Ok(())
            },
            Err(e) => Err(e),
        }
    }

    /// Software reset: set the reset bit in control register 1, then take
    /// the shadow back to the device's post-reset default (the device
    /// clears the bit itself).
    fn software_reset(&mut self) -> (r: Result<(), Error<DI::Comm>>)
        requires
            old(self).wf(),
        ensures
            final(self).wf(),
            final(self).ctrl_reg0 == old(self).ctrl_reg0,
            final(self).ctrl_reg2 == old(self).ctrl_reg2,
            final(self).ctrl_reg3 == old(self).ctrl_reg3,
            final(self).offset == old(self).offset,
            r matches Ok(_) ==> final(self).ctrl_reg1.bits == 0,
            r matches Err(e) ==> e is Comm && final(self).ctrl_reg1 == old(self).ctrl_reg1,
    {
        proof {
            lemma_ctrl1_flags_wf();
        }
        let reg = self.ctrl_reg1.union(CTRL1_SW_RST);
        match self.iface.write_register(InternalControl1::addr(), reg.bits()) {
            Ok(()) => {
                self.ctrl_reg1 = InternalControl1::default();
                Ok(())
            },
            Err(e) => Err(e),
        }
    }

    /// Trigger the read of the OTP (factory calibration) memory; the bit
    /// stays set in the shadow, mirroring the device.
    fn read_otp(&mut self) -> (r: Result<(), Error<DI::Comm>>)
        requires
            old(self).wf(),
        ensures
            final(self).wf(),
            final(self).ctrl_reg1 == old(self).ctrl_reg1,
            final(self).ctrl_reg2 == old(self).ctrl_reg2,
            final(self).ctrl_reg3 == old(self).ctrl_reg3,
            final(self).offset == old(self).offset,
            r matches Ok(_) ==> final(self).ctrl_reg0 == old(self).ctrl_reg0.spec_union(
                CTRL0_OTP_READ,
            ),
            r matches Err(e) ==> e is Comm && final(self).ctrl_reg0 == old(self).ctrl_reg0,
    {
        proof {
            lemma_ctrl0_flags_wf();
        }
        let reg = self.ctrl_reg0.union(CTRL0_OTP_READ);
        match self.iface.write_register(InternalControl0::addr(), reg.bits()) {
            Ok(()) => {
                self.ctrl_reg0 = reg;
                Ok(())
            },
            Err(e) => Err(e),
        }
    }

    /// Enable the interrupt raised when a measurement completes.
    fn enable_meas_done_interrupt(&mut self) -> (r: Result<(), Error<DI::Comm>>)
        requires
            old(self).wf(),
        ensures
            final(self).wf(),
            final(self).ctrl_reg1 == old(self).ctrl_reg1,
            final(self).ctrl_reg2 == old(self).ctrl_reg2,
            final(self).ctrl_reg3 == old(self).ctrl_reg3,
            final(self).offset == old(self).offset,
            r matches Ok(_) ==> final(self).ctrl_reg0 == old(self).ctrl_reg0.spec_union(
                CTRL0_INT_MEAS_DONE_EN,
            ),
            r matches Err(e) ==> e is Comm && final(self).ctrl_reg0 == old(self).ctrl_reg0,
    {
        proof {
            lemma_ctrl0_flags_wf();
        }
        let reg = self.ctrl_reg0.union(CTRL0_INT_MEAS_DONE_EN);
        match self.iface.write_register(InternalControl0::addr(), reg.bits()) {
            Ok(()) => {
                self.ctrl_reg0 = reg;
                Ok(())
            },
            Err(e) => Err(e),
        }
    }

    /// Set the measurement bandwidth in control register 1.
    pub fn set_bandwidth(&mut self, bw: BandwidthMode) -> (r: Result<(), Error<DI::Comm>>)
        requires
            old(self).wf(),
        ensures
            final(self).wf(),
            final(self).ctrl_reg0 == old(self).ctrl_reg0,
            final(self).ctrl_reg2 == old(self).ctrl_reg2,
            final(self).ctrl_reg3 == old(self).ctrl_reg3,
            final(self).offset == old(self).offset,
            r matches Ok(_) ==> final(self).ctrl_reg1 == old(self).ctrl_reg1.spec_with_bandwidth(
                bw,
            ),
            r matches Err(e) ==> e is Comm && final(self).ctrl_reg1 == old(self).ctrl_reg1,
    {
        let reg = self.ctrl_reg1.with_bandwidth(bw);
        match self.iface.write_register(InternalControl1::addr(), reg.bits()) {
            Ok(()) => {
                self.ctrl_reg1 = reg;
                Ok(())
            },
            Err(e) => Err(e),
        }
    }

    /// Perform a SET pulse (magnetize the sensor in the positive
    /// direction), hold the settling delay, then clear the bit in the
    /// shadow: the device clears it by itself after the pulse.
    pub fn set<D: Delay>(&mut self, delay: &mut D) -> (r: Result<(), Error<DI::Comm>>)
        requires
            old(self).wf(),
        ensures
            final(self).wf(),
            final(self).ctrl_reg1 == old(self).ctrl_reg1,
            final(self).ctrl_reg2 == old(self).ctrl_reg2,
            final(self).ctrl_reg3 == old(self).ctrl_reg3,
            final(self).offset == old(self).offset,
            r matches Ok(_) ==> final(self).ctrl_reg0 == old(self).ctrl_reg0.spec_difference(
                CTRL0_SET,
            ),
            r matches Err(e) ==> e is Comm && final(self).ctrl_reg0 == old(self).ctrl_reg0,
    {
        proof {
            lemma_ctrl0_flags_wf();
        }
        let reg = self.ctrl_reg0.union(CTRL0_SET);
        match self.iface.write_register(InternalControl0::addr(), reg.bits()) {
            Ok(()) => {
                delay.delay_ns(PULSE_SETTLE_NS);
                self.ctrl_reg0 = self.ctrl_reg0.difference(CTRL0_SET);
                Ok(())
            },
            Err(e) => Err(e),
        }
    }

    /// Perform a RESET pulse (magnetize the sensor in the negative
    /// direction), hold the settling delay, then clear the bit in the
    /// shadow.
    pub fn reset<D: Delay>(&mut self, delay: &mut D) -> (r: Result<(), Error<DI::Comm>>)
        requires
            old(self).wf(),
        ensures
            final(self).wf(),
            final(self).ctrl_reg1 == old(self).ctrl_reg1,
            final(self).ctrl_reg2 == old(self).ctrl_reg2,
            final(self).ctrl_reg3 == old(self).ctrl_reg3,
            final(self).offset == old(self).offset,
            r matches Ok(_) ==> final(self).ctrl_reg0 == old(self).ctrl_reg0.spec_difference(
                CTRL0_RESET,
            ),
            r matches Err(e) ==> e is Comm && final(self).ctrl_reg0 == old(self).ctrl_reg0,
    {
        proof {
            lemma_ctrl0_flags_wf();
        }
        let reg = self.ctrl_reg0.union(CTRL0_RESET);
        match self.iface.write_register(InternalControl0::addr(), reg.bits()) {
            Ok(()) => {
                delay.delay_ns(PULSE_SETTLE_NS);
                self.ctrl_reg0 = self.ctrl_reg0.difference(CTRL0_RESET);
                Ok(())
            },
            Err(e) => Err(e),
        }
    }

    /// Perform a SET pulse through the positive self-test pin in control
    /// register 3; the control register 3 shadow is deliberately left
    /// untouched, mirroring the self-clearing pulse bit.
    pub fn set_extra<D: Delay>(&mut self, delay: &mut D) -> (r: Result<(), Error<DI::Comm>>)
        requires
            old(self).wf(),
        ensures
            final(self).wf(),
            final(self).ctrl_reg1 == old(self).ctrl_reg1,
            final(self).ctrl_reg2 == old(self).ctrl_reg2,
            final(self).ctrl_reg3 == old(self).ctrl_reg3,
            final(self).offset == old(self).offset,
            r matches Ok(_) ==> final(self).ctrl_reg0 == old(self).ctrl_reg0.spec_difference(
                CTRL0_SET,
            ),
            r matches Err(e) ==> e is Comm && final(self).ctrl_reg0 == old(self).ctrl_reg0,
    {
        proof {
            lemma_ctrl3_flags_wf();
        }
        let reg = self.ctrl_reg3.union(CTRL3_ST_ENP);
        match self.iface.write_register(InternalControl3::addr(), reg.bits()) {
            Ok(()) => {
                delay.delay_ns(EXTRA_PULSE_NS);
                self.ctrl_reg0 = self.ctrl_reg0.difference(CTRL0_SET);
                Ok(())
            },
            Err(e) => Err(e),
        }
    }

    /// Perform a RESET pulse through the negative self-test pin in
    /// control register 3; the control register 3 shadow is deliberately
    /// left untouched, mirroring the self-clearing pulse bit.
    pub fn reset_extra<D: Delay>(&mut self, delay: &mut D) -> (r: Result<(), Error<DI::Comm>>)
        requires
            old(self).wf(),
        ensures
            final(self).wf(),
            final(self).ctrl_reg1 == old(self).ctrl_reg1,
            final(self).ctrl_reg2 == old(self).ctrl_reg2,
            final(self).ctrl_reg3 == old(self).ctrl_reg3,
            final(self).offset == old(self).offset,
            r matches Ok(_) ==> final(self).ctrl_reg0 == old(self).ctrl_reg0.spec_difference(
                CTRL0_SET,
            ),
            r matches Err(e) ==> e is Comm && final(self).ctrl_reg0 == old(self).ctrl_reg0,
    {
        proof {
            lemma_ctrl3_flags_wf();
        }
        let reg = self.ctrl_reg3.union(CTRL3_ST_ENM);
        match self.iface.write_register(InternalControl3::addr(), reg.bits()) {
            Ok(()) => {
                delay.delay_ns(EXTRA_PULSE_NS);
                self.ctrl_reg0 = self.ctrl_reg0.difference(CTRL0_SET);
                Ok(())
            },
            Err(e) => Err(e),
        }
    }

    /// Busy-poll the status register until the magnetic (or, with
    /// `temp` set, the temperature) measurement-done flag is asserted.
    fn wait_for_done(&mut self, temp: bool) -> (r: Result<(), Error<DI::Comm>>)
        ensures
            final(self).shadow() == old(self).shadow(),
            r matches Err(e) ==> e is Comm,
    {
        let mut fuel: u64 = POLL_FUEL;
        while fuel > 0
            invariant
                self.shadow() == old(self).shadow(),
            decreases fuel,
        {
            let st = match self.status() {
                Ok(st) => st,
                Err(e) => {
                    return Err(e);
                },
            };
            let done = if temp {
                st.temp_done()
            } else {
                st.meas_done()
            };
            if done {
                break ;
            }
            fuel = fuel - 1;
        }
        Ok(())
    }

    /// Read the device status register.
    pub fn status(&mut self) -> (r: Result<Status, Error<DI::Comm>>)
        ensures
            final(self).shadow() == old(self).shadow(),
            r matches Ok(s) ==> s.flags.wf(),
            r matches Err(e) ==> e is Comm,
    {
        match self.iface.read_register(StatusReg::addr()) {
            Ok(b) => {
                proof {
                    assert((b & STATUS_MASK) & STATUS_MASK == b & STATUS_MASK) by (bit_vector);
                }
                Ok(Status::new(StatusReg::from_data(b)))
            },
            Err(e) => Err(e),
        }
    }

    /// Read the product-ID register.
    pub fn product_id(&mut self) -> (r: Result<ProductId, Error<DI::Comm>>)
        ensures
            final(self).shadow() == old(self).shadow(),
            r matches Err(e) ==> e is Comm,
    {
        match self.iface.read_register(ProductId1::addr()) {
            Ok(b) => Ok(ProductId1::from_data(b)),
            Err(e) => Err(e),
        }
    }

    /// Measure the temperature: trigger a temperature measurement, poll
    /// until the device reports it done, then read the raw byte.
    pub fn temperature(&mut self) -> (r: Result<Temperature, Error<DI::Comm>>)
        requires
            old(self).wf(),
        ensures
            final(self).wf(),
            final(self).shadow() == old(self).shadow(),
            r matches Err(e) ==> e is Comm,
    {
        proof {
            lemma_ctrl0_flags_wf();
        }
        let reg = self.ctrl_reg0.union(CTRL0_TM_T);
        match self.iface.write_register(InternalControl0::addr(), reg.bits()) {
            Ok(()) => (),
            Err(e) => {
                return Err(e);
            },
        }
        match self.wait_for_done(true) {
            Ok(()) => (),
            Err(e) => {
                return Err(e);
            },
        }
        match self.iface.read_register(Tout::addr()) {
            Ok(b) => Ok(Temperature::from_data(b)),
            Err(e) => Err(e),
        }
    }

    /// Burst-read the seven magnetic-field registers and decode the three
    /// 18-bit raw counts.
    pub fn read_magnetic_field(&mut self) -> (r: Result<MagneticField, Error<DI::Comm>>)
        ensures
            final(self).shadow() == old(self).shadow(),
            r matches Ok(f) ==> f.fits_18_bits(),
            r matches Err(e) ==> e is Comm || e is InvalidInputData,
    {
        let data = match self.iface.read_consecutive(Xout0::addr(), 7) {
            Ok(d) => d,
            Err(e) => {
                return Err(e);
            },
        };
        Ok(MagneticField::from_bytes(&data))
    }

    /// Find the offset of the sensor by the datasheet procedure: measure
    /// once after a SET pulse and once after a RESET pulse, and store the
    /// per-axis average of the two raw readings as the new calibration
    /// offset.
    pub fn calibrate_offset<D: Delay>(&mut self, delay: &mut D) -> (r: Result<
        MagneticField,
        Error<DI::Comm>,
    >)
        requires
            old(self).wf(),
        ensures
            final(self).wf(),
            final(self).ctrl_reg1 == old(self).ctrl_reg1,
            final(self).ctrl_reg2 == old(self).ctrl_reg2,
            final(self).ctrl_reg3 == old(self).ctrl_reg3,
            r matches Ok(f) ==> final(self).offset == f && f.fits_18_bits(),
            r matches Err(e) ==> (e is Comm || e is InvalidInputData) && final(self).offset == old(
                self,
            ).offset,
    {
        let field1 = match self.pulsed_measurement(delay, true) {
            Ok(f) => f,
            Err(e) => {
                return Err(e);
            },
        };
        let field2 = match self.pulsed_measurement(delay, false) {
            Ok(f) => f,
            Err(e) => {
                return Err(e);
            },
        };
        let offset = MagneticField::average(&field1, &field2);
        self.offset = offset;
        Ok(offset)
    }

    /// One calibration measurement: apply a SET (or RESET) pulse, trigger
    /// a magnetic measurement, poll completion and read the raw field.
    fn pulsed_measurement<D: Delay>(&mut self, delay: &mut D, set_pulse: bool) -> (r: Result<
        MagneticField,
        Error<DI::Comm>,
    >)
        requires
            old(self).wf(),
        ensures
            final(self).wf(),
            final(self).ctrl_reg1 == old(self).ctrl_reg1,
            final(self).ctrl_reg2 == old(self).ctrl_reg2,
            final(self).ctrl_reg3 == old(self).ctrl_reg3,
            final(self).offset == old(self).offset,
            r matches Ok(f) ==> f.fits_18_bits(),
            r matches Err(e) ==> e is Comm || e is InvalidInputData,
    {
        let pulsed = if set_pulse {
            self.set(delay)
        } else {
            self.reset(delay)
        };
        match pulsed {
            Ok(()) => (),
            Err(e) => {
                return Err(e);
            },
        }
        proof {
            lemma_ctrl0_flags_wf();
        }
        let reg = self.ctrl_reg0.union(CTRL0_TM_M);
        match self.iface.write_register(InternalControl0::addr(), reg.bits()) {
            Ok(()) => (),
            Err(e) => {
                return Err(e);
            },
        }
        match self.wait_for_done(false) {
            Ok(()) => (),
            Err(e) => {
                return Err(e);
            },
        }
        self.read_magnetic_field()
    }

    /// Measure the field once and return it with the stored calibration
    /// offset subtracted per axis (signed, in two's complement).
    pub fn get_calibrated_field(&mut self) -> (r: Result<MagneticField, Error<DI::Comm>>)
        requires
            old(self).wf(),
        ensures
            final(self).wf(),
            final(self).shadow() == old(self).shadow(),
            r matches Ok(f) ==> -(FIELD_RANGE as int) < crate::types::spec_signed(f.x)
                < FIELD_RANGE && -(FIELD_RANGE as int) < crate::types::spec_signed(f.y)
                < FIELD_RANGE && -(FIELD_RANGE as int) < crate::types::spec_signed(f.z)
                < FIELD_RANGE,
            r matches Err(e) ==> e is Comm || e is InvalidInputData,
    {
        proof {
            lemma_ctrl0_flags_wf();
        }
        let reg = self.ctrl_reg0.union(CTRL0_TM_M);
        match self.iface.write_register(InternalControl0::addr(), reg.bits()) {
            Ok(()) => (),
            Err(e) => {
                return Err(e);
            },
        }
        match self.wait_for_done(false) {
            Ok(()) => (),
            Err(e) => {
                return Err(e);
            },
        }
        let raw = match self.read_magnetic_field() {
            Ok(f) => f,
            Err(e) => {
                return Err(e);
            },
        };
        let offset = self.offset;
        Ok(raw.compensated(&offset))
    }
}

impl<DI: ReadData> Mmc5983<DI, mode::Continuous> {
    /// Read the magnetic field in continuous mode: the device free-runs,
    /// so polling the measurement-done flag alone suffices.
    pub fn magnetic_field(&mut self) -> (r: Result<MagneticField, Error<DI::Comm>>)
        requires
            old(self).wf(),
        ensures
            final(self).wf(),
            final(self).shadow() == old(self).shadow(),
            r matches Ok(f) ==> f.fits_18_bits(),
            r matches Err(e) ==> e is Comm || e is InvalidInputData,
    {
        match self.wait_for_done(false) {
            Ok(()) => (),
            Err(e) => {
                return Err(e);
            },
        }
        self.read_magnetic_field()
    }
}

impl<DI: ReadData> Mmc5983<DI, mode::OneShot> {
    /// Read the magnetic field in one-shot mode, without blocking: if the
    /// device reports a finished measurement, read and decode it;
    /// otherwise trigger a new measurement and return `Ok(None)` to
    /// signal that no data is ready yet. Callers wanting a blocking
    /// result loop until the call yields data or an error.
    pub fn magnetic_field(&mut self) -> (r: Result<Option<MagneticField>, Error<DI::Comm>>)
        requires
            old(self).wf(),
        ensures
            final(self).wf(),
            final(self).shadow() == old(self).shadow(),
            r matches Ok(f) ==> (f matches Some(f) ==> f.fits_18_bits()),
            r matches Err(e) ==> e is Comm || e is InvalidInputData,
    {
        let st = match self.status() {
            Ok(st) => st,
            Err(e) => {
                return Err(e);
            },
        };
        if st.meas_done() {
            match self.read_magnetic_field() {
                Ok(f) => Ok(Some(f)),
                Err(e) => Err(e),
            }
        } else {
            proof {
                lemma_ctrl0_flags_wf();
            }
            let reg = self.ctrl_reg0.union(CTRL0_TM_M);
            match self.iface.write_register(InternalControl0::addr(), reg.bits()) {
                Ok(()) => Ok(None),
                Err(e) => Err(e),
            }
        }
    }
}

} // verus!
