//! Platform-agnostic driver for the MMC5983MA three-axis magnetometer.
//!
//! The driver translates high-level operations (read a calibrated field,
//! switch to continuous sampling) into bit-exact register transactions over
//! either an I2C or an SPI bus, and tracks the device's four control
//! registers in an in-memory shadow that is only updated after a bus write
//! has been confirmed.

use core::marker::PhantomData;

use vstd::prelude::*;

mod device_impl;
pub mod interface;
pub mod magnetometer;
pub mod mode;
pub mod register_address;
pub mod types;

pub use crate::device_impl::{Delay, EXTRA_PULSE_NS, PULSE_SETTLE_NS};
pub use crate::types::{
    BandwidthMode, Error, MagMode, MagOutputDataRate, MagneticField, ProductId, SetResetPeriod,
    Status, StatusFlags, Temperature,
};

use crate::register_address::{
    InternalControl0, InternalControl1, InternalControl2, InternalControl3,
};

verus! {

/// Marker restricting the transport traits to the interfaces of this crate.
pub trait Sealed {

}

/// MMC5983MA device driver.
///
/// The four control-register fields are the in-memory shadow of the
/// device's control registers; they change only after the corresponding
/// bus write succeeded, so a communication failure never leaves the shadow
/// ahead of the hardware.
#[derive(Debug)]
pub struct Mmc5983<DI, MODE> {
    /// Digital interface: I2C or SPI.
    pub iface: DI,
    /// Shadow of internal control register 0.
    pub ctrl_reg0: InternalControl0,
    /// Shadow of internal control register 1.
    pub ctrl_reg1: InternalControl1,
    /// Shadow of internal control register 2.
    pub ctrl_reg2: InternalControl2,
    /// Shadow of internal control register 3.
    pub ctrl_reg3: InternalControl3,
    /// Stored calibration offset, in raw counts.
    pub offset: MagneticField,
    /// Operating mode marker.
    pub _mode: PhantomData<MODE>,
}

impl<DI, MODE> Mmc5983<DI, MODE> {
    /// The shadow registers hold no reserved bits and the stored offset
    /// lies in the 18-bit measurement range.
    pub open spec fn wf(self) -> bool {
        &&& self.ctrl_reg0.wf()
        &&& self.ctrl_reg1.wf()
        &&& self.ctrl_reg2.wf()
        &&& self.ctrl_reg3.wf()
        &&& self.offset.fits_18_bits()
    }

    /// Runtime check of the well-formedness invariant, for callers
    /// outside the verified world that need to test it before calling an
    /// operation that relies on it.
    pub fn is_well_formed(&self) -> (r: bool)
        ensures
            r == self.wf(),
    {
        self.ctrl_reg0.bits & crate::register_address::CTRL0_MASK == self.ctrl_reg0.bits
            && self.ctrl_reg1.bits & crate::register_address::CTRL1_MASK == self.ctrl_reg1.bits
            && self.ctrl_reg2.bits & crate::register_address::CTRL2_MASK == self.ctrl_reg2.bits
            && self.ctrl_reg3.bits & crate::register_address::CTRL3_MASK == self.ctrl_reg3.bits
            && self.offset.x < crate::types::FIELD_RANGE && self.offset.y
            < crate::types::FIELD_RANGE && self.offset.z < crate::types::FIELD_RANGE
    }

    /// The driver's shadow state: the four control registers and the
    /// stored calibration offset.
    pub open spec fn shadow(self) -> (
        InternalControl0,
        InternalControl1,
        InternalControl2,
        InternalControl3,
        MagneticField,
    ) {
        (self.ctrl_reg0, self.ctrl_reg1, self.ctrl_reg2, self.ctrl_reg3, self.offset)
    }
}

} // verus!
