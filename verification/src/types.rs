//! Value types of the driver: errors, measurements, status and the
//! enumerations that configure bandwidth, output rate and SET/RESET period.

use vstd::prelude::*;

verus! {

/// Number of raw counts per axis: measurements are 18-bit magnitudes.
pub const FIELD_RANGE: u32 = 0x40000;

/// Raw count that stands for a zero field under the bipolar 18-bit
/// encoding (mid-scale, `2^17`).
pub const FIELD_MID_SCALE: u32 = 0x20000;

/// All possible errors of this crate.
#[derive(Debug)]
pub enum Error<CommE> {
    /// I2C / SPI communication error.
    Comm(CommE),
    /// Invalid input data provided.
    InvalidInputData,
    /// The product-ID register did not hold the expected value.
    InvalidId(ProductId),
}

/// A product ID, used to identify the device.
#[derive(Debug, Clone, Copy, PartialEq, Eq, Structural)]
pub struct ProductId {
    /// Raw register content.
    pub raw: u8,
}

impl ProductId {
    /// Wrap a raw product-ID register byte.
    pub fn from_bits_truncate(raw: u8) -> (r: Self)
        ensures
            r.raw == raw,
    {
        Self { raw }
    }

    /// Raw product ID.
    pub fn raw(&self) -> (r: u8)
        ensures
            r == self.raw,
    {
        self.raw
    }

    /// Check if the ID corresponds to the expected value.
    pub fn is_correct(&self) -> (r: bool)
        ensures
            r == (self.raw == crate::register_address::PRODUCT_ID_VALUE),
    {
        self.raw == crate::register_address::PRODUCT_ID_VALUE
    }
}

/// Raw count of one axis, reconstructed from the MSB byte, the LSB byte and
/// the two low-order bits packed into the shared trailing register.
pub open spec fn spec_axis(msb: u8, lsb: u8, low2: u8) -> int {
    msb * 1024 + lsb * 4 + low2
}

/// The signed reading a raw count stands for: the unsigned 32-bit value
/// reinterpreted as two's complement.
pub open spec fn spec_signed(raw: u32) -> int {
    if raw < 0x8000_0000 {
        raw as int
    } else {
        raw - 0x1_0000_0000
    }
}

/// A magnetic field measurement, one raw count per axis.
#[derive(Debug, Clone, Copy, PartialEq, Eq, Structural)]
pub struct MagneticField {
    pub x: u32,
    pub y: u32,
    pub z: u32,
}

impl MagneticField {
    /// All three raw counts are 18-bit magnitudes.
    pub open spec fn fits_18_bits(self) -> bool {
        self.x < FIELD_RANGE && self.y < FIELD_RANGE && self.z < FIELD_RANGE
    }

    /// Build a measurement from the three raw counts.
    pub fn from_data(data: (u32, u32, u32)) -> (r: Self)
        ensures
            r == (MagneticField { x: data.0, y: data.1, z: data.2 }),
    {
        Self { x: data.0, y: data.1, z: data.2 }
    }

    /// Raw magnetic field in X-direction.
    pub fn x_raw(&self) -> (r: u32)
        ensures
            r == self.x,
    {
        self.x
    }

    /// Raw magnetic field in Y-direction.
    pub fn y_raw(&self) -> (r: u32)
        ensures
            r == self.y,
    {
        self.y
    }

    /// Raw magnetic field in Z-direction.
    pub fn z_raw(&self) -> (r: u32)
        ensures
            r == self.z,
    {
        self.z
    }

    /// Decode a burst read of the seven field registers: for each axis
    /// the MSB byte, the LSB byte and its two packed low-order bits of the
    /// trailing byte combine into an 18-bit raw count.
    pub fn from_bytes(data: &Vec<u8>) -> (r: Self)
        requires
            data@.len() == 7,
        ensures
            r.x == spec_axis(data@[0], data@[1], (data@[6] >> 6) & 0b11),
            r.y == spec_axis(data@[2], data@[3], (data@[6] >> 4) & 0b11),
            r.z == spec_axis(data@[4], data@[5], (data@[6] >> 2) & 0b11),
            r.fits_18_bits(),
    {
        let xyz2 = crate::register_address::XYZout2(data[6]);
        let x = axis_value(data[0], data[1], xyz2.x_bits());
        let y = axis_value(data[2], data[3], xyz2.y_bits());
        let z = axis_value(data[4], data[5], xyz2.z_bits());
        MagneticField { x, y, z }
    }

    /// Per-axis mean of two measurements, the value the SET/RESET
    /// calibration procedure stores as the offset.
    pub fn average(a: &MagneticField, b: &MagneticField) -> (r: Self)
        requires
            a.fits_18_bits(),
            b.fits_18_bits(),
        ensures
            r.x == (a.x + b.x) / 2,
            r.y == (a.y + b.y) / 2,
            r.z == (a.z + b.z) / 2,
            r.fits_18_bits(),
    {
        MagneticField { x: (a.x + b.x) / 2, y: (a.y + b.y) / 2, z: (a.z + b.z) / 2 }
    }

    /// The measurement with the calibration offset subtracted on each
    /// axis: a signed subtraction whose result is stored in two's
    /// complement, so a reading below the offset comes out negative when
    /// reinterpreted through the signed accessors.
    pub fn compensated(&self, offset: &MagneticField) -> (r: Self)
        requires
            self.fits_18_bits(),
            offset.fits_18_bits(),
        ensures
            spec_signed(r.x) == self.x - offset.x,
            spec_signed(r.y) == self.y - offset.y,
            spec_signed(r.z) == self.z - offset.z,
    {
        MagneticField {
            x: wrap_sub(self.x, offset.x),
            y: wrap_sub(self.y, offset.y),
            z: wrap_sub(self.z, offset.z),
        }
    }

    /// Signed X count: the raw value reinterpreted as two's complement.
    pub fn x_signed(&self) -> (r: i32)
        ensures
            r == spec_signed(self.x),
    {
        let raw = self.x;
        proof {
            assert(raw as i32 == spec_signed(raw)) by (bit_vector);
        }
        raw as i32
    }

    /// Signed Y count: the raw value reinterpreted as two's complement.
    pub fn y_signed(&self) -> (r: i32)
        ensures
            r == spec_signed(self.y),
    {
        let raw = self.y;
        proof {
            assert(raw as i32 == spec_signed(raw)) by (bit_vector);
        }
        raw as i32
    }

    /// Signed Z count: the raw value reinterpreted as two's complement.
    pub fn z_signed(&self) -> (r: i32)
        ensures
            r == spec_signed(self.z),
    {
        let raw = self.z;
        proof {
            assert(raw as i32 == spec_signed(raw)) by (bit_vector);
        }
        raw as i32
    }
}

/// One axis' raw count from its MSB byte, LSB byte and two low-order bits.
fn axis_value(msb: u8, lsb: u8, low2: u8) -> (r: u32)
    requires
        low2 < 4,
    ensures
        r == spec_axis(msb, lsb, low2),
        r < FIELD_RANGE,
{
    (msb as u32) * 1024 + (lsb as u32) * 4 + (low2 as u32)
}

/// Two's complement difference of two raw counts.
fn wrap_sub(a: u32, b: u32) -> (r: u32)
    requires
        a < FIELD_RANGE,
        b < FIELD_RANGE,
    ensures
        spec_signed(r) == a - b,
{
    if a >= b {
        a - b
    } else {
        let d = b - a;
        proof {
            assert(!((d - 1) as u32) == 0x1_0000_0000 - d) by (bit_vector)
                requires
                    1 <= d && d < 0x40000,
            ;
        }
        !(d - 1)
    }
}

/// Law: the axis decode is the datasheet's shift formula
/// `(msb << 10) | (lsb << 2) | low2`.
pub proof fn lemma_axis_shift_form(msb: u8, lsb: u8, low2: u8)
    requires
        low2 < 4,
    ensures
        spec_axis(msb, lsb, low2) == (((msb as u32) << 10) | ((lsb as u32) << 2) | (low2 as u32)),
{
    assert(((msb as u32) << 10) | ((lsb as u32) << 2) | (low2 as u32) == (msb as u32) * 1024 + (
    lsb as u32) * 4 + (low2 as u32)) by (bit_vector)
        requires
            low2 < 4,
    ;
}

/// Law: averaging a measurement with itself yields the measurement, so
/// calibrating twice against identical SET/RESET readings stores the
/// reading itself as the offset.
pub proof fn lemma_average_idempotent(f: MagneticField)
    requires
        f.fits_18_bits(),
    ensures
        (f.x + f.x) / 2 == f.x,
        (f.y + f.y) / 2 == f.y,
        (f.z + f.z) / 2 == f.z,
{
}

/// Magnetometer measurement bandwidth.
#[derive(Debug, Clone, Copy, PartialEq, Eq, Structural)]
pub enum BandwidthMode {
    /// BW = 00, 100 Hz bandwidth.
    Hz100,
    /// BW = 01, 200 Hz bandwidth.
    Hz200,
    /// BW = 10, 400 Hz bandwidth.
    Hz400,
    /// BW = 11, 800 Hz bandwidth.
    Hz800,
}

impl BandwidthMode {
    /// Register encoding of the bandwidth (control register 1, bits 1-0).
    pub open spec fn spec_bits(self) -> u8 {
        match self {
            BandwidthMode::Hz100 => 0b00,
            BandwidthMode::Hz200 => 0b01,
            BandwidthMode::Hz400 => 0b10,
            BandwidthMode::Hz800 => 0b11,
        }
    }

    /// Convert the bandwidth to its register bits.
    pub fn bits(&self) -> (r: u8)
        ensures
            r == self.spec_bits(),
    {
        match self {
            BandwidthMode::Hz100 => 0b00,
            BandwidthMode::Hz200 => 0b01,
            BandwidthMode::Hz400 => 0b10,
            BandwidthMode::Hz800 => 0b11,
        }
    }
}

/// Magnetometer operating mode.
#[derive(Debug, Clone, Copy, PartialEq, Eq, Structural)]
pub enum MagMode {
    /// Continuous measurement mode.
    Continuous {
        /// Measurement frequency.
        frequency: MagOutputDataRate,
        /// SET/RESET period, when periodic SET/RESET is enabled.
        set_period: Option<SetResetPeriod>,
    },
    /// Single measurement mode.
    OneShot,
}

/// Magnetometer output data rate for continuous mode.
#[derive(Debug, Clone, Copy, PartialEq, Eq, Structural)]
pub enum MagOutputDataRate {
    /// 1 Hz
    Hz1,
    /// 10 Hz
    Hz10,
    /// 20 Hz
    Hz20,
    /// 50 Hz
    Hz50,
    /// 100 Hz
    Hz100,
    /// 200 Hz (when BW = 01)
    Hz200,
    /// 1000 Hz (when BW = 11)
    Hz1000,
}

impl MagOutputDataRate {
    /// Register encoding of the rate (control register 2, bits 2-0).
    pub open spec fn spec_bits(self) -> u8 {
        match self {
            MagOutputDataRate::Hz1 => 0b001,
            MagOutputDataRate::Hz10 => 0b010,
            MagOutputDataRate::Hz20 => 0b011,
            MagOutputDataRate::Hz50 => 0b100,
            MagOutputDataRate::Hz100 => 0b101,
            MagOutputDataRate::Hz200 => 0b110,
            MagOutputDataRate::Hz1000 => 0b111,
        }
    }

    /// Convert the frequency to its register bits.
    pub fn bits(&self) -> (r: u8)
        ensures
            r == self.spec_bits(),
    {
        match self {
            MagOutputDataRate::Hz1 => 0b001,
            MagOutputDataRate::Hz10 => 0b010,
            MagOutputDataRate::Hz20 => 0b011,
            MagOutputDataRate::Hz50 => 0b100,
            MagOutputDataRate::Hz100 => 0b101,
            MagOutputDataRate::Hz200 => 0b110,
            MagOutputDataRate::Hz1000 => 0b111,
        }
    }
}

/// Period for automatic SET operations.
#[derive(Debug, Clone, Copy, PartialEq, Eq, Structural)]
pub enum SetResetPeriod {
    /// Every measurement.
    Every1,
    /// Every 25 measurements.
    Every25,
    /// Every 75 measurements.
    Every75,
    /// Every 100 measurements.
    Every100,
    /// Every 250 measurements.
    Every250,
    /// Every 500 measurements.
    Every500,
    /// Every 1000 measurements.
    Every1000,
    /// Every 2000 measurements.
    Every2000,
}

impl SetResetPeriod {
    /// Register encoding of the period (control register 2, bits 6-3,
    /// before the shift into place).
    pub open spec fn spec_bits(self) -> u8 {
        match self {
            SetResetPeriod::Every1 => 0,
            SetResetPeriod::Every25 => 1,
            SetResetPeriod::Every75 => 2,
            SetResetPeriod::Every100 => 3,
            SetResetPeriod::Every250 => 4,
            SetResetPeriod::Every500 => 5,
            SetResetPeriod::Every1000 => 6,
            SetResetPeriod::Every2000 => 7,
        }
    }

    /// Convert the period to its register bits.
    pub fn bits(&self) -> (r: u8)
        ensures
            r == self.spec_bits(),
    {
        match self {
            SetResetPeriod::Every1 => 0,
            SetResetPeriod::Every25 => 1,
            SetResetPeriod::Every75 => 2,
            SetResetPeriod::Every100 => 3,
            SetResetPeriod::Every250 => 4,
            SetResetPeriod::Every500 => 5,
            SetResetPeriod::Every1000 => 6,
            SetResetPeriod::Every2000 => 7,
        }
    }
}

/// Device status flags, backed by the status register byte.
#[derive(Debug, Clone, Copy, PartialEq, Eq, Structural)]
pub struct StatusFlags {
    /// Raw flag bits; bits outside the defined flags are always zero.
    pub bits: u8,
}

/// Measurement-done flag bit of the status register.
pub const STATUS_MEAS_M_DONE: u8 = 0b0000_0001;

/// Temperature-measurement-done flag bit of the status register.
pub const STATUS_MEAS_T_DONE: u8 = 0b0000_0010;

/// OTP-read-done flag bit of the status register.
pub const STATUS_OTP_READ_DONE: u8 = 0b0001_0000;

/// Mask of all defined status register bits.
pub const STATUS_MASK: u8 = 0b0001_0011;

impl StatusFlags {
    /// Only defined flag bits are set.
    pub open spec fn wf(self) -> bool {
        self.bits & STATUS_MASK == self.bits
    }

    /// Whether the flag bits named by `mask` are all set.
    pub open spec fn spec_contains(self, mask: u8) -> bool {
        self.bits & mask == mask
    }

    /// Wrap a raw status byte, masking out undefined bits.
    pub fn from_bits_truncate(bits: u8) -> (r: Self)
        ensures
            r.bits == bits & STATUS_MASK,
            r.wf(),
    {
        proof {
            assert((bits & STATUS_MASK) & STATUS_MASK == bits & STATUS_MASK) by (bit_vector);
        }
        Self { bits: bits & STATUS_MASK }
    }
}

/// Device status.
#[derive(Debug, Clone, Copy, PartialEq, Eq, Structural)]
pub struct Status {
    /// Decoded status flags.
    pub flags: StatusFlags,
}

impl Status {
    /// Wrap decoded status flags.
    pub fn new(flags: StatusFlags) -> (r: Self)
        ensures
            r.flags == flags,
    {
        Self { flags }
    }

    /// Check if the magnetic measurement is complete.
    pub fn meas_done(&self) -> (r: bool)
        ensures
            r == self.flags.spec_contains(STATUS_MEAS_M_DONE),
    {
        self.flags.bits & STATUS_MEAS_M_DONE == STATUS_MEAS_M_DONE
    }

    /// Check if the temperature measurement is complete.
    pub fn temp_done(&self) -> (r: bool)
        ensures
            r == self.flags.spec_contains(STATUS_MEAS_T_DONE),
    {
        self.flags.bits & STATUS_MEAS_T_DONE == STATUS_MEAS_T_DONE
    }

    /// Check if the OTP read completed.
    pub fn otp_read_done(&self) -> (r: bool)
        ensures
            r == self.flags.spec_contains(STATUS_OTP_READ_DONE),
    {
        self.flags.bits & STATUS_OTP_READ_DONE == STATUS_OTP_READ_DONE
    }
}

/// A temperature measurement.
#[derive(Debug, Clone, Copy, PartialEq, Eq, Structural)]
pub struct Temperature {
    /// Raw register byte.
    pub raw: u8,
}

/// Millidegrees Celsius a raw temperature byte stands for: an affine map
/// with -75 degrees at zero and 0.8 degrees per count.
pub open spec fn spec_millicelsius(raw: u8) -> int {
    -75000 + raw * 800
}

impl Temperature {
    /// Wrap a raw temperature register byte.
    pub fn from_data(data: u8) -> (r: Self)
        ensures
            r.raw == data,
    {
        Temperature { raw: data }
    }

    /// Raw temperature reading.
    pub fn raw(&self) -> (r: u8)
        ensures
            r == self.raw,
    {
        self.raw
    }

    /// Temperature in millidegrees Celsius.
    pub fn millicelsius(&self) -> (r: i32)
        ensures
            r == spec_millicelsius(self.raw),
    {
        -75000 + (self.raw as i32) * 800
    }
}

} // verus!
