//! Typed register model: one descriptor per device register with its
//! address, bit layout and decode/encode rules.
//!
//! Bitfield registers keep the invariant that reserved bits are zero:
//! decode masks unknown bits out, and every encoded byte only ever holds
//! defined bits ("truncate" semantics).

use vstd::prelude::*;

use crate::types::{BandwidthMode, MagOutputDataRate, ProductId, SetResetPeriod, StatusFlags};
use crate::types::STATUS_MASK;

verus! {

/// Expected content of the product-ID register.
pub const PRODUCT_ID_VALUE: u8 = 0x30;

/// Trait for reading from registers.
pub trait RegRead {
    /// Decoded register content.
    type Output;

    /// Register address.
    spec fn spec_addr() -> u8;

    /// What decoding a raw byte yields.
    spec fn spec_from_data(data: u8) -> Self::Output;

    /// Register address.
    fn addr() -> (r: u8)
        ensures
            r == Self::spec_addr(),
    ;

    /// Decode a raw register byte.
    fn from_data(data: u8) -> (r: Self::Output)
        ensures
            r == Self::spec_from_data(data),
    ;
}

/// Trait for writing to registers.
pub trait RegWrite: RegRead {
    /// The byte that encoding this value yields.
    spec fn spec_data(&self) -> u8;

    /// Encode the value into its register byte.
    fn data(&self) -> (r: u8)
        ensures
            r == self.spec_data(),
    ;
}

/// Xout[17:10] register (`0x00`).
#[derive(Debug, Clone, Copy)]
pub struct Xout0;

impl RegRead for Xout0 {
    type Output = u8;

    open spec fn spec_addr() -> u8 {
        0x00
    }

    open spec fn spec_from_data(data: u8) -> u8 {
        data
    }

    fn addr() -> u8 {
        0x00
    }

    fn from_data(data: u8) -> u8 {
        data
    }
}

/// Xout[9:2] register (`0x01`).
#[derive(Debug, Clone, Copy)]
pub struct Xout1;

impl RegRead for Xout1 {
    type Output = u8;

    open spec fn spec_addr() -> u8 {
        0x01
    }

    open spec fn spec_from_data(data: u8) -> u8 {
        data
    }

    fn addr() -> u8 {
        0x01
    }

    fn from_data(data: u8) -> u8 {
        data
    }
}

/// Yout[17:10] register (`0x02`).
#[derive(Debug, Clone, Copy)]
pub struct Yout0;

impl RegRead for Yout0 {
    type Output = u8;

    open spec fn spec_addr() -> u8 {
        0x02
    }

    open spec fn spec_from_data(data: u8) -> u8 {
        data
    }

    fn addr() -> u8 {
        0x02
    }

    fn from_data(data: u8) -> u8 {
        data
    }
}

/// Yout[9:2] register (`0x03`).
#[derive(Debug, Clone, Copy)]
pub struct Yout1;

impl RegRead for Yout1 {
    type Output = u8;

    open spec fn spec_addr() -> u8 {
        0x03
    }

    open spec fn spec_from_data(data: u8) -> u8 {
        data
    }

    fn addr() -> u8 {
        0x03
    }

    fn from_data(data: u8) -> u8 {
        data
    }
}

/// Zout[17:10] register (`0x04`).
#[derive(Debug, Clone, Copy)]
pub struct Zout0;

impl RegRead for Zout0 {
    type Output = u8;

    open spec fn spec_addr() -> u8 {
        0x04
    }

    open spec fn spec_from_data(data: u8) -> u8 {
        data
    }

    fn addr() -> u8 {
        0x04
    }

    fn from_data(data: u8) -> u8 {
        data
    }
}

/// Zout[9:2] register (`0x05`).
#[derive(Debug, Clone, Copy)]
pub struct Zout1;

impl RegRead for Zout1 {
    type Output = u8;

    open spec fn spec_addr() -> u8 {
        0x05
    }

    open spec fn spec_from_data(data: u8) -> u8 {
        data
    }

    fn addr() -> u8 {
        0x05
    }

    fn from_data(data: u8) -> u8 {
        data
    }
}

/// Temperature output register (`0x07`).
#[derive(Debug, Clone, Copy)]
pub struct Tout;

impl RegRead for Tout {
    type Output = u8;

    open spec fn spec_addr() -> u8 {
        0x07
    }

    open spec fn spec_from_data(data: u8) -> u8 {
        data
    }

    fn addr() -> u8 {
        0x07
    }

    fn from_data(data: u8) -> u8 {
        data
    }
}

/// Status register (`0x08`).
#[derive(Debug, Clone, Copy)]
pub struct StatusReg;

impl RegRead for StatusReg {
    type Output = StatusFlags;

    open spec fn spec_addr() -> u8 {
        0x08
    }

    open spec fn spec_from_data(data: u8) -> StatusFlags {
        StatusFlags { bits: data & STATUS_MASK }
    }

    fn addr() -> u8 {
        0x08
    }

    fn from_data(data: u8) -> StatusFlags {
        StatusFlags::from_bits_truncate(data)
    }
}

/// Product ID register (`0x2F`).
#[derive(Debug, Clone, Copy)]
pub struct ProductId1;

impl RegRead for ProductId1 {
    type Output = ProductId;

    open spec fn spec_addr() -> u8 {
        0x2F
    }

    open spec fn spec_from_data(data: u8) -> ProductId {
        ProductId { raw: data }
    }

    fn addr() -> u8 {
        0x2F
    }

    fn from_data(data: u8) -> ProductId {
        ProductId::from_bits_truncate(data)
    }
}

/// X/Y/Z[1:0] low-order bits register (`0x06`): two bits per axis, packed
/// X in bits 7-6, Y in bits 5-4, Z in bits 3-2.
#[derive(Debug, Clone, Copy)]
pub struct XYZout2(pub u8);

impl XYZout2 {
    /// Extract X[1:0] bits.
    pub fn x_bits(&self) -> (r: u8)
        ensures
            r == (self.0 >> 6) & 0b11,
            r < 4,
    {
        proof {
            let b = self.0;
            assert((b >> 6) & 0b11 < 4) by (bit_vector);
        }
        (self.0 >> 6) & 0b11
    }

    /// Extract Y[1:0] bits.
    pub fn y_bits(&self) -> (r: u8)
        ensures
            r == (self.0 >> 4) & 0b11,
            r < 4,
    {
        proof {
            let b = self.0;
            assert((b >> 4) & 0b11 < 4) by (bit_vector);
        }
        (self.0 >> 4) & 0b11
    }

    /// Extract Z[1:0] bits.
    pub fn z_bits(&self) -> (r: u8)
        ensures
            r == (self.0 >> 2) & 0b11,
            r < 4,
    {
        proof {
            let b = self.0;
            assert((b >> 2) & 0b11 < 4) by (bit_vector);
        }
        (self.0 >> 2) & 0b11
    }
}

impl RegRead for XYZout2 {
    type Output = XYZout2;

    open spec fn spec_addr() -> u8 {
        0x06
    }

    open spec fn spec_from_data(data: u8) -> XYZout2 {
        XYZout2(data)
    }

    fn addr() -> u8 {
        0x06
    }

    fn from_data(data: u8) -> XYZout2 {
        XYZout2(data)
    }
}

/// OTP-read trigger bit of control register 0.
pub const CTRL0_OTP_READ: u8 = 0b0100_0000;

/// Automatic SET/RESET enable bit of control register 0.
pub const CTRL0_AUTO_SR: u8 = 0b0010_0000;

/// RESET-pulse trigger bit of control register 0.
pub const CTRL0_RESET: u8 = 0b0001_0000;

/// SET-pulse trigger bit of control register 0.
pub const CTRL0_SET: u8 = 0b0000_1000;

/// Measurement-done interrupt enable bit of control register 0.
pub const CTRL0_INT_MEAS_DONE_EN: u8 = 0b0000_0100;

/// Temperature-measurement trigger bit of control register 0.
pub const CTRL0_TM_T: u8 = 0b0000_0010;

/// Magnetic-measurement trigger bit of control register 0.
pub const CTRL0_TM_M: u8 = 0b0000_0001;

/// Mask of all defined bits of control register 0.
pub const CTRL0_MASK: u8 = 0b0111_1111;

/// Software-reset bit of control register 1.
pub const CTRL1_SW_RST: u8 = 0b1000_0000;

/// Y/Z-channel inhibit bits of control register 1.
pub const CTRL1_YZ_INHIBIT: u8 = 0b0011_0000;

/// X-channel inhibit bit of control register 1.
pub const CTRL1_X_INHIBIT: u8 = 0b0000_1000;

/// Bandwidth bits of control register 1.
pub const CTRL1_BW: u8 = 0b0000_0011;

/// Mask of all defined bits of control register 1.
pub const CTRL1_MASK: u8 = 0b1011_1011;

/// Periodic-SET enable bit of control register 2.
pub const CTRL2_EN_PRD_SET: u8 = 0b1000_0000;

/// SET/RESET period bits of control register 2.
pub const CTRL2_PRD_SET: u8 = 0b0011_1000;

/// Continuous-mode enable bit of control register 2; it overlaps the top
/// frequency bit, matching the raw datasheet layout.
pub const CTRL2_CMM_EN: u8 = 0b0000_0100;

/// Continuous-mode frequency bits of control register 2.
pub const CTRL2_CM_FREQ: u8 = 0b0000_0111;

/// Mask of all defined bits of control register 2.
pub const CTRL2_MASK: u8 = 0b1011_1111;

/// Three-wire SPI enable bit of control register 3.
pub const CTRL3_SPI_3W: u8 = 0b0100_0000;

/// Negative self-test bit of control register 3.
pub const CTRL3_ST_ENM: u8 = 0b0000_0010;

/// Positive self-test bit of control register 3.
pub const CTRL3_ST_ENP: u8 = 0b0000_0001;

/// Mask of all defined bits of control register 3.
pub const CTRL3_MASK: u8 = 0b0100_0011;

/// Internal Control 0 register (`0x09`).
#[derive(Debug, Clone, Copy, PartialEq, Eq, Structural)]
pub struct InternalControl0 {
    /// Raw register bits; reserved bits are kept zero.
    pub bits: u8,
}

impl InternalControl0 {
    /// Only defined register bits are set.
    pub open spec fn wf(self) -> bool {
        self.bits & CTRL0_MASK == self.bits
    }

    /// What decoding a raw byte yields: undefined bits are truncated.
    pub open spec fn spec_from_bits_truncate(bits: u8) -> Self {
        InternalControl0 { bits: bits & CTRL0_MASK }
    }

    /// Set union with the flag bits in `mask`.
    pub open spec fn spec_union(self, mask: u8) -> Self {
        InternalControl0 { bits: self.bits | mask }
    }

    /// Set difference: clear the flag bits in `mask`.
    pub open spec fn spec_difference(self, mask: u8) -> Self {
        InternalControl0 { bits: self.bits & !mask }
    }

    /// Whether all flag bits in `mask` are set.
    pub open spec fn spec_contains(self, mask: u8) -> bool {
        self.bits & mask == mask
    }

    /// Decode a raw byte, truncating undefined bits.
    pub fn from_bits_truncate(bits: u8) -> (r: Self)
        ensures
            r == Self::spec_from_bits_truncate(bits),
            r.wf(),
    {
        proof {
            lemma_mask_idempotent(bits, CTRL0_MASK);
        }
        Self { bits: bits & CTRL0_MASK }
    }

    /// Raw register bits.
    pub fn bits(&self) -> (r: u8)
        ensures
            r == self.bits,
    {
        self.bits
    }

    /// Set union with the named flag bits in `mask`.
    pub fn union(self, mask: u8) -> (r: Self)
        requires
            mask & CTRL0_MASK == mask,
        ensures
            r == self.spec_union(mask),
            self.wf() ==> r.wf(),
    {
        proof {
            if self.wf() {
                lemma_union_wf(self.bits, mask, CTRL0_MASK);
            }
        }
        Self { bits: self.bits | mask }
    }

    /// Set difference: clear the named flag bits in `mask`.
    pub fn difference(self, mask: u8) -> (r: Self)
        ensures
            r == self.spec_difference(mask),
            self.wf() ==> r.wf(),
    {
        proof {
            if self.wf() {
                lemma_difference_wf(self.bits, mask, CTRL0_MASK);
            }
        }
        Self { bits: self.bits & !mask }
    }

    /// Whether all named flag bits in `mask` are set.
    pub fn contains(self, mask: u8) -> (r: bool)
        ensures
            r == self.spec_contains(mask),
    {
        self.bits & mask == mask
    }
}

impl Default for InternalControl0 {
    /// Power-on value: all bits clear.
    fn default() -> (r: Self)
        ensures
            r.bits == 0,
            r.wf(),
    {
        proof {
            lemma_zero_wf(CTRL0_MASK);
        }
        Self { bits: 0 }
    }
}

impl RegRead for InternalControl0 {
    type Output = InternalControl0;

    open spec fn spec_addr() -> u8 {
        0x09
    }

    open spec fn spec_from_data(data: u8) -> InternalControl0 {
        InternalControl0::spec_from_bits_truncate(data)
    }

    fn addr() -> u8 {
        0x09
    }

    fn from_data(data: u8) -> InternalControl0 {
        InternalControl0::from_bits_truncate(data)
    }
}

impl RegWrite for InternalControl0 {
    open spec fn spec_data(&self) -> u8 {
        self.bits
    }

    fn data(&self) -> u8 {
        self.bits
    }
}

/// Internal Control 1 register (`0x0A`).
#[derive(Debug, Clone, Copy, PartialEq, Eq, Structural)]
pub struct InternalControl1 {
    /// Raw register bits; reserved bits are kept zero.
    pub bits: u8,
}

impl InternalControl1 {
    /// Only defined register bits are set.
    pub open spec fn wf(self) -> bool {
        self.bits & CTRL1_MASK == self.bits
    }

    /// What decoding a raw byte yields: undefined bits are truncated.
    pub open spec fn spec_from_bits_truncate(bits: u8) -> Self {
        InternalControl1 { bits: bits & CTRL1_MASK }
    }

    /// Set union with the flag bits in `mask`.
    pub open spec fn spec_union(self, mask: u8) -> Self {
        InternalControl1 { bits: self.bits | mask }
    }

    /// The register with the bandwidth bits replaced.
    pub open spec fn spec_with_bandwidth(self, bw: BandwidthMode) -> Self {
        InternalControl1 { bits: (self.bits & !CTRL1_BW) | bw.spec_bits() }
    }

    /// Decode a raw byte, truncating undefined bits.
    pub fn from_bits_truncate(bits: u8) -> (r: Self)
        ensures
            r == Self::spec_from_bits_truncate(bits),
            r.wf(),
    {
        proof {
            lemma_mask_idempotent(bits, CTRL1_MASK);
        }
        Self { bits: bits & CTRL1_MASK }
    }

    /// Raw register bits.
    pub fn bits(&self) -> (r: u8)
        ensures
            r == self.bits,
    {
        self.bits
    }

    /// Set union with the named flag bits in `mask`.
    pub fn union(self, mask: u8) -> (r: Self)
        requires
            mask & CTRL1_MASK == mask,
        ensures
            r == self.spec_union(mask),
            self.wf() ==> r.wf(),
    {
        proof {
            if self.wf() {
                lemma_union_wf(self.bits, mask, CTRL1_MASK);
            }
        }
        Self { bits: self.bits | mask }
    }

    /// Replace the bandwidth bits with the encoding of `bw`.
    pub fn with_bandwidth(self, bw: BandwidthMode) -> (r: Self)
        ensures
            r == self.spec_with_bandwidth(bw),
            self.wf() ==> r.wf(),
    {
        let w = bw.bits();
        proof {
            assert(w & CTRL1_MASK == w) by (bit_vector)
                requires
                    w < 4,
            ;
            if self.wf() {
                lemma_difference_wf(self.bits, CTRL1_BW, CTRL1_MASK);
                lemma_union_wf(self.bits & !CTRL1_BW, w, CTRL1_MASK);
            }
        }
        Self { bits: (self.bits & !CTRL1_BW) | w }
    }
}

impl Default for InternalControl1 {
    /// Power-on value: all bits clear.
    fn default() -> (r: Self)
        ensures
            r.bits == 0,
            r.wf(),
    {
        proof {
            lemma_zero_wf(CTRL1_MASK);
        }
        Self { bits: 0 }
    }
}

impl RegRead for InternalControl1 {
    type Output = InternalControl1;

    open spec fn spec_addr() -> u8 {
        0x0A
    }

    open spec fn spec_from_data(data: u8) -> InternalControl1 {
        InternalControl1::spec_from_bits_truncate(data)
    }

    fn addr() -> u8 {
        0x0A
    }

    fn from_data(data: u8) -> InternalControl1 {
        InternalControl1::from_bits_truncate(data)
    }
}

impl RegWrite for InternalControl1 {
    open spec fn spec_data(&self) -> u8 {
        self.bits
    }

    fn data(&self) -> u8 {
        self.bits
    }
}

/// Internal Control 2 register (`0x0B`).
#[derive(Debug, Clone, Copy, PartialEq, Eq, Structural)]
pub struct InternalControl2 {
    /// Raw register bits; reserved bits are kept zero.
    pub bits: u8,
}

impl InternalControl2 {
    /// Only defined register bits are set.
    pub open spec fn wf(self) -> bool {
        self.bits & CTRL2_MASK == self.bits
    }

    /// What decoding a raw byte yields: undefined bits are truncated.
    pub open spec fn spec_from_bits_truncate(bits: u8) -> Self {
        InternalControl2 { bits: bits & CTRL2_MASK }
    }

    /// Set union with the flag bits in `mask`.
    pub open spec fn spec_union(self, mask: u8) -> Self {
        InternalControl2 { bits: self.bits | mask }
    }

    /// Set difference: clear the flag bits in `mask`.
    pub open spec fn spec_difference(self, mask: u8) -> Self {
        InternalControl2 { bits: self.bits & !mask }
    }

    /// Whether all flag bits in `mask` are set.
    pub open spec fn spec_contains(self, mask: u8) -> bool {
        self.bits & mask == mask
    }

    /// The register with the SET/RESET period bits replaced.
    pub open spec fn spec_with_set_period(self, period: SetResetPeriod) -> Self {
        InternalControl2 { bits: (self.bits & !CTRL2_PRD_SET) | (period.spec_bits() << 3) }
    }

    /// The register with the output-rate bits replaced.
    pub open spec fn spec_with_output_rate(self, rate: MagOutputDataRate) -> Self {
        InternalControl2 { bits: (self.bits & !CTRL2_CM_FREQ) | rate.spec_bits() }
    }

    /// The output rate the frequency bits encode; unrecognized patterns
    /// decode to 1 Hz.
    pub open spec fn spec_output_rate(self) -> MagOutputDataRate {
        let b = self.bits & CTRL2_CM_FREQ;
        if b == 0b001 {
            MagOutputDataRate::Hz1
        } else if b == 0b010 {
            MagOutputDataRate::Hz10
        } else if b == 0b011 {
            MagOutputDataRate::Hz20
        } else if b == 0b100 {
            MagOutputDataRate::Hz50
        } else if b == 0b101 {
            MagOutputDataRate::Hz100
        } else if b == 0b110 {
            MagOutputDataRate::Hz200
        } else if b == 0b111 {
            MagOutputDataRate::Hz1000
        } else {
            MagOutputDataRate::Hz1
        }
    }

    /// The SET/RESET period the period bits encode.
    pub open spec fn spec_set_period(self) -> SetResetPeriod {
        let b = ((self.bits & CTRL2_PRD_SET) >> 3) & 0b111;
        if b == 0 {
            SetResetPeriod::Every1
        } else if b == 1 {
            SetResetPeriod::Every25
        } else if b == 2 {
            SetResetPeriod::Every75
        } else if b == 3 {
            SetResetPeriod::Every100
        } else if b == 4 {
            SetResetPeriod::Every250
        } else if b == 5 {
            SetResetPeriod::Every500
        } else if b == 6 {
            SetResetPeriod::Every1000
        } else {
            SetResetPeriod::Every2000
        }
    }

    /// Decode a raw byte, truncating undefined bits.
    pub fn from_bits_truncate(bits: u8) -> (r: Self)
        ensures
            r == Self::spec_from_bits_truncate(bits),
            r.wf(),
    {
        proof {
            lemma_mask_idempotent(bits, CTRL2_MASK);
        }
        Self { bits: bits & CTRL2_MASK }
    }

    /// Raw register bits.
    pub fn bits(&self) -> (r: u8)
        ensures
            r == self.bits,
    {
        self.bits
    }

    /// Set union with the named flag bits in `mask`.
    pub fn union(self, mask: u8) -> (r: Self)
        requires
            mask & CTRL2_MASK == mask,
        ensures
            r == self.spec_union(mask),
            self.wf() ==> r.wf(),
    {
        proof {
            if self.wf() {
                lemma_union_wf(self.bits, mask, CTRL2_MASK);
            }
        }
        Self { bits: self.bits | mask }
    }

    /// Set difference: clear the named flag bits in `mask`.
    pub fn difference(self, mask: u8) -> (r: Self)
        ensures
            r == self.spec_difference(mask),
            self.wf() ==> r.wf(),
    {
        proof {
            if self.wf() {
                lemma_difference_wf(self.bits, mask, CTRL2_MASK);
            }
        }
        Self { bits: self.bits & !mask }
    }

    /// Intersection with the flag bits in `mask`.
    pub fn intersection(self, mask: u8) -> (r: Self)
        ensures
            r.bits == self.bits & mask,
    {
        Self { bits: self.bits & mask }
    }

    /// Whether all named flag bits in `mask` are set.
    pub fn contains(self, mask: u8) -> (r: bool)
        ensures
            r == self.spec_contains(mask),
    {
        self.bits & mask == mask
    }

    /// Replace the SET/RESET period bits with the encoding of `period`.
    pub fn with_set_period(self, period: SetResetPeriod) -> (r: Self)
        ensures
            r == self.spec_with_set_period(period),
            self.wf() ==> r.wf(),
    {
        let p = period.bits();
        proof {
            assert((p << 3) & CTRL2_MASK == (p << 3)) by (bit_vector)
                requires
                    p < 8,
            ;
            if self.wf() {
                lemma_difference_wf(self.bits, CTRL2_PRD_SET, CTRL2_MASK);
                lemma_union_wf(self.bits & !CTRL2_PRD_SET, p << 3, CTRL2_MASK);
            }
        }
        Self { bits: (self.bits & !CTRL2_PRD_SET) | (p << 3) }
    }

    /// Replace the output-rate bits with the encoding of `rate`.
    pub fn with_output_rate(self, rate: MagOutputDataRate) -> (r: Self)
        ensures
            r == self.spec_with_output_rate(rate),
            self.wf() ==> r.wf(),
    {
        let w = rate.bits();
        proof {
            assert(w & CTRL2_MASK == w) by (bit_vector)
                requires
                    w < 8,
            ;
            if self.wf() {
                lemma_difference_wf(self.bits, CTRL2_CM_FREQ, CTRL2_MASK);
                lemma_union_wf(self.bits & !CTRL2_CM_FREQ, w, CTRL2_MASK);
            }
        }
        Self { bits: (self.bits & !CTRL2_CM_FREQ) | w }
    }

    /// Get the current output-rate configuration.
    pub fn output_rate(&self) -> (r: MagOutputDataRate)
        ensures
            r == self.spec_output_rate(),
    {
        let bits = self.intersection(CTRL2_CM_FREQ).bits();
        match bits {
            0b001 => MagOutputDataRate::Hz1,
            0b010 => MagOutputDataRate::Hz10,
            0b011 => MagOutputDataRate::Hz20,
            0b100 => MagOutputDataRate::Hz50,
            0b101 => MagOutputDataRate::Hz100,
            0b110 => MagOutputDataRate::Hz200,
            0b111 => MagOutputDataRate::Hz1000,
            _ => MagOutputDataRate::Hz1,
        }
    }

    /// Get the current SET/RESET period configuration.
    pub fn set_period(&self) -> (r: SetResetPeriod)
        ensures
            r == self.spec_set_period(),
    {
        let bits = (self.intersection(CTRL2_PRD_SET).bits() >> 3) & 0b111;
        match bits {
            0 => SetResetPeriod::Every1,
            1 => SetResetPeriod::Every25,
            2 => SetResetPeriod::Every75,
            3 => SetResetPeriod::Every100,
            4 => SetResetPeriod::Every250,
            5 => SetResetPeriod::Every500,
            6 => SetResetPeriod::Every1000,
            _ => SetResetPeriod::Every2000,
        }
    }
}

impl Default for InternalControl2 {
    /// Power-on value: all bits clear.
    fn default() -> (r: Self)
        ensures
            r.bits == 0,
            r.wf(),
    {
        proof {
            lemma_zero_wf(CTRL2_MASK);
        }
        Self { bits: 0 }
    }
}

impl RegRead for InternalControl2 {
    type Output = InternalControl2;

    open spec fn spec_addr() -> u8 {
        0x0B
    }

    open spec fn spec_from_data(data: u8) -> InternalControl2 {
        InternalControl2::spec_from_bits_truncate(data)
    }

    fn addr() -> u8 {
        0x0B
    }

    fn from_data(data: u8) -> InternalControl2 {
        InternalControl2::from_bits_truncate(data)
    }
}

impl RegWrite for InternalControl2 {
    open spec fn spec_data(&self) -> u8 {
        self.bits
    }

    fn data(&self) -> u8 {
        self.bits
    }
}

/// Internal Control 3 register (`0x0C`).
#[derive(Debug, Clone, Copy, PartialEq, Eq, Structural)]
pub struct InternalControl3 {
    /// Raw register bits; reserved bits are kept zero.
    pub bits: u8,
}

impl InternalControl3 {
    /// Only defined register bits are set.
    pub open spec fn wf(self) -> bool {
        self.bits & CTRL3_MASK == self.bits
    }

    /// What decoding a raw byte yields: undefined bits are truncated.
    pub open spec fn spec_from_bits_truncate(bits: u8) -> Self {
        InternalControl3 { bits: bits & CTRL3_MASK }
    }

    /// Set union with the flag bits in `mask`.
    pub open spec fn spec_union(self, mask: u8) -> Self {
        InternalControl3 { bits: self.bits | mask }
    }

    /// Decode a raw byte, truncating undefined bits.
    pub fn from_bits_truncate(bits: u8) -> (r: Self)
        ensures
            r == Self::spec_from_bits_truncate(bits),
            r.wf(),
    {
        proof {
            lemma_mask_idempotent(bits, CTRL3_MASK);
        }
        Self { bits: bits & CTRL3_MASK }
    }

    /// Raw register bits.
    pub fn bits(&self) -> (r: u8)
        ensures
            r == self.bits,
    {
        self.bits
    }

    /// Set union with the named flag bits in `mask`.
    pub fn union(self, mask: u8) -> (r: Self)
        requires
            mask & CTRL3_MASK == mask,
        ensures
            r == self.spec_union(mask),
            self.wf() ==> r.wf(),
    {
        proof {
            if self.wf() {
                lemma_union_wf(self.bits, mask, CTRL3_MASK);
            }
        }
        Self { bits: self.bits | mask }
    }
}

impl Default for InternalControl3 {
    /// Power-on value: all bits clear.
    fn default() -> (r: Self)
        ensures
            r.bits == 0,
            r.wf(),
    {
        proof {
            lemma_zero_wf(CTRL3_MASK);
        }
        Self { bits: 0 }
    }
}

impl RegRead for InternalControl3 {
    type Output = InternalControl3;

    open spec fn spec_addr() -> u8 {
        0x0C
    }

    open spec fn spec_from_data(data: u8) -> InternalControl3 {
        InternalControl3::spec_from_bits_truncate(data)
    }

    fn addr() -> u8 {
        0x0C
    }

    fn from_data(data: u8) -> InternalControl3 {
        InternalControl3::from_bits_truncate(data)
    }
}

impl RegWrite for InternalControl3 {
    open spec fn spec_data(&self) -> u8 {
        self.bits
    }

    fn data(&self) -> u8 {
        self.bits
    }
}

/// Law: decoding an encoded control register 0 yields the value itself,
/// and decoding any byte leaves no reserved bit set.
pub proof fn lemma_ctrl0_round_trip(v: InternalControl0)
    requires
        v.wf(),
    ensures
        InternalControl0::spec_from_bits_truncate(v.spec_data()) == v,
        forall|b: u8| #[trigger] InternalControl0::spec_from_bits_truncate(b).wf(),
{
    assert forall|b: u8| #[trigger] InternalControl0::spec_from_bits_truncate(b).wf() by {
        lemma_mask_idempotent(b, CTRL0_MASK);
    }
}

/// Law: decoding an encoded control register 1 yields the value itself,
/// and decoding any byte leaves no reserved bit set.
pub proof fn lemma_ctrl1_round_trip(v: InternalControl1)
    requires
        v.wf(),
    ensures
        InternalControl1::spec_from_bits_truncate(v.spec_data()) == v,
        forall|b: u8| #[trigger] InternalControl1::spec_from_bits_truncate(b).wf(),
{
    assert forall|b: u8| #[trigger] InternalControl1::spec_from_bits_truncate(b).wf() by {
        lemma_mask_idempotent(b, CTRL1_MASK);
    }
}

/// Law: decoding an encoded control register 2 yields the value itself,
/// and decoding any byte leaves no reserved bit set.
pub proof fn lemma_ctrl2_round_trip(v: InternalControl2)
    requires
        v.wf(),
    ensures
        InternalControl2::spec_from_bits_truncate(v.spec_data()) == v,
        forall|b: u8| #[trigger] InternalControl2::spec_from_bits_truncate(b).wf(),
{
    assert forall|b: u8| #[trigger] InternalControl2::spec_from_bits_truncate(b).wf() by {
        lemma_mask_idempotent(b, CTRL2_MASK);
    }
}

/// Law: decoding an encoded control register 3 yields the value itself,
/// and decoding any byte leaves no reserved bit set.
pub proof fn lemma_ctrl3_round_trip(v: InternalControl3)
    requires
        v.wf(),
    ensures
        InternalControl3::spec_from_bits_truncate(v.spec_data()) == v,
        forall|b: u8| #[trigger] InternalControl3::spec_from_bits_truncate(b).wf(),
{
    assert forall|b: u8| #[trigger] InternalControl3::spec_from_bits_truncate(b).wf() by {
        lemma_mask_idempotent(b, CTRL3_MASK);
    }
}

/// Law: the output rate written into control register 2 is the output rate
/// read back from it, whatever the register held before.
pub proof fn lemma_output_rate_round_trip(v: InternalControl2, rate: MagOutputDataRate)
    ensures
        v.spec_with_output_rate(rate).spec_output_rate() == rate,
{
    let b = v.bits;
    let w = rate.spec_bits();
    assert(((b & !CTRL2_CM_FREQ) | w) & CTRL2_CM_FREQ == w) by (bit_vector)
        requires
            w < 8,
    ;
}

/// Law: the SET/RESET period written into control register 2 is the period
/// read back from it, whatever the register held before.
pub proof fn lemma_set_period_round_trip(v: InternalControl2, period: SetResetPeriod)
    ensures
        v.spec_with_set_period(period).spec_set_period() == period,
{
    let b = v.bits;
    let p = period.spec_bits();
    assert(((((b & !CTRL2_PRD_SET) | (p << 3)) & CTRL2_PRD_SET) >> 3) & 0b111 == p) by (bit_vector)
        requires
            p < 8,
    ;
}

/// Each named flag of control register 0 lies inside its defined-bits
/// mask, so a union with it keeps the shadow well formed.
pub proof fn lemma_ctrl0_flags_wf()
    ensures
        CTRL0_OTP_READ & CTRL0_MASK == CTRL0_OTP_READ,
        CTRL0_AUTO_SR & CTRL0_MASK == CTRL0_AUTO_SR,
        CTRL0_RESET & CTRL0_MASK == CTRL0_RESET,
        CTRL0_SET & CTRL0_MASK == CTRL0_SET,
        CTRL0_INT_MEAS_DONE_EN & CTRL0_MASK == CTRL0_INT_MEAS_DONE_EN,
        CTRL0_TM_T & CTRL0_MASK == CTRL0_TM_T,
        CTRL0_TM_M & CTRL0_MASK == CTRL0_TM_M,
{
    assert(CTRL0_OTP_READ & CTRL0_MASK == CTRL0_OTP_READ && CTRL0_AUTO_SR & CTRL0_MASK
        == CTRL0_AUTO_SR && CTRL0_RESET & CTRL0_MASK == CTRL0_RESET && CTRL0_SET & CTRL0_MASK
        == CTRL0_SET && CTRL0_INT_MEAS_DONE_EN & CTRL0_MASK == CTRL0_INT_MEAS_DONE_EN && CTRL0_TM_T
        & CTRL0_MASK == CTRL0_TM_T && CTRL0_TM_M & CTRL0_MASK == CTRL0_TM_M) by (bit_vector);
}

/// Each named flag of control register 1 lies inside its defined-bits
/// mask, so a union with it keeps the shadow well formed.
pub proof fn lemma_ctrl1_flags_wf()
    ensures
        CTRL1_SW_RST & CTRL1_MASK == CTRL1_SW_RST,
        CTRL1_YZ_INHIBIT & CTRL1_MASK == CTRL1_YZ_INHIBIT,
        CTRL1_X_INHIBIT & CTRL1_MASK == CTRL1_X_INHIBIT,
        CTRL1_BW & CTRL1_MASK == CTRL1_BW,
{
    assert(CTRL1_SW_RST & CTRL1_MASK == CTRL1_SW_RST && CTRL1_YZ_INHIBIT & CTRL1_MASK
        == CTRL1_YZ_INHIBIT && CTRL1_X_INHIBIT & CTRL1_MASK == CTRL1_X_INHIBIT && CTRL1_BW
        & CTRL1_MASK == CTRL1_BW) by (bit_vector);
}

/// Each named flag of control register 2 lies inside its defined-bits
/// mask, so a union with it keeps the shadow well formed.
pub proof fn lemma_ctrl2_flags_wf()
    ensures
        CTRL2_EN_PRD_SET & CTRL2_MASK == CTRL2_EN_PRD_SET,
        CTRL2_PRD_SET & CTRL2_MASK == CTRL2_PRD_SET,
        CTRL2_CMM_EN & CTRL2_MASK == CTRL2_CMM_EN,
        CTRL2_CM_FREQ & CTRL2_MASK == CTRL2_CM_FREQ,
{
    assert(CTRL2_EN_PRD_SET & CTRL2_MASK == CTRL2_EN_PRD_SET && CTRL2_PRD_SET & CTRL2_MASK
        == CTRL2_PRD_SET && CTRL2_CMM_EN & CTRL2_MASK == CTRL2_CMM_EN && CTRL2_CM_FREQ & CTRL2_MASK
        == CTRL2_CM_FREQ) by (bit_vector);
}

/// Each named flag of control register 3 lies inside its defined-bits
/// mask, so a union with it keeps the shadow well formed.
pub proof fn lemma_ctrl3_flags_wf()
    ensures
        CTRL3_SPI_3W & CTRL3_MASK == CTRL3_SPI_3W,
        CTRL3_ST_ENM & CTRL3_MASK == CTRL3_ST_ENM,
        CTRL3_ST_ENP & CTRL3_MASK == CTRL3_ST_ENP,
{
    assert(CTRL3_SPI_3W & CTRL3_MASK == CTRL3_SPI_3W && CTRL3_ST_ENM & CTRL3_MASK == CTRL3_ST_ENM
        && CTRL3_ST_ENP & CTRL3_MASK == CTRL3_ST_ENP) by (bit_vector);
}

/// A byte with no bits set lies inside every mask.
proof fn lemma_zero_wf(m: u8)
    ensures
        0u8 & m == 0,
{
    assert(0u8 & m == 0) by (bit_vector);
}

/// Masking a byte is idempotent: a decoded register decodes to itself.
proof fn lemma_mask_idempotent(b: u8, m: u8)
    ensures
        (b & m) & m == b & m,
{
    assert((b & m) & m == b & m) by (bit_vector);
}

/// A union of two bytes that only hold bits of `m` again only holds bits
/// of `m`.
proof fn lemma_union_wf(b: u8, f: u8, m: u8)
    requires
        b & m == b,
        f & m == f,
    ensures
        (b | f) & m == (b | f),
{
    assert(b & m == b && f & m == f ==> (b | f) & m == (b | f)) by (bit_vector);
}

/// Clearing bits keeps every cleared byte inside the mask `m`.
proof fn lemma_difference_wf(b: u8, f: u8, m: u8)
    requires
        b & m == b,
    ensures
        (b & !f) & m == (b & !f),
{
    assert(b & m == b ==> (b & !f) & m == (b & !f)) by (bit_vector);
}

} // verus!
