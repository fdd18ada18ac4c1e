//! Tests of the register model and the pure measurement math.

use mmc5983::register_address::{
    InternalControl0, InternalControl1, InternalControl2, InternalControl3, XYZout2, CTRL0_MASK,
    CTRL1_MASK, CTRL2_CMM_EN, CTRL2_EN_PRD_SET, CTRL2_MASK, CTRL3_MASK,
};
use mmc5983::types::FIELD_MID_SCALE;
use mmc5983::{
    BandwidthMode, MagOutputDataRate, MagneticField, ProductId, SetResetPeriod, Status,
    StatusFlags, Temperature,
};

#[test]
fn ctrl0_round_trips_for_every_byte() {
    for b in 0..=255u8 {
        let reg = InternalControl0::from_bits_truncate(b);
        // unused bits are always zero after decode
        assert_eq!(reg.bits() & !CTRL0_MASK, 0);
        // decode(encode(value)) == value
        assert_eq!(InternalControl0::from_bits_truncate(reg.bits()), reg);
    }
}

#[test]
fn ctrl1_round_trips_for_every_byte() {
    for b in 0..=255u8 {
        let reg = InternalControl1::from_bits_truncate(b);
        assert_eq!(reg.bits() & !CTRL1_MASK, 0);
        assert_eq!(InternalControl1::from_bits_truncate(reg.bits()), reg);
    }
}

#[test]
fn ctrl2_round_trips_for_every_byte() {
    for b in 0..=255u8 {
        let reg = InternalControl2::from_bits_truncate(b);
        assert_eq!(reg.bits() & !CTRL2_MASK, 0);
        assert_eq!(InternalControl2::from_bits_truncate(reg.bits()), reg);
    }
}

#[test]
fn ctrl3_round_trips_for_every_byte() {
    for b in 0..=255u8 {
        let reg = InternalControl3::from_bits_truncate(b);
        assert_eq!(reg.bits() & !CTRL3_MASK, 0);
        assert_eq!(InternalControl3::from_bits_truncate(reg.bits()), reg);
    }
}

#[test]
fn bandwidth_bits_land_in_low_two_bits() {
    let reg = InternalControl1::from_bits_truncate(0xFF);
    assert_eq!(reg.with_bandwidth(BandwidthMode::Hz100).bits() & 0b11, 0b00);
    assert_eq!(reg.with_bandwidth(BandwidthMode::Hz200).bits() & 0b11, 0b01);
    assert_eq!(reg.with_bandwidth(BandwidthMode::Hz400).bits() & 0b11, 0b10);
    assert_eq!(reg.with_bandwidth(BandwidthMode::Hz800).bits() & 0b11, 0b11);
    // the rest of the register is untouched
    assert_eq!(
        reg.with_bandwidth(BandwidthMode::Hz800).bits() & !0b11,
        reg.bits() & !0b11
    );
}

#[test]
fn output_rate_round_trips_for_every_rate() {
    let rates = [
        MagOutputDataRate::Hz1,
        MagOutputDataRate::Hz10,
        MagOutputDataRate::Hz20,
        MagOutputDataRate::Hz50,
        MagOutputDataRate::Hz100,
        MagOutputDataRate::Hz200,
        MagOutputDataRate::Hz1000,
    ];
    for rate in rates {
        let reg = InternalControl2::from_bits_truncate(0xFF).with_output_rate(rate);
        assert_eq!(reg.output_rate(), rate);
    }
}

#[test]
fn unrecognized_rate_bits_decode_to_1_hz() {
    let reg = InternalControl2::from_bits_truncate(0b1111_1000);
    assert_eq!(reg.output_rate(), MagOutputDataRate::Hz1);
}

#[test]
fn set_period_round_trips_for_every_period() {
    let periods = [
        SetResetPeriod::Every1,
        SetResetPeriod::Every25,
        SetResetPeriod::Every75,
        SetResetPeriod::Every100,
        SetResetPeriod::Every250,
        SetResetPeriod::Every500,
        SetResetPeriod::Every1000,
        SetResetPeriod::Every2000,
    ];
    for period in periods {
        let reg = InternalControl2::from_bits_truncate(0xFF).with_set_period(period);
        assert_eq!(reg.set_period(), period);
    }
}

#[test]
fn clearing_continuous_bits_clears_them_for_every_byte() {
    for b in 0..=255u8 {
        let reg = InternalControl2::from_bits_truncate(b)
            .difference(CTRL2_CMM_EN | CTRL2_EN_PRD_SET);
        assert!(!reg.contains(CTRL2_CMM_EN));
        assert!(!reg.contains(CTRL2_EN_PRD_SET));
    }
}

#[test]
fn xyz_low_bits_unpack_by_axis() {
    let reg = XYZout2(0b1100_0000);
    assert_eq!(reg.x_bits(), 0b11);
    assert_eq!(reg.y_bits(), 0b00);
    assert_eq!(reg.z_bits(), 0b00);
    let reg = XYZout2(0b0001_1000);
    assert_eq!(reg.x_bits(), 0b00);
    assert_eq!(reg.y_bits(), 0b01);
    assert_eq!(reg.z_bits(), 0b10);
}

#[test]
fn status_flags_truncate_and_expose_predicates() {
    let st = Status::new(StatusFlags::from_bits_truncate(0xFF));
    assert!(st.meas_done());
    assert!(st.temp_done());
    assert!(st.otp_read_done());
    let st = Status::new(StatusFlags::from_bits_truncate(0xEC));
    assert!(!st.meas_done());
    assert!(!st.temp_done());
    assert!(!st.otp_read_done());
    assert_eq!(StatusFlags::from_bits_truncate(0xEC).bits, 0);
}

#[test]
fn product_id_checks_against_expected_constant() {
    assert!(ProductId::from_bits_truncate(0x30).is_correct());
    assert!(!ProductId::from_bits_truncate(0x31).is_correct());
    assert_eq!(ProductId::from_bits_truncate(0x99).raw(), 0x99);
}

#[test]
fn field_decode_matches_shift_formula() {
    // Only the packed low bits of X set.
    let f = MagneticField::from_bytes(&vec![0, 0, 0, 0, 0, 0, 0b1100_0000]);
    assert_eq!((f.x_raw(), f.y_raw(), f.z_raw()), (3, 0, 0));
    // MSB = 0x01, LSB = 0x02, low bits for X = 0b11.
    let f = MagneticField::from_bytes(&vec![0x01, 0x02, 0, 0, 0, 0, 0b1100_0000]);
    assert_eq!(f.x_raw(), (1u32 << 10) | (2u32 << 2) | 3);
    // All bytes at maximum give the full 18-bit magnitude on each axis.
    let f = MagneticField::from_bytes(&vec![0xFF, 0xFF, 0xFF, 0xFF, 0xFF, 0xFF, 0xFF]);
    assert_eq!((f.x_raw(), f.y_raw(), f.z_raw()), (0x3FFFF, 0x3FFFF, 0x3FFFF));
}

#[test]
fn gauss_scaling_is_zero_at_mid_scale_and_one_per_16384_counts() {
    let mid = MagneticField {
        x: FIELD_MID_SCALE,
        y: FIELD_MID_SCALE,
        z: FIELD_MID_SCALE,
    };
    // Calibrated against itself, mid-scale decodes to 0.0 Gauss.
    let cal = mid.compensated(&mid);
    assert_eq!(cal.x_signed(), 0);
    assert_eq!(cal.x_signed() as f32 / 16384.0, 0.0);
    // One sensitivity step above the offset decodes to exactly 1.0 Gauss.
    let one = MagneticField {
        x: FIELD_MID_SCALE + 16384,
        y: FIELD_MID_SCALE,
        z: FIELD_MID_SCALE,
    };
    let cal = one.compensated(&mid);
    assert_eq!(cal.x_signed(), 16384);
    assert_eq!(cal.x_signed() as f32 / 16384.0, 1.0);
}

#[test]
fn compensation_is_a_signed_subtraction() {
    let raw = MagneticField { x: 5, y: 0x3FFFF, z: 7 };
    let offset = MagneticField { x: 7, y: 1, z: 7 };
    let cal = raw.compensated(&offset);
    assert_eq!(cal.x_signed(), -2);
    assert_eq!(cal.y_signed(), 0x3FFFE);
    assert_eq!(cal.z_signed(), 0);
}

#[test]
fn average_of_equal_fields_is_the_field_itself() {
    let f = MagneticField { x: 123, y: 0x3FFFF, z: 0 };
    assert_eq!(MagneticField::average(&f, &f), f);
}

#[test]
fn average_truncates_toward_zero() {
    let a = MagneticField { x: 3, y: 0, z: 1 };
    let b = MagneticField { x: 4, y: 1, z: 2 };
    let avg = MagneticField::average(&a, &b);
    assert_eq!((avg.x, avg.y, avg.z), (3, 0, 1));
}

#[test]
fn temperature_conversion_is_affine_from_minus_75() {
    assert_eq!(Temperature::from_data(0x00).millicelsius(), -75_000);
    assert_eq!(Temperature::from_data(0xFF).millicelsius(), 129_000);
    // In degrees: 0x00 is -75.0 C and 0xFF is -75.0 + 255 * 0.8 = 129.0 C.
    let celsius = |raw: u8| Temperature::from_data(raw).millicelsius() as f32 / 1000.0;
    assert_eq!(celsius(0x00), -75.0);
    assert_eq!(celsius(0xFF), 129.0);
    assert_eq!(Temperature::from_data(0xFF).raw(), 0xFF);
}
