use tmt_core::smc::code::{key_code, show_code, KeyFault};
use tmt_core::smc::conv::{
    CodecError, RawFan, SmcType, TYPE_FAN, TYPE_FLAG, TYPE_FLT, TYPE_FPE2, TYPE_I16, TYPE_I32,
    TYPE_I8, TYPE_SP78, TYPE_U16, TYPE_U32, TYPE_U8,
};
use tmt_core::smc::exchange::SmcValue;
use tmt_core::smc::fixed::{host_order, order_of_word, ByteOrder, Fixed};
use tmt_core::smc::{DataType, FanMode, SmcBytes, BLANK, KEY_COUNT, KEY_FAN_COUNT, KEY_FAN_FORCED};

fn buffer(head: &[u8]) -> SmcBytes {
    let mut bytes = [0u8; 32];
    bytes[..head.len()].copy_from_slice(head);
    SmcBytes(bytes)
}

fn tag(id: u32, size: u32) -> DataType {
    DataType { id, size }
}

fn fixed(value: f64) -> Fixed {
    Fixed { raw: (value * 65536.0) as i64 }
}

fn float(value: Fixed) -> f64 {
    value.raw as f64 / 65536.0
}

#[test]
fn type_tags_are_the_codes_of_their_names() {
    assert_eq!(key_code("flag"), Ok(TYPE_FLAG));
    assert_eq!(key_code("si8 "), Ok(TYPE_I8));
    assert_eq!(key_code("ui8 "), Ok(TYPE_U8));
    assert_eq!(key_code("si16"), Ok(TYPE_I16));
    assert_eq!(key_code("ui16"), Ok(TYPE_U16));
    assert_eq!(key_code("si32"), Ok(TYPE_I32));
    assert_eq!(key_code("ui32"), Ok(TYPE_U32));
    assert_eq!(key_code("fpe2"), Ok(TYPE_FPE2));
    assert_eq!(key_code("sp78"), Ok(TYPE_SP78));
    assert_eq!(key_code("{fds"), Ok(TYPE_FAN));
    assert_eq!(key_code("flt "), Ok(TYPE_FLT));
    assert_eq!(key_code("#KEY"), Ok(KEY_COUNT));
    assert_eq!(key_code("FNum"), Ok(KEY_FAN_COUNT));
    assert_eq!(key_code("FS! "), Ok(KEY_FAN_FORCED));
    assert_eq!(key_code("    "), Ok(BLANK));
}

#[test]
fn key_code_faults() {
    assert_eq!(key_code(""), Err(KeyFault::TooShort));
    assert_eq!(key_code("abc"), Err(KeyFault::TooShort));
    assert_eq!(key_code("test1"), Err(KeyFault::TooLong));
    assert_eq!(key_code("\u{e9}ab"), Err(KeyFault::InvalidChar));
    assert_eq!(key_code("\u{e9}abc"), Err(KeyFault::TooLong));
    assert_eq!(key_code("ab\0\0"), Ok(0x6162_2020));
    assert_eq!(key_code("\0igr"), Ok(0x0069_6772));
    assert_eq!(key_code("a\0b\0"), Ok(0x6100_6220));
}

#[test]
fn codes_are_shown_as_the_crate_shows_them() {
    assert_eq!(show_code(0x5443_3050), Some("FourCharCode(\"TC0P\")".to_string()));
    assert_eq!(show_code(0x5422_3050), Some("FourCharCode(\"T\\\"0P\")".to_string()));
    assert_eq!(show_code(0x5401_3000), Some("FourCharCode(\"T\u{fffd}0 \")".to_string()));
    assert_eq!(show_code(0x547f_3050), Some("FourCharCode(\"T\u{fffd}0P\")".to_string()));
    assert_eq!(show_code(0x8043_3050), None);
}

#[test]
fn sp78_reads_twenty_five() {
    let value = Fixed::from_smc(tag(TYPE_SP78, 2), buffer(&[0x19, 0x00]), ByteOrder::Little);
    assert_eq!(value, Ok(Fixed { raw: 25 * 65536 }));
    assert_eq!(float(value.unwrap()), 25.0);
}

#[test]
fn fpe2_reads_twenty_five() {
    let value = Fixed::from_smc(tag(TYPE_FPE2, 2), buffer(&[0x00, 0x64]), ByteOrder::Big);
    assert_eq!(float(value.unwrap()), 25.0);
}

#[test]
fn sp78_reads_negative_numbers() {
    let value = Fixed::from_smc(tag(TYPE_SP78, 2), buffer(&[0xff, 0x80]), ByteOrder::Little);
    assert_eq!(float(value.unwrap()), -0.5);
    let lowest = Fixed::from_smc(tag(TYPE_SP78, 2), buffer(&[0x80, 0x00]), ByteOrder::Little);
    assert_eq!(float(lowest.unwrap()), -128.0);
}

#[test]
fn ui8_widens_to_u32() {
    assert_eq!(u32::from_smc(tag(TYPE_U8, 1), buffer(&[0x2a])), Ok(42));
    assert_eq!(u16::from_smc(tag(TYPE_U8, 1), buffer(&[0x2a])), Ok(42));
    assert_eq!(u32::from_smc(tag(TYPE_U16, 2), buffer(&[0x01, 0x02])), Ok(0x0102));
    assert_eq!(u32::from_smc(tag(TYPE_U32, 4), buffer(&[1, 2, 3, 4])), Ok(0x0102_0304));
}

#[test]
fn signed_tags_widen_too() {
    assert_eq!(i16::from_smc(tag(TYPE_I8, 1), buffer(&[0xfe])), Ok(-2));
    assert_eq!(i32::from_smc(tag(TYPE_I8, 1), buffer(&[0xfe])), Ok(-2));
    assert_eq!(i32::from_smc(tag(TYPE_I16, 2), buffer(&[0xff, 0xfe])), Ok(-2));
    assert_eq!(i32::from_smc(tag(TYPE_I32, 4), buffer(&[0xff, 0xff, 0xff, 0xfe])), Ok(-2));
    assert_eq!(i8::from_smc(tag(TYPE_I8, 1), buffer(&[0x80])), Ok(-128));
}

#[test]
fn mismatched_tags_are_refused_with_the_tag() {
    assert_eq!(
        u8::from_smc(tag(TYPE_U16, 2), buffer(&[1, 2])),
        Err(CodecError::TypeMismatch(TYPE_U16))
    );
    assert_eq!(
        u32::from_smc(tag(TYPE_I8, 1), buffer(&[1])),
        Err(CodecError::TypeMismatch(TYPE_I8))
    );
    assert_eq!(
        i32::from_smc(tag(TYPE_U8, 1), buffer(&[1])),
        Err(CodecError::TypeMismatch(TYPE_U8))
    );
    assert_eq!(
        bool::from_smc(tag(TYPE_SP78, 2), buffer(&[1])),
        Err(CodecError::TypeMismatch(TYPE_SP78))
    );
    assert_eq!(
        Fixed::from_smc(tag(TYPE_U8, 1), buffer(&[1]), ByteOrder::Little),
        Err(CodecError::TypeMismatch(TYPE_U8))
    );
    assert_eq!(7u8.to_smc(tag(TYPE_FLAG, 1)).map(|b| b.0), Err(CodecError::TypeMismatch(TYPE_FLAG)));
    assert_eq!(7u32.to_smc(tag(TYPE_U8, 1)).map(|b| b.0), Err(CodecError::TypeMismatch(TYPE_U8)));
}

#[test]
fn integers_go_round() {
    for v in [0u8, 1, 42, 255] {
        let w = v.to_smc(tag(TYPE_U8, 1)).unwrap();
        assert_eq!(u8::from_smc(tag(TYPE_U8, 1), w), Ok(v));
    }
    for v in [i8::MIN, -1, 0, 1, i8::MAX] {
        let w = v.to_smc(tag(TYPE_I8, 1)).unwrap();
        assert_eq!(i8::from_smc(tag(TYPE_I8, 1), w), Ok(v));
    }
    for v in [0u16, 1, 0x1234, u16::MAX] {
        let w = v.to_smc(tag(TYPE_U16, 2)).unwrap();
        assert_eq!(&w.0[..2], &v.to_be_bytes());
        assert_eq!(u16::from_smc(tag(TYPE_U16, 2), w), Ok(v));
    }
    for v in [i16::MIN, -2, 0, 0x1234, i16::MAX] {
        let w = v.to_smc(tag(TYPE_I16, 2)).unwrap();
        assert_eq!(&w.0[..2], &v.to_be_bytes());
        assert_eq!(i16::from_smc(tag(TYPE_I16, 2), w), Ok(v));
    }
    for v in [0u32, 1, 0x1234_5678, u32::MAX] {
        let w = v.to_smc(tag(TYPE_U32, 4)).unwrap();
        assert_eq!(&w.0[..4], &v.to_be_bytes());
        assert_eq!(&w.0[4..], &[0u8; 28]);
        assert_eq!(u32::from_smc(tag(TYPE_U32, 4), w), Ok(v));
    }
    for v in [i32::MIN, -2, 0, 0x1234_5678, i32::MAX] {
        let w = v.to_smc(tag(TYPE_I32, 4)).unwrap();
        assert_eq!(&w.0[..4], &v.to_be_bytes());
        assert_eq!(i32::from_smc(tag(TYPE_I32, 4), w), Ok(v));
    }
    for v in [false, true] {
        for id in [TYPE_FLAG, TYPE_U8] {
            let w = v.to_smc(tag(id, 1)).unwrap();
            assert_eq!(w.0[0], v as u8);
            assert_eq!(bool::from_smc(tag(id, 1), w), Ok(v));
        }
    }
    assert_eq!(bool::from_smc(tag(TYPE_FLAG, 1), buffer(&[7])), Ok(true));
}

#[test]
fn fan_mode_is_a_flag() {
    let w = FanMode::Forced.to_smc(tag(TYPE_U8, 1)).unwrap();
    assert_eq!(w.0[0], 1);
    assert_eq!(FanMode::from_smc(tag(TYPE_U8, 1), w), Ok(FanMode::Forced));
    let w = FanMode::Auto.to_smc(tag(TYPE_FLAG, 1)).unwrap();
    assert_eq!(w.0[0], 0);
    assert_eq!(FanMode::from_smc(tag(TYPE_FLAG, 1), w), Ok(FanMode::Auto));
    assert_eq!(FanMode::from_bool(true), FanMode::Forced);
    assert_eq!(FanMode::from_bool(false), FanMode::Auto);
    assert_eq!(
        FanMode::from_smc(tag(TYPE_U16, 2), buffer(&[0, 1])),
        Err(CodecError::TypeMismatch(TYPE_U16))
    );
}

#[test]
fn fpe2_cuts_off_and_refuses_negative_numbers() {
    let t = tag(TYPE_FPE2, 2);
    let w = fixed(2500.3).to_smc(t, ByteOrder::Little).unwrap();
    assert_eq!(&w.0[..2], &((2500.3f64 * 4.0) as u16).to_be_bytes());
    let back = Fixed::from_smc(t, w, ByteOrder::Little).unwrap();
    assert_eq!(float(back), 2500.25);
    assert!(2500.3 - float(back) < 0.25);
    assert_eq!(
        fixed(-1.0).to_smc(t, ByteOrder::Little).map(|b| b.0),
        Err(CodecError::TypeMismatch(TYPE_FPE2))
    );
    assert_eq!(
        (Fixed { raw: -1 }).to_smc(t, ByteOrder::Little).map(|b| b.0),
        Err(CodecError::TypeMismatch(TYPE_FPE2))
    );
    let top = fixed(1.0e9).to_smc(t, ByteOrder::Little).unwrap();
    assert_eq!(&top.0[..2], &[0xff, 0xff]);
    assert_eq!(fixed(0.0).to_smc(t, ByteOrder::Little).unwrap().0, [0u8; 32]);
}

#[test]
fn sp78_cuts_off_towards_zero() {
    let t = tag(TYPE_SP78, 2);
    for value in [25.0f64, 25.004, 0.0019, -0.0019, -0.5, -25.004, 127.99, -128.0, 300.0, -300.0] {
        let w = fixed(value).to_smc(t, ByteOrder::Little).unwrap();
        assert_eq!(&w.0[..2], &((value * 256.0) as i16).to_be_bytes(), "{}", value);
        let back = float(Fixed::from_smc(t, w, ByteOrder::Little).unwrap());
        if value.abs() < 128.0 {
            assert!((value - back).abs() < 1.0 / 256.0 + 1.0 / 65536.0);
            assert!(back.abs() <= value.abs());
        }
    }
}

#[test]
fn flt_reads_as_the_float_would() {
    let t = tag(TYPE_FLT, 4);
    let values = [
        0.0f32, -0.0, 1.0, -1.0, 25.0, 45.234_56, -12.75, 2500.0, 4000.5, 0.000_01, 1.0e-30,
        123_456.79, 1.0e9, -1.0e9, 3.0e18, 1.0e19, -1.0e19, 1.0e30, f32::MAX, f32::MIN,
        f32::INFINITY, f32::NEG_INFINITY, f32::NAN, f32::MIN_POSITIVE, 0.5, 0.999_999_9,
    ];
    for value in values {
        let want = (value as f64 * 65536.0) as i64;
        let want = if want == i64::MIN { -i64::MAX } else { want };
        assert_eq!(Fixed::from_float_bits(value.to_bits()).raw, want, "{}", value);
        let little = Fixed::from_smc(t, buffer(&value.to_le_bytes()), ByteOrder::Little);
        assert_eq!(little, Ok(Fixed { raw: want }));
        let big = Fixed::from_smc(t, buffer(&value.to_be_bytes()), ByteOrder::Big);
        assert_eq!(big, Ok(Fixed { raw: want }));
        let native = Fixed::from_smc(t, buffer(&value.to_ne_bytes()), host_order());
        assert_eq!(native, Ok(Fixed { raw: want }));
    }
}

#[test]
fn flt_writes_the_nearest_float() {
    let t = tag(TYPE_FLT, 4);
    let raws = [
        0i64, 1, -1, 2, 3, 65536, -65536, 25 * 65536, 2500 * 65536, 163_840_000, 262_144_000,
        (1 << 24) - 1, 1 << 24, (1 << 24) + 1, (1 << 24) + 2, (1 << 24) + 3, (1 << 25) + 2,
        (1 << 25) + 6, 0x1ff_ffff, 0x3ff_ffff, 0x7fff_ffff, 0x1234_5678_9abc, -0x1234_5678_9abc,
        i64::MAX, i64::MIN, i64::MAX - 1, (1 << 40) + (1 << 16), 0xffff_ff80, 0xffff_ff7f,
        0xffff_ff81,
    ];
    for raw in raws {
        let nearest = if raw.unsigned_abs() < (1 << 53) {
            (raw as f64 / 65536.0) as f32
        } else if raw == i64::MIN {
            -140_737_488_355_328.0
        } else if raw > 0 {
            140_737_488_355_328.0
        } else {
            -140_737_488_355_328.0
        };
        let want = if raw == 0 { 0 } else { nearest.to_bits() };
        assert_eq!((Fixed { raw }).to_float_bits(), want, "{}", raw);
        let w = (Fixed { raw }).to_smc(t, ByteOrder::Little).unwrap();
        assert_eq!(&w.0[..4], &want.to_le_bytes());
        assert_eq!(&w.0[4..], &[0u8; 28]);
        let w = (Fixed { raw }).to_smc(t, ByteOrder::Big).unwrap();
        assert_eq!(&w.0[..4], &want.to_be_bytes());
        let w = (Fixed { raw }).to_smc(t, host_order()).unwrap();
        assert_eq!(&w.0[..4], &f32::from_bits(want).to_ne_bytes());
    }
}

#[test]
fn flt_goes_round_up_to_24_bits() {
    let t = tag(TYPE_FLT, 4);
    for raw in [0i64, 1, -1, 65536, 12_345_678, -12_345_678, (1 << 24) - 1, -(1 << 24) + 1] {
        for order in [ByteOrder::Little, ByteOrder::Big] {
            let w = (Fixed { raw }).to_smc(t, order).unwrap();
            assert_eq!(Fixed::from_smc(t, w, order), Ok(Fixed { raw }));
        }
    }
}

#[test]
fn the_order_is_told_by_the_word_of_two_bytes() {
    assert_eq!(order_of_word(u16::from_le_bytes([1, 0])), ByteOrder::Little);
    assert_eq!(order_of_word(u16::from_be_bytes([1, 0])), ByteOrder::Big);
    assert_eq!(order_of_word(1), ByteOrder::Little);
    assert_eq!(order_of_word(0x100), ByteOrder::Big);
    assert_eq!(order_of_word(0), ByteOrder::Big);
    assert_eq!(order_of_word(u16::from_ne_bytes([1, 0])), host_order());
}

#[test]
fn host_order_is_the_hosts() {
    let order = host_order();
    if 1u32.to_ne_bytes() == 1u32.to_le_bytes() {
        assert_eq!(order, ByteOrder::Little);
    } else {
        assert_eq!(order, ByteOrder::Big);
    }
}

#[test]
fn fan_descriptor_gives_the_name() {
    let mut bytes = [0u8; 32];
    bytes[..4].copy_from_slice(&[1, 2, 3, 4]);
    bytes[4..16].copy_from_slice(b"  Main Fan \0");
    bytes[16..20].copy_from_slice(b"junk");
    let fan = RawFan::from_smc(tag(TYPE_FAN, 16), SmcBytes(bytes)).unwrap();
    assert_eq!(fan.name, "Main Fan");
    let cut = RawFan::from_smc(tag(TYPE_FAN, 8), SmcBytes(bytes)).unwrap();
    assert_eq!(cut.name, "Ma");
    let whole = RawFan::from_smc(tag(TYPE_FAN, 4), SmcBytes(bytes)).unwrap();
    assert_eq!(whole.name, "");
    let mut full = [b'x'; 32];
    full[3] = 0;
    let fan = RawFan::from_smc(tag(TYPE_FAN, 32), SmcBytes(full)).unwrap();
    assert_eq!(fan.name, "x".repeat(28));
}

#[test]
fn fan_descriptor_faults() {
    let bytes = buffer(&[0, 0, 0, 0, b'a', 0xc3, b'b', 0]);
    assert_eq!(
        RawFan::from_smc(tag(TYPE_FAN, 16), bytes).map(|f| f.name),
        Err(CodecError::TypeMismatch(TYPE_FAN))
    );
    let after_nul = buffer(&[0, 0, 0, 0, b'a', 0, 0xc3, 0]);
    assert_eq!(RawFan::from_smc(tag(TYPE_FAN, 16), after_nul).unwrap().name, "a");
    for size in [0, 3, 33, 1000] {
        assert_eq!(
            RawFan::from_smc(tag(TYPE_FAN, size), buffer(b"\0\0\0\0ab")).map(|f| f.name),
            Err(CodecError::TypeMismatch(TYPE_FAN))
        );
    }
    assert_eq!(
        RawFan::from_smc(tag(TYPE_U8, 16), buffer(b"\0\0\0\0ab")).map(|f| f.name),
        Err(CodecError::TypeMismatch(TYPE_U8))
    );
    let fan = RawFan { name: "x".to_string() };
    assert_eq!(fan.to_smc(tag(TYPE_FAN, 16)).map(|b| b.0), Err(CodecError::WriteNotSupported));
}

#[test]
fn values_are_written_by_their_kind() {
    let order = ByteOrder::Little;
    assert_eq!(SmcValue::Flag(true).to_smc(tag(TYPE_FLAG, 1), order).unwrap().0[0], 1);
    assert_eq!(SmcValue::U8(9).to_smc(tag(TYPE_U8, 1), order).unwrap().0[0], 9);
    assert_eq!(SmcValue::I8(-1).to_smc(tag(TYPE_I8, 1), order).unwrap().0[0], 0xff);
    assert_eq!(&SmcValue::U16(0x0102).to_smc(tag(TYPE_U16, 2), order).unwrap().0[..2], &[1, 2]);
    assert_eq!(&SmcValue::I16(-2).to_smc(tag(TYPE_I16, 2), order).unwrap().0[..2], &[0xff, 0xfe]);
    assert_eq!(
        &SmcValue::U32(0x0102_0304).to_smc(tag(TYPE_U32, 4), order).unwrap().0[..4],
        &[1, 2, 3, 4]
    );
    assert_eq!(
        &SmcValue::I32(-2).to_smc(tag(TYPE_I32, 4), order).unwrap().0[..4],
        &[0xff, 0xff, 0xff, 0xfe]
    );
    assert_eq!(
        &SmcValue::Number(fixed(25.0)).to_smc(tag(TYPE_SP78, 2), order).unwrap().0[..2],
        &[0x19, 0]
    );
    assert_eq!(SmcValue::Mode(FanMode::Forced).to_smc(tag(TYPE_U8, 1), order).unwrap().0[0], 1);
    assert_eq!(
        SmcValue::U16(1).to_smc(tag(TYPE_U8, 1), order).map(|b| b.0),
        Err(CodecError::TypeMismatch(TYPE_U8))
    );
}

#[test]
fn a_zeroed_buffer_is_zero() {
    assert_eq!(SmcBytes::zeroed().0, [0u8; 32]);
    assert_eq!(SmcBytes::default().0, [0u8; 32]);
    assert_eq!(Fixed::from_int(25).raw, 25 * 65536);
    assert_eq!(Fixed::from_int(-3).raw, -3 * 65536);
}

#[test]
fn flt_goes_round_within_one_part_in_two_to_the_24() {
    let t = tag(TYPE_FLT, 4);
    let raws = [
        1i64 << 24, (1 << 24) + 1, (1 << 25) + 3, 0x1234_5678, 0x1234_5678_9abc, i64::MAX,
        i64::MAX - 1, i64::MIN, i64::MIN + 1, -0x7fff_ffff_ffff, 0x7fff_ff80_0000_0000,
        0x7fff_ffbf_ffff_ffff, 0x7fff_ffc0_0000_0000, (1 << 62) + (1 << 37), 3 << 61,
    ];
    for raw in raws {
        for order in [ByteOrder::Little, ByteOrder::Big] {
            let w = (Fixed { raw }).to_smc(t, order).unwrap();
            let back = Fixed::from_smc(t, w, order).unwrap().raw;
            let off = (back as i128 - raw as i128).unsigned_abs();
            assert!(off <= (raw.unsigned_abs() >> 24) as u128, "{} {}", raw, back);
        }
    }
}
