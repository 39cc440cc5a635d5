//! What holds of the wire codec as a whole.

use super::code::{be32, code_of, lemma_code_of_ascii, KeyFault};
use super::conv::{
    framed, CodecError, SmcType, TYPE_FAN, TYPE_FLAG, TYPE_FLT, TYPE_FPE2, TYPE_I16, TYPE_I32,
    TYPE_I8, TYPE_SP78, TYPE_U16, TYPE_U32, TYPE_U8,
};
use super::fixed::{
    bytes_of, exponent_field, float_bits_of, float_magnitude, float_to_raw, fraction_field,
    magnitude, rounded_significand, top_bit, word_of, ByteOrder, Fixed, LIMIT,
};
use super::{DataType, FanMode, BLANK, KEY_COUNT, KEY_FAN_COUNT, KEY_FAN_FORCED};
use vstd::prelude::*;
use vstd::std_specs::bits::{axiom_u64_leading_zeros, u64_leading_zeros};

verus! {

/// A flag written under a tag is read back unchanged under that tag.
pub proof fn law_flag_round_trip(v: bool, data_type: DataType)
    ensures
        <bool as SmcType>::wire(v, data_type) matches Ok(w) ==> <bool as SmcType>::reading(
            data_type,
            w,
        ) == Ok::<bool, CodecError>(v),
{
}

/// An unsigned byte written under a tag is read back unchanged under that tag.
pub proof fn law_u8_round_trip(v: u8, data_type: DataType)
    ensures
        <u8 as SmcType>::wire(v, data_type) matches Ok(w) ==> <u8 as SmcType>::reading(
            data_type,
            w,
        ) == Ok::<u8, CodecError>(v),
{
}

/// A signed byte written under a tag is read back unchanged under that tag.
pub proof fn law_i8_round_trip(v: i8, data_type: DataType)
    ensures
        <i8 as SmcType>::wire(v, data_type) matches Ok(w) ==> <i8 as SmcType>::reading(
            data_type,
            w,
        ) == Ok::<i8, CodecError>(v),
{
}

/// An unsigned 16-bit number written under a tag is read back unchanged under that tag.
pub proof fn law_u16_round_trip(v: u16, data_type: DataType)
    ensures
        <u16 as SmcType>::wire(v, data_type) matches Ok(w) ==> <u16 as SmcType>::reading(
            data_type,
            w,
        ) == Ok::<u16, CodecError>(v),
{
}

/// A signed 16-bit number written under a tag is read back unchanged under that tag.
pub proof fn law_i16_round_trip(v: i16, data_type: DataType)
    ensures
        <i16 as SmcType>::wire(v, data_type) matches Ok(w) ==> <i16 as SmcType>::reading(
            data_type,
            w,
        ) == Ok::<i16, CodecError>(v),
{
}

/// An unsigned 32-bit number written under a tag is read back unchanged under that tag.
pub proof fn law_u32_round_trip(v: u32, data_type: DataType)
    ensures
        <u32 as SmcType>::wire(v, data_type) matches Ok(w) ==> <u32 as SmcType>::reading(
            data_type,
            w,
        ) == Ok::<u32, CodecError>(v),
{
}

/// A signed 32-bit number written under a tag is read back unchanged under that tag.
pub proof fn law_i32_round_trip(v: i32, data_type: DataType)
    ensures
        <i32 as SmcType>::wire(v, data_type) matches Ok(w) ==> <i32 as SmcType>::reading(
            data_type,
            w,
        ) == Ok::<i32, CodecError>(v),
{
}

/// Whatever a narrower unsigned type reads from a buffer, each wider unsigned
/// type reads the same number from it.
pub proof fn law_unsigned_widening(data_type: DataType, bytes: Seq<u8>)
    requires
        bytes.len() == 32,
    ensures
        <u8 as SmcType>::reading(data_type, bytes) matches Ok(v) ==> <u16 as SmcType>::reading(
            data_type,
            bytes,
        ) == Ok::<u16, CodecError>(v as u16),
        <u16 as SmcType>::reading(data_type, bytes) matches Ok(v) ==> <u32 as SmcType>::reading(
            data_type,
            bytes,
        ) == Ok::<u32, CodecError>(v as u32),
{
}

/// Whatever a narrower signed type reads from a buffer, each wider signed type
/// reads the same number from it.
pub proof fn law_signed_widening(data_type: DataType, bytes: Seq<u8>)
    requires
        bytes.len() == 32,
    ensures
        <i8 as SmcType>::reading(data_type, bytes) matches Ok(v) ==> <i16 as SmcType>::reading(
            data_type,
            bytes,
        ) == Ok::<i16, CodecError>(v as i16),
        <i16 as SmcType>::reading(data_type, bytes) matches Ok(v) ==> <i32 as SmcType>::reading(
            data_type,
            bytes,
        ) == Ok::<i32, CodecError>(v as i32),
{
}

/// No negative number is written under `fpe2`.
pub proof fn law_fpe2_rejects_negative(raw: i64, data_type: DataType, order: ByteOrder)
    requires
        data_type.id == TYPE_FPE2,
        raw < 0,
    ensures
        Fixed::wire(raw, data_type, order) == Err::<Seq<u8>, CodecError>(
            CodecError::TypeMismatch(TYPE_FPE2),
        ),
{
}

/// A number within the range of `fpe2` is read back at most a quarter less
/// than it was written, and never more.
pub proof fn law_fpe2_round_trip(raw: i64, data_type: DataType, order: ByteOrder)
    requires
        data_type.id == TYPE_FPE2,
        0 <= raw < 0x4000_0000,
    ensures
        Fixed::wire(raw, data_type, order) matches Ok(w) && Fixed::reading(data_type, w, order)
            matches Ok(back) && 0 <= raw - back < 16384,
{
}

/// A number within the range of `sp78` is read back less than 1/256 nearer to
/// zero than it was written, and never farther from it.
pub proof fn law_sp78_round_trip(raw: i64, data_type: DataType, order: ByteOrder)
    requires
        data_type.id == TYPE_SP78,
        -0x80_0000 <= raw < 0x80_0000,
    ensures
        Fixed::wire(raw, data_type, order) matches Ok(w) && Fixed::reading(data_type, w, order)
            matches Ok(back) && (if raw >= 0 {
            0 <= raw - back < 256
        } else {
            0 <= back - raw < 256
        }),
{
}

/// Four bytes written in an order are read back in that order as the same word.
pub proof fn lemma_word_round_trip(w: u32, order: ByteOrder)
    ensures
        word_of(framed(bytes_of(w, order)), order) == w,
{
}

/// A number of at most 24 significant bits is one IEEE-754 single exactly:
/// written as a single and read back, it is unchanged.
pub proof fn lemma_float_bits_exact(raw: i64)
    requires
        -0x100_0000 < raw < 0x100_0000,
    ensures
        float_to_raw(float_bits_of(raw)) == raw,
{
    let mag = magnitude(raw);
    let sign: u32 = if raw < 0 {
        0x8000_0000
    } else {
        0
    };
    if mag == 0 {
        assert(((0u32 >> 23) & 0xff) == 0 && (0u32 >> 31) == 0) by (bit_vector);
    } else {
        axiom_u64_leading_zeros(mag);
        let lz = u64_leading_zeros(mag);
        let t: u64 = (63 - lz) as u64;
        assert(top_bit(mag) == t);
        assert((mag >> t) & 1 != 0);
        assert(mag < 0x100_0000 && 24 <= t < 64 ==> (mag >> t) & 1 == 0) by (bit_vector);
        assert(t <= 23);
        let up: u64 = (t + 1) as u64;
        assert(mag >> up == 0);
        let k: u64 = (23 - t) as u64;
        let sig: u64 = mag << k;
        assert(t <= 23 && k == 23 - t && up == t + 1 && (mag >> t) & 1 != 0 && mag >> up == 0
            ==> (mag << k) >> k == mag && (mag << k) < 0x100_0000 && (0x80_0000 | ((mag << k)
            & 0x7f_ffff)) == (mag << k)) by (bit_vector);
        let f: u32 = (sig & 0x7f_ffff) as u32;
        assert((sig & 0x7f_ffff) < 0x80_0000) by (bit_vector);
        let e: u32 = (t + 111) as u32;
        let bits: u32 = sign | e << 23 | f;
        assert(float_bits_of(raw) == bits);
        assert(e < 256 && f < 0x80_0000 && (sign == 0 || sign == 0x8000_0000) ==> ((sign | e << 23
            | f) >> 23) & 0xff == e && (sign | e << 23 | f) & 0x7f_ffff == f && ((sign | e << 23
            | f) >> 31 == 1 <==> sign == 0x8000_0000)) by (bit_vector);
        assert(exponent_field(bits) == e);
        assert(fraction_field(bits) == f);
        assert(f as u64 == sig & 0x7f_ffff);
        assert((0x80_0000u32 | f) as u64 == 0x80_0000u64 | (f as u64)) by (bit_vector);
        assert(((0x80_0000 | f) as u64) == sig);
        assert(mag << 0 == mag) by (bit_vector);
        assert(float_magnitude(bits) == mag);
    }
}

/// The fields of a single put together are found in it again.
proof fn lemma_fields(sign: u32, e: u32, f: u32)
    requires
        sign == 0 || sign == 0x8000_0000,
        e < 256,
        f < 0x80_0000,
    ensures
        exponent_field(sign | e << 23 | f) == e,
        fraction_field(sign | e << 23 | f) == f,
        ((sign | e << 23 | f) >> 31 == 1) == (sign == 0x8000_0000),
        (0x80_0000u32 | f) as u64 == 0x80_0000u64 | (f as u64),
{
    assert(e < 256 && f < 0x80_0000 && (sign == 0 || sign == 0x8000_0000) ==> ((sign | e << 23
        | f) >> 23) & 0xff == e && (sign | e << 23 | f) & 0x7f_ffff == f && ((sign | e << 23 | f)
        >> 31 == 1 <==> sign == 0x8000_0000)) by (bit_vector);
    assert((0x80_0000u32 | f) as u64 == 0x80_0000u64 | (f as u64)) by (bit_vector);
}

/// How far the rounded leading bits of a word, put back in their place, lie
/// from the word: at most half a unit of the last of the 24 bits.
proof fn lemma_rounding(mag: u64, t: u64)
    requires
        24 <= t <= 63,
        (mag >> t) & 1 != 0,
        t == 63 || mag >> ((t + 1) as u64) == 0,
        mag <= 0x8000_0000_0000_0000,
    ensures
        ({
            let s = (t - 23) as u64;
            let sig = rounded_significand(mag, s);
            let near = mag >> 24;
            &&& 0x80_0000 <= sig <= 0x100_0000
            &&& sig < 0x100_0000 ==> (0x80_0000u64 | (sig & 0x7f_ffff)) == sig
            &&& sig < 0x100_0000 && t <= 62 ==> sig << s <= LIMIT && -near <= (sig << s) - mag
                <= near
            &&& sig < 0x100_0000 && t == 63 ==> 0 <= mag - LIMIT <= near
            &&& sig == 0x100_0000 ==> t <= 62
            &&& sig == 0x100_0000 && t <= 61 ==> 0x80_0000u64 << ((s + 1) as u64) <= LIMIT && 0
                <= (0x80_0000u64 << ((s + 1) as u64)) - mag <= near
            &&& sig == 0x100_0000 && t == 62 ==> 0 <= LIMIT - mag <= near
        }),
{
    let s = (t - 23) as u64;
    let up = (s + 1) as u64;
    let low = (s - 1) as u64;
    let next = if t == 63 {
        0u64
    } else {
        (t + 1) as u64
    };
    let unit = 1u64 << s;
    assert(24 <= t <= 63 && s == t - 23 ==> (1u64 << s) >= 2) by (bit_vector);
    let mask = (unit - 1) as u64;
    let kept = mag >> s;
    let rest = mag & mask;
    let half = 1u64 << low;
    let near = mag >> 24;
    let more = (kept + 1) as u64;
    assert(24 <= t <= 63 && s == t - 23 && (mag >> t) & 1 != 0 && (t == 63 || (next == t + 1 && mag
        >> next == 0)) ==> 0x80_0000 <= mag >> s && mag >> s < 0x100_0000) by (bit_vector);
    assert(24 <= t <= 63 && s == t - 23 && low == s - 1 && up == s + 1 && unit == 1u64 << s && mask
        == unit - 1 && kept == mag >> s && rest == mag & mask && half == 1u64 << low && near == mag
        >> 24 && more == kept + 1 && (mag >> t) & 1 != 0 && (t == 63 || (next == t + 1 && mag
        >> next == 0)) && mag <= 0x8000_0000_0000_0000 ==> {
        &&& (0x80_0000u64 | (kept & 0x7f_ffff)) == kept
        &&& (kept < 0xff_ffff ==> (0x80_0000u64 | (more & 0x7f_ffff)) == more)
        &&& rest < unit
        &&& half + half == unit
        &&& half <= near
        &&& (t <= 62 ==> kept << s <= 0x7fff_ffff_ffff_ffff && mag - (kept << s) == rest)
        &&& (t <= 62 && kept < 0xff_ffff ==> more << s <= 0x7fff_ffff_ffff_ffff && (more << s)
            - mag == unit - rest)
        &&& (t == 63 ==> mag == 0x8000_0000_0000_0000 && rest == 0 && kept == 0x80_0000)
        &&& (kept == 0xff_ffff && t <= 61 ==> 0x80_0000u64 << up <= 0x7fff_ffff_ffff_ffff && (
        0x80_0000u64 << up) - mag == unit - rest)
        &&& (kept == 0xff_ffff && t == 62 ==> 0x7fff_ffff_ffff_ffff - mag == unit - rest - 1)
    }) by (bit_vector);
}

/// A number of more than 24 significant bits, written as a single and read
/// back, is off by at most the part in 2^24 of it.
pub proof fn lemma_float_bits_near(raw: i64)
    requires
        magnitude(raw) >= 0x100_0000,
    ensures
        ({
            let back = float_to_raw(float_bits_of(raw));
            let near = (magnitude(raw) >> 24) as int;
            -near <= back - raw <= near
        }),
{
    let mag = magnitude(raw);
    let sign: u32 = if raw < 0 {
        0x8000_0000
    } else {
        0
    };
    axiom_u64_leading_zeros(mag);
    let lz = u64_leading_zeros(mag);
    let t: u64 = (63 - lz) as u64;
    assert(top_bit(mag) == t);
    assert((mag >> t) & 1 != 0);
    let next = if t == 63 {
        0u64
    } else {
        (t + 1) as u64
    };
    assert(t == 63 || mag >> next == 0);
    assert(mag >= 0x100_0000 && t < 24 && next == t + 1 && mag >> next == 0 ==> false)
        by (bit_vector);
    assert(t >= 24);
    lemma_rounding(mag, t);
    let s = (t - 23) as u64;
    let sig = rounded_significand(mag, s);
    if sig == 0x100_0000 {
        let e: u32 = (t + 112) as u32;
        lemma_fields(sign, e, 0);
        assert(sign | e << 23 | 0u32 == sign | e << 23) by (bit_vector);
        let bits: u32 = sign | e << 23;
        assert(float_bits_of(raw) == bits);
        assert(0x80_0000u64 | 0u64 == 0x80_0000u64) by (bit_vector);
    } else {
        let e: u32 = (t + 111) as u32;
        let f: u32 = (sig & 0x7f_ffff) as u32;
        assert((sig & 0x7f_ffff) < 0x80_0000) by (bit_vector);
        lemma_fields(sign, e, f);
        let bits: u32 = sign | e << 23 | f;
        assert(float_bits_of(raw) == bits);
        assert(f as u64 == sig & 0x7f_ffff);
    }
}

/// A number is read back under `flt` as it was written, but for the part in
/// 2^24 of it at most.
pub proof fn law_flt_precision(raw: i64, data_type: DataType, order: ByteOrder)
    requires
        data_type.id == TYPE_FLT,
    ensures
        Fixed::wire(raw, data_type, order) matches Ok(w) && Fixed::reading(data_type, w, order)
            matches Ok(back) && ({
            let near = (magnitude(raw) >> 24) as int;
            -near <= back - raw <= near
        }),
{
    lemma_word_round_trip(float_bits_of(raw), order);
    if magnitude(raw) >= 0x100_0000 {
        lemma_float_bits_near(raw);
    } else {
        lemma_float_bits_exact(raw);
    }
}

/// A number of at most 24 significant bits is read back under `flt` exactly as
/// it was written.
pub proof fn law_flt_round_trip(raw: i64, data_type: DataType, order: ByteOrder)
    requires
        data_type.id == TYPE_FLT,
        -0x100_0000 < raw < 0x100_0000,
    ensures
        Fixed::wire(raw, data_type, order) matches Ok(w) && Fixed::reading(data_type, w, order)
            == Ok::<int, CodecError>(raw as int),
{
    lemma_word_round_trip(float_bits_of(raw), order);
    lemma_float_bits_exact(raw);
}

/// A mode written under a tag is read back unchanged under that tag.
pub proof fn law_mode_round_trip(v: FanMode, data_type: DataType)
    ensures
        <FanMode as SmcType>::wire(v, data_type) matches Ok(w) ==> <FanMode as SmcType>::reading(
            data_type,
            w,
        ) == Ok::<FanMode, CodecError>(v),
{
}

/// The code of four ASCII characters that are given one by one.
proof fn lemma_named(name: &str, code: u32)
    requires
        name@.len() == 4,
        forall|i: int| 0 <= i < 4 ==> '\0' < #[trigger] name@[i] <= '\u{7f}',
        code == be32(seq![name@[0] as u8, name@[1] as u8, name@[2] as u8, name@[3] as u8]),
    ensures
        code_of(name@) == Ok::<u32, KeyFault>(code),
{
    lemma_code_of_ascii(name@);
}

/// The tags of the wire types and the keys with a fixed name are the codes of
/// their names.
pub proof fn law_named_codes()
    ensures
        code_of("flag"@) == Ok::<u32, KeyFault>(TYPE_FLAG),
        code_of("si8 "@) == Ok::<u32, KeyFault>(TYPE_I8),
        code_of("ui8 "@) == Ok::<u32, KeyFault>(TYPE_U8),
        code_of("si16"@) == Ok::<u32, KeyFault>(TYPE_I16),
        code_of("ui16"@) == Ok::<u32, KeyFault>(TYPE_U16),
        code_of("si32"@) == Ok::<u32, KeyFault>(TYPE_I32),
        code_of("ui32"@) == Ok::<u32, KeyFault>(TYPE_U32),
        code_of("fpe2"@) == Ok::<u32, KeyFault>(TYPE_FPE2),
        code_of("sp78"@) == Ok::<u32, KeyFault>(TYPE_SP78),
        code_of("{fds"@) == Ok::<u32, KeyFault>(TYPE_FAN),
        code_of("flt "@) == Ok::<u32, KeyFault>(TYPE_FLT),
        code_of("#KEY"@) == Ok::<u32, KeyFault>(KEY_COUNT),
        code_of("FNum"@) == Ok::<u32, KeyFault>(KEY_FAN_COUNT),
        code_of("FS! "@) == Ok::<u32, KeyFault>(KEY_FAN_FORCED),
        code_of("    "@) == Ok::<u32, KeyFault>(BLANK),
{
    reveal_strlit("flag");
    reveal_strlit("si8 ");
    reveal_strlit("ui8 ");
    reveal_strlit("si16");
    reveal_strlit("ui16");
    reveal_strlit("si32");
    reveal_strlit("ui32");
    reveal_strlit("fpe2");
    reveal_strlit("sp78");
    reveal_strlit("{fds");
    reveal_strlit("flt ");
    reveal_strlit("#KEY");
    reveal_strlit("FNum");
    reveal_strlit("FS! ");
    reveal_strlit("    ");
    lemma_named("flag", TYPE_FLAG);
    lemma_named("si8 ", TYPE_I8);
    lemma_named("ui8 ", TYPE_U8);
    lemma_named("si16", TYPE_I16);
    lemma_named("ui16", TYPE_U16);
    lemma_named("si32", TYPE_I32);
    lemma_named("ui32", TYPE_U32);
    lemma_named("fpe2", TYPE_FPE2);
    lemma_named("sp78", TYPE_SP78);
    lemma_named("{fds", TYPE_FAN);
    lemma_named("flt ", TYPE_FLT);
    lemma_named("#KEY", KEY_COUNT);
    lemma_named("FNum", KEY_FAN_COUNT);
    lemma_named("FS! ", KEY_FAN_FORCED);
    lemma_named("    ", BLANK);
}

} // verus!
