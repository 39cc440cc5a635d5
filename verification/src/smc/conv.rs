//! The wire codec: values to and from the 32-byte buffer, by type tag.

use super::code::be32;
use super::fixed::{bytes_of, float_bits_of, float_to_raw, word_of, ByteOrder, Fixed};
use super::{DataType, FanMode, SmcBytes};
use crate::text::{position, push_char, trim, trimmed};
use vstd::prelude::*;

verus! {

pub const TYPE_FLAG: u32 = 0x666c_6167;

pub const TYPE_I8: u32 = 0x7369_3820;

pub const TYPE_U8: u32 = 0x7569_3820;

pub const TYPE_I16: u32 = 0x7369_3136;

pub const TYPE_U16: u32 = 0x7569_3136;

pub const TYPE_I32: u32 = 0x7369_3332;

pub const TYPE_U32: u32 = 0x7569_3332;

pub const TYPE_FPE2: u32 = 0x6670_6532;

pub const TYPE_SP78: u32 = 0x7370_3738;

pub const TYPE_FAN: u32 = 0x7b66_6473;

pub const TYPE_FLT: u32 = 0x666c_7420;

/// Why a value could not be written or read under a type tag.
#[derive(Copy, Clone, Debug, PartialEq, Eq, Structural)]
pub enum CodecError {
    /// The tag does not carry the value asked for.
    TypeMismatch(u32),
    /// The value is of a kind that is only ever read.
    WriteNotSupported,
}

/// A fan's descriptor record, of which the name is kept.
#[derive(Debug)]
pub struct RawFan {
    pub name: String,
}

impl View for RawFan {
    type V = Seq<char>;

    open spec fn view(&self) -> Seq<char> {
        self.name@
    }
}

/// A buffer that begins with `head` and is zero after it.
pub open spec fn framed(head: Seq<u8>) -> Seq<u8> {
    Seq::new(
        32,
        |i: int|
            if i < head.len() {
                head[i]
            } else {
                0u8
            },
    )
}

/// The number that the first two bytes write, most significant first.
pub open spec fn be16(b: Seq<u8>) -> int {
    b[0] as int * 256 + b[1] as int
}

/// The two bytes that write `u`, most significant first.
pub open spec fn be_bytes2(u: int) -> Seq<u8> {
    seq![(u / 256) as u8, (u % 256) as u8]
}

/// The four bytes that write `u`, most significant first.
pub open spec fn be_bytes4(u: int) -> Seq<u8> {
    seq![
        (u / 0x100_0000) as u8,
        (u / 0x1_0000 % 256) as u8,
        (u / 0x100 % 256) as u8,
        (u % 256) as u8,
    ]
}

/// The signed number that `u` stands for in two's complement below `modulus`.
pub open spec fn signed_of(u: int, modulus: int) -> int {
    if 2 * u >= modulus {
        u - modulus
    } else {
        u
    }
}

/// What stands for the signed number `v` in two's complement below `modulus`.
pub open spec fn unsigned_of(v: int, modulus: int) -> int {
    if v < 0 {
        v + modulus
    } else {
        v
    }
}

/// `v` held within `lo` and `hi`.
pub open spec fn clamped(v: int, lo: int, hi: int) -> int {
    if v < lo {
        lo
    } else if v > hi {
        hi
    } else {
        v
    }
}

/// `a / b` cut off towards zero, for a positive `b`.
pub open spec fn quotient(a: int, b: int) -> int {
    if a < 0 {
        -((-a) / b)
    } else {
        a / b
    }
}

/// Whether `r` is the buffer, or the error, that `want` names.
pub open spec fn wrote(r: Result<SmcBytes, CodecError>, want: Result<Seq<u8>, CodecError>) -> bool {
    match r {
        Ok(b) => want == Ok::<Seq<u8>, CodecError>(b@),
        Err(e) => want == Err::<Seq<u8>, CodecError>(e),
    }
}

/// Whether `r` is the value, or the error, that `want` names.
pub open spec fn read<T: View>(r: Result<T, CodecError>, want: Result<T::V, CodecError>) -> bool {
    match r {
        Ok(v) => want == Ok::<T::V, CodecError>(v@),
        Err(e) => want == Err::<T::V, CodecError>(e),
    }
}

/// A value that the controller's buffer can carry.
pub trait SmcType: Sized + View {
    /// The buffer that carries `v` under the tag of `data_type`.
    spec fn wire(v: Self::V, data_type: DataType) -> Result<Seq<u8>, CodecError>;

    /// The value that `bytes` carry under the tag of `data_type`.
    spec fn reading(data_type: DataType, bytes: Seq<u8>) -> Result<Self::V, CodecError>
        recommends
            bytes.len() == 32,
    ;

    fn to_smc(&self, data_type: DataType) -> (r: Result<SmcBytes, CodecError>)
        ensures
            wrote(r, Self::wire(self@, data_type)),
    ;

    fn from_smc(data_type: DataType, bytes: SmcBytes) -> (r: Result<Self, CodecError>)
        ensures
            read(r, Self::reading(data_type, bytes@)),
    ;
}

fn frame1(b0: u8) -> (r: SmcBytes)
    ensures
        r@ == framed(seq![b0]),
{
    let mut a = SmcBytes::zeroed().0;
    a[0] = b0;
    let r = SmcBytes(a);
    assert(r@ =~= framed(seq![b0]));
    r
}

fn frame2(u: u16) -> (r: SmcBytes)
    ensures
        r@ == framed(be_bytes2(u as int)),
{
    let mut a = SmcBytes::zeroed().0;
    a[0] = (u / 256) as u8;
    a[1] = (u % 256) as u8;
    let r = SmcBytes(a);
    assert(r@ =~= framed(be_bytes2(u as int)));
    r
}

fn frame4(b0: u8, b1: u8, b2: u8, b3: u8) -> (r: SmcBytes)
    ensures
        r@ == framed(seq![b0, b1, b2, b3]),
{
    let mut a = SmcBytes::zeroed().0;
    a[0] = b0;
    a[1] = b1;
    a[2] = b2;
    a[3] = b3;
    let r = SmcBytes(a);
    assert(r@ =~= framed(seq![b0, b1, b2, b3]));
    r
}

fn frame_be4(u: u32) -> (r: SmcBytes)
    ensures
        r@ == framed(be_bytes4(u as int)),
{
    frame4((u / 0x100_0000) as u8, (u / 0x1_0000 % 256) as u8, (u / 0x100 % 256) as u8, (u % 256) as u8)
}

fn take16(bytes: &SmcBytes) -> (u: u16)
    ensures
        u == be16(bytes@),
{
    (bytes.0[0] as u16) * 256 + (bytes.0[1] as u16)
}

fn take32(bytes: &SmcBytes) -> (u: u32)
    ensures
        u == be32(bytes@),
{
    (((bytes.0[0] as u32) * 256 + (bytes.0[1] as u32)) * 256 + (bytes.0[2] as u32)) * 256 + (
    bytes.0[3] as u32)
}

fn signed8(b: u8) -> (v: i8)
    ensures
        v == signed_of(b as int, 0x100),
{
    if b >= 0x80 {
        ((b as i16) - 0x100) as i8
    } else {
        b as i8
    }
}

fn signed16(u: u16) -> (v: i16)
    ensures
        v == signed_of(u as int, 0x1_0000),
{
    if u >= 0x8000 {
        ((u as i32) - 0x1_0000) as i16
    } else {
        u as i16
    }
}

fn signed32(u: u32) -> (v: i32)
    ensures
        v == signed_of(u as int, 0x1_0000_0000),
{
    if u >= 0x8000_0000 {
        ((u as i64) - 0x1_0000_0000) as i32
    } else {
        u as i32
    }
}

impl SmcType for bool {
    open spec fn wire(v: bool, data_type: DataType) -> Result<Seq<u8>, CodecError> {
        if data_type.id == TYPE_FLAG || data_type.id == TYPE_U8 {
            Ok(
                framed(
                    seq![if v {
                        1u8
                    } else {
                        0u8
                    }],
                ),
            )
        } else {
            Err(CodecError::TypeMismatch(data_type.id))
        }
    }

    open spec fn reading(data_type: DataType, bytes: Seq<u8>) -> Result<bool, CodecError> {
        if data_type.id == TYPE_FLAG || data_type.id == TYPE_U8 {
            Ok(bytes[0] != 0)
        } else {
            Err(CodecError::TypeMismatch(data_type.id))
        }
    }

    fn to_smc(&self, data_type: DataType) -> (r: Result<SmcBytes, CodecError>) {
        if data_type.id == TYPE_FLAG || data_type.id == TYPE_U8 {
            Ok(
                frame1(
                    if *self {
                        1
                    } else {
                        0
                    },
                ),
            )
        } else {
            Err(CodecError::TypeMismatch(data_type.id))
        }
    }

    fn from_smc(data_type: DataType, bytes: SmcBytes) -> (r: Result<Self, CodecError>) {
        if data_type.id == TYPE_FLAG || data_type.id == TYPE_U8 {
            Ok(bytes.0[0] != 0)
        } else {
            Err(CodecError::TypeMismatch(data_type.id))
        }
    }
}

impl SmcType for u8 {
    open spec fn wire(v: u8, data_type: DataType) -> Result<Seq<u8>, CodecError> {
        if data_type.id == TYPE_U8 {
            Ok(framed(seq![v]))
        } else {
            Err(CodecError::TypeMismatch(data_type.id))
        }
    }

    open spec fn reading(data_type: DataType, bytes: Seq<u8>) -> Result<u8, CodecError> {
        if data_type.id == TYPE_U8 {
            Ok(bytes[0])
        } else {
            Err(CodecError::TypeMismatch(data_type.id))
        }
    }

    fn to_smc(&self, data_type: DataType) -> (r: Result<SmcBytes, CodecError>) {
        if data_type.id == TYPE_U8 {
            Ok(frame1(*self))
        } else {
            Err(CodecError::TypeMismatch(data_type.id))
        }
    }

    fn from_smc(data_type: DataType, bytes: SmcBytes) -> (r: Result<Self, CodecError>) {
        if data_type.id == TYPE_U8 {
            Ok(bytes.0[0])
        } else {
            Err(CodecError::TypeMismatch(data_type.id))
        }
    }
}

impl SmcType for i8 {
    open spec fn wire(v: i8, data_type: DataType) -> Result<Seq<u8>, CodecError> {
        if data_type.id == TYPE_I8 {
            Ok(framed(seq![unsigned_of(v as int, 0x100) as u8]))
        } else {
            Err(CodecError::TypeMismatch(data_type.id))
        }
    }

    open spec fn reading(data_type: DataType, bytes: Seq<u8>) -> Result<i8, CodecError> {
        if data_type.id == TYPE_I8 {
            Ok(signed_of(bytes[0] as int, 0x100) as i8)
        } else {
            Err(CodecError::TypeMismatch(data_type.id))
        }
    }

    fn to_smc(&self, data_type: DataType) -> (r: Result<SmcBytes, CodecError>) {
        if data_type.id == TYPE_I8 {
            let b: u8 = if *self < 0 {
                ((*self as i16) + 0x100) as u8
            } else {
                *self as u8
            };
            Ok(frame1(b))
        } else {
            Err(CodecError::TypeMismatch(data_type.id))
        }
    }

    fn from_smc(data_type: DataType, bytes: SmcBytes) -> (r: Result<Self, CodecError>) {
        if data_type.id == TYPE_I8 {
            Ok(signed8(bytes.0[0]))
        } else {
            Err(CodecError::TypeMismatch(data_type.id))
        }
    }
}

impl SmcType for u16 {
    open spec fn wire(v: u16, data_type: DataType) -> Result<Seq<u8>, CodecError> {
        if data_type.id == TYPE_U16 {
            Ok(framed(be_bytes2(v as int)))
        } else {
            Err(CodecError::TypeMismatch(data_type.id))
        }
    }

    open spec fn reading(data_type: DataType, bytes: Seq<u8>) -> Result<u16, CodecError> {
        if data_type.id == TYPE_U8 {
            Ok(bytes[0] as u16)
        } else if data_type.id == TYPE_U16 {
            Ok(be16(bytes) as u16)
        } else {
            Err(CodecError::TypeMismatch(data_type.id))
        }
    }

    fn to_smc(&self, data_type: DataType) -> (r: Result<SmcBytes, CodecError>) {
        if data_type.id == TYPE_U16 {
            Ok(frame2(*self))
        } else {
            Err(CodecError::TypeMismatch(data_type.id))
        }
    }

    fn from_smc(data_type: DataType, bytes: SmcBytes) -> (r: Result<Self, CodecError>) {
        if data_type.id == TYPE_U8 {
            Ok(bytes.0[0] as u16)
        } else if data_type.id == TYPE_U16 {
            Ok(take16(&bytes))
        } else {
            Err(CodecError::TypeMismatch(data_type.id))
        }
    }
}

impl SmcType for i16 {
    open spec fn wire(v: i16, data_type: DataType) -> Result<Seq<u8>, CodecError> {
        if data_type.id == TYPE_I16 {
            Ok(framed(be_bytes2(unsigned_of(v as int, 0x1_0000))))
        } else {
            Err(CodecError::TypeMismatch(data_type.id))
        }
    }

    open spec fn reading(data_type: DataType, bytes: Seq<u8>) -> Result<i16, CodecError> {
        if data_type.id == TYPE_I8 {
            Ok(signed_of(bytes[0] as int, 0x100) as i16)
        } else if data_type.id == TYPE_I16 {
            Ok(signed_of(be16(bytes), 0x1_0000) as i16)
        } else {
            Err(CodecError::TypeMismatch(data_type.id))
        }
    }

    fn to_smc(&self, data_type: DataType) -> (r: Result<SmcBytes, CodecError>) {
        if data_type.id == TYPE_I16 {
            let u: u16 = if *self < 0 {
                ((*self as i32) + 0x1_0000) as u16
            } else {
                *self as u16
            };
            Ok(frame2(u))
        } else {
            Err(CodecError::TypeMismatch(data_type.id))
        }
    }

    fn from_smc(data_type: DataType, bytes: SmcBytes) -> (r: Result<Self, CodecError>) {
        if data_type.id == TYPE_I8 {
            Ok(signed8(bytes.0[0]) as i16)
        } else if data_type.id == TYPE_I16 {
            Ok(signed16(take16(&bytes)))
        } else {
            Err(CodecError::TypeMismatch(data_type.id))
        }
    }
}

impl SmcType for u32 {
    open spec fn wire(v: u32, data_type: DataType) -> Result<Seq<u8>, CodecError> {
        if data_type.id == TYPE_U32 {
            Ok(framed(be_bytes4(v as int)))
        } else {
            Err(CodecError::TypeMismatch(data_type.id))
        }
    }

    open spec fn reading(data_type: DataType, bytes: Seq<u8>) -> Result<u32, CodecError> {
        if data_type.id == TYPE_U8 {
            Ok(bytes[0] as u32)
        } else if data_type.id == TYPE_U16 {
            Ok(be16(bytes) as u32)
        } else if data_type.id == TYPE_U32 {
            Ok(be32(bytes))
        } else {
            Err(CodecError::TypeMismatch(data_type.id))
        }
    }

    fn to_smc(&self, data_type: DataType) -> (r: Result<SmcBytes, CodecError>) {
        if data_type.id == TYPE_U32 {
            Ok(frame_be4(*self))
        } else {
            Err(CodecError::TypeMismatch(data_type.id))
        }
    }

    fn from_smc(data_type: DataType, bytes: SmcBytes) -> (r: Result<Self, CodecError>) {
        if data_type.id == TYPE_U8 {
            Ok(bytes.0[0] as u32)
        } else if data_type.id == TYPE_U16 {
            Ok(take16(&bytes) as u32)
        } else if data_type.id == TYPE_U32 {
            Ok(take32(&bytes))
        } else {
            Err(CodecError::TypeMismatch(data_type.id))
        }
    }
}

impl SmcType for i32 {
    open spec fn wire(v: i32, data_type: DataType) -> Result<Seq<u8>, CodecError> {
        if data_type.id == TYPE_I32 {
            Ok(framed(be_bytes4(unsigned_of(v as int, 0x1_0000_0000))))
        } else {
            Err(CodecError::TypeMismatch(data_type.id))
        }
    }

    open spec fn reading(data_type: DataType, bytes: Seq<u8>) -> Result<i32, CodecError> {
        if data_type.id == TYPE_I8 {
            Ok(signed_of(bytes[0] as int, 0x100) as i32)
        } else if data_type.id == TYPE_I16 {
            Ok(signed_of(be16(bytes), 0x1_0000) as i32)
        } else if data_type.id == TYPE_I32 {
            Ok(signed_of(be32(bytes) as int, 0x1_0000_0000) as i32)
        } else {
            Err(CodecError::TypeMismatch(data_type.id))
        }
    }

    fn to_smc(&self, data_type: DataType) -> (r: Result<SmcBytes, CodecError>) {
        if data_type.id == TYPE_I32 {
            let u: u32 = if *self < 0 {
                ((*self as i64) + 0x1_0000_0000) as u32
            } else {
                *self as u32
            };
            Ok(frame_be4(u))
        } else {
            Err(CodecError::TypeMismatch(data_type.id))
        }
    }

    fn from_smc(data_type: DataType, bytes: SmcBytes) -> (r: Result<Self, CodecError>) {
        if data_type.id == TYPE_I8 {
            Ok(signed8(bytes.0[0]) as i32)
        } else if data_type.id == TYPE_I16 {
            Ok(signed16(take16(&bytes)) as i32)
        } else if data_type.id == TYPE_I32 {
            Ok(signed32(take32(&bytes)))
        } else {
            Err(CodecError::TypeMismatch(data_type.id))
        }
    }
}

/// The text that ASCII bytes write.
pub open spec fn ascii_text(b: Seq<u8>) -> Seq<char> {
    Seq::new(b.len(), |i: int| b[i] as char)
}

/// The bytes of a fan descriptor's name: what follows the four reserved
/// bytes, up to the declared size and to the first NUL.
pub open spec fn fan_name_bytes(data_type: DataType, bytes: Seq<u8>) -> Seq<u8> {
    let field = bytes.subrange(4, data_type.size as int);
    field.take(position(field, 0u8) as int)
}

impl SmcType for RawFan {
    /// A fan descriptor is never written.
    open spec fn wire(v: Seq<char>, data_type: DataType) -> Result<Seq<u8>, CodecError> {
        Err(CodecError::WriteNotSupported)
    }

    /// The name in a fan descriptor of 4 to 32 bytes, without the white space
    /// around it. A byte above 0x7f in the name makes the record unreadable.
    open spec fn reading(data_type: DataType, bytes: Seq<u8>) -> Result<Seq<char>, CodecError> {
        let name = fan_name_bytes(data_type, bytes);
        if data_type.id == TYPE_FAN && 4 <= data_type.size <= 32 && (forall|i: int|
            0 <= i < name.len() ==> #[trigger] name[i] < 0x80) {
            Ok(trimmed(ascii_text(name)))
        } else {
            Err(CodecError::TypeMismatch(data_type.id))
        }
    }

    fn to_smc(&self, data_type: DataType) -> (r: Result<SmcBytes, CodecError>) {
        Err(CodecError::WriteNotSupported)
    }

    fn from_smc(data_type: DataType, bytes: SmcBytes) -> (r: Result<Self, CodecError>) {
        if data_type.id != TYPE_FAN || data_type.size < 4 || data_type.size > 32 {
            return Err(CodecError::TypeMismatch(data_type.id));
        }
        let end: usize = data_type.size as usize;
        let ghost field = bytes@.subrange(4, end as int);
        let mut name = String::new();
        let mut i: usize = 4;
        while i < end && bytes.0[i] != 0
            invariant
                4 <= i <= end <= 32,
                end == data_type.size,
                field == bytes@.subrange(4, end as int),
                forall|j: int| 0 <= j < i - 4 ==> (#[trigger] field[j]) != 0 && field[j] < 0x80,
                name@ == ascii_text(field.take(i - 4)),
            decreases end - i,
        {
            let b: u8 = bytes.0[i];
            assert(field[i - 4] == b);
            if b >= 0x80 {
                proof {
                    crate::text::lemma_position_shape(field, 0u8);
                    let p = position(field, 0u8) as int;
                    if p <= i - 4 {
                        assert(field[p] == 0);
                        assert(false);
                    }
                    let name_bytes = fan_name_bytes(data_type, bytes@);
                    assert(name_bytes == field.take(p));
                    assert(name_bytes[i - 4] == b);
                }
                return Err(CodecError::TypeMismatch(data_type.id));
            }
            push_char(&mut name, b as char);
            i += 1;
            assert(ascii_text(field.take(i - 4)) =~= ascii_text(field.take(i - 5)).push(b as char));
        }
        proof {
            crate::text::lemma_position(field, 0u8, i - 4);
        }
        let kept = trim(name.as_str());
        Ok(RawFan { name: kept.to_owned() })
    }
}

impl Fixed {
    /// The buffer that carries the number of `raw` units: under `fpe2` the
    /// quarters in it, under `sp78` the 256ths, each cut off towards zero and
    /// held within the 16 bits, most significant byte first; under `flt` the
    /// nearest IEEE-754 single in the given byte order. A negative number has
    /// no `fpe2` form.
    pub open spec fn wire(raw: i64, data_type: DataType, order: ByteOrder) -> Result<
        Seq<u8>,
        CodecError,
    > {
        if data_type.id == TYPE_FPE2 {
            if raw < 0 {
                Err(CodecError::TypeMismatch(data_type.id))
            } else {
                Ok(framed(be_bytes2(clamped(raw as int / 16384, 0, 0xffff))))
            }
        } else if data_type.id == TYPE_SP78 {
            Ok(
                framed(
                    be_bytes2(
                        unsigned_of(clamped(quotient(raw as int, 256), -0x8000, 0x7fff), 0x1_0000),
                    ),
                ),
            )
        } else if data_type.id == TYPE_FLT {
            Ok(framed(bytes_of(float_bits_of(raw), order)))
        } else {
            Err(CodecError::TypeMismatch(data_type.id))
        }
    }

    /// The number, in units of 1/65536, that `bytes` carry: under `fpe2` an
    /// unsigned count of quarters, under `sp78` a signed count of 256ths,
    /// under `flt` an IEEE-754 single in the given byte order.
    pub open spec fn reading(data_type: DataType, bytes: Seq<u8>, order: ByteOrder) -> Result<
        int,
        CodecError,
    > {
        if data_type.id == TYPE_FPE2 {
            Ok(be16(bytes) * 16384)
        } else if data_type.id == TYPE_SP78 {
            Ok(signed_of(be16(bytes), 0x1_0000) * 256)
        } else if data_type.id == TYPE_FLT {
            Ok(float_to_raw(word_of(bytes, order)))
        } else {
            Err(CodecError::TypeMismatch(data_type.id))
        }
    }

    pub fn to_smc(&self, data_type: DataType, order: ByteOrder) -> (r: Result<SmcBytes, CodecError>)
        ensures
            wrote(r, Fixed::wire(self.raw, data_type, order)),
    {
        if data_type.id == TYPE_FPE2 {
            if self.raw < 0 {
                return Err(CodecError::TypeMismatch(data_type.id));
            }
            let q: i64 = self.raw / 16384;
            let u: u16 = if q > 0xffff {
                0xffff
            } else {
                q as u16
            };
            Ok(frame2(u))
        } else if data_type.id == TYPE_SP78 {
            let u: u16 = if self.raw < 0 {
                if self.raw <= -0x80_0000 {
                    0x8000
                } else {
                    let m: i64 = (-self.raw) / 256;
                    if m == 0 {
                        0
                    } else {
                        (0x1_0000 - m) as u16
                    }
                }
            } else if self.raw >= 0x7f_ff00 {
                0x7fff
            } else {
                (self.raw / 256) as u16
            };
            Ok(frame2(u))
        } else if data_type.id == TYPE_FLT {
            let w: u32 = self.to_float_bits();
            let b0: u8 = (w / 0x100_0000) as u8;
            let b1: u8 = (w / 0x1_0000 % 256) as u8;
            let b2: u8 = (w / 0x100 % 256) as u8;
            let b3: u8 = (w % 256) as u8;
            match order {
                ByteOrder::Big => Ok(frame4(b0, b1, b2, b3)),
                ByteOrder::Little => Ok(frame4(b3, b2, b1, b0)),
            }
        } else {
            Err(CodecError::TypeMismatch(data_type.id))
        }
    }

    pub fn from_smc(data_type: DataType, bytes: SmcBytes, order: ByteOrder) -> (r: Result<
        Fixed,
        CodecError,
    >)
        ensures
            match r {
                Ok(v) => Fixed::reading(data_type, bytes@, order) == Ok::<int, CodecError>(
                    v.raw as int,
                ),
                Err(e) => Fixed::reading(data_type, bytes@, order) == Err::<int, CodecError>(e),
            },
    {
        if data_type.id == TYPE_FPE2 {
            Ok(Fixed { raw: (take16(&bytes) as i64) * 16384 })
        } else if data_type.id == TYPE_SP78 {
            Ok(Fixed { raw: (signed16(take16(&bytes)) as i64) * 256 })
        } else if data_type.id == TYPE_FLT {
            let b0: u32 = bytes.0[0] as u32;
            let b1: u32 = bytes.0[1] as u32;
            let b2: u32 = bytes.0[2] as u32;
            let b3: u32 = bytes.0[3] as u32;
            let w: u32 = match order {
                ByteOrder::Big => ((b0 * 256 + b1) * 256 + b2) * 256 + b3,
                ByteOrder::Little => ((b3 * 256 + b2) * 256 + b1) * 256 + b0,
            };
            Ok(Fixed::from_float_bits(w))
        } else {
            Err(CodecError::TypeMismatch(data_type.id))
        }
    }
}

impl SmcType for FanMode {
    /// A mode is written as the flag that says whether it is `Forced`.
    open spec fn wire(v: FanMode, data_type: DataType) -> Result<Seq<u8>, CodecError> {
        <bool as SmcType>::wire(v == FanMode::Forced, data_type)
    }

    open spec fn reading(data_type: DataType, bytes: Seq<u8>) -> Result<FanMode, CodecError> {
        match <bool as SmcType>::reading(data_type, bytes) {
            Ok(b) => Ok(FanMode::spec_from_bool(b)),
            Err(e) => Err(e),
        }
    }

    fn to_smc(&self, data_type: DataType) -> (r: Result<SmcBytes, CodecError>) {
        let forced = match self {
            FanMode::Forced => true,
            FanMode::Auto => false,
        };
        forced.to_smc(data_type)
    }

    fn from_smc(data_type: DataType, bytes: SmcBytes) -> (r: Result<Self, CodecError>) {
        match bool::from_smc(data_type, bytes) {
            Ok(b) => Ok(FanMode::from_bool(b)),
            Err(e) => Err(e),
        }
    }
}

} // verus!
